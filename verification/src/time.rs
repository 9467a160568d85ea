//! The duration classifier: parses a magnitude tagged with one of four time
//! units, written either as a single compact token (`"10h"`) or as two
//! whitespace-separated tokens (`"10 hours"`).
//!
//! Unlike the flat classifiers, this one is genuinely fallible: a duration
//! has no natural sentinel value, so malformed input surfaces as an explicit
//! error carrying a static reason string that callers may forward verbatim.

use vstd::prelude::*;

use crate::text::all_digits;
use crate::text::dec_seq;
use crate::text::dec_val;
use crate::text::find_non_ws;
use crate::text::find_ws;
use crate::text::nws_idx;
use crate::text::parse_u64;
use crate::text::str_eq;
use crate::text::u64_dec_str;
use crate::text::ws_idx;

verus! {

/// A duration: an unsigned magnitude tagged with its unit.  The magnitude is
/// not validated against any upper bound; every representable value is
/// accepted.
#[derive(Debug, PartialEq, Eq, Structural)]
pub enum TimeUnit {
    Sec(u64),
    Min(u64),
    Hrs(u64),
    Day(u64),
}

impl TimeUnit {
    /// The magnitude a numeric token stands for: `Some` exactly when it is a
    /// plain base-ten numeral that fits in a `u64` (no sign, no surrounding
    /// space).
    pub open spec fn magnitude(num: Seq<char>) -> Option<u64> {
        if num.len() > 0 && all_digits(num) && dec_val(num) <= u64::MAX {
            Some(dec_val(num) as u64)
        } else {
            None
        }
    }

    /// The duration a single-letter unit code of the compact form stands
    /// for, given an already-parsed magnitude.  Anything but `h`, `m`, `s`
    /// or `d` is unrecognized.
    pub open spec fn of_unit_code(c: char, n: u64) -> Option<TimeUnit> {
        if c == 'h' {
            Some(TimeUnit::Hrs(n))
        } else if c == 'm' {
            Some(TimeUnit::Min(n))
        } else if c == 's' {
            Some(TimeUnit::Sec(n))
        } else if c == 'd' {
            Some(TimeUnit::Day(n))
        } else {
            None
        }
    }

    /// The duration a unit word of the two-token form stands for, given an
    /// already-parsed magnitude.  Only the full plural words are accepted
    /// here; the single-letter codes belong to the compact form alone.
    pub open spec fn of_unit_word(u: Seq<char>, n: u64) -> Option<TimeUnit> {
        if u == "hours"@ {
            Some(TimeUnit::Hrs(n))
        } else if u == "minutes"@ {
            Some(TimeUnit::Min(n))
        } else if u == "seconds"@ {
            Some(TimeUnit::Sec(n))
        } else if u == "days"@ {
            Some(TimeUnit::Day(n))
        } else {
            None
        }
    }

    /// The duration an input text stands for, or `None` if it is malformed.
    ///
    /// If the text holds no whitespace it must be a compact token of length
    /// at least two: all but the last character are the magnitude, the last
    /// character is the unit code.  Otherwise it is split at its first
    /// whitespace run into a magnitude token and a unit word (everything
    /// after the run).  A lone unit letter such as `"h"` is rejected, because
    /// stripping the unit code would leave an empty magnitude.
    pub open spec fn classified(s: Seq<char>) -> Option<TimeUnit> {
        let i = ws_idx(s) as int;
        if i == s.len() {
            if s.len() >= 2 {
                match Self::magnitude(s.subrange(0, s.len() - 1)) {
                    Some(n) => Self::of_unit_code(s.last(), n),
                    None => None,
                }
            } else {
                None
            }
        } else {
            let rest = s.subrange(i, s.len() as int);
            let unit = rest.subrange(nws_idx(rest) as int, rest.len() as int);
            match Self::magnitude(s.subrange(0, i)) {
                Some(n) => Self::of_unit_word(unit, n),
                None => None,
            }
        }
    }

    /// Matches a unit word against the accepted plural words, tagging the
    /// given magnitude.
    fn of_unit_word_token(u: &str, n: u64) -> (r: Option<TimeUnit>)
        ensures
            r == Self::of_unit_word(u@, n),
    {
        if str_eq(u, "hours") {
            Some(TimeUnit::Hrs(n))
        } else if str_eq(u, "minutes") {
            Some(TimeUnit::Min(n))
        } else if str_eq(u, "seconds") {
            Some(TimeUnit::Sec(n))
        } else if str_eq(u, "days") {
            Some(TimeUnit::Day(n))
        } else {
            None
        }
    }

    /// Matches a single-letter unit code, tagging the given magnitude.
    fn of_unit_code_token(c: char, n: u64) -> (r: Option<TimeUnit>)
        ensures
            r == Self::of_unit_code(c, n),
    {
        if c == 'h' {
            Some(TimeUnit::Hrs(n))
        } else if c == 'm' {
            Some(TimeUnit::Min(n))
        } else if c == 's' {
            Some(TimeUnit::Sec(n))
        } else if c == 'd' {
            Some(TimeUnit::Day(n))
        } else {
            None
        }
    }

    /// Fallible classifier: returns the duration the input stands for, per
    /// [`TimeUnit::classified`], or the static reason string on malformed
    /// input (wrong token shape, non-numeric or out-of-range magnitude,
    /// unknown unit).
    pub fn from_str(s: &str) -> (r: Result<TimeUnit, &'static str>)
        ensures
            r matches Ok(t) ==> Self::classified(s@) == Some(t),
            r is Err <==> Self::classified(s@) is None,
            r matches Err(e) ==> e@ == "Invalid time unit."@,
    {
        let n = s.unicode_len();
        let i = find_ws(s);
        let parsed: Option<TimeUnit> = if i == n {
            if n >= 2 {
                let num = s.substring_char(0, n - 1);
                let code = s.get_char(n - 1);
                match parse_u64(num) {
                    Some(v) => Self::of_unit_code_token(code, v),
                    None => None,
                }
            } else {
                None
            }
        } else {
            let num = s.substring_char(0, i);
            let rest = s.substring_char(i, n);
            let rn = rest.unicode_len();
            let j = find_non_ws(rest);
            let unit = rest.substring_char(j, rn);
            match parse_u64(num) {
                Some(v) => Self::of_unit_word_token(unit, v),
                None => None,
            }
        };
        match parsed {
            Some(t) => Ok(t),
            None => Err("Invalid time unit."),
        }
    }

    /// The acknowledgement text for a duration: the magnitude in base ten, a
    /// space, the plural unit word and a period.
    pub open spec fn rendered(self) -> Seq<char> {
        match self {
            TimeUnit::Sec(t) => dec_seq(t as nat) + " seconds."@,
            TimeUnit::Min(t) => dec_seq(t as nat) + " minutes."@,
            TimeUnit::Hrs(t) => dec_seq(t as nat) + " hours."@,
            TimeUnit::Day(t) => dec_seq(t as nat) + " days."@,
        }
    }

    /// Renders the acknowledgement text, per [`TimeUnit::rendered`].
    /// Rendering is one-directional: its output is a human-readable message,
    /// not an input [`TimeUnit::from_str`] accepts.
    pub fn render(&self) -> (r: String)
        ensures
            r@ == self.rendered(),
    {
        match self {
            TimeUnit::Sec(t) => {
                let mut r = u64_dec_str(*t);
                r.append(" seconds.");
                r
            },
            TimeUnit::Min(t) => {
                let mut r = u64_dec_str(*t);
                r.append(" minutes.");
                r
            },
            TimeUnit::Hrs(t) => {
                let mut r = u64_dec_str(*t);
                r.append(" hours.");
                r
            },
            TimeUnit::Day(t) => {
                let mut r = u64_dec_str(*t);
                r.append(" days.");
                r
            },
        }
    }
}

} // verus!
