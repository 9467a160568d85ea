//! Verified helpers for scanning and building the small amount of text the
//! classifiers work with: string equality, whitespace scanning, decimal
//! parsing and decimal rendering.

use vstd::prelude::*;

verus! {

/// Equality of two string slices, decided character by character over their
/// views.
pub fn str_eq(a: &str, b: &str) -> (r: bool)
    ensures
        r == (a@ == b@),
{
    let an = a.unicode_len();
    let bn = b.unicode_len();
    if an != bn {
        return false;
    }
    let mut i: usize = 0;
    while i < an
        invariant
            an == a@.len(),
            bn == b@.len(),
            an == bn,
            i <= an,
            forall|k: int| 0 <= k < i ==> a@[k] == b@[k],
        decreases an - i,
    {
        if a.get_char(i) != b.get_char(i) {
            return false;
        }
        i += 1;
    }
    proof {
        assert(a@ =~= b@);
    }
    true
}

/// Whether `c` is a whitespace character, per the Unicode `White_Space`
/// property (the same set `char::is_whitespace` recognizes), written out by
/// code point.
pub open spec fn is_space_char(c: char) -> bool {
    let u = c as u32;
    (0x9 <= u && u <= 0xd) || u == 0x20 || u == 0x85 || u == 0xa0 || u == 0x1680 || (0x2000 <= u
        && u <= 0x200a) || u == 0x2028 || u == 0x2029 || u == 0x202f || u == 0x205f || u == 0x3000
}

/// Decides [`is_space_char`] executably.
pub fn is_space(c: char) -> (r: bool)
    ensures
        r == is_space_char(c),
{
    let u = c as u32;
    (0x9 <= u && u <= 0xd) || u == 0x20 || u == 0x85 || u == 0xa0 || u == 0x1680 || (0x2000 <= u
        && u <= 0x200a) || u == 0x2028 || u == 0x2029 || u == 0x202f || u == 0x205f || u == 0x3000
}

/// The index of the first whitespace character of `s`, or `s.len()` if there
/// is none.
pub open spec fn ws_idx(s: Seq<char>) -> nat
    decreases s.len(),
{
    if s.len() == 0 {
        0
    } else if is_space_char(s[0]) {
        0
    } else {
        1 + ws_idx(s.subrange(1, s.len() as int))
    }
}

/// The index of the first non-whitespace character of `s`, or `s.len()` if
/// there is none.
pub open spec fn nws_idx(s: Seq<char>) -> nat
    decreases s.len(),
{
    if s.len() == 0 {
        0
    } else if !is_space_char(s[0]) {
        0
    } else {
        1 + nws_idx(s.subrange(1, s.len() as int))
    }
}

/// `ws_idx(s)` is the least index holding a whitespace character: everything
/// before it is non-whitespace, and it either is `s.len()` or holds one.
pub proof fn lemma_ws_idx(s: Seq<char>)
    ensures
        ws_idx(s) <= s.len(),
        forall|k: int| 0 <= k < ws_idx(s) ==> !is_space_char(s[k]),
        ws_idx(s) < s.len() ==> is_space_char(s[ws_idx(s) as int]),
    decreases s.len(),
{
    if s.len() > 0 && !is_space_char(s[0]) {
        let t = s.subrange(1, s.len() as int);
        lemma_ws_idx(t);
        assert forall|k: int| 0 <= k < ws_idx(s) implies !is_space_char(s[k]) by {
            if k > 0 {
                assert(s[k] == t[k - 1]);
            }
        }
        if ws_idx(s) < s.len() {
            assert(s[ws_idx(s) as int] == t[ws_idx(t) as int]);
        }
    }
}

/// `nws_idx(s)` is the least index holding a non-whitespace character:
/// everything before it is whitespace, and it either is `s.len()` or holds
/// one.
pub proof fn lemma_nws_idx(s: Seq<char>)
    ensures
        nws_idx(s) <= s.len(),
        forall|k: int| 0 <= k < nws_idx(s) ==> is_space_char(s[k]),
        nws_idx(s) < s.len() ==> !is_space_char(s[nws_idx(s) as int]),
    decreases s.len(),
{
    if s.len() > 0 && is_space_char(s[0]) {
        let t = s.subrange(1, s.len() as int);
        lemma_nws_idx(t);
        assert forall|k: int| 0 <= k < nws_idx(s) implies is_space_char(s[k]) by {
            if k > 0 {
                assert(s[k] == t[k - 1]);
            }
        }
        if nws_idx(s) < s.len() {
            assert(s[nws_idx(s) as int] == t[nws_idx(t) as int]);
        }
    }
}

/// Returns [`ws_idx`] of `s`'s view: the position of the first whitespace
/// character, or the length if there is none.
pub fn find_ws(s: &str) -> (r: usize)
    ensures
        r == ws_idx(s@),
        r <= s@.len(),
{
    proof {
        lemma_ws_idx(s@);
    }
    let n = s.unicode_len();
    let mut i: usize = 0;
    while i < n
        invariant
            n == s@.len(),
            i <= n,
            forall|k: int| 0 <= k < i ==> !is_space_char(s@[k]),
            ws_idx(s@) <= s@.len(),
            forall|k: int| 0 <= k < ws_idx(s@) ==> !is_space_char(s@[k]),
            ws_idx(s@) < s@.len() ==> is_space_char(s@[ws_idx(s@) as int]),
        decreases n - i,
    {
        if is_space(s.get_char(i)) {
            return i;
        }
        i += 1;
    }
    i
}

/// Returns [`nws_idx`] of `s`'s view: the position of the first
/// non-whitespace character, or the length if there is none.
pub fn find_non_ws(s: &str) -> (r: usize)
    ensures
        r == nws_idx(s@),
        r <= s@.len(),
{
    proof {
        lemma_nws_idx(s@);
    }
    let n = s.unicode_len();
    let mut i: usize = 0;
    while i < n
        invariant
            n == s@.len(),
            i <= n,
            forall|k: int| 0 <= k < i ==> is_space_char(s@[k]),
            nws_idx(s@) <= s@.len(),
            forall|k: int| 0 <= k < nws_idx(s@) ==> is_space_char(s@[k]),
            nws_idx(s@) < s@.len() ==> !is_space_char(s@[nws_idx(s@) as int]),
        decreases n - i,
    {
        if !is_space(s.get_char(i)) {
            return i;
        }
        i += 1;
    }
    i
}

/// Whether `c` is an ASCII decimal digit.
pub open spec fn is_digit_char(c: char) -> bool {
    0x30 <= (c as u32) && (c as u32) <= 0x39
}

/// Whether every character of `s` is an ASCII decimal digit.
pub open spec fn all_digits(s: Seq<char>) -> bool {
    forall|k: int| 0 <= k < s.len() ==> is_digit_char(s[k])
}

/// The numeric value of a digit character; zero for anything that is not a
/// digit, so that [`dec_val`] is total.
pub open spec fn digit_val(c: char) -> nat {
    if is_digit_char(c) {
        ((c as u32) - 0x30) as nat
    } else {
        0
    }
}

/// The value of `s` read as a base-ten numeral, most significant digit first.
pub open spec fn dec_val(s: Seq<char>) -> nat
    decreases s.len(),
{
    if s.len() == 0 {
        0
    } else {
        dec_val(s.drop_last()) * 10 + digit_val(s.last())
    }
}

/// Reading a prefix of a numeral never yields a larger value than reading the
/// whole of it.
pub proof fn lemma_dec_val_prefix(s: Seq<char>, i: int)
    requires
        0 <= i <= s.len(),
    ensures
        dec_val(s.subrange(0, i)) <= dec_val(s),
    decreases s.len(),
{
    if i == s.len() {
        assert(s.subrange(0, i) =~= s);
    } else {
        let t = s.drop_last();
        lemma_dec_val_prefix(t, i);
        assert(t.subrange(0, i) =~= s.subrange(0, i));
    }
}

/// Parses `s` as an unsigned base-ten integer.  Succeeds exactly when `s` is
/// nonempty, consists of digits alone (no sign, no surrounding space) and its
/// value fits in a `u64`.
pub fn parse_u64(s: &str) -> (r: Option<u64>)
    ensures
        r is Some <==> (s@.len() > 0 && all_digits(s@) && dec_val(s@) <= u64::MAX),
        r matches Some(v) ==> v == dec_val(s@),
{
    let n = s.unicode_len();
    if n == 0 {
        return None;
    }
    let mut acc: u64 = 0;
    let mut i: usize = 0;
    while i < n
        invariant
            n == s@.len(),
            i <= n,
            forall|k: int| 0 <= k < i ==> is_digit_char(s@[k]),
            acc == dec_val(s@.subrange(0, i as int)),
        decreases n - i,
    {
        let c = s.get_char(i);
        let u = c as u32;
        if u < 0x30 || u > 0x39 {
            return None;
        }
        let d = (u - 0x30) as u64;
        proof {
            assert(s@.subrange(0, i + 1).drop_last() =~= s@.subrange(0, i as int));
            assert(s@.subrange(0, i + 1).last() == s@[i as int]);
        }
        let shifted = match acc.checked_mul(10) {
            Some(m) => m,
            None => {
                proof {
                    lemma_dec_val_prefix(s@, i + 1);
                }
                return None;
            },
        };
        acc = match shifted.checked_add(d) {
            Some(a) => a,
            None => {
                proof {
                    lemma_dec_val_prefix(s@, i + 1);
                }
                return None;
            },
        };
        i += 1;
    }
    proof {
        assert(s@.subrange(0, n as int) =~= s@);
    }
    Some(acc)
}

/// The digit character for a value below ten; `'0'` elsewhere.
pub open spec fn digit_char(d: nat) -> char {
    if d == 1 {
        '1'
    } else if d == 2 {
        '2'
    } else if d == 3 {
        '3'
    } else if d == 4 {
        '4'
    } else if d == 5 {
        '5'
    } else if d == 6 {
        '6'
    } else if d == 7 {
        '7'
    } else if d == 8 {
        '8'
    } else if d == 9 {
        '9'
    } else {
        '0'
    }
}

/// The base-ten numeral for `n`, most significant digit first, without a
/// sign and without leading zeros (except for `n == 0` itself).
pub open spec fn dec_seq(n: nat) -> Seq<char>
    decreases n,
{
    if n < 10 {
        seq![digit_char(n)]
    } else {
        dec_seq(n / 10).push(digit_char(n % 10))
    }
}

/// The one-character string for a digit value below ten.
fn digit_str(d: u64) -> (r: &'static str)
    requires
        d < 10,
    ensures
        r@ =~= seq![digit_char(d as nat)],
{
    proof {
        reveal_strlit("0");
        reveal_strlit("1");
        reveal_strlit("2");
        reveal_strlit("3");
        reveal_strlit("4");
        reveal_strlit("5");
        reveal_strlit("6");
        reveal_strlit("7");
        reveal_strlit("8");
        reveal_strlit("9");
    }
    match d {
        1 => "1",
        2 => "2",
        3 => "3",
        4 => "4",
        5 => "5",
        6 => "6",
        7 => "7",
        8 => "8",
        9 => "9",
        _ => "0",
    }
}

/// Renders `n` as its base-ten numeral.
pub fn u64_dec_str(n: u64) -> (r: String)
    ensures
        r@ == dec_seq(n as nat),
    decreases n,
{
    let d = n % 10;
    let q = n / 10;
    let ds = digit_str(d);
    if q == 0 {
        let r = String::from_str(ds);
        proof {
            assert(r@ =~= dec_seq(n as nat));
        }
        r
    } else {
        let mut r = u64_dec_str(q);
        r.append(ds);
        proof {
            assert(r@ =~= dec_seq(n as nat));
        }
        r
    }
}

} // verus!

