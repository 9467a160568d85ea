//! The lock-target classifier: maps a lock keyword to one of five lockable
//! categories (or the sentinel for unrecognized input) and renders a notice
//! describing the effect.
//!
//! Each variant carries a `kind` payload intended to hold the verb describing
//! the action taken ("Lock"/"Unlock"); the rendered notice starts with that
//! verb plus the suffix `ed`.  Classification constructs the payload empty
//! and nothing populates it before rendering, so a caller that wants the verb
//! in the notice must place it in the payload itself.  Whether the verb
//! should instead be a render-time parameter is left open here; the empty
//! payload is kept as the observable behavior.

use vstd::prelude::*;

use crate::text::str_eq;

verus! {

/// A lockable message category, or the sentinel for unrecognized input.  The
/// `String` payload is the `kind`: the action verb the rendered notice
/// starts with.
#[derive(Debug)]
pub enum LockType {
    Text(String),
    Media(String),
    Poll(String),
    Web(String),
    Other(String),
    Error(String),
}

impl LockType {
    /// The `kind` payload of any variant.
    pub open spec fn kind(self) -> Seq<char> {
        match self {
            LockType::Text(k) => k@,
            LockType::Media(k) => k@,
            LockType::Poll(k) => k@,
            LockType::Web(k) => k@,
            LockType::Other(k) => k@,
            LockType::Error(k) => k@,
        }
    }

    /// Whether `s` is one of the recognized lock keywords.
    pub open spec fn recognized(s: Seq<char>) -> bool {
        s == "all"@ || s == "text"@ || s == "sticker"@ || s == "gif"@ || s == "url"@
            || s == "web"@ || s == "media"@ || s == "poll"@
    }

    /// Whether `r` is the classification of the input text `s`: the variant
    /// the keyword table prescribes, with an empty `kind` payload.
    pub open spec fn classifies(s: Seq<char>, r: LockType) -> bool {
        &&& match r {
            LockType::Text(_) => s == "all"@ || s == "text"@,
            LockType::Other(_) => s == "sticker"@ || s == "gif"@,
            LockType::Web(_) => s == "url"@ || s == "web"@,
            LockType::Media(_) => s == "media"@,
            LockType::Poll(_) => s == "poll"@,
            LockType::Error(_) => !Self::recognized(s),
        }
        &&& r.kind() == Seq::<char>::empty()
    }

    /// Total classifier: every input yields a variant; unmatched text yields
    /// `LockType::Error`.  The `kind` payload is always constructed empty.
    pub fn from_str(s: &str) -> (r: Self)
        ensures
            Self::classifies(s@, r),
    {
        let kind = String::new();
        if str_eq(s, "all") || str_eq(s, "text") {
            LockType::Text(kind)
        } else if str_eq(s, "sticker") || str_eq(s, "gif") {
            LockType::Other(kind)
        } else if str_eq(s, "url") || str_eq(s, "web") {
            LockType::Web(kind)
        } else if str_eq(s, "media") {
            LockType::Media(kind)
        } else if str_eq(s, "poll") {
            LockType::Poll(kind)
        } else {
            LockType::Error(kind)
        }
    }

    /// The notice text for a variant: the `kind` payload, the suffix `ed`,
    /// and the fixed category description in light HTML markup.  The
    /// sentinel renders a fixed instruction that does not echo the rejected
    /// input.
    pub open spec fn rendered(self) -> Seq<char> {
        match self {
            LockType::Text(k) => k@ + "ed <i>all</i> for Non-admins."@,
            LockType::Other(k) => k@ + "ed <i>sticker,gif,game</i> for Non-Admins."@,
            LockType::Media(k) => k@
                + "ed <i>Media(photos,animations,documents,stickers/gif,video)</i> for Non-Admins."@,
            LockType::Web(k) => k@ + "ed <i>URL</i> previewing for Non-Admins."@,
            LockType::Poll(k) => k@ + "ed <i>Polls</i> for Non-Admins."@,
            LockType::Error(_) => "Invalid locktype, please run /locktypes to check available locktypes."@,
        }
    }

    /// Renders the notice, per [`LockType::rendered`].  Rendering is
    /// one-directional: its output is a human-readable message, not an input
    /// [`LockType::from_str`] accepts.
    pub fn render(&self) -> (r: String)
        ensures
            r@ == self.rendered(),
    {
        match self {
            LockType::Text(k) => {
                let mut r = k.clone();
                r.append("ed <i>all</i> for Non-admins.");
                r
            },
            LockType::Other(k) => {
                let mut r = k.clone();
                r.append("ed <i>sticker,gif,game</i> for Non-Admins.");
                r
            },
            LockType::Media(k) => {
                let mut r = k.clone();
                r.append(
                    "ed <i>Media(photos,animations,documents,stickers/gif,video)</i> for Non-Admins.",
                );
                r
            },
            LockType::Web(k) => {
                let mut r = k.clone();
                r.append("ed <i>URL</i> previewing for Non-Admins.");
                r
            },
            LockType::Poll(k) => {
                let mut r = k.clone();
                r.append("ed <i>Polls</i> for Non-Admins.");
                r
            },
            LockType::Error(_) => String::from_str(
                "Invalid locktype, please run /locktypes to check available locktypes.",
            ),
        }
    }
}

} // verus!
