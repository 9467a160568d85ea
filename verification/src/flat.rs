//! The flat keyword classifiers: closed variant types whose classifier maps a
//! case-sensitive input token to exactly one named state via a fixed synonym
//! table.  Every kind reserves one sentinel variant, `Error`, for text that
//! matches no keyword, so classification is total and never panics.
//!
//! No trimming, case-folding or whitespace normalization is performed here;
//! callers are responsible for any pre-normalization.

use vstd::prelude::*;

use crate::text::str_eq;

verus! {

/// How a pin announcement is delivered: loudly (with notification) or
/// silently.
#[derive(Debug, PartialEq, Eq, Structural)]
pub enum PinMode {
    Loud,
    Silent,
    /// Sentinel for unrecognized input.
    Error,
}

impl PinMode {
    /// The variant that a given input text classifies to.
    pub open spec fn classified(s: Seq<char>) -> PinMode {
        if s == "loud"@ || s == "hard"@ || s == "violent"@ {
            PinMode::Loud
        } else if s == "silent"@ {
            PinMode::Silent
        } else {
            PinMode::Error
        }
    }

    /// Total classifier: every input yields a variant; unmatched text yields
    /// `PinMode::Error`.
    pub fn from_str(s: &str) -> (r: Self)
        ensures
            r == Self::classified(s@),
    {
        if str_eq(s, "loud") || str_eq(s, "hard") || str_eq(s, "violent") {
            PinMode::Loud
        } else if str_eq(s, "silent") {
            PinMode::Silent
        } else {
            PinMode::Error
        }
    }
}

/// Whether global-ban statistics are shown.
#[derive(Debug, PartialEq, Eq, Structural)]
pub enum GbanStats {
    On,
    Off,
    /// Sentinel for unrecognized input.
    Error,
}

impl GbanStats {
    /// The variant that a given input text classifies to.
    pub open spec fn classified(s: Seq<char>) -> GbanStats {
        if s == "yes"@ || s == "on"@ {
            GbanStats::On
        } else if s == "no"@ || s == "off"@ {
            GbanStats::Off
        } else {
            GbanStats::Error
        }
    }

    /// Total classifier: every input yields a variant; unmatched text yields
    /// `GbanStats::Error`.
    pub fn from_str(s: &str) -> (r: Self)
        ensures
            r == Self::classified(s@),
    {
        if str_eq(s, "yes") || str_eq(s, "on") {
            GbanStats::On
        } else if str_eq(s, "no") || str_eq(s, "off") {
            GbanStats::Off
        } else {
            GbanStats::Error
        }
    }
}

/// How a warning threshold is enforced: a soft action or a hard one.
#[derive(Debug, PartialEq, Eq, Structural)]
pub enum WarnMode {
    Soft,
    Hard,
    /// Sentinel for unrecognized input.
    Error,
}

impl WarnMode {
    /// The variant that a given input text classifies to.
    pub open spec fn classified(s: Seq<char>) -> WarnMode {
        if s == "soft"@ || s == "smooth"@ {
            WarnMode::Soft
        } else if s == "hard"@ || s == "strong"@ {
            WarnMode::Hard
        } else {
            WarnMode::Error
        }
    }

    /// Total classifier: every input yields a variant; unmatched text yields
    /// `WarnMode::Error`.
    pub fn from_str(s: &str) -> (r: Self)
        ensures
            r == Self::classified(s@),
    {
        if str_eq(s, "soft") || str_eq(s, "smooth") {
            WarnMode::Soft
        } else if str_eq(s, "hard") || str_eq(s, "strong") {
            WarnMode::Hard
        } else {
            WarnMode::Error
        }
    }
}

/// The built-in commands that may be disabled, each named by its own keyword.
#[derive(Debug, PartialEq, Eq, Structural)]
pub enum DisableAble {
    Ud,
    Info,
    Start,
    Paste,
    Kickme,
    Adminlist,
    /// Sentinel for unrecognized input.
    Error,
}

impl DisableAble {
    /// The variant that a given input text classifies to.
    pub open spec fn classified(s: Seq<char>) -> DisableAble {
        if s == "ud"@ {
            DisableAble::Ud
        } else if s == "info"@ {
            DisableAble::Info
        } else if s == "start"@ {
            DisableAble::Start
        } else if s == "paste"@ {
            DisableAble::Paste
        } else if s == "kickme"@ {
            DisableAble::Kickme
        } else if s == "adminlist"@ {
            DisableAble::Adminlist
        } else {
            DisableAble::Error
        }
    }

    /// Total classifier: every input yields a variant; unmatched text yields
    /// `DisableAble::Error`.
    pub fn from_str(s: &str) -> (r: Self)
        ensures
            r == Self::classified(s@),
    {
        if str_eq(s, "ud") {
            DisableAble::Ud
        } else if str_eq(s, "info") {
            DisableAble::Info
        } else if str_eq(s, "start") {
            DisableAble::Start
        } else if str_eq(s, "paste") {
            DisableAble::Paste
        } else if str_eq(s, "kickme") {
            DisableAble::Kickme
        } else if str_eq(s, "adminlist") {
            DisableAble::Adminlist
        } else {
            DisableAble::Error
        }
    }
}

/// The media categories that a content filter may match on.  The input
/// keyword `photo` is singular but produces the plural-named state `Photos`.
#[derive(Debug, PartialEq, Eq, Structural)]
pub enum FilterType {
    Animation,
    Audio,
    Sticker,
    Photos,
    Document,
    Text,
    Voice,
    Video,
    /// Sentinel for unrecognized input.
    Error,
}

impl FilterType {
    /// The variant that a given input text classifies to.
    pub open spec fn classified(s: Seq<char>) -> FilterType {
        if s == "animation"@ {
            FilterType::Animation
        } else if s == "audio"@ {
            FilterType::Audio
        } else if s == "sticker"@ {
            FilterType::Sticker
        } else if s == "photo"@ {
            FilterType::Photos
        } else if s == "document"@ {
            FilterType::Document
        } else if s == "text"@ {
            FilterType::Text
        } else if s == "voice"@ {
            FilterType::Voice
        } else if s == "video"@ {
            FilterType::Video
        } else {
            FilterType::Error
        }
    }

    /// Total classifier: every input yields a variant; unmatched text yields
    /// `FilterType::Error`.
    pub fn from_str(s: &str) -> (r: Self)
        ensures
            r == Self::classified(s@),
    {
        if str_eq(s, "animation") {
            FilterType::Animation
        } else if str_eq(s, "audio") {
            FilterType::Audio
        } else if str_eq(s, "sticker") {
            FilterType::Sticker
        } else if str_eq(s, "photo") {
            FilterType::Photos
        } else if str_eq(s, "document") {
            FilterType::Document
        } else if str_eq(s, "text") {
            FilterType::Text
        } else if str_eq(s, "voice") {
            FilterType::Voice
        } else if str_eq(s, "video") {
            FilterType::Video
        } else {
            FilterType::Error
        }
    }
}

/// What happens when a blacklisted word is used.
#[derive(Debug, PartialEq, Eq, Structural)]
pub enum BlacklistMode {
    Delete,
    Warn,
    Ban,
    Kick,
    /// Sentinel for unrecognized input.
    Error,
}

impl BlacklistMode {
    /// The variant that a given input text classifies to.
    pub open spec fn classified(s: Seq<char>) -> BlacklistMode {
        if s == "delete"@ {
            BlacklistMode::Delete
        } else if s == "warn"@ {
            BlacklistMode::Warn
        } else if s == "ban"@ || s == "hard"@ {
            BlacklistMode::Ban
        } else if s == "kick"@ || s == "soft"@ {
            BlacklistMode::Kick
        } else {
            BlacklistMode::Error
        }
    }

    /// Total classifier: every input yields a variant; unmatched text yields
    /// `BlacklistMode::Error`.
    pub fn from_str(s: &str) -> (r: Self)
        ensures
            r == Self::classified(s@),
    {
        if str_eq(s, "delete") {
            BlacklistMode::Delete
        } else if str_eq(s, "warn") {
            BlacklistMode::Warn
        } else if str_eq(s, "ban") || str_eq(s, "hard") {
            BlacklistMode::Ban
        } else if str_eq(s, "kick") || str_eq(s, "soft") {
            BlacklistMode::Kick
        } else {
            BlacklistMode::Error
        }
    }
}

/// Whether members may report messages to the admins.
#[derive(Debug, PartialEq, Eq, Structural)]
pub enum ReportStatus {
    On,
    Off,
    /// Sentinel for unrecognized input.
    Error,
}

impl ReportStatus {
    /// The variant that a given input text classifies to.
    pub open spec fn classified(s: Seq<char>) -> ReportStatus {
        if s == "on"@ || s == "yes"@ {
            ReportStatus::On
        } else if s == "off"@ || s == "no"@ {
            ReportStatus::Off
        } else {
            ReportStatus::Error
        }
    }

    /// Total classifier: every input yields a variant; unmatched text yields
    /// `ReportStatus::Error`.
    pub fn from_str(s: &str) -> (r: Self)
        ensures
            r == Self::classified(s@),
    {
        if str_eq(s, "on") || str_eq(s, "yes") {
            ReportStatus::On
        } else if str_eq(s, "off") || str_eq(s, "no") {
            ReportStatus::Off
        } else {
            ReportStatus::Error
        }
    }
}

} // verus!
