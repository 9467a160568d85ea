//! Settings-value classifiers for a group-chat moderation assistant.
//!
//! Each setting kind is a closed variant type with a total, pure classifier
//! that maps a raw text argument to a variant.  Unrecognized text maps to a
//! designated sentinel variant rather than an error, except for [`TimeUnit`],
//! whose parser is genuinely fallible and reports a static reason string.
//! Two kinds ([`TimeUnit`] and [`LockType`]) also render a human-readable
//! acknowledgement; rendering is one-directional and its output is not an
//! input the classifiers accept.

mod flat;
mod lock;
mod text;
mod time;

pub use flat::BlacklistMode;
pub use flat::DisableAble;
pub use flat::FilterType;
pub use flat::GbanStats;
pub use flat::PinMode;
pub use flat::ReportStatus;
pub use flat::WarnMode;
pub use lock::LockType;
pub use time::TimeUnit;
