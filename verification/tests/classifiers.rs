//! Tests of the flat keyword classifiers: synonym tables, case sensitivity
//! and the sentinel for unmatched text.

use settings_classifier::BlacklistMode;
use settings_classifier::DisableAble;
use settings_classifier::FilterType;
use settings_classifier::GbanStats;
use settings_classifier::PinMode;
use settings_classifier::ReportStatus;
use settings_classifier::WarnMode;

#[test]
fn pinmode_synonyms_map_to_loud() {
    assert_eq!(PinMode::from_str("loud"), PinMode::Loud);
    assert_eq!(PinMode::from_str("hard"), PinMode::Loud);
    assert_eq!(PinMode::from_str("violent"), PinMode::Loud);
}

#[test]
fn pinmode_silent_and_sentinel() {
    assert_eq!(PinMode::from_str("silent"), PinMode::Silent);
    assert_eq!(PinMode::from_str("banana"), PinMode::Error);
    assert_eq!(PinMode::from_str(""), PinMode::Error);
    // Matching is case-sensitive on exact lowercase keywords.
    assert_eq!(PinMode::from_str("Loud"), PinMode::Error);
    assert_eq!(PinMode::from_str("loud "), PinMode::Error);
}

#[test]
fn gbanstats_keywords() {
    assert_eq!(GbanStats::from_str("yes"), GbanStats::On);
    assert_eq!(GbanStats::from_str("on"), GbanStats::On);
    assert_eq!(GbanStats::from_str("no"), GbanStats::Off);
    assert_eq!(GbanStats::from_str("off"), GbanStats::Off);
    assert_eq!(GbanStats::from_str("maybe"), GbanStats::Error);
}

#[test]
fn warnmode_keywords() {
    assert_eq!(WarnMode::from_str("soft"), WarnMode::Soft);
    assert_eq!(WarnMode::from_str("smooth"), WarnMode::Soft);
    assert_eq!(WarnMode::from_str("hard"), WarnMode::Hard);
    assert_eq!(WarnMode::from_str("strong"), WarnMode::Hard);
    assert_eq!(WarnMode::from_str("banana"), WarnMode::Error);
}

#[test]
fn reportstatus_keywords() {
    assert_eq!(ReportStatus::from_str("on"), ReportStatus::On);
    assert_eq!(ReportStatus::from_str("yes"), ReportStatus::On);
    assert_eq!(ReportStatus::from_str("off"), ReportStatus::Off);
    assert_eq!(ReportStatus::from_str("no"), ReportStatus::Off);
    assert_eq!(ReportStatus::from_str("never"), ReportStatus::Error);
}

#[test]
fn blacklist_synonyms() {
    assert_eq!(BlacklistMode::from_str("delete"), BlacklistMode::Delete);
    assert_eq!(BlacklistMode::from_str("warn"), BlacklistMode::Warn);
    assert_eq!(BlacklistMode::from_str("ban"), BlacklistMode::Ban);
    assert_eq!(BlacklistMode::from_str("hard"), BlacklistMode::Ban);
    assert_eq!(BlacklistMode::from_str("kick"), BlacklistMode::Kick);
    assert_eq!(BlacklistMode::from_str("soft"), BlacklistMode::Kick);
    assert_eq!(BlacklistMode::from_str("banana"), BlacklistMode::Error);
}

#[test]
fn disableable_keywords() {
    assert_eq!(DisableAble::from_str("ud"), DisableAble::Ud);
    assert_eq!(DisableAble::from_str("info"), DisableAble::Info);
    assert_eq!(DisableAble::from_str("start"), DisableAble::Start);
    assert_eq!(DisableAble::from_str("paste"), DisableAble::Paste);
    assert_eq!(DisableAble::from_str("kickme"), DisableAble::Kickme);
    assert_eq!(DisableAble::from_str("adminlist"), DisableAble::Adminlist);
    assert_eq!(DisableAble::from_str("stop"), DisableAble::Error);
}

#[test]
fn filtertype_keywords() {
    assert_eq!(FilterType::from_str("animation"), FilterType::Animation);
    assert_eq!(FilterType::from_str("audio"), FilterType::Audio);
    assert_eq!(FilterType::from_str("sticker"), FilterType::Sticker);
    // The singular keyword produces the plural-named state.
    assert_eq!(FilterType::from_str("photo"), FilterType::Photos);
    assert_eq!(FilterType::from_str("photos"), FilterType::Error);
    assert_eq!(FilterType::from_str("document"), FilterType::Document);
    assert_eq!(FilterType::from_str("text"), FilterType::Text);
    assert_eq!(FilterType::from_str("voice"), FilterType::Voice);
    assert_eq!(FilterType::from_str("video"), FilterType::Video);
    assert_eq!(FilterType::from_str("banana"), FilterType::Error);
}
