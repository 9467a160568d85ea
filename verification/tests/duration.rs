//! Tests of the duration classifier: the compact suffix form, the two-token
//! word form, the malformed shapes and the rendered acknowledgement.

use settings_classifier::TimeUnit;

const REASON: &str = "Invalid time unit.";

#[test]
fn compact_form_round_trip() {
    let t = TimeUnit::from_str("45m").unwrap();
    assert_eq!(t, TimeUnit::Min(45));
    assert_eq!(t.render(), "45 minutes.");
}

#[test]
fn compact_form_other_units() {
    assert_eq!(TimeUnit::from_str("10h"), Ok(TimeUnit::Hrs(10)));
    assert_eq!(TimeUnit::from_str("7s"), Ok(TimeUnit::Sec(7)));
    assert_eq!(TimeUnit::from_str("2d"), Ok(TimeUnit::Day(2)));
    assert_eq!(TimeUnit::Hrs(10).render(), "10 hours.");
    assert_eq!(TimeUnit::Day(2).render(), "2 days.");
}

#[test]
fn two_token_form() {
    assert_eq!(TimeUnit::from_str("3 days"), Ok(TimeUnit::Day(3)));
    assert_eq!(TimeUnit::from_str("2 hours"), Ok(TimeUnit::Hrs(2)));
    assert_eq!(TimeUnit::from_str("1 minutes"), Ok(TimeUnit::Min(1)));
    assert_eq!(TimeUnit::from_str("9 seconds"), Ok(TimeUnit::Sec(9)));
}

#[test]
fn single_letter_word_form_is_rejected() {
    // Only the suffix form accepts single-letter codes.
    assert_eq!(TimeUnit::from_str("3 d"), Err(REASON));
    assert_eq!(TimeUnit::from_str("3 h"), Err(REASON));
}

#[test]
fn malformed_inputs_fail_with_reason() {
    assert_eq!(TimeUnit::from_str("h"), Err(REASON));
    assert_eq!(TimeUnit::from_str("abc"), Err(REASON));
    assert_eq!(TimeUnit::from_str("10 fortnights"), Err(REASON));
    assert_eq!(TimeUnit::from_str(""), Err(REASON));
}

#[test]
fn signs_are_rejected() {
    assert_eq!(TimeUnit::from_str("+5m"), Err(REASON));
    assert_eq!(TimeUnit::from_str("-5m"), Err(REASON));
    assert_eq!(TimeUnit::from_str("+5 minutes"), Err(REASON));
}

#[test]
fn zero_magnitude_is_accepted() {
    let t = TimeUnit::from_str("0s").unwrap();
    assert_eq!(t, TimeUnit::Sec(0));
    assert_eq!(t.render(), "0 seconds.");
}

#[test]
fn magnitude_has_no_upper_bound_below_the_numeric_range() {
    assert_eq!(
        TimeUnit::from_str("18446744073709551615s"),
        Ok(TimeUnit::Sec(u64::MAX))
    );
    assert_eq!(
        TimeUnit::Sec(u64::MAX).render(),
        "18446744073709551615 seconds."
    );
    // One past the numeric range is an input error.
    assert_eq!(TimeUnit::from_str("18446744073709551616s"), Err(REASON));
}

#[test]
fn split_is_at_the_first_whitespace_run() {
    assert_eq!(TimeUnit::from_str("10  hours"), Ok(TimeUnit::Hrs(10)));
    assert_eq!(TimeUnit::from_str("10\thours"), Ok(TimeUnit::Hrs(10)));
    // Whatever follows the first run is the whole unit token.
    assert_eq!(TimeUnit::from_str("10 ho urs"), Err(REASON));
    assert_eq!(TimeUnit::from_str("10 hours extra"), Err(REASON));
    assert_eq!(TimeUnit::from_str("10 "), Err(REASON));
    assert_eq!(TimeUnit::from_str(" 10h"), Err(REASON));
}

#[test]
fn unicode_whitespace_separates_the_tokens() {
    assert_eq!(
        TimeUnit::from_str("10\u{a0}hours"),
        Ok(TimeUnit::Hrs(10))
    );
    assert_eq!(
        TimeUnit::from_str("4\u{2003}days"),
        Ok(TimeUnit::Day(4))
    );
}

#[test]
fn leading_zeros_are_accepted() {
    assert_eq!(TimeUnit::from_str("045m"), Ok(TimeUnit::Min(45)));
    assert_eq!(TimeUnit::from_str("007 days"), Ok(TimeUnit::Day(7)));
}

#[test]
fn trailing_whitespace_spoils_the_unit_word() {
    assert_eq!(TimeUnit::from_str("5 hours "), Err(REASON));
    assert_eq!(TimeUnit::from_str("5h "), Err(REASON));
}

#[test]
fn rendering_multi_digit_magnitudes() {
    assert_eq!(TimeUnit::Min(120).render(), "120 minutes.");
    assert_eq!(TimeUnit::Hrs(1000000).render(), "1000000 hours.");
}
