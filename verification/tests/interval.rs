use cfddns::interval::{effective_interval, parse_seconds, DEFAULT_INTERVAL};

#[test]
fn default_interval_is_half_an_hour() {
    assert_eq!(DEFAULT_INTERVAL, 1800);
}

#[test]
fn zero_interval_means_no_pause() {
    assert_eq!(effective_interval(Some("0")), 0);
}

#[test]
fn missing_interval_is_default() {
    assert_eq!(effective_interval(None), 1800);
}

#[test]
fn non_numeric_interval_is_default() {
    assert_eq!(effective_interval(Some("abc")), 1800);
    assert_eq!(effective_interval(Some("")), 1800);
    assert_eq!(effective_interval(Some("12s")), 1800);
    assert_eq!(effective_interval(Some("1 ")), 1800);
    assert_eq!(effective_interval(Some(" 1")), 1800);
    assert_eq!(effective_interval(Some("1.5")), 1800);
}

#[test]
fn numeric_interval_is_used() {
    assert_eq!(effective_interval(Some("60")), 60);
    assert_eq!(effective_interval(Some("1800")), 1800);
    assert_eq!(effective_interval(Some("86400")), 86400);
    assert_eq!(effective_interval(Some("007")), 7);
}

#[test]
fn plus_sign_is_accepted_and_minus_is_not() {
    assert_eq!(effective_interval(Some("+5")), 5);
    assert_eq!(effective_interval(Some("-5")), 1800);
    assert_eq!(effective_interval(Some("-0")), 1800);
    assert_eq!(effective_interval(Some("+")), 1800);
    assert_eq!(effective_interval(Some("++5")), 1800);
}

#[test]
fn largest_interval_fits_and_the_next_does_not() {
    assert_eq!(effective_interval(Some("18446744073709551615")), u64::MAX);
    assert_eq!(effective_interval(Some("18446744073709551616")), 1800);
    assert_eq!(effective_interval(Some("99999999999999999999")), 1800);
    assert_eq!(effective_interval(Some("184467440737095516150")), 1800);
}

#[test]
fn parse_seconds_tells_a_number_from_none() {
    assert_eq!(parse_seconds(b"42"), Some(42));
    assert_eq!(parse_seconds(b"0"), Some(0));
    assert_eq!(parse_seconds(b""), None);
    assert_eq!(parse_seconds(b"4x2"), None);
}

#[test]
fn parse_seconds_agrees_with_std() {
    for text in ["0", "1", "+17", "000", "1800", "18446744073709551615", "18446744073709551616", "-1", "", "+", "1_000", "٣"] {
        assert_eq!(parse_seconds(text.as_bytes()), text.parse::<u64>().ok());
    }
}
