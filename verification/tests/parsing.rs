use account_ledger::amount::parse_amount;

#[test]
fn parses_whole_units() {
    assert_eq!(parse_amount("0"), Some(0));
    assert_eq!(parse_amount("1"), Some(1_000_000));
    assert_eq!(parse_amount("100"), Some(100_000_000));
    assert_eq!(parse_amount("007"), Some(7_000_000));
}

#[test]
fn parses_fractions_to_millionths() {
    assert_eq!(parse_amount("60.5"), Some(60_500_000));
    assert_eq!(parse_amount("0.000001"), Some(1));
    assert_eq!(parse_amount("0.1"), Some(100_000));
    assert_eq!(parse_amount("12.345678"), Some(12_345_678));
    assert_eq!(parse_amount("2.000000"), Some(2_000_000));
}

#[test]
fn rejects_more_than_six_fractional_digits() {
    assert_eq!(parse_amount("0.0000001"), None);
    assert_eq!(parse_amount("1.2345678"), None);
    // Even a seventh zero: the bound is on the text, not on the value.
    assert_eq!(parse_amount("1.0000000"), None);
}

#[test]
fn rejects_malformed_text() {
    assert_eq!(parse_amount(""), None);
    assert_eq!(parse_amount("."), None);
    assert_eq!(parse_amount("1."), None);
    assert_eq!(parse_amount(".5"), None);
    assert_eq!(parse_amount("1.2.3"), None);
    assert_eq!(parse_amount("-1"), None);
    assert_eq!(parse_amount("+1"), None);
    assert_eq!(parse_amount(" 1"), None);
    assert_eq!(parse_amount("1e3"), None);
    assert_eq!(parse_amount("one"), None);
}

#[test]
fn bounds_of_the_machine_range() {
    // i64::MAX millionths is the largest representable amount.
    assert_eq!(parse_amount("9223372036854.775807"), Some(i64::MAX));
    assert_eq!(parse_amount("9223372036854.775808"), None);
    assert_eq!(parse_amount("9223372036854775807"), None);
    assert_eq!(parse_amount("99999999999999999999999999"), None);
}
