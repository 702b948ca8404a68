use vinmonopolet_client::numbers::parse_i32_text;

#[test]
fn parses_plain_integers() {
    assert_eq!(parse_i32_text("0"), Some(0));
    assert_eq!(parse_i32_text("3"), Some(3));
    assert_eq!(parse_i32_text("42"), Some(42));
    assert_eq!(parse_i32_text("-12"), Some(-12));
}

#[test]
fn parses_the_extremes_of_i32() {
    assert_eq!(parse_i32_text("2147483647"), Some(i32::MAX));
    assert_eq!(parse_i32_text("-2147483648"), Some(i32::MIN));
}

#[test]
fn rejects_values_out_of_range() {
    assert_eq!(parse_i32_text("2147483648"), None);
    assert_eq!(parse_i32_text("-2147483649"), None);
    assert_eq!(parse_i32_text("99999999999999999999"), None);
}

#[test]
fn rejects_non_canonical_texts() {
    assert_eq!(parse_i32_text(""), None);
    assert_eq!(parse_i32_text("-"), None);
    assert_eq!(parse_i32_text("007"), None);
    assert_eq!(parse_i32_text("-0"), None);
    assert_eq!(parse_i32_text("3.5"), None);
    assert_eq!(parse_i32_text("12a"), None);
    assert_eq!(parse_i32_text("+4"), None);
    assert_eq!(parse_i32_text(" 4"), None);
}
