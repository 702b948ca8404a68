use vinmonopolet_client::date::Date;
use vinmonopolet_client::date::date_is_valid;
use vinmonopolet_client::date::format_date;
use vinmonopolet_client::date::parse_date;

#[test]
fn parses_a_plain_date() {
    assert_eq!(parse_date("2024-01-01"), Some(Date { year: 2024, month: 1, day: 1 }));
    assert_eq!(parse_date("1999-12-31"), Some(Date { year: 1999, month: 12, day: 31 }));
}

#[test]
fn rejects_wrong_separators_and_shapes() {
    assert_eq!(parse_date("2024/13/40"), None);
    assert_eq!(parse_date("2024-1-1"), None);
    assert_eq!(parse_date("20240101"), None);
    assert_eq!(parse_date(""), None);
    assert_eq!(parse_date("2024-01-01extra"), None);
    assert_eq!(parse_date("abcd-ef-gh"), None);
}

#[test]
fn rejects_impossible_calendar_days() {
    assert_eq!(parse_date("2024-13-01"), None);
    assert_eq!(parse_date("2024-00-10"), None);
    assert_eq!(parse_date("2024-04-31"), None);
    assert_eq!(parse_date("2024-01-00"), None);
    assert_eq!(parse_date("2024-01-32"), None);
}

#[test]
fn leap_year_rules() {
    assert_eq!(parse_date("2024-02-29"), Some(Date { year: 2024, month: 2, day: 29 }));
    assert_eq!(parse_date("2023-02-29"), None);
    assert_eq!(parse_date("1900-02-29"), None);
    assert_eq!(parse_date("2000-02-29"), Some(Date { year: 2000, month: 2, day: 29 }));
}

#[test]
fn formats_with_zero_padding() {
    assert_eq!(format_date(&Date { year: 2024, month: 1, day: 2 }), "2024-01-02");
    assert_eq!(format_date(&Date { year: 987, month: 11, day: 30 }), "0987-11-30");
}

#[test]
fn format_then_parse_returns_the_date() {
    let d = Date { year: 2021, month: 6, day: 15 };
    assert!(date_is_valid(&d));
    assert_eq!(parse_date(&format_date(&d)), Some(d));
}

#[test]
fn validity_check_matches_the_calendar() {
    assert!(date_is_valid(&Date { year: 2024, month: 2, day: 29 }));
    assert!(!date_is_valid(&Date { year: 2023, month: 2, day: 29 }));
    assert!(!date_is_valid(&Date { year: 2023, month: 13, day: 1 }));
}
