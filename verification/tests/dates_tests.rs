use corkbot::dates::{days_in_month, is_canonical_date_str, is_leap_year, parse_date, Date};

#[test]
fn parse_date_reads_a_plain_day() {
    assert_eq!(
        parse_date("2024-01-01"),
        Some(Date { year: 2024, month: 1, day: 1 })
    );
    assert_eq!(
        parse_date("1999-12-31"),
        Some(Date { year: 1999, month: 12, day: 31 })
    );
}

#[test]
fn parse_date_respects_leap_years() {
    assert_eq!(
        parse_date("2024-02-29"),
        Some(Date { year: 2024, month: 2, day: 29 })
    );
    assert_eq!(parse_date("2023-02-29"), None);
    assert_eq!(parse_date("1900-02-29"), None);
    assert_eq!(
        parse_date("2000-02-29"),
        Some(Date { year: 2000, month: 2, day: 29 })
    );
}

#[test]
fn parse_date_rejects_days_that_do_not_exist() {
    assert_eq!(parse_date("2023-02-30"), None);
    assert_eq!(parse_date("2023-04-31"), None);
    assert_eq!(parse_date("2023-13-01"), None);
    assert_eq!(parse_date("2023-00-10"), None);
    assert_eq!(parse_date("2023-05-00"), None);
}

#[test]
fn parse_date_rejects_other_shapes() {
    assert_eq!(parse_date(""), None);
    assert_eq!(parse_date("2024-1-1"), None);
    assert_eq!(parse_date("01/02/2024"), None);
    assert_eq!(parse_date("2024-01-01 "), None);
    assert_eq!(parse_date("+2024-01-01"), None);
    assert_eq!(parse_date("2024-01-01T00:00:00"), None);
}

#[test]
fn canonical_shape_is_exactly_digits_and_dashes() {
    assert!(is_canonical_date_str("0000-01-01"));
    assert!(!is_canonical_date_str("2024_01_01"));
    assert!(!is_canonical_date_str("2024-01-0a"));
    assert!(!is_canonical_date_str("2024-01-012"));
}

#[test]
fn date_new_checks_the_calendar() {
    assert_eq!(
        Date::new(2024, 2, 29),
        Some(Date { year: 2024, month: 2, day: 29 })
    );
    assert_eq!(Date::new(2023, 2, 29), None);
    assert_eq!(Date::new(2023, 0, 1), None);
    assert_eq!(Date::new(-1, 1, 1), None);
    assert_eq!(Date::new(10000, 1, 1), None);
}

#[test]
fn month_lengths() {
    assert_eq!(days_in_month(2023, 1), 31);
    assert_eq!(days_in_month(2023, 2), 28);
    assert_eq!(days_in_month(2024, 2), 29);
    assert_eq!(days_in_month(2023, 4), 30);
    assert_eq!(days_in_month(2023, 12), 31);
    assert_eq!(days_in_month(2023, 13), 0);
}

#[test]
fn leap_year_rules() {
    assert!(is_leap_year(2024));
    assert!(!is_leap_year(2023));
    assert!(!is_leap_year(1900));
    assert!(is_leap_year(2000));
}
