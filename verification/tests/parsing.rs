//! Checks of the timestamp grammar and calendar validation.

use check_brandmeister::parse_timestamp;
use check_brandmeister::EvalError;
use check_brandmeister::Timestamp;

#[test]
fn well_formed_timestamp_parses() {
    let ts = parse_timestamp("2024-03-09 07:05:59").unwrap();
    assert_eq!(
        ts,
        Timestamp { year: 2024, month: 3, day: 9, hour: 7, minute: 5, second: 59 }
    );
}

#[test]
fn malformed_strings_are_rejected() {
    for s in [
        "",
        "not-a-date",
        "2024-03-09",
        "2024-03-09 07:05:5",
        "2024-03-09 07:05:590",
        "2024/03/09 07:05:59",
        "2024-03-09T07:05:59",
        "2024-03-09 07.05.59",
        "24-003-09 07:05:59",
        "2024-03-09 07:05:5x",
    ] {
        assert_eq!(parse_timestamp(s).unwrap_err(), EvalError::InvalidTimestamp, "{s}");
    }
}

#[test]
fn calendar_limits_are_enforced() {
    assert!(parse_timestamp("2024-02-29 00:00:00").is_ok());
    assert!(parse_timestamp("2023-02-29 00:00:00").is_err());
    assert!(parse_timestamp("2000-02-29 00:00:00").is_ok());
    assert!(parse_timestamp("1900-02-29 00:00:00").is_err());
    assert!(parse_timestamp("2024-04-30 00:00:00").is_ok());
    assert!(parse_timestamp("2024-04-31 00:00:00").is_err());
    assert!(parse_timestamp("2024-12-31 23:59:59").is_ok());
    assert!(parse_timestamp("2024-13-01 00:00:00").is_err());
    assert!(parse_timestamp("2024-00-01 00:00:00").is_err());
    assert!(parse_timestamp("2024-01-00 00:00:00").is_err());
    assert!(parse_timestamp("2024-01-01 24:00:00").is_err());
    assert!(parse_timestamp("2024-01-01 00:60:00").is_err());
    assert!(parse_timestamp("2024-01-01 00:00:60").is_err());
}

#[test]
fn extreme_years_parse() {
    assert!(parse_timestamp("0000-01-01 00:00:00").is_ok());
    assert!(parse_timestamp("9999-12-31 23:59:59").is_ok());
}
