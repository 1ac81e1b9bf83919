//! Checks of the request URL and the JSON field extraction.

use check_brandmeister::build_request_url;
use check_brandmeister::extract_last_updated;
use check_brandmeister::unknown_line;
use check_brandmeister::FetchError;
use check_brandmeister::Severity;

#[test]
fn request_url_embeds_the_id() {
    assert_eq!(
        build_request_url(270107),
        "http://api.brandmeister.network/v1.0/repeater/?action=get&q=270107"
    );
    assert_eq!(
        build_request_url(0),
        "http://api.brandmeister.network/v1.0/repeater/?action=get&q=0"
    );
}

#[test]
fn last_updated_is_extracted() {
    let body = r#"{"repeaterid":"270107","last_updated":"2024-01-01 00:00:00","tx":438787500}"#;
    assert_eq!(extract_last_updated(body).unwrap(), "2024-01-01 00:00:00");
}

#[test]
fn unusable_bodies_are_one_fetch_error() {
    for body in [
        "",
        "null",
        "[]",
        "{}",
        "not json at all",
        r#"{"last_updated":42}"#,
        r#"{"last_updated":null}"#,
        r#"{"lastupdated":"2024-01-01 00:00:00"}"#,
    ] {
        assert_eq!(
            extract_last_updated(body).unwrap_err(),
            FetchError::RequestFailed,
            "{body}"
        );
    }
}

#[test]
fn failed_fetch_maps_to_unknown() {
    let err = extract_last_updated("garbage body from an HTTP 500").unwrap_err();
    let line = unknown_line(270107, &err.message());
    assert_eq!(
        line,
        "BrandMeister repeater 270107 is UNKNOWN: error parsing API result, ensure repeater id is valid"
    );
    assert_eq!(Severity::Unknown.exit_code(), 3);
}
