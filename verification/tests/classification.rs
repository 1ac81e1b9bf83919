//! Concrete checks of the threshold classification and the rendered line.

use check_brandmeister::classify;
use check_brandmeister::status_line;
use check_brandmeister::Severity;

#[test]
fn below_both_thresholds_is_ok() {
    assert_eq!(classify(0, 10, 15), Severity::Okay);
    assert_eq!(classify(9, 10, 15), Severity::Okay);
}

#[test]
fn between_thresholds_is_warning() {
    assert_eq!(classify(10, 10, 15), Severity::Warning);
    assert_eq!(classify(14, 10, 15), Severity::Warning);
}

#[test]
fn at_or_past_critical_is_critical() {
    assert_eq!(classify(15, 10, 15), Severity::Critical);
    assert_eq!(classify(1000, 10, 15), Severity::Critical);
}

#[test]
fn critical_precedence_with_reversed_thresholds() {
    assert_eq!(classify(7, 15, 5), Severity::Critical);
    assert_eq!(classify(4, 15, 5), Severity::Okay);
}

#[test]
fn negative_elapsed_is_ok() {
    assert_eq!(classify(-1, 10, 15), Severity::Okay);
    assert_eq!(classify(-100000, 0, 0), Severity::Okay);
}

#[test]
fn zero_thresholds_make_zero_critical() {
    assert_eq!(classify(0, 0, 0), Severity::Critical);
}

#[test]
fn labels_and_exit_codes() {
    assert_eq!(Severity::Okay.label(), "OK");
    assert_eq!(Severity::Warning.label(), "WARNING");
    assert_eq!(Severity::Critical.label(), "CRITICAL");
    assert_eq!(Severity::Unknown.label(), "UNKNOWN");
    assert_eq!(Severity::Okay.exit_code(), 0);
    assert_eq!(Severity::Warning.exit_code(), 1);
    assert_eq!(Severity::Critical.exit_code(), 2);
    assert_eq!(Severity::Unknown.exit_code(), 3);
}

#[test]
fn status_line_renders_every_field() {
    assert_eq!(
        status_line(270107, Severity::Okay, 0, 10, 15),
        "BrandMeister repeater 270107 is OK: online status| 'last_seen_min'=0;10;15;;"
    );
    assert_eq!(
        status_line(1, Severity::Critical, -208, 0, 4294967295),
        "BrandMeister repeater 1 is CRITICAL: online status| 'last_seen_min'=-208;0;4294967295;;"
    );
}
