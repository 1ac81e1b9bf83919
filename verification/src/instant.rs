//! Instants in seconds since the Unix epoch, and elapsed whole minutes.

use crate::errors::EvalError;
use crate::timestamp::parse_timestamp;
use crate::timestamp::parse_spec;
use crate::timestamp::Timestamp;
use vstd::prelude::*;

verus! {

/// Seconds since 1970-01-01 00:00:00 UTC of a calendar date and time of day,
/// as chrono computes them (non-leap seconds, proleptic Gregorian calendar).
pub uninterp spec fn utc_epoch_of(
    year: int,
    month: int,
    day: int,
    hour: int,
    minute: int,
    second: int,
) -> int;

/// Instant of a timestamp's fields.
pub open spec fn instant_spec(ts: Timestamp) -> int {
    utc_epoch_of(
        ts.year as int,
        ts.month as int,
        ts.day as int,
        ts.hour as int,
        ts.minute as int,
        ts.second as int,
    )
}

/// Relies on chrono to turn valid calendar fields into seconds since the Unix
/// epoch: `NaiveDate::from_ymd_opt` and `NaiveDate::and_hms_opt`, which return
/// `Some` for every real date and time of day, then `NaiveDateTime::and_utc`
/// and `DateTime::<Utc>::timestamp`. The result depends on the six fields
/// alone.
#[verifier::external_body]
fn utc_epoch_seconds(ts: &Timestamp) -> (r: i64)
    requires
        ts.valid(),
    ensures
        r == utc_epoch_of(
            ts.year as int,
            ts.month as int,
            ts.day as int,
            ts.hour as int,
            ts.minute as int,
            ts.second as int,
        ),
{
    match chrono::NaiveDate::from_ymd_opt(ts.year as i32, ts.month, ts.day) {
        Some(date) => match date.and_hms_opt(ts.hour, ts.minute, ts.second) {
            Some(dt) => dt.and_utc().timestamp(),
            None => 0,
        },
        None => 0,
    }
}

/// Instant of a timestamp, when its fields name a real date and time.
pub fn instant_of_timestamp(ts: &Timestamp) -> (r: Option<i64>)
    ensures
        match r {
            Some(e) => ts.valid() && e == instant_spec(*ts),
            None => !ts.valid(),
        },
{
    if ts.is_valid() {
        Some(utc_epoch_seconds(ts))
    } else {
        None
    }
}

/// Parse a `YYYY-MM-DD HH:MM:SS` string straight to an instant.
pub fn instant_of(s: &str) -> (r: Result<i64, EvalError>)
    ensures
        match r {
            Ok(e) => parse_spec(s@) is Some && e == instant_spec(parse_spec(s@)->Some_0),
            Err(err) => err == EvalError::InvalidTimestamp && parse_spec(s@) is None,
        },
{
    match parse_timestamp(s) {
        Ok(ts) => Ok(utc_epoch_seconds(&ts)),
        Err(e) => Err(e),
    }
}

/// Whole minutes from one instant to another, truncated toward zero, so a
/// negative difference (a timestamp in the future) keeps its sign and is
/// never clamped.
pub open spec fn elapsed_minutes_spec(ts_epoch: int, now_epoch: int) -> int {
    let d = now_epoch - ts_epoch;
    if d >= 0 {
        d / 60
    } else {
        -((-d) / 60)
    }
}

/// Whole minutes elapsed from a timestamp's instant to "now", truncated.
pub fn elapsed_minutes(ts_epoch: i64, now_epoch: i64) -> (r: i64)
    ensures
        r == elapsed_minutes_spec(ts_epoch as int, now_epoch as int),
{
    if now_epoch >= ts_epoch {
        let mag: u128 = (now_epoch as i128 - ts_epoch as i128) as u128;
        let q: u128 = mag / 60;
        q as i64
    } else {
        let mag: u128 = (ts_epoch as i128 - now_epoch as i128) as u128;
        let q: u128 = mag / 60;
        -(q as i64)
    }
}

} // verus!
