//! Evaluation of a fetched timestamp: elapsed minutes, severity, and the
//! plugin-compatible output line.

use crate::decimal::append_dec_i64;
use crate::decimal::append_dec_u64;
use crate::decimal::dec_int;
use crate::decimal::dec_nat;
use crate::errors::EvalError;
use crate::instant::elapsed_minutes;
use crate::instant::elapsed_minutes_spec;
use crate::instant::instant_spec;
use crate::instant::instant_of_timestamp;
use crate::severity::classify;
use crate::severity::classify_spec;
use crate::severity::label_spec;
use crate::severity::Severity;
use crate::timestamp::parse_spec;
use crate::timestamp::parse_timestamp;
use vstd::prelude::*;
use vstd::string::StringExecFns;

verus! {

/// The one-line plugin output: repeater id, severity word, and the
/// performance-data token reporting the elapsed minutes against the
/// thresholds.
pub open spec fn status_line_spec(
    repeater_id: u32,
    sev: Severity,
    elapsed: i64,
    warn: u32,
    crit: u32,
) -> Seq<char> {
    "BrandMeister repeater "@ + dec_nat(repeater_id as nat) + " is "@ + label_spec(sev)
        + ": online status| 'last_seen_min'="@ + dec_int(elapsed as int) + ";"@ + dec_nat(
        warn as nat,
    ) + ";"@ + dec_nat(crit as nat) + ";;"@
}

/// Render the one-line plugin output for a computed status.
pub fn status_line(repeater_id: u32, sev: Severity, elapsed: i64, warn: u32, crit: u32) -> (r:
    String)
    ensures
        r@ == status_line_spec(repeater_id, sev, elapsed, warn, crit),
{
    let mut out = String::new();
    out.append("BrandMeister repeater ");
    append_dec_u64(&mut out, repeater_id as u64);
    out.append(" is ");
    out.append(sev.label());
    out.append(": online status| 'last_seen_min'=");
    append_dec_i64(&mut out, elapsed);
    out.append(";");
    append_dec_u64(&mut out, warn as u64);
    out.append(";");
    append_dec_u64(&mut out, crit as u64);
    out.append(";;");
    proof {
        assert(out@ =~= status_line_spec(repeater_id, sev, elapsed, warn, crit));
    }
    out
}

/// The output line for a failed check: no severity was computed and no
/// performance data is reported, only the reason.
pub open spec fn unknown_line_spec(repeater_id: u32, reason: Seq<char>) -> Seq<char> {
    "BrandMeister repeater "@ + dec_nat(repeater_id as nat) + " is UNKNOWN: "@ + reason
}

/// Render the output line for a failed check.
pub fn unknown_line(repeater_id: u32, reason: &str) -> (r: String)
    ensures
        r@ == unknown_line_spec(repeater_id, reason@),
{
    let mut out = String::new();
    out.append("BrandMeister repeater ");
    append_dec_u64(&mut out, repeater_id as u64);
    out.append(" is UNKNOWN: ");
    out.append(reason);
    proof {
        assert(out@ =~= unknown_line_spec(repeater_id, reason@));
    }
    out
}

/// Outcome of evaluating a timestamp against the thresholds.
#[derive(Debug, Clone)]
pub struct Evaluation {
    /// Severity of the elapsed time under the two thresholds.
    pub severity: Severity,
    /// Whole minutes from the timestamp to "now", truncated, possibly
    /// negative.
    pub elapsed_minutes: i64,
    /// The plugin-compatible output line.
    pub message: String,
}

/// Evaluate a fetched timestamp: parse it, compute the minutes elapsed up to
/// the given "now" instant, classify them against the thresholds, and render
/// the output line.
///
/// "Now" is an explicit instant (seconds since the Unix epoch) rather than a
/// clock read, so the whole computation is a function of its inputs. Fails
/// exactly when the timestamp does not parse.
pub fn evaluate(repeater_id: u32, timestamp: &str, warn_min: u32, crit_min: u32, now: i64) -> (r:
    Result<Evaluation, EvalError>)
    ensures
        match r {
            Ok(ev) => {
                &&& parse_spec(timestamp@) is Some
                &&& ev.elapsed_minutes == elapsed_minutes_spec(
                    instant_spec(parse_spec(timestamp@)->Some_0),
                    now as int,
                )
                &&& ev.severity == classify_spec(
                    ev.elapsed_minutes as int,
                    warn_min as int,
                    crit_min as int,
                )
                &&& ev.message@ == status_line_spec(
                    repeater_id,
                    ev.severity,
                    ev.elapsed_minutes,
                    warn_min,
                    crit_min,
                )
            },
            Err(e) => e == EvalError::InvalidTimestamp && parse_spec(timestamp@) is None,
        },
{
    let ts = match parse_timestamp(timestamp) {
        Ok(ts) => ts,
        Err(e) => return Err(e),
    };
    let ts_epoch = match instant_of_timestamp(&ts) {
        Some(e) => e,
        None => return Err(EvalError::InvalidTimestamp),
    };
    let elapsed = elapsed_minutes(ts_epoch, now);
    let sev = classify(elapsed, warn_min, crit_min);
    let message = status_line(repeater_id, sev, elapsed, warn_min, crit_min);
    Ok(Evaluation { severity: sev, elapsed_minutes: elapsed, message })
}

} // verus!
