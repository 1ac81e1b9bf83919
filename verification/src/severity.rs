//! Health severity levels and the threshold classification rule.

use vstd::prelude::*;

verus! {

/// Health level of a repeater check, in the usual monitoring-plugin sense.
#[derive(Clone, Copy, Debug, PartialEq, Eq, Structural)]
pub enum Severity {
    /// The repeater was seen recently enough.
    Okay,
    /// The repeater has been silent at least as long as the warning threshold.
    Warning,
    /// The repeater has been silent at least as long as the critical threshold.
    Critical,
    /// The check itself failed: fetch or parse error, no severity computed.
    Unknown,
}

/// Severity of a given number of elapsed minutes against the two thresholds.
///
/// The critical comparison comes first, so when `warn > crit` the critical
/// threshold still wins at the boundary: that precedence is deliberate.
pub open spec fn classify_spec(elapsed: int, warn: int, crit: int) -> Severity {
    if elapsed >= crit {
        Severity::Critical
    } else if elapsed >= warn {
        Severity::Warning
    } else {
        Severity::Okay
    }
}

/// Process exit code that a monitoring framework expects for each severity.
pub open spec fn exit_code_spec(sev: Severity) -> int {
    match sev {
        Severity::Okay => 0,
        Severity::Warning => 1,
        Severity::Critical => 2,
        Severity::Unknown => 3,
    }
}

/// Word that names each severity in the output line.
pub open spec fn label_spec(sev: Severity) -> Seq<char> {
    match sev {
        Severity::Okay => "OK"@,
        Severity::Warning => "WARNING"@,
        Severity::Critical => "CRITICAL"@,
        Severity::Unknown => "UNKNOWN"@,
    }
}

/// Map elapsed minutes to a severity, critical threshold checked first.
pub fn classify(elapsed: i64, warn: u32, crit: u32) -> (r: Severity)
    ensures
        r == classify_spec(elapsed as int, warn as int, crit as int),
{
    if elapsed >= crit as i64 {
        Severity::Critical
    } else if elapsed >= warn as i64 {
        Severity::Warning
    } else {
        Severity::Okay
    }
}

impl Severity {
    /// Exit code for this severity under the standard plugin convention.
    pub fn exit_code(self) -> (r: i32)
        ensures
            r == exit_code_spec(self),
    {
        match self {
            Severity::Okay => 0,
            Severity::Warning => 1,
            Severity::Critical => 2,
            Severity::Unknown => 3,
        }
    }

    /// Severity word as it appears in the output line.
    pub fn label(self) -> (r: &'static str)
        ensures
            r@ == label_spec(self),
    {
        match self {
            Severity::Okay => "OK",
            Severity::Warning => "WARNING",
            Severity::Critical => "CRITICAL",
            Severity::Unknown => "UNKNOWN",
        }
    }
}

/// An elapsed time below a warning threshold that itself lies below the
/// critical threshold is healthy.
pub proof fn lemma_ok_below_thresholds(elapsed: int, warn: int, crit: int)
    requires
        elapsed < warn,
        warn < crit,
    ensures
        classify_spec(elapsed, warn, crit) == Severity::Okay,
{
}

/// An elapsed time at or past the warning threshold but short of the critical
/// threshold is a warning.
pub proof fn lemma_warning_between_thresholds(elapsed: int, warn: int, crit: int)
    requires
        warn <= elapsed < crit,
    ensures
        classify_spec(elapsed, warn, crit) == Severity::Warning,
{
}

/// An elapsed time at or past the critical threshold is critical, whatever
/// the warning threshold is: the critical comparison takes precedence even
/// when the thresholds are given in the wrong order.
pub proof fn lemma_critical_precedence(elapsed: int, warn: int, crit: int)
    requires
        elapsed >= crit,
    ensures
        classify_spec(elapsed, warn, crit) == Severity::Critical,
{
}

/// A negative elapsed time (remote clock ahead of ours) is healthy under
/// non-negative thresholds, never an error.
pub proof fn lemma_future_timestamp_ok(elapsed: int, warn: int, crit: int)
    requires
        elapsed < 0,
        warn >= 0,
        crit >= 0,
    ensures
        classify_spec(elapsed, warn, crit) == Severity::Okay,
{
}

} // verus!
