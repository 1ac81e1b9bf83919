//! Error types of the check: one for fetching, one for evaluating.

use vstd::prelude::*;
use vstd::string::StringExecFns;

verus! {

/// Failure while obtaining the last-seen timestamp from the status API.
///
/// Network failure, a non-success HTTP status, a body that is not JSON and a
/// JSON body without the expected field all collapse into this one kind: the
/// upstream API gives no structured way to tell them apart.
#[derive(Clone, Copy, Debug, PartialEq, Eq, Structural)]
pub enum FetchError {
    /// The request produced no usable timestamp.
    RequestFailed,
}

impl FetchError {
    /// Text shown to the operator for a failed fetch.
    pub fn message(&self) -> (r: String)
        ensures
            r@ == "error parsing API result, ensure repeater id is valid"@,
    {
        String::from_str("error parsing API result, ensure repeater id is valid")
    }
}

/// Failure while evaluating a fetched timestamp.
#[derive(Clone, Copy, Debug, PartialEq, Eq, Structural)]
pub enum EvalError {
    /// The timestamp did not match the `YYYY-MM-DD HH:MM:SS` format or did
    /// not name a real calendar date and time of day.
    InvalidTimestamp,
}

impl EvalError {
    /// Text shown to the operator for an unusable timestamp.
    pub fn message(&self) -> (r: String)
        ensures
            r@ == "invalid last-seen timestamp in API result"@,
    {
        String::from_str("invalid last-seen timestamp in API result")
    }
}

} // verus!
