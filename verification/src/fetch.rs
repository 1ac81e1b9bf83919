//! The compute half of the status fetch: the request URL and the extraction
//! of the last-seen timestamp from the JSON body. The HTTP call itself is
//! I/O and stays with the caller, which hands the response body in as text.

use crate::decimal::append_dec_u64;
use crate::decimal::dec_nat;
use crate::errors::FetchError;
use vstd::prelude::*;
use vstd::string::StringExecFns;

verus! {

/// The status-API query URL for a repeater id: the fixed endpoint with the
/// decimal id as the query argument.
pub open spec fn request_url_spec(repeater_id: u32) -> Seq<char> {
    "http://api.brandmeister.network/v1.0/repeater/?action=get&q="@ + dec_nat(repeater_id as nat)
}

/// Build the status-API query URL for a repeater id.
pub fn build_request_url(repeater_id: u32) -> (r: String)
    ensures
        r@ == request_url_spec(repeater_id),
{
    let mut url = String::new();
    url.append("http://api.brandmeister.network/v1.0/repeater/?action=get&q=");
    append_dec_u64(&mut url, repeater_id as u64);
    proof {
        assert(url@ =~= request_url_spec(repeater_id));
    }
    url
}

/// The string held by the given top-level field of a JSON document, when the
/// document parses as JSON, has that field, and the field holds a string.
pub uninterp spec fn json_str_field(body: Seq<char>, key: Seq<char>) -> Option<Seq<char>>;

/// Relies on serde_json to read one top-level string field of a JSON
/// document: `from_str::<Value>`, `Value::get` and `Value::as_str`. The
/// result depends on the body and the key alone.
#[verifier::external_body]
fn json_get_str(body: &str, key: &str) -> (r: Option<String>)
    ensures
        match r {
            Some(s) => json_str_field(body@, key@) == Some(s@),
            None => json_str_field(body@, key@) is None,
        },
{
    match serde_json::from_str::<serde_json::Value>(body) {
        Ok(v) => match v.get(key) {
            Some(f) => match f.as_str() {
                Some(s) => Some(s.to_string()),
                None => None,
            },
            None => None,
        },
        Err(_) => None,
    }
}

/// Extract the last-seen timestamp string from a status-API response body.
///
/// Succeeds exactly when the body is a JSON document whose top-level
/// `last_updated` field holds a string; anything else — a non-JSON body or a
/// missing or non-string field — is the one fetch failure.
pub fn extract_last_updated(body: &str) -> (r: Result<String, FetchError>)
    ensures
        match r {
            Ok(s) => json_str_field(body@, "last_updated"@) == Some(s@),
            Err(e) => e == FetchError::RequestFailed && json_str_field(body@, "last_updated"@)
                is None,
        },
{
    match json_get_str(body, "last_updated") {
        Some(s) => Ok(s),
        None => Err(FetchError::RequestFailed),
    }
}

} // verus!
