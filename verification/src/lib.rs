//! Monitoring-plugin library for checking when a BrandMeister ham-radio
//! repeater was last seen online.
//!
//! The library covers the whole computation path of the check: building the
//! status-API request URL, extracting the last-seen timestamp from the JSON
//! body, parsing the `YYYY-MM-DD HH:MM:SS` timestamp, computing the elapsed
//! minutes against an explicit "now" instant, classifying the result against
//! warning and critical thresholds, and rendering the plugin-compatible
//! output line. Network I/O and the process exit are left to the caller.

pub mod decimal;
pub mod errors;
pub mod evaluate;
pub mod fetch;
pub mod instant;
pub mod severity;
pub mod timestamp;

pub use errors::EvalError;
pub use errors::FetchError;
pub use evaluate::evaluate;
pub use evaluate::status_line;
pub use evaluate::unknown_line;
pub use evaluate::Evaluation;
pub use fetch::build_request_url;
pub use fetch::extract_last_updated;
pub use instant::elapsed_minutes;
pub use instant::instant_of;
pub use severity::classify;
pub use severity::Severity;
pub use timestamp::parse_timestamp;
pub use timestamp::Timestamp;
