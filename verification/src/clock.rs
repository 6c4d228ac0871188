//! Trusted wrappers around the wall clock and timestamp parsing.
use vstd::prelude::*;

verus! {

/// The Unix-seconds timestamp an RFC 3339 text denotes, if it parses.
pub uninterp spec fn rfc3339_seconds_of(s: Seq<char>) -> Option<i64>;

/// Relies on chrono's Utc::now: microseconds since the Unix epoch; nothing
/// is promised of the value.
#[verifier::external_body]
pub fn now_micros() -> (r: i64) {
    chrono::Utc::now().timestamp_micros()
}

/// Relies on chrono's Utc::now: seconds since the Unix epoch; nothing is
/// promised of the value.
#[verifier::external_body]
pub fn now_seconds() -> (r: i64) {
    chrono::Utc::now().timestamp()
}

/// Relies on chrono's DateTime::parse_from_rfc3339: whether a text parses,
/// and the instant it denotes, depend on the text alone.
#[verifier::external_body]
pub fn rfc3339_to_unix(s: &str) -> (r: Option<i64>)
    ensures
        r == rfc3339_seconds_of(s@),
{
    match chrono::DateTime::parse_from_rfc3339(s) {
        Ok(dt) => Some(dt.timestamp()),
        Err(_) => None,
    }
}

} // verus!
