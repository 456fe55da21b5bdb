use vstd::prelude::*;

verus! {

/// Relies on `chrono::Utc::now` for the current wall-clock time, reported
/// as milliseconds since the Unix epoch. The value depends on the
/// environment, so nothing is promised of it; callers that need exact
/// contracts take a timestamp as an argument instead.
#[verifier::external_body]
pub fn now_millis() -> i64 {
    chrono::Utc::now().timestamp_millis()
}

} // verus!
