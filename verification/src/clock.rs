//! Access to the wall clock, behind trusted wrappers. The rest of the crate
//! takes instants as plain values, so everything that depends on a time is
//! verified for every value of it.

use vstd::prelude::*;

verus! {

/// Relies on std's `SystemTime`: the current time as whole seconds since
/// the Unix epoch, and the epoch itself on a clock that reads before it, so
/// that no clock setting can panic. The value depends on the wall clock, so
/// nothing is promised of it.
#[verifier::external_body]
pub(crate) fn now_unix() -> i64 {
    match std::time::SystemTime::now().duration_since(std::time::UNIX_EPOCH) {
        Ok(since_epoch) => since_epoch.as_secs() as i64,
        Err(_) => 0,
    }
}

/// Relies on std's `SystemTime` and on chrono's `DateTime::from_timestamp`
/// and its formatter: the current UTC time written as year-month-day, hour
/// and minute. The fixed
/// format string is valid and `from_timestamp` rejects an out-of-range
/// instant with `None` rather than panicking. The value depends on the wall
/// clock, so nothing is promised of it.
#[verifier::external_body]
pub(crate) fn now_formatted() -> String {
    let secs = match std::time::SystemTime::now().duration_since(std::time::UNIX_EPOCH) {
        Ok(since_epoch) => since_epoch.as_secs() as i64,
        Err(_) => 0,
    };
    match chrono::DateTime::from_timestamp(secs, 0) {
        Some(instant) => instant.format("%Y-%m-%d %H:%M UTC").to_string(),
        None => String::new(),
    }
}

} // verus!
