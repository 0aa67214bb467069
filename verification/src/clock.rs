//! Reading the current time.

use vstd::prelude::*;

verus! {

/// Relies on `chrono::Utc::now` and `chrono::DateTime::timestamp_millis`:
/// the current UTC time as milliseconds since the Unix epoch.  Nothing is
/// promised of the value — it depends on the machine's clock — so every
/// caller must hold for any value that comes back.  (`Utc::now` itself
/// panics only when the system clock is set before the Unix epoch.)
#[verifier::external_body]
fn utc_now_millis() -> i64 {
    chrono::Utc::now().timestamp_millis()
}

/// The current UTC time in milliseconds since the Unix epoch, clamped to
/// zero should the clock report a time before the epoch.
pub fn now_millis() -> u64 {
    let t = utc_now_millis();
    if t < 0 {
        0
    } else {
        t as u64
    }
}

} // verus!
