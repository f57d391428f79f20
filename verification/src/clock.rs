//! Wall-clock reading.
//!
//! Timestamps are carried as milliseconds since the Unix epoch in unsigned
//! 64-bit integers; this is the one place where the clock is read.

use vstd::prelude::*;

verus! {

/// Read the current time as milliseconds since the Unix epoch.
///
/// Relies on `chrono::Utc::now`; a reading before the epoch is clamped to
/// zero. Nothing is promised of the result: it depends on the clock.
#[verifier::external_body]
pub fn now_millis() -> u64 {
    let ms = chrono::Utc::now().timestamp_millis();
    if ms < 0 { 0 } else { ms as u64 }
}

} // verus!
