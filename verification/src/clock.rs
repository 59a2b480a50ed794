//! Trusted access to the wall clock.
//!
//! Every timestamp in the library is a plain integer (milliseconds since the
//! Unix epoch) or a plain text string, so the rest of the crate stays fully
//! verified; only these two shims touch the clock itself.

use vstd::prelude::*;

verus! {

/// Relies on chrono's `Utc::now` and `timestamp_millis`: the current wall
/// time in milliseconds. The value depends on when the call runs, so nothing
/// is promised of it.
#[verifier::external_body]
pub fn now_millis() -> u64 {
    let ms = chrono::Utc::now().timestamp_millis();
    if ms >= 0 {
        ms as u64
    } else {
        0
    }
}

/// Relies on chrono's `Utc::now` and `to_rfc3339`: the current wall time as
/// an RFC 3339 string. The value depends on when the call runs, so nothing
/// is promised of it.
#[verifier::external_body]
pub fn now_rfc3339() -> String {
    chrono::Utc::now().to_rfc3339()
}

} // verus!
