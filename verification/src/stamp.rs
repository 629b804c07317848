//! Fresh external identifiers and audit timestamps.
//!
//! Both values depend on the clock (and, for identifiers, on random
//! bytes), so nothing is promised about them: every caller states what
//! holds of its result whatever value comes back.

use vstd::prelude::*;

verus! {

/// Relies on uuid's `Uuid::now_v7` to draw a fresh external
/// identifier, returned as its 128-bit value. The result depends on
/// the clock and on random bytes, so nothing is promised of it.
#[verifier::external_body]
pub fn new_external_id() -> u128 {
    uuid::Uuid::now_v7().as_u128()
}

/// Relies on chrono's `Utc::now` for the current time, returned as
/// milliseconds since the Unix epoch. The result depends on the
/// clock, so nothing is promised of it.
#[verifier::external_body]
pub fn now_timestamp() -> i64 {
    chrono::Utc::now().timestamp_millis()
}

} // verus!
