//! Wall-clock access.
//!
//! Timestamps in the core are plain unix seconds; only the single call that
//! asks what time it is now leaves the verified world.

use vstd::prelude::*;

verus! {

/// Relies on `chrono::Utc::now` and `DateTime::timestamp` for the current
/// wall-clock time as unix seconds.  The value depends on when the call is
/// made, so nothing is promised of it.  `Utc::now` itself panics when the
/// system clock is set before the unix epoch; that environment condition
/// is chrono's and cannot be excluded by a precondition here.
#[verifier::external_body]
pub(crate) fn now_seconds() -> i64 {
    chrono::Utc::now().timestamp()
}

} // verus!
