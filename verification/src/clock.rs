//! The wall clock.

use vstd::prelude::*;

verus! {

/// Calls `chrono::Utc::now()` and returns its Unix timestamp in seconds.
/// Claimed: the value is not negative. `Utc::now` measures the time elapsed
/// since the Unix epoch (`SystemTime::duration_since(UNIX_EPOCH)`, which it
/// unwraps, so a clock set before 1970 panics rather than returning) and
/// `timestamp` returns those whole seconds. Nothing else is promised: the
/// value is whatever the system clock reads.
#[verifier::external_body]
pub(crate) fn current_unix_timestamp() -> (t: i64)
    ensures
        t >= 0,
{
    chrono::Utc::now().timestamp()
}

} // verus!
