//! The wall clock.

use vstd::prelude::*;

verus! {

/// Calls `chrono::Utc::now` and takes its `timestamp`: the seconds since the
/// Unix epoch. Trusted: the result is not negative, since `now` is built from
/// the time that has passed since the epoch. Nothing else is known of it, and
/// two calls may differ.
#[verifier::external_body]
pub(crate) fn unix_now() -> (seconds: i64)
    ensures
        seconds >= 0,
{
    chrono::Utc::now().timestamp()
}

} // verus!
