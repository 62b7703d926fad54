use chrono::Utc;
use vstd::prelude::*;

verus! {

/// Calls `chrono::Utc::now().timestamp()`: the seconds that the system clock
/// counts since the Unix epoch. Nothing is claimed of the value. The call
/// panics if the clock stands before the epoch.
#[verifier::external_body]
pub(crate) fn unix_timestamp() -> i64 {
    Utc::now().timestamp()
}

} // verus!
