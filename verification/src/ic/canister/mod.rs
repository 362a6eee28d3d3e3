//! The calls to the canisters.

use std::time::Duration;
use vstd::prelude::*;

verus! {

/// Seconds that a call to a canister may take: five minutes.
pub const EXPIRY_SECONDS: u64 = 300;

/// The whole seconds of a duration.
pub uninterp spec fn whole_seconds(duration: Duration) -> u64;

/// The part of a duration below a second, in nanoseconds.
pub uninterp spec fn fraction_nanos(duration: Duration) -> u32;

/// `Duration::from_secs` makes the duration of so many whole seconds, and
/// nothing below a second.
pub assume_specification[ Duration::from_secs ](secs: u64) -> (duration: Duration)
    ensures
        whole_seconds(duration) == secs,
        fraction_nanos(duration) == 0,
;

/// How long a call to a canister may take: five minutes to the nanosecond.
pub fn expiry_duration() -> (duration: Duration)
    ensures
        whole_seconds(duration) == EXPIRY_SECONDS,
        fraction_nanos(duration) == 0,
{
    // 5 minutes is max ingress timeout
    Duration::from_secs(EXPIRY_SECONDS)
}

} // verus!
