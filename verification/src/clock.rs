//! Durations and moments of std's clock, as the player reasons about them.

use std::time::{Duration, Instant};
use vstd::prelude::*;

verus! {

/// A moment of std's monotonic clock.
#[verifier::external_type_specification]
#[verifier::external_body]
pub struct ExInstant(Instant);

/// The length of a duration in nanoseconds.
pub uninterp spec fn duration_nanos(d: Duration) -> nat;

/// The nanoseconds of one second.
pub open spec fn second() -> nat {
    1_000_000_000
}

/// The whole seconds of a duration.
pub open spec fn whole_seconds(d: Duration) -> nat {
    duration_nanos(d) / second()
}

/// `Duration::as_secs` of std gives the whole seconds of the duration.
pub assume_specification[ Duration::as_secs ](d: &Duration) -> (secs: u64)
    ensures
        secs == duration_nanos(*d) / 1_000_000_000,
;

/// `Duration::checked_add` of std gives the sum of two durations, or none
/// where the seconds of the sum leave 64 bits.
pub assume_specification[ Duration::checked_add ](d: Duration, rhs: Duration) -> (sum: Option<
    Duration,
>)
    ensures
        match sum {
            Some(total) => {
                &&& duration_nanos(total) == duration_nanos(d) + duration_nanos(rhs)
                &&& (duration_nanos(d) + duration_nanos(rhs)) / 1_000_000_000 <= u64::MAX
            },
            None => (duration_nanos(d) + duration_nanos(rhs)) / 1_000_000_000 > u64::MAX,
        },
;

/// `Duration::default` of std is the duration of no time.
pub assume_specification[ <Duration as Default>::default ]() -> (d: Duration)
    ensures
        duration_nanos(d) == 0,
;

/// `Instant::now` of std reads the clock.
pub assume_specification[ Instant::now ]() -> Instant
;

/// `Instant::elapsed` of std gives the time since the moment, by the clock.
pub assume_specification[ Instant::elapsed ](moment: &Instant) -> Duration
;

/// More nanoseconds are no fewer whole seconds.
pub proof fn lemma_seconds_grow(less: nat, more: nat)
    requires
        less <= more,
    ensures
        less / second() <= more / second(),
{
    assert(less / 1_000_000_000 <= more / 1_000_000_000) by (nonlinear_arith)
        requires
            less <= more,
    ;
}

} // verus!
