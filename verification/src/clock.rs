//! The machine's clock and the `Duration` arithmetic the tracker needs, as
//! trusted items over `std::time`.
use std::time::{Duration, Instant};
use vstd::prelude::*;

verus! {

#[verifier::external_type_specification]
#[verifier::external_body]
pub struct ExInstant(Instant);

/// The whole number of nanoseconds that a `Duration` holds (what
/// `Duration::as_nanos` returns).
pub uninterp spec fn nanos_in(d: Duration) -> u128;

/// The `Duration` that `Duration::from_secs` makes of a number of seconds.
pub uninterp spec fn duration_of_secs(secs: u64) -> Duration;

/// Calls `Instant::now`. The reading comes from the machine's monotonic clock,
/// so nothing is stated of it.
#[verifier::external_body]
pub(crate) fn instant_now() -> Instant {
    Instant::now()
}

/// Calls `Instant::elapsed`: the time that passed since `start` on the
/// monotonic clock. It depends on when it is called, so nothing is stated of
/// it.
#[verifier::external_body]
pub(crate) fn instant_elapsed(start: &Instant) -> Duration {
    start.elapsed()
}

/// Calls `Duration::as_nanos`, which returns the total number of nanoseconds
/// in the duration; the contract gives that number the name `nanos_in`.
#[verifier::external_body]
pub(crate) fn duration_as_nanos(d: &Duration) -> (n: u128)
    ensures
        n == nanos_in(*d),
{
    d.as_nanos()
}

/// Calls `Duration::from_secs`. The contract names the result and states what
/// the documentation of `from_secs` and `as_nanos` gives: a duration of `secs`
/// whole seconds holds `secs * 10^9` nanoseconds.
#[verifier::external_body]
pub(crate) fn duration_from_secs(secs: u64) -> (d: Duration)
    ensures
        d == duration_of_secs(secs),
        nanos_in(d) == secs * 1_000_000_000,
{
    Duration::from_secs(secs)
}

} // verus!
