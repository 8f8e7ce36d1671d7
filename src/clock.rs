//! Readings of the monotonic clock.
use vstd::prelude::*;

use std::time::{Duration, Instant};

verus! {

#[verifier::external_type_specification]
#[verifier::external_body]
pub struct ExInstant(Instant);

/// Relies on `Instant::now`: a reading of the monotonic clock. Nothing is
/// known of its value.
#[verifier::external_body]
pub(crate) fn now() -> Instant {
    Instant::now()
}

/// Relies on `Instant::saturating_duration_since`: the time from `earlier`
/// to `later`, zero where `later` is the earlier of the two.
#[verifier::external_body]
pub(crate) fn time_between(later: &Instant, earlier: &Instant) -> Duration {
    later.saturating_duration_since(*earlier)
}

/// Relies on `Duration::as_micros`: the whole microseconds of a span.
#[verifier::external_body]
pub(crate) fn whole_micros(d: &Duration) -> u128 {
    d.as_micros()
}

} // verus!
