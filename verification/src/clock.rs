//! The monotonic clock.

use crate::time_span::TimeSpan;
use std::time::Duration;
use std::time::Instant;
use vstd::prelude::*;

verus! {

/// `std::time::Instant`: a reading of the monotonic clock. Nothing is known
/// of what it holds.
#[verifier::external_type_specification]
#[verifier::external_body]
pub struct ExInstant(Instant);

/// `std::time::Instant::now`: the present reading of the monotonic clock.
/// Nothing is claimed of the value.
pub assume_specification[ Instant::now ]() -> (now: Instant)
;

/// `std::time::Instant::elapsed`: the time that has passed since the
/// reading was taken. Nothing is claimed of the value.
pub assume_specification[ Instant::elapsed ](instant: &Instant) -> (elapsed: Duration)
;

/// `std::time::Duration::as_nanos`: the duration in nanoseconds. Nothing
/// is claimed of the value.
pub assume_specification[ Duration::as_nanos ](duration: &Duration) -> (nanos: u128)
;

/// A stopwatch on the monotonic clock: it reads the time that has passed
/// since it was started.
#[derive(Clone, Copy, Debug)]
pub struct Clock {
    origin: Instant,
}

impl Clock {
    /// A clock that starts now. Which instant that is, is the machine's to
    /// say: nothing is promised of it.
    pub fn start() -> (clock: Clock) {
        Clock { origin: Instant::now() }
    }

    /// The time since the clock was started, as the machine's monotonic
    /// clock gives it. A reading beyond the longest span is that span. What
    /// the clock reads depends on when it is asked: nothing is promised of
    /// the value.
    pub fn reading(&self) -> (elapsed: TimeSpan) {
        let elapsed: Duration = self.origin.elapsed();
        TimeSpan::from_nanos_saturating(elapsed.as_nanos())
    }
}

} // verus!
