//! Spans of time in whole nanoseconds.

use vstd::prelude::*;

verus! {

/// Nanoseconds in one second.
pub const NANOS_PER_SEC: u64 = 1_000_000_000;

/// Nanoseconds in one millisecond.
pub const NANOS_PER_MILLI: u64 = 1_000_000;

/// A span of time, held as a whole number of nanoseconds.
///
/// The longest span is `u64::MAX` nanoseconds, a little over 584 years;
/// constructors that would exceed it saturate there.
#[derive(Clone, Copy, Debug, PartialEq, Eq, PartialOrd, Ord, Hash, Structural)]
pub struct TimeSpan {
    pub nanos: u64,
}

impl View for TimeSpan {
    type V = nat;

    /// The span as a number of nanoseconds.
    open spec fn view(&self) -> nat {
        self.nanos as nat
    }
}

/// `n`, or `u64::MAX` where `n` is larger.
pub open spec fn saturated(n: nat) -> nat {
    if n <= u64::MAX as nat {
        n
    } else {
        u64::MAX as nat
    }
}

/// The span of `nanos` nanoseconds, for `nanos` up to `u64::MAX`.
pub open spec fn span_of(nanos: nat) -> TimeSpan {
    TimeSpan { nanos: nanos as u64 }
}

impl TimeSpan {
    /// The empty span.
    pub fn zero() -> (span: TimeSpan)
        ensures
            span@ == 0,
    {
        TimeSpan { nanos: 0 }
    }

    /// The span of `nanos` nanoseconds.
    pub fn from_nanos(nanos: u64) -> (span: TimeSpan)
        ensures
            span@ == nanos,
    {
        TimeSpan { nanos }
    }

    /// The span of `nanos` nanoseconds, or the longest span where `nanos`
    /// does not fit.
    pub fn from_nanos_saturating(nanos: u128) -> (span: TimeSpan)
        ensures
            span@ == saturated(nanos as nat),
    {
        if nanos <= u64::MAX as u128 {
            TimeSpan { nanos: nanos as u64 }
        } else {
            TimeSpan { nanos: u64::MAX }
        }
    }

    /// The span of `millis` milliseconds, or the longest span where that
    /// does not fit.
    pub fn from_millis(millis: u64) -> (span: TimeSpan)
        ensures
            span@ == saturated(millis as nat * NANOS_PER_MILLI as nat),
    {
        match millis.checked_mul(NANOS_PER_MILLI) {
            Some(nanos) => TimeSpan { nanos },
            None => TimeSpan { nanos: u64::MAX },
        }
    }

    /// The span of `secs` seconds, or the longest span where that does not
    /// fit.
    pub open spec fn from_secs_spec(secs: u64) -> TimeSpan {
        span_of(saturated(secs as nat * NANOS_PER_SEC as nat))
    }

    /// The span of `secs` seconds, or the longest span where that does not
    /// fit.
    #[verifier::when_used_as_spec(from_secs_spec)]
    pub fn from_secs(secs: u64) -> (span: TimeSpan)
        ensures
            span == Self::from_secs_spec(secs),
            span@ == saturated(secs as nat * NANOS_PER_SEC as nat),
    {
        match secs.checked_mul(NANOS_PER_SEC) {
            Some(nanos) => TimeSpan { nanos },
            None => TimeSpan { nanos: u64::MAX },
        }
    }

    /// The whole span in nanoseconds.
    pub fn as_nanos(&self) -> (nanos: u64)
        ensures
            nanos == self@,
    {
        self.nanos
    }

    /// The whole milliseconds in the span.
    pub fn as_millis(&self) -> (millis: u64)
        ensures
            millis == self@ / NANOS_PER_MILLI as nat,
    {
        self.nanos / NANOS_PER_MILLI
    }

    /// The whole seconds in the span.
    pub fn as_secs(&self) -> (secs: u64)
        ensures
            secs == self@ / NANOS_PER_SEC as nat,
    {
        self.nanos / NANOS_PER_SEC
    }

    /// `self - earlier`, or the empty span where `earlier` is the longer.
    pub fn saturating_sub(&self, earlier: TimeSpan) -> (span: TimeSpan)
        ensures
            span@ == if self@ >= earlier@ {
                self@ - earlier@
            } else {
                0
            },
    {
        if self.nanos >= earlier.nanos {
            TimeSpan { nanos: self.nanos - earlier.nanos }
        } else {
            TimeSpan { nanos: 0 }
        }
    }

    /// The longer of the two spans.
    pub fn longer_of(&self, other: TimeSpan) -> (span: TimeSpan)
        ensures
            span@ == if self@ >= other@ {
                self@
            } else {
                other@
            },
    {
        if self.nanos >= other.nanos {
            *self
        } else {
            other
        }
    }
}

} // verus!
