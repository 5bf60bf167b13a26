//! Spans of time and points in time, counted in nanoseconds.
//!
//! The engine never reads a clock. Every entry point is handed the current
//! [`Instant`] by its caller, and every delay it asks for is a [`Duration`].

use vstd::prelude::*;

verus! {

/// Nanoseconds in one microsecond.
pub const NANOS_PER_MICRO: u128 = 1_000;

/// Nanoseconds in one millisecond.
pub const NANOS_PER_MILLI: u128 = 1_000_000;

/// Nanoseconds in one second.
pub const NANOS_PER_SEC: u128 = 1_000_000_000;

/// A span of time with nanosecond resolution.
#[derive(Clone, Copy, Debug, PartialEq, Eq, PartialOrd, Ord, Hash, Structural)]
pub struct Duration {
    /// The length of the span in nanoseconds.
    pub nanos: u128,
}

impl View for Duration {
    type V = nat;

    /// The length of the span in nanoseconds.
    open spec fn view(&self) -> nat {
        self.nanos as nat
    }
}

impl Duration {
    /// The number of whole microseconds in the span. Any remainder below one
    /// microsecond is dropped.
    pub open spec fn micros(self) -> nat {
        self@ / (NANOS_PER_MICRO as nat)
    }

    /// The span of `secs` whole seconds.
    pub open spec fn spec_from_secs(secs: u64) -> Duration {
        Duration { nanos: (secs * NANOS_PER_SEC) as u128 }
    }

    /// The span of `millis` whole milliseconds.
    pub open spec fn spec_from_millis(millis: u64) -> Duration {
        Duration { nanos: (millis * NANOS_PER_MILLI) as u128 }
    }

    /// The span of `micros` whole microseconds.
    pub open spec fn spec_from_micros(micros: u64) -> Duration {
        Duration { nanos: (micros * NANOS_PER_MICRO) as u128 }
    }

    /// The span of `nanos` nanoseconds.
    pub open spec fn spec_from_nanos(nanos: u64) -> Duration {
        Duration { nanos: nanos as u128 }
    }

    /// The span of `secs` whole seconds.
    pub fn from_secs(secs: u64) -> (d: Duration)
        ensures
            d == Self::spec_from_secs(secs),
            d@ == secs * NANOS_PER_SEC,
    {
        Duration { nanos: (secs as u128) * NANOS_PER_SEC }
    }

    /// The span of `millis` whole milliseconds.
    pub fn from_millis(millis: u64) -> (d: Duration)
        ensures
            d == Self::spec_from_millis(millis),
            d@ == millis * NANOS_PER_MILLI,
    {
        Duration { nanos: (millis as u128) * NANOS_PER_MILLI }
    }

    /// The span of `micros` whole microseconds.
    pub fn from_micros(micros: u64) -> (d: Duration)
        ensures
            d == Self::spec_from_micros(micros),
            d@ == micros * NANOS_PER_MICRO,
            d.micros() == micros,
    {
        Duration { nanos: (micros as u128) * NANOS_PER_MICRO }
    }

    /// The span of `nanos` nanoseconds.
    pub fn from_nanos(nanos: u64) -> (d: Duration)
        ensures
            d == Self::spec_from_nanos(nanos),
            d@ == nanos,
    {
        Duration { nanos: nanos as u128 }
    }

    /// The length of the span in nanoseconds.
    pub fn as_nanos(&self) -> (n: u128)
        ensures
            n == self@,
    {
        self.nanos
    }

    /// The number of whole microseconds in the span.
    pub fn as_micros(&self) -> (n: u128)
        ensures
            n == self.micros(),
    {
        self.nanos / NANOS_PER_MICRO
    }

    /// Whether the span is empty.
    pub fn is_zero(&self) -> (b: bool)
        ensures
            b == (self@ == 0),
    {
        self.nanos == 0
    }

    /// Whether this span is at most as long as `other`.
    pub fn le(&self, other: &Duration) -> (b: bool)
        ensures
            b == (self@ <= other@),
    {
        self.nanos <= other.nanos
    }

    /// The two spans laid end to end, or `None` where the sum cannot be held.
    pub fn checked_add(&self, other: Duration) -> (sum: Option<Duration>)
        ensures
            self@ + other@ <= u128::MAX ==> sum == Some(
                Duration { nanos: (self@ + other@) as u128 },
            ),
            self@ + other@ > u128::MAX ==> sum is None,
    {
        match self.nanos.checked_add(other.nanos) {
            Some(nanos) => Some(Duration { nanos }),
            None => None,
        }
    }
}

/// A [`Duration`] that is known not to be empty.
#[derive(Clone, Copy, Debug, PartialEq, Eq, PartialOrd, Ord, Hash)]
pub struct NonZeroDuration {
    d: Duration,
}

impl NonZeroDuration {
    /// What every value of this type meets: its span is not empty.
    #[verifier::type_invariant]
    spec fn nonzero(self) -> bool {
        self.d@ > 0
    }

    /// The span that this value holds.
    pub closed spec fn spec_get(self) -> Duration {
        self.d
    }

    /// Wraps `d`, or returns `None` where `d` is empty.
    pub fn new(d: Duration) -> (r: Option<NonZeroDuration>)
        ensures
            d@ == 0 ==> r is None,
            d@ != 0 ==> r is Some && r->0.spec_get() == d,
    {
        if d.nanos == 0 {
            None
        } else {
            Some(NonZeroDuration { d })
        }
    }

    /// The span that this value holds, which is never empty.
    pub fn get(self) -> (d: Duration)
        ensures
            d == self.spec_get(),
            d@ > 0,
    {
        proof {
            use_type_invariant(&self);
        }
        self.d
    }
}

/// A point in time: the nanoseconds that have passed since a fixed origin
/// chosen by whoever drives the engine.
#[derive(Clone, Copy, Debug, PartialEq, Eq, PartialOrd, Ord, Hash, Structural)]
pub struct Instant {
    /// Nanoseconds since the origin.
    pub nanos: u128,
}

impl View for Instant {
    type V = nat;

    /// Nanoseconds since the origin.
    open spec fn view(&self) -> nat {
        self.nanos as nat
    }
}

impl Default for Instant {
    /// The origin itself.
    fn default() -> (i: Instant)
        ensures
            i@ == 0,
    {
        Instant { nanos: 0 }
    }
}

impl Instant {
    /// The instant that lies `d` after this one. Only meaningful where
    /// `fits_after` holds.
    pub open spec fn spec_add(self, d: Duration) -> Instant {
        Instant { nanos: (self@ + d@) as u128 }
    }

    /// Whether the instant `d` after this one can be held.
    pub open spec fn fits_after(self, d: Duration) -> bool {
        self@ + d@ <= u128::MAX
    }

    /// The instant that lies `offset` after the origin.
    pub fn from_offset(offset: Duration) -> (i: Instant)
        ensures
            i@ == offset@,
    {
        Instant { nanos: offset.nanos }
    }

    /// The span from the origin to this instant.
    pub fn offset(&self) -> (d: Duration)
        ensures
            d@ == self@,
    {
        Duration { nanos: self.nanos }
    }

    /// The instant `d` after this one, or `None` where it cannot be held.
    pub fn checked_add(&self, d: Duration) -> (r: Option<Instant>)
        ensures
            self.fits_after(d) ==> r == Some(self.spec_add(d)),
            !self.fits_after(d) ==> r is None,
    {
        match self.nanos.checked_add(d.nanos) {
            Some(nanos) => Some(Instant { nanos }),
            None => None,
        }
    }

    /// Whether this instant is `other` or lies after it.
    pub fn ge(&self, other: &Instant) -> (b: bool)
        ensures
            b == (self@ >= other@),
    {
        self.nanos >= other.nanos
    }

    /// Whether this instant is `other` or lies before it.
    pub fn le(&self, other: &Instant) -> (b: bool)
        ensures
            b == (self@ <= other@),
    {
        self.nanos <= other.nanos
    }
}

} // verus!
