//! Spans of time and readings of a monotonic clock, counted in nanoseconds.

use vstd::prelude::*;

verus! {

pub const NANOS_PER_MICRO: u128 = 1_000;

pub const NANOS_PER_MILLI: u128 = 1_000_000;

pub const NANOS_PER_SEC: u128 = 1_000_000_000;

/// A span of time.
///
/// The count is wide enough for every span that `std::time::Duration` can
/// hold, and for every sum of two of them.
#[derive(Debug, Clone, Copy, PartialEq, Eq, PartialOrd, Ord, Hash, Structural)]
pub struct Duration {
    pub nanos: u128,
}

/// A reading of a monotonic clock, as the time since some fixed origin.
#[derive(Debug, Clone, Copy, PartialEq, Eq, PartialOrd, Ord, Hash, Structural)]
pub struct Instant {
    pub nanos: u128,
}

/// What the clocks of the machine show at one moment.
#[derive(Debug, Clone, Copy, PartialEq, Eq, Structural)]
pub struct ClockReading {
    /// The monotonic clock, by which playback is timed.
    pub now: Instant,
    /// The calendar clock, in microseconds since the Unix epoch.
    pub unix_us: u64,
}

impl Default for Duration {
    fn default() -> (d: Self)
        ensures
            d == Duration::zero(),
    {
        Duration::zero()
    }
}

impl Duration {
    #[verifier::allow_in_spec]
    pub fn zero() -> Duration
        returns
            (Duration { nanos: 0 }),
    {
        Duration { nanos: 0 }
    }

    #[verifier::allow_in_spec]
    pub fn from_secs(secs: u64) -> Duration
        returns
            (Duration { nanos: (secs * NANOS_PER_SEC) as u128 }),
    {
        Duration { nanos: secs as u128 * NANOS_PER_SEC }
    }

    #[verifier::allow_in_spec]
    pub fn from_millis(millis: u64) -> Duration
        returns
            (Duration { nanos: (millis * NANOS_PER_MILLI) as u128 }),
    {
        Duration { nanos: millis as u128 * NANOS_PER_MILLI }
    }

    #[verifier::allow_in_spec]
    pub fn from_micros(micros: u64) -> Duration
        returns
            (Duration { nanos: (micros * NANOS_PER_MICRO) as u128 }),
    {
        Duration { nanos: micros as u128 * NANOS_PER_MICRO }
    }

    #[verifier::allow_in_spec]
    pub fn from_nanos(nanos: u64) -> Duration
        returns
            (Duration { nanos: nanos as u128 }),
    {
        Duration { nanos: nanos as u128 }
    }

    /// Whole seconds.
    #[verifier::allow_in_spec]
    pub fn as_secs(self) -> u128
        returns
            (self.nanos / NANOS_PER_SEC) as u128,
    {
        self.nanos / NANOS_PER_SEC
    }

    /// Whole seconds, cut to the low 64 bits.
    #[verifier::allow_in_spec]
    pub fn secs_u64(self) -> u64
        returns
            #[verifier::truncate] (self.as_secs() as u64),
    {
        #[verifier::truncate]
        (self.as_secs() as u64)
    }

    /// Whole milliseconds.
    #[verifier::allow_in_spec]
    pub fn as_millis(self) -> u128
        returns
            (self.nanos / NANOS_PER_MILLI) as u128,
    {
        self.nanos / NANOS_PER_MILLI
    }

    /// Whole microseconds.
    #[verifier::allow_in_spec]
    pub fn as_micros(self) -> u128
        returns
            (self.nanos / NANOS_PER_MICRO) as u128,
    {
        self.nanos / NANOS_PER_MICRO
    }

    /// Whole microseconds, cut to the low 64 bits.
    #[verifier::allow_in_spec]
    pub fn micros_u64(self) -> u64
        returns
            #[verifier::truncate] (self.as_micros() as u64),
    {
        #[verifier::truncate]
        (self.as_micros() as u64)
    }

    /// Whole microseconds, cut to a signed 64-bit count.
    #[verifier::allow_in_spec]
    pub fn micros_i64(self) -> i64
        returns
            #[verifier::truncate] (self.as_micros() as i64),
    {
        #[verifier::truncate]
        (self.as_micros() as i64)
    }

    #[verifier::allow_in_spec]
    pub fn is_zero(self) -> bool
        returns
            self.nanos == 0,
    {
        self.nanos == 0
    }

    /// `self < other`.
    #[verifier::allow_in_spec]
    pub fn before(self, other: Duration) -> bool
        returns
            self.nanos < other.nanos,
    {
        self.nanos < other.nanos
    }

    /// The sum, or the longest span where the sum is longer than that.
    #[verifier::allow_in_spec]
    pub fn saturating_add(self, other: Duration) -> Duration
        returns
            (Duration {
                nanos: (if self.nanos + other.nanos > u128::MAX {
                    u128::MAX as int
                } else {
                    self.nanos + other.nanos
                }) as u128,
            }),
    {
        Duration { nanos: self.nanos.saturating_add(other.nanos) }
    }

    /// The difference, or zero where `other` is longer.
    #[verifier::allow_in_spec]
    pub fn saturating_sub(self, other: Duration) -> Duration
        returns
            (Duration {
                nanos: (if self.nanos < other.nanos {
                    0
                } else {
                    self.nanos - other.nanos
                }) as u128,
            }),
    {
        Duration { nanos: self.nanos.saturating_sub(other.nanos) }
    }

    /// The distance between two spans, whichever is the longer.
    #[verifier::allow_in_spec]
    pub fn abs_diff(self, other: Duration) -> Duration
        returns
            (Duration {
                nanos: (if self.nanos < other.nanos {
                    other.nanos - self.nanos
                } else {
                    self.nanos - other.nanos
                }) as u128,
            }),
    {
        if self.nanos < other.nanos {
            Duration { nanos: other.nanos - self.nanos }
        } else {
            Duration { nanos: self.nanos - other.nanos }
        }
    }

    /// The shorter of two spans.
    #[verifier::allow_in_spec]
    pub fn shorter(self, other: Duration) -> Duration
        returns
            (if self.nanos <= other.nanos {
                self
            } else {
                other
            }),
    {
        if self.nanos <= other.nanos {
            self
        } else {
            other
        }
    }

    /// The longer of two spans.
    #[verifier::allow_in_spec]
    pub fn longer(self, other: Duration) -> Duration
        returns
            (if self.nanos <= other.nanos {
                other
            } else {
                self
            }),
    {
        if self.nanos <= other.nanos {
            other
        } else {
            self
        }
    }
}

impl Instant {
    #[verifier::allow_in_spec]
    pub fn from_nanos(nanos: u128) -> Instant
        returns
            (Instant { nanos }),
    {
        Instant { nanos }
    }

    /// `self < other`.
    #[verifier::allow_in_spec]
    pub fn before(self, other: Instant) -> bool
        returns
            self.nanos < other.nanos,
    {
        self.nanos < other.nanos
    }

    /// Time that has passed since `earlier`, or zero where `earlier` is later.
    #[verifier::allow_in_spec]
    pub fn duration_since(self, earlier: Instant) -> Duration
        returns
            (Duration {
                nanos: (if self.nanos < earlier.nanos {
                    0
                } else {
                    self.nanos - earlier.nanos
                }) as u128,
            }),
    {
        Duration { nanos: self.nanos.saturating_sub(earlier.nanos) }
    }

    /// The reading `span` later, or the last one that can be counted.
    #[verifier::allow_in_spec]
    pub fn after(self, span: Duration) -> Instant
        returns
            (Instant {
                nanos: (if self.nanos + span.nanos > u128::MAX {
                    u128::MAX as int
                } else {
                    self.nanos + span.nanos
                }) as u128,
            }),
    {
        Instant { nanos: self.nanos.saturating_add(span.nanos) }
    }

    /// The reading `span` later, where it can be counted.
    #[verifier::allow_in_spec]
    pub fn checked_add(self, span: Duration) -> Option<Instant>
        returns
            (if self.nanos + span.nanos > u128::MAX {
                None::<Instant>
            } else {
                Some(Instant { nanos: (self.nanos + span.nanos) as u128 })
            }),
    {
        match self.nanos.checked_add(span.nanos) {
            Some(nanos) => Some(Instant { nanos }),
            None => None,
        }
    }
}

} // verus!
