//! Time as the ban cache sees it: whole nanoseconds on a clock that the caller
//! reads.

use vstd::prelude::*;

verus! {

/// Nanoseconds in one second.
pub const NANOS_PER_SEC: u128 = 1_000_000_000;

/// Nanoseconds in one millisecond.
pub const NANOS_PER_MILLI: u128 = 1_000_000;

/// The longest span a [`Duration`] holds: `u64::MAX` seconds and `u32::MAX`
/// nanoseconds.
pub const MAX_NANOS: u128 = 18_446_744_073_709_551_615_000_000_000 + 4_294_967_295;

/// A span of time in whole nanoseconds, at most [`MAX_NANOS`].
#[derive(Clone, Copy, Debug, PartialEq, Eq, Structural)]
pub struct Duration {
    nanos: u128,
}

impl Duration {
    #[verifier::type_invariant]
    spec fn in_range(self) -> bool {
        self.nanos <= MAX_NANOS
    }

    /// The span in nanoseconds.
    pub closed spec fn nanos(self) -> nat {
        self.nanos as nat
    }

    /// `secs` seconds and `subsec_nanos` nanoseconds.
    pub fn new(secs: u64, subsec_nanos: u32) -> (d: Duration)
        ensures
            d.nanos() == secs * NANOS_PER_SEC + subsec_nanos,
    {
        Duration { nanos: (secs as u128) * NANOS_PER_SEC + (subsec_nanos as u128) }
    }

    /// `secs` seconds.
    pub fn from_secs(secs: u64) -> (d: Duration)
        ensures
            d.nanos() == secs * NANOS_PER_SEC,
    {
        Duration { nanos: (secs as u128) * NANOS_PER_SEC }
    }

    /// `millis` milliseconds.
    pub fn from_millis(millis: u64) -> (d: Duration)
        ensures
            d.nanos() == millis * NANOS_PER_MILLI,
    {
        Duration { nanos: (millis as u128) * NANOS_PER_MILLI }
    }

    /// The span in nanoseconds.
    pub fn as_nanos(&self) -> (n: u128)
        ensures
            n == self.nanos(),
            n <= MAX_NANOS,
    {
        proof {
            use_type_invariant(self);
        }
        self.nanos
    }
}

/// A reading of the caller's monotonic clock: the time that has passed since
/// the clock's origin, at most [`MAX_NANOS`] nanoseconds.
#[derive(Clone, Copy, Debug, PartialEq, Eq, Structural)]
pub struct Instant {
    nanos: u128,
}

impl Instant {
    #[verifier::type_invariant]
    spec fn in_range(self) -> bool {
        self.nanos <= MAX_NANOS
    }

    /// Nanoseconds since the clock's origin.
    pub closed spec fn nanos(self) -> nat {
        self.nanos as nat
    }

    /// The reading taken when `elapsed` has passed since the clock's origin.
    pub fn from_origin(elapsed: Duration) -> (t: Instant)
        ensures
            t.nanos() == elapsed.nanos(),
    {
        Instant { nanos: elapsed.as_nanos() }
    }

    /// Nanoseconds since the clock's origin.
    pub fn as_nanos(&self) -> (n: u128)
        ensures
            n == self.nanos(),
            n <= MAX_NANOS,
    {
        proof {
            use_type_invariant(self);
        }
        self.nanos
    }

    /// The reading `span` later, or `None` where that lies beyond
    /// [`MAX_NANOS`].
    pub fn checked_add(&self, span: Duration) -> (later: Option<Instant>)
        ensures
            later is Some <==> self.nanos() + span.nanos() <= MAX_NANOS,
            later is Some ==> later->0.nanos() == self.nanos() + span.nanos(),
    {
        let sum: u128 = self.as_nanos() + span.as_nanos();
        if sum <= MAX_NANOS {
            Some(Instant { nanos: sum })
        } else {
            None
        }
    }
}

} // verus!
