//! Spans of time with nanosecond resolution.
use vstd::prelude::*;

verus! {

/// Nanoseconds in one second.
pub const NANOS_PER_SEC: u32 = 1_000_000_000;

/// Nanoseconds in one millisecond.
pub const NANOS_PER_MILLI: u32 = 1_000_000;

/// Nanoseconds in one microsecond.
pub const NANOS_PER_MICRO: u32 = 1_000;

/// A span of time: whole seconds and a fraction of a second in nanoseconds.
///
/// The view of a `Duration` is its length in nanoseconds.
#[derive(Clone, Copy, Debug, PartialEq, Eq, Structural)]
pub struct Duration {
    secs: u64,
    nanos: u32,
}

impl View for Duration {
    type V = nat;

    closed spec fn view(&self) -> nat {
        (self.secs as nat) * (NANOS_PER_SEC as nat) + (self.nanos as nat)
    }
}

impl Duration {
    #[verifier::type_invariant]
    spec fn subsec_in_range(self) -> bool {
        self.nanos < NANOS_PER_SEC
    }

    /// A span of `secs` seconds and `nanos` nanoseconds. Whole seconds in
    /// `nanos` carry over into the seconds.
    pub fn new(secs: u64, nanos: u32) -> (d: Self)
        requires
            secs + nanos / NANOS_PER_SEC <= u64::MAX,
        ensures
            d@ == secs * NANOS_PER_SEC + nanos,
    {
        let carry: u32 = nanos / NANOS_PER_SEC;
        let rest: u32 = nanos % NANOS_PER_SEC;
        Duration { secs: secs + carry as u64, nanos: rest }
    }

    /// A span of `secs` whole seconds.
    pub fn from_secs(secs: u64) -> (d: Self)
        ensures
            d@ == secs * NANOS_PER_SEC,
    {
        Duration { secs, nanos: 0 }
    }

    /// A span of `millis` milliseconds.
    pub fn from_millis(millis: u64) -> (d: Self)
        ensures
            d@ == millis * NANOS_PER_MILLI,
    {
        let rest: u32 = (millis % 1_000) as u32;
        Duration { secs: millis / 1_000, nanos: rest * NANOS_PER_MILLI }
    }

    /// A span of `micros` microseconds.
    pub fn from_micros(micros: u64) -> (d: Self)
        ensures
            d@ == micros * NANOS_PER_MICRO,
    {
        let rest: u32 = (micros % 1_000_000) as u32;
        Duration { secs: micros / 1_000_000, nanos: rest * NANOS_PER_MICRO }
    }

    /// A span of `nanos` nanoseconds.
    pub fn from_nanos(nanos: u64) -> (d: Self)
        ensures
            d@ == nanos,
    {
        let rest: u32 = (nanos % 1_000_000_000) as u32;
        Duration { secs: nanos / 1_000_000_000, nanos: rest }
    }

    /// Whether the span is empty.
    pub fn is_zero(&self) -> (zero: bool)
        ensures
            zero == (self@ == 0),
    {
        self.secs == 0 && self.nanos == 0
    }

    /// The whole seconds of the span.
    pub fn as_secs(&self) -> (secs: u64)
        ensures
            secs == self@ / (NANOS_PER_SEC as nat),
    {
        proof {
            use_type_invariant(self);
        }
        self.secs
    }

    /// The part of the span below one second, in nanoseconds.
    pub fn subsec_nanos(&self) -> (nanos: u32)
        ensures
            nanos == self@ % (NANOS_PER_SEC as nat),
    {
        proof {
            use_type_invariant(self);
        }
        self.nanos
    }

    /// The part of the span below one second, in whole milliseconds.
    pub fn subsec_millis(&self) -> (millis: u32)
        ensures
            millis == (self@ % (NANOS_PER_SEC as nat)) / (NANOS_PER_MILLI as nat),
    {
        proof {
            use_type_invariant(self);
        }
        self.nanos / NANOS_PER_MILLI
    }

    /// The span in whole milliseconds.
    pub fn as_millis(&self) -> (millis: u128)
        ensures
            millis == self@ / (NANOS_PER_MILLI as nat),
    {
        proof {
            use_type_invariant(self);
        }
        let whole: u128 = self.secs as u128 * 1_000;
        whole + (self.nanos / NANOS_PER_MILLI) as u128
    }

    /// The span in nanoseconds.
    pub fn as_nanos(&self) -> (nanos: u128)
        ensures
            nanos == self@,
    {
        proof {
            use_type_invariant(self);
        }
        let whole: u128 = self.secs as u128 * 1_000_000_000;
        whole + self.nanos as u128
    }
}

} // verus!
