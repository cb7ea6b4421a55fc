//! The values that the native timer interfaces take for a timeout.
//!
//! Each platform counts time in its own unit and width. The functions here
//! compute, from a [`Duration`], the number that is handed to the platform;
//! making the call is left to the platform layer.
use crate::time::Duration;
use crate::time::NANOS_PER_MILLI;
use crate::time::NANOS_PER_SEC;
use vstd::arithmetic::div_mod::lemma_div_denominator;
use vstd::prelude::*;

verus! {

/// Seconds and nanoseconds, as POSIX timers and `timerfd` take them.
#[derive(Clone, Copy, Debug, PartialEq, Eq, Structural)]
pub struct Timespec {
    /// Whole seconds.
    pub secs: i64,
    /// Nanoseconds below one second.
    pub nanos: i64,
}

/// The unit in which a `kqueue` timer counts.
#[derive(Clone, Copy, Debug, PartialEq, Eq, Structural)]
pub enum Unit {
    /// Nanoseconds.
    Nanoseconds,
    /// Microseconds.
    Microseconds,
    /// Milliseconds, the unit that `kqueue` takes when none is named.
    Milliseconds,
    /// Seconds.
    Seconds,
}

/// A timeout as a `kqueue` timer takes it: a count of units.
#[derive(Clone, Copy, Debug, PartialEq, Eq, Structural)]
pub struct Scaled {
    /// The unit.
    pub unit: Unit,
    /// How many of them.
    pub count: u128,
}

/// The finest unit in which `nanos` nanoseconds count to at most `limit`,
/// and the count in that unit, rounded down. Seconds are the coarsest unit
/// and are taken even where they exceed the limit.
pub open spec fn scaled(nanos: nat, limit: nat) -> (Unit, nat) {
    if nanos <= limit {
        (Unit::Nanoseconds, nanos)
    } else if nanos / 1_000 <= limit {
        (Unit::Microseconds, nanos / 1_000)
    } else if nanos / 1_000_000 <= limit {
        (Unit::Milliseconds, nanos / 1_000_000)
    } else {
        (Unit::Seconds, nanos / 1_000_000_000)
    }
}

/// The signed 64-bit number with the low 64 bits of `value`.
pub open spec fn wrapped(value: nat) -> int {
    let low = value % 0x1_0000_0000_0000_0000;
    if low < 0x8000_0000_0000_0000 {
        low as int
    } else {
        low - 0x1_0000_0000_0000_0000
    }
}

/// The timeout as seconds and nanoseconds.
pub fn timespec(timeout: &Duration) -> (time: Timespec)
    requires
        timeout@ / (NANOS_PER_SEC as nat) <= i64::MAX,
    ensures
        time.secs == timeout@ / (NANOS_PER_SEC as nat),
        time.nanos == timeout@ % (NANOS_PER_SEC as nat),
{
    Timespec { secs: timeout.as_secs() as i64, nanos: timeout.subsec_nanos() as i64 }
}

/// The timeout for a `kqueue` timer: in nanoseconds if that count fits the
/// signed machine word, else in the finest coarser unit that fits.
pub fn kqueue_delay(timeout: &Duration) -> (delay: Scaled)
    ensures
        (delay.unit, delay.count as nat) == scaled(timeout@, isize::MAX as nat),
        !(delay.unit is Seconds) ==> delay.count <= isize::MAX,
{
    let limit: u128 = isize::MAX as u128;
    let nanos: u128 = timeout.as_nanos();
    let mut unit = Unit::Nanoseconds;
    let mut count: u128 = nanos;
    if count > limit {
        unit = Unit::Microseconds;
        count = count / 1_000;
    }
    if count > limit {
        unit = Unit::Milliseconds;
        count = count / 1_000;
    }
    if count > limit {
        unit = Unit::Seconds;
        count = count / 1_000;
    }
    proof {
        lemma_div_denominator(nanos as int, 1_000, 1_000);
        lemma_div_denominator(nanos as int, 1_000_000, 1_000);
    }
    Scaled { unit, count }
}

/// The timeout as the due time of a Windows thread-pool timer: a relative
/// time is negative and counts intervals of 100 nanoseconds.
pub fn due_time(timeout: &Duration) -> (ticks: i64)
    requires
        timeout@ / (NANOS_PER_MILLI as nat) <= u32::MAX,
    ensures
        ticks == -(timeout@ / 100),
{
    let part: i64 = (timeout.subsec_nanos() / 100) as i64;
    let secs: u64 = timeout.as_secs();
    let whole: i64 = (secs * 10_000_000) as i64;
    -(part + whole)
}

/// The timeout in milliseconds as `setTimeout` takes it: the low 32 bits of
/// the count.
pub fn timeout_millis(timeout: &Duration) -> (millis: u32)
    ensures
        millis == (timeout@ / (NANOS_PER_MILLI as nat)) % 0x1_0000_0000,
{
    (timeout.as_millis() % 0x1_0000_0000) as u32
}

/// The timeout in nanoseconds as a dispatch source takes it: the low 64 bits
/// of the count, read as a signed number.
pub fn dispatch_delta(timeout: &Duration) -> (delta: i64)
    ensures
        delta == wrapped(timeout@),
{
    let low: u64 = (timeout.as_nanos() % 0x1_0000_0000_0000_0000) as u64;
    if low < 0x8000_0000_0000_0000 {
        low as i64
    } else {
        let above: u64 = low - 0x8000_0000_0000_0000;
        i64::MIN + above as i64
    }
}

} // verus!
