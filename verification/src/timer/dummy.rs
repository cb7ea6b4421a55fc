//! The timer of a platform that has none.
use crate::time::Duration;
use vstd::prelude::*;

verus! {

/// A timer that cannot be armed. It stands in where the platform offers no
/// native timer: it can be made and asked, and it never ticks nor expires.
pub struct DummyTimer;

impl DummyTimer {
    /// A timer that never starts, whatever the timeout.
    pub fn new(_timeout: Duration) -> (timer: Self) {
        DummyTimer
    }

    /// Always `false`: the timer is never armed.
    pub fn is_ticking(&self) -> (ticking: bool)
        ensures
            !ticking,
    {
        false
    }

    /// Always `false`: the timer never expires.
    pub fn is_expired(&self) -> (expired: bool)
        ensures
            !expired,
    {
        false
    }
}

} // verus!
