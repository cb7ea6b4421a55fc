//! The one-shot interface in its plainest form, and the timer that never
//! expires.
use crate::poll::Poll;
use crate::time::Duration;
use core::task::Waker;
use vstd::prelude::*;

verus! {

/// A timer that expires once.
pub trait Oneshot: Sized {
    /// Whether the owner of the timer has seen it expire.
    spec fn done(&self) -> bool;

    /// A timer for `timeout` that starts with its first poll.
    fn new(timeout: Duration) -> (timer: Self)
        requires
            timeout@ > 0,
        ensures
            !timer.done(),
    ;

    /// Whether the timer runs.
    fn is_ticking(&self) -> (ticking: bool)
        ensures
            self.done() ==> !ticking,
    ;

    /// Whether the timer has expired.
    fn is_expired(&self) -> (expired: bool)
        ensures
            self.done() ==> expired,
    ;

    /// Stops the timer.
    fn cancel(&mut self)
    ;

    /// Starts the timer over with a new timeout.
    fn restart(&mut self, timeout: Duration)
        requires
            timeout@ > 0,
        ensures
            !final(self).done(),
    ;

    /// Starts the timer over with a new timeout and a new waker.
    fn restart_waker(&mut self, timeout: Duration, waker: &Waker)
        requires
            timeout@ > 0,
        ensures
            !final(self).done(),
    ;

    /// Starts the timer if it was not started, and tells whether it has
    /// expired.
    fn poll(&mut self, waker: &Waker) -> (poll: Poll<()>)
        ensures
            poll is Ready <==> final(self).done(),
            old(self).done() ==> poll is Ready,
    ;
}

/// The timer that never expires: it always ticks and every poll is pending.
pub struct NeverTimer;

impl Oneshot for NeverTimer {
    open spec fn done(&self) -> bool {
        false
    }

    fn new(_timeout: Duration) -> (timer: Self) {
        NeverTimer
    }

    fn is_ticking(&self) -> (ticking: bool)
        ensures
            ticking,
    {
        true
    }

    fn is_expired(&self) -> (expired: bool)
        ensures
            !expired,
    {
        false
    }

    fn cancel(&mut self) {
    }

    fn restart(&mut self, _timeout: Duration) {
    }

    fn restart_waker(&mut self, _timeout: Duration, _waker: &Waker) {
    }

    fn poll(&mut self, _waker: &Waker) -> (poll: Poll<()>)
        ensures
            poll is Pending,
    {
        Poll::Pending
    }
}

} // verus!
