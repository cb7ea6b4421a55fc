//! The periodic timer.
use crate::poll::Poll;
use crate::state::TimerState;
use crate::time::Duration;
use crate::timer::armed_from;
use crate::timer::Command;
use crate::timer::Phase;
use crate::timer::Platform;
use crate::timer::Timer;
use core::task::Waker;
use std::sync::Arc;
use vstd::prelude::*;

verus! {

/// A timer that starts over each time it expires.
///
/// Each poll that finds the timer expired restarts it for `interval` before
/// it answers, so that between two expiries the timer is always armed.
#[must_use]
pub struct Interval<T = Platform> {
    timer: T,
    /// The time between two expiries. A change takes effect at the next
    /// restart, not on the run that is under way.
    pub interval: Duration,
}

impl Interval<Platform> {
    /// An interval on the default timer.
    pub fn platform_new(interval: Duration) -> (made: Self)
        requires
            interval@ > 0,
        ensures
            made.period() == interval,
            made.timer().phase() == Phase::Init,
            made.timer().timeout() == interval,
    {
        Interval::<Platform>::new(interval)
    }

    /// Hands the pending command of the timer to the platform.
    pub fn take_command(&mut self) -> (command: Command)
        ensures
            command == old(self).timer().pending(),
            command matches Command::Arm(time) ==> time@ > 0,
            final(self).period() == old(self).period(),
            final(self).timer().pending() == Command::Idle,
            final(self).timer().phase() == old(self).timer().phase(),
            final(self).timer().timeout() == old(self).timer().timeout(),
            final(self).timer().shared() == old(self).timer().shared(),
    {
        self.timer.take_command()
    }

    /// The state that the native callback of the timer reports to: `None`
    /// until the timer is armed for the first time.
    pub fn state(&self) -> (state: Option<Arc<TimerState>>)
        ensures
            state == self.timer().shared(),
            state is None <==> self.timer().phase() is Init,
    {
        self.timer.state()
    }
}

impl<T: Timer> Interval<T> {
    /// The timer that the interval runs on.
    pub closed spec fn timer(&self) -> T {
        self.timer
    }

    /// What the field `interval` holds.
    pub closed spec fn period(&self) -> Duration {
        self.interval
    }

    /// An interval on a timer of type `T`. Nothing runs before the first
    /// poll.
    pub fn new(interval: Duration) -> (made: Self)
        requires
            interval@ > 0,
        ensures
            made.period() == interval,
            made.timer().phase() == Phase::Init,
            made.timer().timeout() == interval,
    {
        Interval { timer: T::new(interval), interval }
    }

    /// The time between two expiries, as the field `interval` holds it.
    pub fn current_period(&self) -> (interval: Duration)
        ensures
            interval == self.period(),
    {
        self.interval
    }

    /// Changes the time between two expiries. The run that is under way goes
    /// on as it is: the new time is used from the next restart on.
    pub fn set_period(&mut self, interval: Duration)
        requires
            interval@ > 0,
        ensures
            final(self).period() == interval,
            final(self).timer() == old(self).timer(),
    {
        self.interval = interval;
    }

    /// Stops the interval.
    pub fn cancel(&mut self)
        ensures
            final(self).period() == old(self).period(),
            final(self).timer().timeout() == old(self).timer().timeout(),
            final(self).timer().phase() == armed_from(old(self).timer().phase(), Phase::Expired),
    {
        self.timer.cancel()
    }

    /// Starts the interval over, with the time that `interval` holds now.
    pub fn restart(&mut self)
        requires
            old(self).period()@ > 0,
        ensures
            final(self).period() == old(self).period(),
            final(self).timer().timeout() == old(self).period(),
            final(self).timer().phase() == armed_from(old(self).timer().phase(), Phase::Running),
    {
        let interval = self.interval;
        self.timer.restart(interval);
    }

    /// The interval itself, as what to poll for the next expiry.
    pub fn wait(&mut self) -> (next: &mut Self)
        ensures
            *next == *old(self),
            *final(self) == *final(next),
    {
        self
    }

    /// Polls for the next expiry. When the timer has expired it is restarted
    /// for `interval` before the answer is given, so after every poll the
    /// timer is running.
    pub fn poll(&mut self, waker: &Waker) -> (poll: Poll<()>)
        requires
            old(self).period()@ > 0,
        ensures
            final(self).period() == old(self).period(),
            final(self).timer().phase() == Phase::Running,
            final(self).timer().timeout() == (if poll is Ready {
                old(self).period()
            } else {
                old(self).timer().timeout()
            }),
            old(self).timer().phase() is Expired ==> poll is Ready,
            old(self).timer().phase() is Init ==> poll is Pending,
    {
        match self.timer.poll(waker) {
            Poll::Ready(()) => {
                self.restart();
                Poll::Ready(())
            },
            Poll::Pending => Poll::Pending,
        }
    }
}

} // verus!
