//! The one-shot delay.
use crate::poll::Poll;
use crate::state::TimerState;
use crate::time::Duration;
use crate::timer::Command;
use crate::timer::Phase;
use crate::timer::Platform;
use crate::timer::Timer;
use core::task::Waker;
use std::sync::Arc;
use vstd::prelude::*;

verus! {

/// A delay that is over some time after its first poll.
///
/// Making a delay starts nothing: the timer is made and armed by the first
/// poll. Once the timer has expired every poll answers `Ready`, and the timer
/// is not started again unless `restart` is called.
///
/// The view of a `Delay` is its timer, or `None` as long as it was not
/// polled.
#[must_use]
pub struct Delay<T = Platform> {
    timeout: Span,
    state: Option<T>,
}

/// A timeout that is known not to be zero.
struct Span {
    time: Duration,
}

impl Span {
    #[verifier::type_invariant]
    spec fn positive(self) -> bool {
        self.time@ > 0
    }
}

impl<T> View for Delay<T> {
    type V = Option<T>;

    closed spec fn view(&self) -> Option<T> {
        self.state
    }
}

impl Delay<Platform> {
    /// A delay of `timeout` on the default timer.
    pub fn platform_new(timeout: Duration) -> (made: Self)
        requires
            timeout@ > 0,
        ensures
            made@ is None,
            made.timeout() == timeout,
    {
        Delay::<Platform>::new(timeout)
    }

    /// Hands the pending command of the timer to the platform. Before the
    /// first poll there is none.
    pub fn take_command(&mut self) -> (command: Command)
        ensures
            final(self).timeout() == old(self).timeout(),
            match old(self)@ {
                None => command == Command::Idle && final(self)@ is None,
                Some(timer) => {
                    &&& command == timer.pending()
                    &&& final(self)@ matches Some(next)
                    &&& next.pending() == Command::Idle
                    &&& next.phase() == timer.phase()
                    &&& next.timeout() == timer.timeout()
                    &&& next.shared() == timer.shared()
                },
            },
            command matches Command::Arm(time) ==> time@ > 0,
    {
        match self.state.take() {
            None => Command::Idle,
            Some(timer) => {
                let mut timer = timer;
                let command = timer.take_command();
                self.state = Some(timer);
                command
            },
        }
    }

    /// The state that the native callback of the timer reports to: `None`
    /// before the first poll.
    pub fn state(&self) -> (state: Option<Arc<TimerState>>)
        ensures
            match self@ {
                None => state is None,
                Some(timer) => state == timer.shared(),
            },
    {
        match &self.state {
            None => None,
            Some(timer) => timer.state(),
        }
    }
}

impl<T> Delay<T> {
    /// The time between the first poll and the end of the delay.
    pub closed spec fn timeout(&self) -> Duration {
        self.timeout.time
    }
}

impl<T: Timer> Delay<T> {
    /// A delay of `timeout` on a timer of type `T`.
    pub fn new(timeout: Duration) -> (made: Self)
        requires
            timeout@ > 0,
        ensures
            made@ is None,
            made.timeout() == timeout,
    {
        Delay { timeout: Span { time: timeout }, state: None }
    }

    /// Starts the delay over, with `waker` to wake at its end. A delay that
    /// was never polled has nothing to start over and stays as it is.
    pub fn restart(&mut self, waker: &Waker)
        ensures
            final(self).timeout() == old(self).timeout(),
            match old(self)@ {
                None => final(self)@ is None,
                Some(timer) => {
                    &&& final(self)@ matches Some(next)
                    &&& next.phase() == (if timer.phase() is Init {
                        Phase::Init
                    } else {
                        Phase::Running
                    })
                    &&& next.timeout() == old(self).timeout()
                },
            },
    {
        proof {
            use_type_invariant(&self.timeout);
        }
        match self.state.take() {
            None => {},
            Some(timer) => {
                let mut timer = timer;
                timer.restart_ctx(self.timeout.time, waker);
                self.state = Some(timer);
            },
        }
    }

    /// Polls the delay. The first poll makes the timer and arms it; every
    /// poll tells whether the timer has expired.
    pub fn poll(&mut self, waker: &Waker) -> (poll: Poll<()>)
        ensures
            final(self).timeout() == old(self).timeout(),
            final(self)@ matches Some(timer) && timer.phase() == (if poll is Ready {
                Phase::Expired
            } else {
                Phase::Running
            }),
            match old(self)@ {
                None => {
                    &&& final(self)@ matches Some(timer) && timer.timeout() == old(self).timeout()
                    &&& poll is Pending
                },
                Some(before) => {
                    &&& final(self)@ matches Some(timer) && timer.timeout() == before.timeout()
                    &&& before.phase() is Expired ==> poll is Ready
                    &&& before.phase() is Init ==> poll is Pending
                },
            },
    {
        proof {
            use_type_invariant(&self.timeout);
        }
        let mut timer = match self.state.take() {
            None => T::new(self.timeout.time),
            Some(timer) => timer,
        };
        let poll = timer.poll(waker);
        self.state = Some(timer);
        poll
    }
}

} // verus!
