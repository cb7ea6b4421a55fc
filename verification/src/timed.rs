//! The deadline on a piece of work.
//!
//! [`Timed`] races work against a timer. The work is not held here: each
//! poll is handed the answer of the work, or the means to ask for it, and
//! decides. When the timer wins, the poll yields an [`Expired`], which on its
//! own poll restarts the timer and gives the `Timed` back, ready to race
//! again.
use crate::poll::Poll;
use crate::state::TimerState;
use crate::text::decimal;
use crate::text::push_decimal;
use crate::time::Duration;
use crate::time::NANOS_PER_MILLI;
use crate::time::NANOS_PER_SEC;
use crate::timer::armed_from;
use crate::timer::Command;
use crate::timer::Phase;
use crate::timer::Platform;
use crate::timer::Timer;
use core::task::Waker;
use std::sync::Arc;
use vstd::prelude::*;

verus! {

/// The timer of a race and the timeout that each round of it gets.
struct Race<T> {
    timer: T,
    timeout: Duration,
}

impl<T> Race<T> {
    #[verifier::type_invariant]
    spec fn has_timeout(self) -> bool {
        self.timeout@ > 0
    }
}

/// A limit on the time that a piece of work may take.
///
/// The view of a `Timed` is its timer and its timeout, or `None` once the
/// timer has won and they went into the [`Expired`].
#[must_use]
pub struct Timed<T = Platform> {
    state: Option<Race<T>>,
}

/// What a [`Timed`] yields when the timer wins: the timer that has expired
/// and the timeout, to be polled for the next round.
///
/// The view of an `Expired` is its timer and its timeout, or `None` once it
/// was polled and they went into the new [`Timed`].
#[must_use]
pub struct Expired<T>(Option<Race<T>>);

impl<T> View for Timed<T> {
    type V = Option<(T, Duration)>;

    closed spec fn view(&self) -> Option<(T, Duration)> {
        match self.state {
            Some(race) => Some((race.timer, race.timeout)),
            None => None,
        }
    }
}

impl<T> View for Expired<T> {
    type V = Option<(T, Duration)>;

    closed spec fn view(&self) -> Option<(T, Duration)> {
        match self.0 {
            Some(race) => Some((race.timer, race.timeout)),
            None => None,
        }
    }
}

impl Timed<Platform> {
    /// A limit of `timeout` on the default timer.
    pub fn platform_new(timeout: Duration) -> (made: Self)
        requires
            timeout@ > 0,
        ensures
            made.fresh(timeout),
    {
        Timed::<Platform>::new(timeout)
    }

    /// Hands the pending command of the timer to the platform. Without a
    /// timer there is none.
    pub fn take_command(&mut self) -> (command: Command)
        ensures
            match old(self)@ {
                None => command == Command::Idle && final(self)@ is None,
                Some(race) => {
                    &&& command == race.0.pending()
                    &&& final(self)@ matches Some(next)
                    &&& next.0.pending() == Command::Idle
                    &&& next.0.phase() == race.0.phase()
                    &&& next.0.timeout() == race.0.timeout()
                    &&& next.0.shared() == race.0.shared()
                    &&& next.1 == race.1
                },
            },
            command matches Command::Arm(time) ==> time@ > 0,
    {
        match self.state.take() {
            None => Command::Idle,
            Some(race) => {
                proof {
                    use_type_invariant(&race);
                }
                let Race { timer, timeout } = race;
                let mut timer = timer;
                let command = timer.take_command();
                self.state = Some(Race { timer, timeout });
                command
            },
        }
    }

    /// The state that the native callback of the timer reports to: `None`
    /// without a timer and until the timer is armed for the first time.
    pub fn state(&self) -> (state: Option<Arc<TimerState>>)
        ensures
            match self@ {
                None => state is None,
                Some(race) => state == race.0.shared(),
            },
    {
        match &self.state {
            None => None,
            Some(race) => race.timer.state(),
        }
    }
}

impl<T: Timer> Timed<T> {
    /// Whether `self` is as `new` makes it for `timeout`: the timer is not
    /// armed and has the timeout of the race.
    pub open spec fn fresh(self, timeout: Duration) -> bool {
        &&& self@ matches Some(race)
        &&& race.0.phase() == Phase::Init
        &&& race.0.timeout() == timeout
        &&& race.1 == timeout
    }

    /// What one poll makes of `self` when the work answers `work`: `after` is
    /// the `Timed` that it leaves and `poll` its answer.
    ///
    /// Without a timer there is no race, and the poll is pending. With one,
    /// work that is done wins, whatever the timer says, and the timer is left
    /// as it is. Only if the work is pending is the timer polled: if it has
    /// expired, it goes into the `Expired` with the timeout, else the race
    /// goes on. The poll that arms the timer never finds it expired.
    pub open spec fn polled<O>(
        self,
        work: Poll<O>,
        after: Self,
        poll: Poll<Result<O, Expired<T>>>,
    ) -> bool {
        match self@ {
            None => after@ is None && poll is Pending,
            Some(race) => match work {
                Poll::Ready(output) => after@ == self@ && poll == Poll::Ready(
                    Ok::<O, Expired<T>>(output),
                ),
                Poll::Pending => match poll {
                    Poll::Pending => {
                        &&& !(race.0.phase() is Expired)
                        &&& after@ matches Some(next)
                        &&& next.0.phase() is Running
                        &&& next.0.timeout() == race.0.timeout()
                        &&& next.1 == race.1
                    },
                    Poll::Ready(Err(expired)) => {
                        &&& !(race.0.phase() is Init)
                        &&& after@ is None
                        &&& expired@ matches Some(next)
                        &&& next.0.phase() is Expired
                        &&& next.0.timeout() == race.0.timeout()
                        &&& next.1 == race.1
                    },
                    Poll::Ready(Ok(_)) => false,
                },
            },
        }
    }

    /// A limit of `timeout` on a timer of type `T`. Nothing runs before the
    /// first poll.
    pub fn new(timeout: Duration) -> (made: Self)
        requires
            timeout@ > 0,
        ensures
            made.fresh(timeout),
    {
        Timed { state: Some(Race { timer: T::new(timeout), timeout }) }
    }

    /// Whether there is a race to poll: `false` once the timer has won.
    pub fn is_active(&self) -> (active: bool)
        ensures
            active == (self@ is Some),
    {
        self.state.is_some()
    }

    /// One poll of the race, given the answer `work` of the work to this
    /// poll.
    pub fn poll_with<O>(&mut self, work: Poll<O>, waker: &Waker) -> (poll: Poll<
        Result<O, Expired<T>>,
    >)
        ensures
            old(self).polled(work, *final(self), poll),
    {
        match self.state.take() {
            None => Poll::Pending,
            Some(race) => {
                proof {
                    use_type_invariant(&race);
                }
                let Race { timer, timeout } = race;
                let mut timer = timer;
                match work {
                    Poll::Ready(output) => {
                        self.state = Some(Race { timer, timeout });
                        Poll::Ready(Ok(output))
                    },
                    Poll::Pending => match timer.poll(waker) {
                        Poll::Pending => {
                            self.state = Some(Race { timer, timeout });
                            Poll::Pending
                        },
                        Poll::Ready(()) => Poll::Ready(Err(Expired(Some(Race { timer, timeout })))),
                    },
                }
            },
        }
    }

    /// One poll of the race. The work is asked through `work`, first and only
    /// if there is a race; the answer is what `poll_with` makes of the answer
    /// of the work.
    pub fn poll<O, W: FnOnce() -> Poll<O>>(&mut self, work: W, waker: &Waker) -> (poll: Poll<
        Result<O, Expired<T>>,
    >)
        requires
            work.requires(()),
        ensures
            old(self)@ is None ==> final(self)@ is None && poll is Pending,
            old(self)@ is Some ==> exists|answer: Poll<O>| #[trigger]
                work.ensures((), answer) && old(self).polled(answer, *final(self), poll),
    {
        if self.state.is_some() {
            let answer = work();
            self.poll_with(answer, waker)
        } else {
            Poll::Pending
        }
    }
}

/// What an `Expired` says of itself: that it was polled already, or after
/// what time the timer won, in milliseconds below one second and in seconds
/// and milliseconds from there on.
pub open spec fn expiry_text(timeout: Option<Duration>) -> Seq<char> {
    match timeout {
        None => "Future is being re-tried."@,
        Some(time) => if time@ / (NANOS_PER_SEC as nat) == 0 {
            "Future expired in "@ + decimal(time@ / (NANOS_PER_MILLI as nat)) + " ms"@
        } else {
            "Future expired in "@ + decimal(time@ / (NANOS_PER_SEC as nat)) + " seconds and "@
                + decimal((time@ % (NANOS_PER_SEC as nat)) / (NANOS_PER_MILLI as nat)) + " ms"@
        },
    }
}

impl<T> Expired<T> {
    /// The timeout of the race, unless the `Expired` was polled already.
    pub open spec fn timeout(self) -> Option<Duration> {
        match self@ {
            Some(race) => Some(race.1),
            None => None,
        }
    }

    /// The text that describes the timeout.
    pub fn message(&self) -> (text: String)
        ensures
            text@ == expiry_text(self.timeout()),
    {
        let mut text = String::new();
        match &self.0 {
            None => {
                text.push_str("Future is being re-tried.");
            },
            Some(race) => {
                let secs: u64 = race.timeout.as_secs();
                text.push_str("Future expired in ");
                if secs == 0 {
                    push_decimal(&mut text, race.timeout.as_millis());
                } else {
                    push_decimal(&mut text, secs as u128);
                    text.push_str(" seconds and ");
                    push_decimal(&mut text, race.timeout.subsec_millis() as u128);
                }
                text.push_str(" ms");
            },
        }
        text
    }
}

impl<T: Timer> Expired<T> {
    /// What one poll makes of `self`: `after` is the `Expired` that it leaves
    /// and `poll` its answer.
    ///
    /// The timer is restarted with the timeout of the race and goes into a
    /// new `Timed`. An `Expired` that was polled before has nothing left and
    /// stays pending.
    pub open spec fn restarted(self, after: Self, poll: Poll<Timed<T>>) -> bool {
        &&& after@ is None
        &&& match self@ {
            None => poll is Pending,
            Some(race) => {
                &&& poll matches Poll::Ready(timed)
                &&& timed@ matches Some(next)
                &&& next.0.phase() == armed_from(race.0.phase(), Phase::Running)
                &&& next.0.timeout() == race.1
                &&& next.1 == race.1
            },
        }
    }

    /// Restarts the timer, with `waker` registered before it is armed, and
    /// gives back the `Timed` for the next round.
    pub fn poll(&mut self, waker: &Waker) -> (poll: Poll<Timed<T>>)
        ensures
            old(self).restarted(*final(self), poll),
    {
        match self.0.take() {
            Some(race) => {
                proof {
                    use_type_invariant(&race);
                }
                let Race { timer, timeout } = race;
                let mut timer = timer;
                timer.restart_ctx(timeout, waker);
                Poll::Ready(Timed { state: Some(Race { timer, timeout }) })
            },
            None => Poll::Pending,
        }
    }
}

/// Work that is done wins: when the work answers `Ready` in a poll, the poll
/// answers with the output of the work and leaves the timer alone, also when
/// the timer has expired at that moment.
pub proof fn lemma_work_wins<T: Timer, O>(
    before: Timed<T>,
    output: O,
    after: Timed<T>,
    poll: Poll<Result<O, Expired<T>>>,
)
    requires
        before@ is Some,
        before.polled(Poll::Ready(output), after, poll),
    ensures
        poll == Poll::Ready(Ok::<O, Expired<T>>(output)),
        after@ == before@,
{
}

/// A timeout never comes without the timer: a poll answers with an `Expired`
/// only when the work was pending, and the timer in the `Expired` has
/// expired.
pub proof fn lemma_timeout_is_real<T: Timer, O>(
    before: Timed<T>,
    work: Poll<O>,
    after: Timed<T>,
    poll: Poll<Result<O, Expired<T>>>,
)
    requires
        before.polled(work, after, poll),
        poll matches Poll::Ready(Err(_)),
    ensures
        work is Pending,
        after@ is None,
        poll matches Poll::Ready(Err(expired)) && expired@ matches Some(race)
            && race.0.phase() is Expired,
{
}

/// The round trip of a restart: when a poll of a `Timed` has yielded an
/// `Expired` and that is polled in turn, it yields a `Timed` whose timer is
/// running, not expired, with the timeout of the race, and the `Expired` is
/// used up.
pub proof fn lemma_restart_round_trip<T: Timer, O>(
    before: Timed<T>,
    work: Poll<O>,
    after: Timed<T>,
    expired: Expired<T>,
    spent: Expired<T>,
    poll: Poll<Timed<T>>,
)
    requires
        before.polled(work, after, Poll::Ready(Err::<O, Expired<T>>(expired))),
        expired.restarted(spent, poll),
    ensures
        spent@ is None,
        poll matches Poll::Ready(timed) && timed@ matches Some(race) && before@ matches Some(
            first,
        ) && race.0.phase() == Phase::Running && race.0.timeout() == first.1 && race.1
            == first.1,
{
}

} // verus!
