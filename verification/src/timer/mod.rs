//! One-shot timers.
//!
//! A timer is made with a timeout and does nothing until it is polled for the
//! first time. From then on it runs, and it expires when its native callback
//! reports so or when it is cancelled. A restart takes an armed timer back to
//! running; on a timer that was never armed it only replaces the timeout.
use crate::poll::Poll;
use crate::state::TimerState;
use crate::time::Duration;
use core::task::Waker;
use vstd::prelude::*;

pub mod dummy;
pub mod fd;
pub mod native;
pub mod platform;

pub use dummy::DummyTimer;
pub use fd::FdTimer;
pub use platform::Command;
pub use platform::PlatformTimer;

verus! {

/// Where a timer stands, as far as its owner has seen.
#[derive(Clone, Copy, Debug, PartialEq, Eq, Structural)]
pub enum Phase {
    /// Made and never polled: nothing native exists and no time elapses.
    Init,
    /// Armed, and not seen to have expired.
    Running,
    /// Seen to have expired, or cancelled.
    Expired,
}

/// The phase after a restart or a first poll of a timer in `phase`.
pub open spec fn armed_from(phase: Phase, to: Phase) -> Phase {
    if phase is Init {
        Phase::Init
    } else {
        to
    }
}

/// A one-shot timer.
pub trait Timer: Sized {
    /// Where the timer stands.
    spec fn phase(&self) -> Phase;

    /// The timeout that the timer was last given.
    spec fn timeout(&self) -> Duration;

    /// A timer that will run for `timeout` from its first poll on.
    fn new(timeout: Duration) -> (timer: Self)
        requires
            timeout@ > 0,
        ensures
            timer.phase() == Phase::Init,
            timer.timeout() == timeout,
    ;

    /// Whether the timer is armed and has not expired.
    fn is_ticking(&self) -> (ticking: bool)
        ensures
            !(self.phase() is Running) ==> !ticking,
    ;

    /// Whether the timer has expired.
    fn is_expired(&self) -> (expired: bool)
        ensures
            self.phase() is Init ==> !expired,
            self.phase() is Expired ==> expired,
    ;

    /// Gives the timer a new timeout. A timer that was armed runs again, for
    /// the new timeout; one that was not stays unarmed.
    fn restart(&mut self, timeout: Duration)
        requires
            timeout@ > 0,
        ensures
            final(self).timeout() == timeout,
            final(self).phase() == armed_from(old(self).phase(), Phase::Running),
    ;

    /// As `restart`, and `waker` is registered before the timer is armed
    /// again, so that no expiry can go unnoticed.
    fn restart_ctx(&mut self, timeout: Duration, waker: &Waker)
        requires
            timeout@ > 0,
        ensures
            final(self).timeout() == timeout,
            final(self).phase() == armed_from(old(self).phase(), Phase::Running),
    ;

    /// Stops the timer. A timer that was armed counts as expired from now on.
    fn cancel(&mut self)
        ensures
            final(self).timeout() == old(self).timeout(),
            final(self).phase() == armed_from(old(self).phase(), Phase::Expired),
    ;

    /// Arms the timer if it was not armed, registers `waker`, and tells
    /// whether the timer has expired.
    fn poll(&mut self, waker: &Waker) -> (poll: Poll<()>)
        ensures
            final(self).timeout() == old(self).timeout(),
            final(self).phase() == (if poll is Ready {
                Phase::Expired
            } else {
                Phase::Running
            }),
            old(self).phase() is Expired ==> poll is Ready,
            old(self).phase() is Init ==> poll is Pending,
    ;
}

/// A timer that needs no event loop: a native callback reports its expiry to
/// a [`TimerState`] that the timer owns.
pub trait SyncTimer: Timer {
    /// Arms the timer if it was not armed, and calls `init` on its state. On
    /// the call that arms the timer, `init` runs once more before the timer is
    /// armed, so that what it registers is in place in time.
    fn init<R, F: Fn(&TimerState) -> R>(&mut self, init: F) -> (r: R)
        requires
            forall|state: &TimerState| #[trigger] init.requires((state,)),
        ensures
            final(self).timeout() == old(self).timeout(),
            final(self).phase() == (if old(self).phase() is Init {
                Phase::Running
            } else {
                old(self).phase()
            }),
            exists|state: &TimerState| #[trigger] init.ensures((state,), r),
    ;

    /// Arms the timer if it was not armed, and tells whether it has expired.
    fn tick(&mut self) -> (expired: bool)
        ensures
            final(self).timeout() == old(self).timeout(),
            !(final(self).phase() is Init),
            old(self).phase() is Running ==> final(self).phase() is Running
                || final(self).phase() is Expired,
    {
        self.init(|state: &TimerState| -> (done: bool) { state.is_done() })
    }
}

/// One poll of a timer's state: registers `waker` there, then reads the flag.
/// The waker is in place before the flag is read, so an expiry that the
/// answer misses finds the waker.
pub fn poll_state(state: &TimerState, waker: &Waker) -> (poll: Poll<()>) {
    state.register(waker);
    answer(state.is_done())
}

/// Polls a timer through its state: arms it if it was not armed, and polls
/// the state as `poll_state` does.
pub fn poll_sync<T: SyncTimer>(timer: &mut T, waker: &Waker) -> (poll: Poll<()>)
    ensures
        final(timer).timeout() == old(timer).timeout(),
        final(timer).phase() == (if old(timer).phase() is Init {
            Phase::Running
        } else {
            old(timer).phase()
        }),
{
    timer.init(|state: &TimerState| -> (poll: Poll<()>) { poll_state(state, waker) })
}

/// The timer that the primitives of this crate use by default.
pub type Platform = PlatformTimer;

/// The default timer among those that need no event loop.
pub type SyncPlatform = PlatformTimer;

/// A timer of the default kind, to run for `timeout` from its first poll on.
pub fn new_timer(timeout: Duration) -> (timer: Platform)
    requires
        timeout@ > 0,
    ensures
        timer.phase() == Phase::Init,
        timer.timeout() == timeout,
        timer.pending() == Command::Idle,
        timer.shared() is None,
{
    PlatformTimer::new(timeout)
}

/// A timer of the default kind that needs no event loop, to run for `timeout`
/// from its first tick or poll on.
pub fn new_sync_timer(timeout: Duration) -> (timer: SyncPlatform)
    requires
        timeout@ > 0,
    ensures
        timer.phase() == Phase::Init,
        timer.timeout() == timeout,
        timer.pending() == Command::Idle,
        timer.shared() is None,
{
    PlatformTimer::new(timeout)
}

/// The answer of a poll that read `done` from the flag of the timer's state.
pub open spec fn answer_of(done: bool) -> Poll<()> {
    if done {
        Poll::Ready(())
    } else {
        Poll::Pending
    }
}

/// Whether a timer in `phase` ticks when the flag of its state reads `done`:
/// it is armed, its owner has not seen it expire, and the flag is unset.
pub open spec fn ticks(phase: Phase, done: bool) -> bool {
    phase is Running && !done
}

/// Whether the owner of a timer has seen it expire after a call on it:
/// `armed` tells whether the timer was armed before the call, `expired`
/// whether its owner had seen it expire by then, and `done` what the call
/// read from the flag of its state. The call that arms the timer has seen
/// nothing: its state is new and no callback is bound to it yet.
pub open spec fn seen_of(armed: bool, expired: bool, done: bool) -> bool {
    armed && (expired || done)
}

/// Whether the owner of a timer has seen it expire, from what it knew before
/// and what was read from the flag of the timer's state.
pub fn seen(armed: bool, expired: bool, done: bool) -> (now: bool)
    ensures
        now == seen_of(armed, expired, done),
{
    armed && (expired || done)
}

/// The answer of a poll, from what it read from the flag of the timer's
/// state: ready if the flag was set, pending if not.
pub fn answer(done: bool) -> (poll: Poll<()>)
    ensures
        poll == answer_of(done),
{
    if done {
        Poll::Ready(())
    } else {
        Poll::Pending
    }
}

/// Whether a timer in `phase` ticks, from what was read from the flag of its
/// state.
pub fn ticking(phase: Phase, done: bool) -> (ticking: bool)
    ensures
        ticking == ticks(phase, done),
{
    match phase {
        Phase::Running => !done,
        _ => false,
    }
}

} // verus!
