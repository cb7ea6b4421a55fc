//! The timer whose expiry a native callback reports.
use crate::poll::Poll;
use crate::state::TimerState;
use crate::task::share;
use crate::time::Duration;
use crate::timer::poll_state;
use crate::timer::Phase;
use crate::timer::SyncTimer;
use crate::timer::Timer;
use core::task::Waker;
use std::sync::Arc;
use vstd::prelude::*;

verus! {

/// What the platform has to do to the native timer.
#[derive(Clone, Copy, Debug, PartialEq, Eq, Structural)]
pub enum Command {
    /// Nothing.
    Idle,
    /// Make the native timer if there is none yet, bound to the timer's
    /// state, and let it call back once after this time.
    Arm(Duration),
    /// Stop the native timer: it must not call back any more.
    Disarm,
}

/// The platform-independent half of a callback timer.
///
/// It owns the [`TimerState`], decides when the native timer is armed and
/// stopped, and leaves the arming itself to the platform: after each call the
/// platform takes the pending [`Command`] and carries it out. The native
/// callback reports an expiry by calling [`TimerState::wake`] on the timer's
/// state.
pub struct PlatformTimer {
    timeout: Duration,
    shared: Option<Arc<TimerState>>,
    expired: bool,
    command: Command,
}

impl PlatformTimer {
    #[verifier::type_invariant]
    spec fn well_formed(self) -> bool {
        &&& self.timeout@ > 0
        &&& self.shared is None ==> !self.expired && self.command is Idle
        &&& self.command matches Command::Arm(time) ==> time@ > 0
    }

    /// The command that waits for the platform.
    pub closed spec fn pending(&self) -> Command {
        self.command
    }

    /// The state that the native callback reports to, once the timer was
    /// armed.
    pub closed spec fn shared(&self) -> Option<Arc<TimerState>> {
        self.shared
    }

    /// A timer that will run for `timeout` from its first poll on.
    pub fn new(timeout: Duration) -> (timer: Self)
        requires
            timeout@ > 0,
        ensures
            timer.phase() == Phase::Init,
            timer.timeout() == timeout,
            timer.pending() == Command::Idle,
            timer.shared() is None,
    {
        PlatformTimer { timeout, shared: None, expired: false, command: Command::Idle }
    }

    /// Hands the pending command to the platform, and leaves none pending.
    pub fn take_command(&mut self) -> (command: Command)
        ensures
            command == old(self).pending(),
            command matches Command::Arm(time) ==> time@ > 0,
            final(self).pending() == Command::Idle,
            final(self).phase() == old(self).phase(),
            final(self).timeout() == old(self).timeout(),
            final(self).shared() == old(self).shared(),
    {
        proof {
            use_type_invariant(&*self);
        }
        let command = self.command;
        self.command = Command::Idle;
        command
    }

    /// Where the timer stands, as far as its owner has seen.
    pub fn current_phase(&self) -> (phase: Phase)
        ensures
            phase == self.phase(),
    {
        match &self.shared {
            None => Phase::Init,
            Some(_) => if self.expired {
                Phase::Expired
            } else {
                Phase::Running
            },
        }
    }

    /// The timeout that the timer was last given.
    pub fn current_timeout(&self) -> (timeout: Duration)
        ensures
            timeout == self.timeout(),
            timeout@ > 0,
    {
        proof {
            use_type_invariant(self);
        }
        self.timeout
    }

    /// The state that the native callback reports to: `None` until the timer
    /// is armed for the first time.
    pub fn state(&self) -> (state: Option<Arc<TimerState>>)
        ensures
            state == self.shared(),
            state is None <==> self.phase() is Init,
    {
        match &self.shared {
            Some(state) => Some(share(state)),
            None => None,
        }
    }

    /// Arms the timer if it was not armed, and calls `init` on its state. On
    /// the call that arms the timer, `init` runs twice, and both times before
    /// the command to arm is left for the platform.
    fn with_state<R, F: Fn(&TimerState) -> R>(&mut self, init: F) -> (r: R)
        requires
            forall|state: &TimerState| #[trigger] init.requires((state,)),
        ensures
            final(self).timeout == old(self).timeout,
            final(self).expired == old(self).expired,
            old(self).shared is None ==> final(self).command == Command::Arm(old(self).timeout),
            old(self).shared is Some ==> final(self).command == old(self).command,
            old(self).shared is Some ==> final(self).shared == old(self).shared,
            final(self).shared matches Some(state) && init.ensures((&*state,), r),
    {
        proof {
            use_type_invariant(&*self);
        }
        match &self.shared {
            Some(state) => init(&**state),
            None => {
                let state = Arc::new(TimerState::new());
                let _ = init(&*state);
                let r = init(&*state);
                self.shared = Some(state);
                self.command = Command::Arm(self.timeout);
                r
            },
        }
    }
}

impl Timer for PlatformTimer {
    closed spec fn phase(&self) -> Phase {
        match self.shared {
            None => Phase::Init,
            Some(_) => if self.expired {
                Phase::Expired
            } else {
                Phase::Running
            },
        }
    }

    closed spec fn timeout(&self) -> Duration {
        self.timeout
    }

    fn new(timeout: Duration) -> (timer: Self)
        ensures
            timer.pending() == Command::Idle,
            timer.shared() is None,
    {
        PlatformTimer::new(timeout)
    }

    fn is_ticking(&self) -> (ticking: bool) {
        match &self.shared {
            None => false,
            Some(state) => crate::timer::ticking(self.current_phase(), state.is_done()),
        }
    }

    fn is_expired(&self) -> (expired: bool) {
        proof {
            use_type_invariant(self);
        }
        match &self.shared {
            None => false,
            Some(state) => crate::timer::seen(true, self.expired, state.is_done()),
        }
    }

    fn restart(&mut self, timeout: Duration)
        ensures
            final(self).shared() == old(self).shared(),
            final(self).pending() == (if old(self).phase() is Init {
                Command::Idle
            } else {
                Command::Arm(timeout)
            }),
    {
        proof {
            use_type_invariant(&*self);
        }
        self.timeout = timeout;
        match &self.shared {
            None => {},
            Some(state) => {
                state.reset();
                self.expired = false;
                self.command = Command::Arm(timeout);
            },
        }
    }

    fn restart_ctx(&mut self, timeout: Duration, waker: &Waker)
        ensures
            final(self).shared() == old(self).shared(),
            final(self).pending() == (if old(self).phase() is Init {
                Command::Idle
            } else {
                Command::Arm(timeout)
            }),
    {
        proof {
            use_type_invariant(&*self);
        }
        self.timeout = timeout;
        match &self.shared {
            None => {},
            Some(state) => {
                state.register(waker);
                state.reset();
                self.expired = false;
                self.command = Command::Arm(timeout);
            },
        }
    }

    fn cancel(&mut self)
        ensures
            final(self).shared() == old(self).shared(),
            final(self).pending() == (if old(self).phase() is Init {
                Command::Idle
            } else {
                Command::Disarm
            }),
    {
        proof {
            use_type_invariant(&*self);
        }
        match &self.shared {
            None => {},
            Some(state) => {
                state.cancel();
                self.expired = true;
                self.command = Command::Disarm;
            },
        }
    }

    fn poll(&mut self, waker: &Waker) -> (poll: Poll<()>)
        ensures
            old(self).phase() is Init ==> final(self).pending() == Command::Arm(
                old(self).timeout(),
            ),
            !(old(self).phase() is Init) ==> final(self).pending() == old(self).pending()
                && final(self).shared() == old(self).shared(),
    {
        proof {
            use_type_invariant(&*self);
        }
        let armed = self.shared.is_some();
        let read = self.with_state(
            |state: &TimerState| -> (poll: Poll<()>) { poll_state(state, waker) },
        );
        proof {
            use_type_invariant(&*self);
        }
        self.expired = crate::timer::seen(armed, self.expired, read.is_ready());
        crate::timer::answer(self.expired)
    }
}

impl SyncTimer for PlatformTimer {
    fn init<R, F: Fn(&TimerState) -> R>(&mut self, init: F) -> (r: R)
        ensures
            old(self).phase() is Init ==> final(self).pending() == Command::Arm(
                old(self).timeout(),
            ),
            !(old(self).phase() is Init) ==> final(self).pending() == old(self).pending()
                && final(self).shared() == old(self).shared(),
            final(self).shared() matches Some(state) && init.ensures((&*state,), r),
    {
        proof {
            use_type_invariant(&*self);
        }
        self.with_state(init)
    }

    fn tick(&mut self) -> (expired: bool)
        ensures
            expired <==> final(self).phase() is Expired,
            old(self).phase() is Expired ==> expired,
            old(self).phase() is Init ==> !expired && final(self).phase() is Running,
            old(self).phase() is Init ==> final(self).pending() == Command::Arm(
                old(self).timeout(),
            ),
            !(old(self).phase() is Init) ==> final(self).pending() == old(self).pending()
                && final(self).shared() == old(self).shared(),
    {
        proof {
            use_type_invariant(&*self);
        }
        let armed = self.shared.is_some();
        let done = self.with_state(|state: &TimerState| -> (done: bool) { state.is_done() });
        proof {
            use_type_invariant(&*self);
        }
        self.expired = crate::timer::seen(armed, self.expired, done);
        self.expired
    }
}

} // verus!
