//! The timer whose expiry is read from a descriptor.
//!
//! Timers such as `timerfd` and `kqueue` do not call back: their descriptor
//! becomes readable when the time is up, and the event loop tells. The
//! timer here decides what a poll does; watching the descriptor and reading
//! from it is left to the platform.
use crate::poll::Poll;
use crate::time::Duration;
use crate::timer::armed_from;
use crate::timer::Command;
use crate::timer::Phase;
use vstd::prelude::*;

verus! {

/// What the platform does next within one poll.
#[derive(Clone, Copy, Debug, PartialEq, Eq, Structural)]
pub enum Advice {
    /// Open the descriptor, set it to this time, and ask for advice again.
    Arm(Duration),
    /// Ask the event loop whether the descriptor is readable, with the waker
    /// of the poll. If it is not, the poll is pending. If it is, read the
    /// count of expirations and hand it to `on_read`.
    Watch,
    /// Answer `Ready`: the timer has expired.
    Done,
}

/// The platform-independent half of a descriptor timer.
pub struct FdTimer {
    timeout: Duration,
    phase: Phase,
    command: Command,
}

impl FdTimer {
    #[verifier::type_invariant]
    spec fn well_formed(self) -> bool {
        &&& self.timeout@ > 0
        &&& self.phase is Init ==> self.command is Idle
        &&& self.command matches Command::Arm(time) ==> time@ > 0
    }

    /// Where the timer stands.
    pub closed spec fn phase(&self) -> Phase {
        self.phase
    }

    /// The timeout that the timer was last given.
    pub closed spec fn timeout(&self) -> Duration {
        self.timeout
    }

    /// The command that waits for the platform.
    pub closed spec fn pending(&self) -> Command {
        self.command
    }

    /// A timer that will run for `timeout` from its first poll on.
    pub fn new(timeout: Duration) -> (timer: Self)
        requires
            timeout@ > 0,
        ensures
            timer.phase() == Phase::Init,
            timer.timeout() == timeout,
            timer.pending() == Command::Idle,
    {
        FdTimer { timeout, phase: Phase::Init, command: Command::Idle }
    }

    /// Where the timer stands.
    pub fn current_phase(&self) -> (phase: Phase)
        ensures
            phase == self.phase(),
    {
        self.phase
    }

    /// The timeout that the timer was last given.
    pub fn current_timeout(&self) -> (timeout: Duration)
        ensures
            timeout == self.timeout(),
            timeout@ > 0,
    {
        proof {
            use_type_invariant(self);
        }
        self.timeout
    }

    /// Whether the timer is armed and has not expired.
    pub fn is_ticking(&self) -> (ticking: bool)
        ensures
            ticking == (self.phase() is Running),
    {
        match self.phase {
            Phase::Running => true,
            _ => false,
        }
    }

    /// Whether the timer has expired.
    pub fn is_expired(&self) -> (expired: bool)
        ensures
            expired == (self.phase() is Expired),
    {
        match self.phase {
            Phase::Expired => true,
            _ => false,
        }
    }

    /// Gives the timer a new timeout. A timer that was armed runs again, for
    /// the new timeout, and the platform is told to set the descriptor; one
    /// that was not stays unarmed.
    pub fn restart(&mut self, timeout: Duration)
        requires
            timeout@ > 0,
        ensures
            final(self).timeout() == timeout,
            final(self).phase() == armed_from(old(self).phase(), Phase::Running),
            final(self).pending() == (if old(self).phase() is Init {
                Command::Idle
            } else {
                Command::Arm(timeout)
            }),
    {
        proof {
            use_type_invariant(&*self);
        }
        self.timeout = timeout;
        match self.phase {
            Phase::Init => {},
            _ => {
                self.phase = Phase::Running;
                self.command = Command::Arm(timeout);
            },
        }
    }

    /// Stops the timer. A timer that was armed counts as expired from now
    /// on, and the platform is told to unset the descriptor.
    pub fn cancel(&mut self)
        ensures
            final(self).timeout() == old(self).timeout(),
            final(self).phase() == armed_from(old(self).phase(), Phase::Expired),
            final(self).pending() == (if old(self).phase() is Init {
                Command::Idle
            } else {
                Command::Disarm
            }),
    {
        proof {
            use_type_invariant(&*self);
        }
        match self.phase {
            Phase::Init => {},
            _ => {
                self.phase = Phase::Expired;
                self.command = Command::Disarm;
            },
        }
    }

    /// Hands the pending command to the platform, and leaves none pending.
    pub fn take_command(&mut self) -> (command: Command)
        ensures
            command == old(self).pending(),
            command matches Command::Arm(time) ==> time@ > 0,
            final(self).pending() == Command::Idle,
            final(self).phase() == old(self).phase(),
            final(self).timeout() == old(self).timeout(),
    {
        proof {
            use_type_invariant(&*self);
        }
        let command = self.command;
        self.command = Command::Idle;
        command
    }

    /// The next thing to do in a poll. A timer that was never polled becomes
    /// running and is to be armed; a running one is to be watched; an expired
    /// one is done.
    pub fn advance(&mut self) -> (advice: Advice)
        ensures
            final(self).timeout() == old(self).timeout(),
            final(self).pending() == old(self).pending(),
            match old(self).phase() {
                Phase::Init => advice == Advice::Arm(old(self).timeout()) && final(self).phase()
                    == Phase::Running,
                Phase::Running => advice == Advice::Watch && final(self).phase()
                    == Phase::Running,
                Phase::Expired => advice == Advice::Done && final(self).phase()
                    == Phase::Expired,
            },
            advice matches Advice::Arm(time) ==> time@ > 0,
    {
        proof {
            use_type_invariant(&*self);
        }
        match self.phase {
            Phase::Init => {
                self.phase = Phase::Running;
                Advice::Arm(self.timeout)
            },
            Phase::Running => Advice::Watch,
            Phase::Expired => Advice::Done,
        }
    }

    /// The answer of a poll in which the descriptor was readable and `count`
    /// expirations were read from it. A count of zero means that nothing was
    /// there to read after all: the timer runs on. On a timer that does not
    /// run the count says nothing, and the answer goes by the phase alone.
    pub fn on_read(&mut self, count: usize) -> (poll: Poll<()>)
        ensures
            final(self).timeout() == old(self).timeout(),
            final(self).pending() == old(self).pending(),
            final(self).phase() == (if old(self).phase() is Running && count > 0 {
                Phase::Expired
            } else {
                old(self).phase()
            }),
            poll is Ready <==> final(self).phase() is Expired,
    {
        proof {
            use_type_invariant(&*self);
        }
        match self.phase {
            Phase::Init => Poll::Pending,
            Phase::Expired => Poll::Ready(()),
            Phase::Running => if count == 0 {
                Poll::Pending
            } else {
                self.phase = Phase::Expired;
                Poll::Ready(())
            },
        }
    }
}

} // verus!
