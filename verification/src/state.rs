//! State shared between a timer and the callback that fires it.
//!
//! [`AtomicWaker`] is a slot for one waker that the task fills and any thread
//! may empty, without locks that wait. [`TimerState`] adds the flag that says
//! whether the timer has fired. Each method is a sequence of atomic steps on
//! the cell, and after each step the decision of [`crate::handshake`] on what
//! the step saw. What the other threads did is not visible to the proofs, so
//! the methods are verified for every value that a step may see; what the
//! steps achieve together is proved of the model in [`crate::handshake`].
use crate::handshake::claim;
use crate::handshake::released;
use crate::handshake::wins_expiry;
use crate::handshake::wins_slot;
use crate::handshake::Claim;
use crate::handshake::REGISTERING;
use crate::handshake::WAITING;
use crate::handshake::WAKING;
use crate::task::slot_new;
use crate::task::slot_enter;
use crate::task::slot_swap;
use core::sync::atomic::AtomicBool;
use core::sync::atomic::AtomicU8;
use core::sync::atomic::Ordering;
use core::task::Waker;
use std::sync::Mutex;
use vstd::prelude::*;

verus! {

/// A slot for the waker of one task, safe to fill and to empty from any
/// thread.
pub struct AtomicWaker {
    state: AtomicU8,
    waker: Mutex<Option<Waker>>,
}

/// Puts `waker` into the slot and hands back what the slot held. The slot is
/// entered without waiting: the handshake lets one side in at a time, so the
/// entry is free. Were it not, the slot stays as it is, `waker` is dropped and
/// nothing comes back.
fn slot_replace(slot: &Mutex<Option<Waker>>, waker: Option<Waker>) -> Option<Waker> {
    match slot_enter(slot) {
        Some(held) => {
            let mut held = held;
            slot_swap(&mut held, waker)
        },
        None => None,
    }
}

/// Wakes `waker`, if there is one.
fn fire(waker: Option<Waker>) {
    match waker {
        Some(waker) => waker.wake(),
        None => {},
    }
}

impl AtomicWaker {
    /// An idle cell with an empty slot.
    pub fn new() -> Self {
        AtomicWaker { state: AtomicU8::new(WAITING), waker: slot_new() }
    }

    /// Leaves the cell after the slot was written. If a wake arrived
    /// meanwhile, it found the cell claimed and left the notification to this
    /// side: the waker is taken out again and woken.
    fn release(&self) {
        let outcome = self.state.compare_exchange(
            REGISTERING,
            WAITING,
            Ordering::AcqRel,
            Ordering::Acquire,
        );
        if !released(outcome) {
            let waker = slot_replace(&self.waker, None);
            self.state.store(WAITING, Ordering::Release);
            fire(waker);
        }
    }

    /// Stores `waker` as the one to wake next, in place of any stored before.
    ///
    /// If a wake is under way on the waker stored before, `waker` is woken at
    /// once and not stored. If another registration is under way, this one is
    /// dropped.
    pub fn register(&self, waker: Waker) {
        let outcome = self.state.compare_exchange(
            WAITING,
            REGISTERING,
            Ordering::Acquire,
            Ordering::Acquire,
        );
        match claim(outcome) {
            Claim::Granted => {
                let _ = slot_replace(&self.waker, Some(waker));
                self.release();
            },
            Claim::WakeNow => {
                waker.wake_by_ref();
            },
            Claim::Refused => {},
        }
    }

    /// As `register`, for a waker that stays with the caller: the slot gets a
    /// clone, unless the waker that it holds already wakes the same task.
    pub fn register_ref(&self, waker: &Waker) {
        let outcome = self.state.compare_exchange(
            WAITING,
            REGISTERING,
            Ordering::Acquire,
            Ordering::Acquire,
        );
        match claim(outcome) {
            Claim::Granted => {
                let stored = slot_replace(&self.waker, None);
                let same = match &stored {
                    Some(current) => current.will_wake(waker),
                    None => false,
                };
                let kept = if same {
                    stored
                } else {
                    Some(waker.clone())
                };
                let _ = slot_replace(&self.waker, kept);
                self.release();
            },
            Claim::WakeNow => {
                waker.wake_by_ref();
            },
            Claim::Refused => {},
        }
    }

    /// Wakes the stored waker and empties the slot. A wake that finds another
    /// wake or a registration under way does nothing more than leave its mark:
    /// the side that is under way delivers the notification.
    pub fn wake(&self) {
        let previous: u8 = self.state.fetch_or(WAKING, Ordering::AcqRel);
        if wins_slot(previous) {
            let waker = slot_replace(&self.waker, None);
            self.state.fetch_and(!WAKING, Ordering::Release);
            fire(waker);
        }
    }
}

/// The state of one timer: whether it has fired, and whom to wake when it
/// does.
pub struct TimerState {
    woken: AtomicBool,
    inner: AtomicWaker,
}

/// What can be registered with a [`TimerState`] to be notified when the timer
/// fires.
pub trait Callback {
    /// Puts the callback into `waker`.
    fn register(self, waker: &AtomicWaker);
}

impl<'a> Callback for &'a Waker {
    fn register(self, waker: &AtomicWaker) {
        waker.register_ref(self)
    }
}

impl Callback for Waker {
    fn register(self, waker: &AtomicWaker) {
        waker.register(self)
    }
}

impl TimerState {
    /// A state that has not fired, with nobody to wake.
    pub fn new() -> Self {
        TimerState { woken: AtomicBool::new(false), inner: AtomicWaker::new() }
    }

    /// Whether the timer has fired, or was cancelled, since the state was made
    /// or last reset.
    pub fn is_done(&self) -> bool {
        self.woken.load(Ordering::Acquire)
    }

    /// Clears the flag, so that the timer can fire once more.
    pub fn reset(&self) {
        self.woken.store(false, Ordering::Release);
    }

    /// Sets the flag without waking anybody: the timer was stopped.
    pub fn cancel(&self) {
        self.woken.store(true, Ordering::Release);
    }

    /// Registers `cb` in place of the callback registered before, if any.
    pub fn register<C: Callback>(&self, cb: C) {
        cb.register(&self.inner);
    }

    /// Reports that the timer has fired. This is what the native callback
    /// calls. Only the first report since the last reset wakes the registered
    /// waker; later ones do nothing.
    pub fn wake(&self) {
        let outcome = self.woken.compare_exchange(
            false,
            true,
            Ordering::SeqCst,
            Ordering::SeqCst,
        );
        if wins_expiry(outcome) {
            self.inner.wake();
        }
    }
}

} // verus!
