//! What the library takes from the standard library's task and
//! synchronisation types. Nothing here is proved: each item says what is
//! taken on trust.
use core::task::Waker;
use std::sync::Arc;
use std::sync::Mutex;
use std::sync::MutexGuard;
use vstd::prelude::*;

verus! {

/// `core::task::Waker`, the handle by which a task is woken. Nothing of what
/// it holds is visible to the proofs.
#[verifier::external_type_specification]
#[verifier::external_body]
pub struct ExWaker(Waker);

/// `std::sync::Mutex`. The library keeps the stored waker in one and enters it
/// only without waiting.
#[verifier::external_type_specification]
#[verifier::external_body]
#[verifier::reject_recursive_types(T)]
pub struct ExMutex<T: ?Sized>(Mutex<T>);

/// `std::sync::MutexGuard`: the slot while it is entered. Dropping it leaves
/// the slot.
#[verifier::external_type_specification]
#[verifier::external_body]
#[verifier::reject_recursive_types(T)]
pub struct ExMutexGuard<'a, T: ?Sized + 'a>(MutexGuard<'a, T>);

/// `Waker::wake` wakes the task of the waker and uses the waker up. Nothing is
/// claimed of it.
pub assume_specification[ Waker::wake ](waker: Waker)
;

/// `Waker::wake_by_ref` wakes the task of the waker and leaves the waker with
/// the caller. Nothing is claimed of it.
pub assume_specification[ Waker::wake_by_ref ](waker: &Waker)
;

/// `Waker::will_wake` tells, on a best effort, whether two wakers wake the
/// same task. Nothing is claimed of the answer.
pub assume_specification[ Waker::will_wake ](waker: &Waker, other: &Waker) -> bool
;

/// `Waker::clone` makes a second waker for the same task. Nothing is claimed
/// of it.
pub assume_specification[ <Waker as Clone>::clone ](waker: &Waker) -> Waker
;

/// `Arc::clone`: a second pointer to the same value.
#[verifier::external_body]
pub(crate) fn share<T>(shared: &Arc<T>) -> (other: Arc<T>)
    ensures
        other == *shared,
{
    Arc::clone(shared)
}

/// `Mutex::new` around an empty slot. Nothing is claimed of it.
#[verifier::external_body]
pub(crate) fn slot_new() -> Mutex<Option<Waker>> {
    Mutex::new(None)
}

/// `Mutex::try_lock`: enters the slot if nobody is inside, and never waits.
/// `None` where the lock is held elsewhere or poisoned. Which of the two
/// comes back depends on the other threads, so nothing is claimed of it.
#[verifier::external_body]
pub(crate) fn slot_enter<'a>(slot: &'a Mutex<Option<Waker>>) -> Option<
    MutexGuard<'a, Option<Waker>>,
> {
    slot.try_lock().ok()
}

/// `core::mem::replace` on the slot that was entered: puts `waker` there and
/// hands back what the slot held. What it held was put there by this or
/// another thread, so nothing is claimed of it.
#[verifier::external_body]
pub(crate) fn slot_swap(
    held: &mut MutexGuard<'_, Option<Waker>>,
    waker: Option<Waker>,
) -> Option<Waker> {
    core::mem::replace(&mut **held, waker)
}

} // verus!
