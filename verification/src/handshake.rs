//! The handshake between the task that registers a waker and the callbacks
//! that wake it.
//!
//! The cell that both sides share is two bits, one slot for a waker and the
//! expiry flag. Every access is one atomic step, and what a side does next is
//! decided by what its step saw. This module holds those decisions, as
//! executable functions with exact contracts, and a model of the cell in which
//! the steps of any number of callbacks interleave freely with those of the one
//! task. The laws at the end are proved of every run of that model.
use vstd::multiset::*;
use vstd::prelude::*;

verus! {

/// Nobody is inside the cell.
pub const WAITING: u8 = 0;

/// A new waker is being put into the slot.
pub const REGISTERING: u8 = 0b01;

/// The waker in the slot is being taken out to be woken.
pub const WAKING: u8 = 0b10;

/// What `register` does after it tried to claim the cell.
#[derive(Clone, Copy, Debug, PartialEq, Eq, Structural)]
pub enum Claim {
    /// The cell was idle and is now claimed: the waker goes into the slot.
    Granted,
    /// A wake is under way on the waker stored before: the new waker is woken
    /// at once and is not stored.
    WakeNow,
    /// Another registration holds the cell: this one is dropped.
    Refused,
}

/// The value that a compare-and-exchange found in the cell, whether it
/// succeeded or not.
pub open spec fn found(outcome: Result<u8, u8>) -> u8 {
    match outcome {
        Ok(bits) => bits,
        Err(bits) => bits,
    }
}

/// The decision of `register` on the bits that its claim found.
pub open spec fn claim_of(bits: u8) -> Claim {
    if bits == WAITING {
        Claim::Granted
    } else if bits == WAKING {
        Claim::WakeNow
    } else {
        Claim::Refused
    }
}

/// Whether a wake that found `bits` before it set `WAKING` owns the slot.
pub open spec fn owns_slot(bits: u8) -> bool {
    bits == WAITING
}

/// Whether the exchange of the expiry flag from unset to set found it unset.
pub open spec fn first_expiry(outcome: Result<bool, bool>) -> bool {
    match outcome {
        Ok(flag) => !flag,
        Err(flag) => !flag,
    }
}

/// Decides what `register` does, from the outcome of exchanging `WAITING` for
/// `REGISTERING`.
pub fn claim(outcome: Result<u8, u8>) -> (decision: Claim)
    ensures
        decision == claim_of(found(outcome)),
{
    let bits: u8 = match outcome {
        Ok(bits) => bits,
        Err(bits) => bits,
    };
    if bits == WAITING {
        Claim::Granted
    } else if bits == WAKING {
        Claim::WakeNow
    } else {
        Claim::Refused
    }
}

/// Whether `register` left the cell cleanly, from the outcome of exchanging
/// `REGISTERING` for `WAITING`. If not, a wake arrived meanwhile and the
/// registering side must deliver it.
pub fn released(outcome: Result<u8, u8>) -> (clean: bool)
    ensures
        clean == outcome.is_ok(),
{
    match outcome {
        Ok(_) => true,
        Err(_) => false,
    }
}

/// Whether a wake owns the slot, from the bits that it found when it set
/// `WAKING`.
pub fn wins_slot(previous: u8) -> (owns: bool)
    ensures
        owns == owns_slot(previous),
{
    previous == WAITING
}

/// Whether a callback is the first to report the expiry, from the outcome of
/// exchanging the flag from unset to set.
pub fn wins_expiry(outcome: Result<bool, bool>) -> (first: bool)
    ensures
        first == first_expiry(outcome),
{
    match outcome {
        Ok(flag) => !flag,
        Err(flag) => !flag,
    }
}

/// Where the registering task stands. Wakers are told apart by a number: the
/// n-th call of `register` brings waker n. A waker that stays in the slot
/// because it wakes the same task as the new one counts as the new one.
pub enum Owner {
    /// Outside `register`.
    Idle,
    /// Holds the cell and the new waker, which is not yet in the slot.
    Claimed(nat),
    /// Has put the waker into the slot and not yet released the cell.
    Stored(nat),
    /// Found `WAKING` set on release and has not yet emptied the slot.
    Recovering,
    /// Has emptied the slot and not yet restored `WAITING`.
    Restoring(Option<nat>),
    /// Is outside the cell with a waker to wake, if any.
    Firing(Option<nat>),
}

/// The cell, the task and the callbacks at one instant.
pub struct World {
    /// The two state bits.
    pub bits: u8,
    /// The waker in the slot.
    pub slot: Option<nat>,
    /// The expiry flag.
    pub flag: bool,
    /// The registering task.
    pub owner: Owner,
    /// Callbacks that have set the flag and not yet set `WAKING`.
    pub entering: nat,
    /// Callbacks that own the slot and have not yet emptied it.
    pub taking: nat,
    /// Callbacks that have emptied the slot, each with what it found, and not
    /// yet cleared `WAKING`.
    pub clearing: Multiset<Option<nat>>,
    /// Wakers in the hands of callbacks that have left the cell.
    pub holding: Multiset<nat>,
    /// How many wakers `register` was called with.
    pub issued: nat,
    /// The wakers woken so far.
    pub fired: Multiset<nat>,
    /// Whether a wake has set `WAKING` since the latest `register` began.
    pub woken_since: bool,
    /// Whether a callback has set the flag since the latest `register` began.
    pub expired_since: bool,
}

/// One atomic step of the task or of a callback.
pub enum Step {
    /// The task calls `register` and tries to claim the cell.
    Register,
    /// The task puts its waker into the slot.
    Store,
    /// The task tries to release the cell.
    Release,
    /// The task empties the slot after a failed release.
    Recover,
    /// The task restores `WAITING`.
    Restore,
    /// The task wakes what it holds.
    OwnerFire,
    /// The task clears the expiry flag.
    Reset,
    /// The task sets the expiry flag.
    Cancel,
    /// A callback tries to set the expiry flag.
    Expire,
    /// A callback sets `WAKING`; `direct` if it did not come through the flag.
    Announce { direct: bool },
    /// A callback that owns the slot empties it.
    Take,
    /// A callback that found the given waker clears `WAKING`.
    Clear(Option<nat>),
    /// A callback wakes the given waker.
    Fire(nat),
}

/// The world before anything happened.
pub open spec fn init() -> World {
    World {
        bits: WAITING,
        slot: None,
        flag: false,
        owner: Owner::Idle,
        entering: 0,
        taking: 0,
        clearing: Multiset::empty(),
        holding: Multiset::empty(),
        issued: 0,
        fired: Multiset::empty(),
        woken_since: false,
        expired_since: false,
    }
}

/// Whether `step` can be taken in `s`.
pub open spec fn enabled(s: World, step: Step) -> bool {
    match step {
        Step::Register => s.owner is Idle,
        Step::Store => s.owner is Claimed,
        Step::Release => s.owner is Stored,
        Step::Recover => s.owner is Recovering,
        Step::Restore => s.owner is Restoring,
        Step::OwnerFire => s.owner is Firing,
        Step::Reset => s.owner is Idle,
        Step::Cancel => s.owner is Idle,
        Step::Expire => true,
        Step::Announce { direct } => direct || s.entering > 0,
        Step::Take => s.taking > 0,
        Step::Clear(found) => s.clearing.count(found) > 0,
        Step::Fire(id) => s.holding.count(id) > 0,
    }
}

/// `fired` with the waker `held` added, if there is one.
pub open spec fn with_fired(fired: Multiset<nat>, held: Option<nat>) -> Multiset<nat> {
    match held {
        Some(id) => fired.insert(id),
        None => fired,
    }
}

/// The world after `step` was taken in `s`.
pub open spec fn next(s: World, step: Step) -> World {
    match step {
        Step::Register => {
            let begun = World {
                issued: s.issued + 1,
                woken_since: false,
                expired_since: false,
                ..s
            };
            match claim_of(s.bits) {
                Claim::Granted => World {
                    bits: REGISTERING,
                    owner: Owner::Claimed(s.issued),
                    ..begun
                },
                Claim::WakeNow => World { owner: Owner::Firing(Some(s.issued)), ..begun },
                Claim::Refused => begun,
            }
        },
        Step::Store => World { slot: Some(s.owner->Claimed_0), owner: Owner::Stored(s.owner->Claimed_0), ..s },
        Step::Release => if s.bits == REGISTERING {
            World { bits: WAITING, owner: Owner::Idle, ..s }
        } else {
            World { owner: Owner::Recovering, ..s }
        },
        Step::Recover => World { slot: None, owner: Owner::Restoring(s.slot), ..s },
        Step::Restore => World { bits: WAITING, owner: Owner::Firing(s.owner->Restoring_0), ..s },
        Step::OwnerFire => World {
            fired: with_fired(s.fired, s.owner->Firing_0),
            owner: Owner::Idle,
            ..s
        },
        Step::Reset => World { flag: false, ..s },
        Step::Cancel => World { flag: true, ..s },
        Step::Expire => if first_expiry(if s.flag { Err(true) } else { Ok(false) }) {
            World { flag: true, entering: s.entering + 1, expired_since: true, ..s }
        } else {
            s
        },
        Step::Announce { direct } => World {
            bits: s.bits | WAKING,
            entering: if direct { s.entering } else { (s.entering - 1) as nat },
            taking: if owns_slot(s.bits) { s.taking + 1 } else { s.taking },
            woken_since: true,
            ..s
        },
        Step::Take => World {
            slot: None,
            taking: (s.taking - 1) as nat,
            clearing: s.clearing.insert(s.slot),
            ..s
        },
        Step::Clear(found) => World {
            bits: s.bits & !WAKING,
            clearing: s.clearing.remove(found),
            holding: match found {
                Some(id) => s.holding.insert(id),
                None => s.holding,
            },
            ..s
        },
        Step::Fire(id) => World { holding: s.holding.remove(id), fired: s.fired.insert(id), ..s },
    }
}

/// Whether each of `steps` can be taken in turn, starting in `s`.
pub open spec fn legal(s: World, steps: Seq<Step>) -> bool
    decreases steps.len(),
{
    if steps.len() == 0 {
        true
    } else {
        legal(s, steps.drop_last()) && enabled(run(s, steps.drop_last()), steps.last())
    }
}

/// The world after `steps` were taken in turn, starting in `s`.
pub open spec fn run(s: World, steps: Seq<Step>) -> World
    decreases steps.len(),
{
    if steps.len() == 0 {
        s
    } else {
        next(run(s, steps.drop_last()), steps.last())
    }
}

/// Whether the task is inside the cell.
pub open spec fn owner_inside(owner: Owner) -> bool {
    owner is Claimed || owner is Stored || owner is Recovering || owner is Restoring
}

/// The number of callbacks inside the cell.
pub open spec fn callbacks_inside(s: World) -> nat {
    s.taking + s.clearing.len()
}

/// 1 if `held` is the waker `id`, else 0.
pub open spec fn one_if(held: Option<nat>, id: nat) -> nat {
    if held == Some(id) {
        1
    } else {
        0
    }
}

/// The waker that the task has in its own hands.
pub open spec fn in_hand(owner: Owner) -> Option<nat> {
    match owner {
        Owner::Claimed(id) => Some(id),
        Owner::Restoring(held) => held,
        Owner::Firing(held) => held,
        _ => None,
    }
}

/// In how many places the waker `id` waits to be woken: the task's hands, the
/// slot, and the hands of the callbacks.
pub open spec fn copies(s: World, id: nat) -> nat {
    one_if(in_hand(s.owner), id) + one_if(s.slot, id) + s.clearing.count(Some(id))
        + s.holding.count(id)
}

/// The waker of the latest `register`.
pub open spec fn latest(s: World) -> nat
    recommends
        s.issued > 0,
{
    (s.issued - 1) as nat
}

/// Whether no step of the task or of a callback is outstanding.
pub open spec fn quiescent(s: World) -> bool {
    &&& s.owner is Idle
    &&& s.entering == 0
    &&& s.taking == 0
    &&& s.clearing.len() == 0
    &&& s.holding.len() == 0
}

/// What holds of every world that a run reaches.
pub open spec fn consistent(s: World) -> bool {
    &&& s.bits <= 3
    &&& (s.bits == REGISTERING || s.bits == 3) == owner_inside(s.owner)
    &&& (s.bits == WAKING) == (callbacks_inside(s) == 1)
    &&& callbacks_inside(s) <= 1
    &&& (s.owner is Recovering || s.owner is Restoring) ==> s.bits == 3
    &&& s.clearing.len() > 0 ==> s.slot is None
    &&& s.owner matches Owner::Claimed(id) ==> id + 1 == s.issued
    &&& s.owner matches Owner::Stored(id) ==> id + 1 == s.issued && s.slot == Some(id)
    &&& s.owner is Recovering ==> s.issued > 0 && s.slot == Some(latest(s))
    &&& s.owner matches Owner::Restoring(held) ==> s.issued > 0 && held == Some(latest(s))
    &&& s.owner matches Owner::Firing(held) ==> s.issued > 0 && held == Some(latest(s))
    &&& forall|id: nat| id < s.issued ==> #[trigger] copies(s, id) + s.fired.count(id) <= 1
    &&& forall|id: nat| id >= s.issued ==> #[trigger] copies(s, id) + s.fired.count(id) == 0
    &&& s.issued > 0 ==> copies(s, latest(s)) + s.fired.count(latest(s)) == 1
    &&& s.woken_since && (s.owner is Claimed || s.owner is Stored) ==> s.bits == 3
    &&& s.woken_since && s.issued > 0 && s.owner is Idle && s.slot == Some(latest(s))
        ==> s.taking >= 1
    &&& s.expired_since ==> s.entering >= 1 || s.woken_since
}

/// The bits that the steps of the cell produce.
proof fn lemma_bits(bits: u8)
    requires
        bits <= 3,
    ensures
        bits | WAKING == (if bits == 0 || bits == 2 { 2u8 } else { 3u8 }),
        bits & !WAKING == (if bits == 0 || bits == 2 { 0u8 } else { 1u8 }),
{
    assert(bits <= 3 ==> (bits | 2u8 == (if bits == 0 || bits == 2 { 2u8 } else { 3u8 }))) by (bit_vector);
    assert(bits <= 3 ==> (bits & !2u8 == (if bits == 0 || bits == 2 { 0u8 } else { 1u8 }))) by (bit_vector);
}

/// What adding one element does to the counts and the length.
proof fn lemma_insert<V>(m: Multiset<V>, x: V)
    ensures
        m.insert(x).len() == m.len() + 1,
        forall|v: V| #[trigger] m.insert(x).count(v) == m.count(v) + (if v == x { 1nat } else { 0nat }),
{
    broadcast use group_multiset_axioms;

}

/// What taking one element out does to the counts and the length.
proof fn lemma_remove<V>(m: Multiset<V>, x: V)
    requires
        m.count(x) > 0,
    ensures
        m.remove(x).len() + 1 == m.len(),
        forall|v: V| #[trigger] m.remove(x).count(v) + (if v == x { 1nat } else { 0nat }) == m.count(v),
{
    broadcast use group_multiset_axioms;

    assert(Multiset::singleton(x).subset_of(m));
}

/// A multiset without length holds nothing.
proof fn lemma_nothing<V>(m: Multiset<V>)
    requires
        m.len() == 0,
    ensures
        forall|v: V| #[trigger] m.count(v) == 0,
{
    broadcast use group_multiset_axioms;

}

/// The part of `consistent` that speaks of each waker follows for `t` where no
/// waker has more copies in `t` than in `s`, none was issued and none woken.
proof fn lemma_copies_kept(s: World, t: World)
    requires
        consistent(s),
        t.issued == s.issued,
        forall|id: nat| #[trigger] copies(t, id) + t.fired.count(id) == copies(s, id) + s.fired.count(id),
    ensures
        forall|id: nat| id < t.issued ==> #[trigger] copies(t, id) + t.fired.count(id) <= 1,
        forall|id: nat| id >= t.issued ==> #[trigger] copies(t, id) + t.fired.count(id) == 0,
        t.issued > 0 ==> copies(t, latest(t)) + t.fired.count(latest(t)) == 1,
{
    assert forall|id: nat| id < t.issued implies #[trigger] copies(t, id) + t.fired.count(id) <= 1 by {
        assert(copies(s, id) + s.fired.count(id) <= 1);
    }
    assert forall|id: nat| id >= t.issued implies #[trigger] copies(t, id) + t.fired.count(id) == 0 by {
        assert(copies(s, id) + s.fired.count(id) == 0);
    }
}

proof fn lemma_keep_register(s: World)
    requires
        consistent(s),
        enabled(s, Step::Register),
    ensures
        consistent(next(s, Step::Register)),
{
    let t = next(s, Step::Register);
    assert(claim_of(s.bits) != Claim::Refused);
    assert(copies(s, s.issued) + s.fired.count(s.issued) == 0);
    assert forall|id: nat| id < t.issued implies #[trigger] copies(t, id) + t.fired.count(id) <= 1 by {
        if id < s.issued {
            assert(copies(s, id) + s.fired.count(id) <= 1);
        }
    }
    assert forall|id: nat| id >= t.issued implies #[trigger] copies(t, id) + t.fired.count(id) == 0 by {
        assert(copies(s, id) + s.fired.count(id) == 0);
    }
}

proof fn lemma_keep_store(s: World)
    requires
        consistent(s),
        enabled(s, Step::Store),
    ensures
        consistent(next(s, Step::Store)),
{
    let t = next(s, Step::Store);
    lemma_nothing(s.clearing);
    assert forall|id: nat| id < t.issued implies #[trigger] copies(t, id) + t.fired.count(id) <= 1 by {
        assert(copies(s, id) + s.fired.count(id) <= 1);
    }
    assert forall|id: nat| id >= t.issued implies #[trigger] copies(t, id) + t.fired.count(id) == 0 by {
        assert(copies(s, id) + s.fired.count(id) == 0);
    }
    assert(copies(s, latest(s)) + s.fired.count(latest(s)) == 1);
}

proof fn lemma_keep_owner_moves(s: World, step: Step)
    requires
        consistent(s),
        enabled(s, step),
        step is Release || step is Recover || step is Restore || step is Reset || step is Cancel
            || step is Expire,
    ensures
        consistent(next(s, step)),
{
    let t = next(s, step);
    assert forall|id: nat| #[trigger] copies(t, id) + t.fired.count(id) == copies(s, id)
        + s.fired.count(id) by {}
    lemma_copies_kept(s, t);
}

proof fn lemma_keep_owner_fire(s: World)
    requires
        consistent(s),
        enabled(s, Step::OwnerFire),
    ensures
        consistent(next(s, Step::OwnerFire)),
{
    let t = next(s, Step::OwnerFire);
    match s.owner->Firing_0 {
        Some(held) => {
            lemma_insert(s.fired, held);
        },
        None => {},
    }
    assert forall|id: nat| #[trigger] copies(t, id) + t.fired.count(id) == copies(s, id)
        + s.fired.count(id) by {}
    lemma_copies_kept(s, t);
}

proof fn lemma_keep_announce(s: World, direct: bool)
    requires
        consistent(s),
        enabled(s, Step::Announce { direct }),
    ensures
        consistent(next(s, Step::Announce { direct })),
{
    let t = next(s, Step::Announce { direct });
    lemma_bits(s.bits);
    assert forall|id: nat| #[trigger] copies(t, id) + t.fired.count(id) == copies(s, id)
        + s.fired.count(id) by {}
    lemma_copies_kept(s, t);
}

proof fn lemma_keep_take(s: World)
    requires
        consistent(s),
        enabled(s, Step::Take),
    ensures
        consistent(next(s, Step::Take)),
{
    let t = next(s, Step::Take);
    lemma_insert(s.clearing, s.slot);
    assert forall|id: nat| #[trigger] copies(t, id) + t.fired.count(id) == copies(s, id)
        + s.fired.count(id) by {}
    lemma_copies_kept(s, t);
}

proof fn lemma_keep_clear(s: World, found: Option<nat>)
    requires
        consistent(s),
        enabled(s, Step::Clear(found)),
    ensures
        consistent(next(s, Step::Clear(found))),
{
    let t = next(s, Step::Clear(found));
    lemma_bits(s.bits);
    lemma_remove(s.clearing, found);
    match found {
        Some(held) => {
            lemma_insert(s.holding, held);
        },
        None => {},
    }
    assert forall|id: nat| #[trigger] copies(t, id) + t.fired.count(id) == copies(s, id)
        + s.fired.count(id) by {}
    lemma_copies_kept(s, t);
}

proof fn lemma_keep_fire(s: World, held: nat)
    requires
        consistent(s),
        enabled(s, Step::Fire(held)),
    ensures
        consistent(next(s, Step::Fire(held))),
{
    let t = next(s, Step::Fire(held));
    lemma_remove(s.holding, held);
    lemma_insert(s.fired, held);
    assert forall|id: nat| #[trigger] copies(t, id) + t.fired.count(id) == copies(s, id)
        + s.fired.count(id) by {}
    lemma_copies_kept(s, t);
}

/// A step that can be taken keeps the world consistent.
pub proof fn lemma_step_keeps_consistent(s: World, step: Step)
    requires
        consistent(s),
        enabled(s, step),
    ensures
        consistent(next(s, step)),
{
    match step {
        Step::Register => lemma_keep_register(s),
        Step::Store => lemma_keep_store(s),
        Step::OwnerFire => lemma_keep_owner_fire(s),
        Step::Announce { direct } => lemma_keep_announce(s, direct),
        Step::Take => lemma_keep_take(s),
        Step::Clear(found) => lemma_keep_clear(s, found),
        Step::Fire(held) => lemma_keep_fire(s, held),
        _ => lemma_keep_owner_moves(s, step),
    }
}

/// Every world that a run reaches from the start is consistent.
pub proof fn lemma_reachable(steps: Seq<Step>)
    requires
        legal(init(), steps),
    ensures
        consistent(run(init(), steps)),
    decreases steps.len(),
{
    if steps.len() == 0 {
        lemma_nothing(init().clearing);
        lemma_nothing(init().holding);
        lemma_nothing(init().fired);
    } else {
        lemma_reachable(steps.drop_last());
        lemma_step_keeps_consistent(run(init(), steps.drop_last()), steps.last());
    }
}

/// The world after one wake ran from its first step to its last with nothing
/// else happening meanwhile.
pub open spec fn wake_alone(s: World) -> World {
    let announced = next(s, Step::Announce { direct: true });
    if owns_slot(s.bits) {
        let cleared = next(next(announced, Step::Take), Step::Clear(s.slot));
        match s.slot {
            Some(id) => next(cleared, Step::Fire(id)),
            None => cleared,
        }
    } else {
        announced
    }
}

/// The world after one native callback ran from its first step to its last
/// with nothing else happening meanwhile.
pub open spec fn callback_alone(s: World) -> World {
    let expired = next(s, Step::Expire);
    if s.flag {
        expired
    } else {
        let announced = next(expired, Step::Announce { direct: false });
        if owns_slot(s.bits) {
            let cleared = next(next(announced, Step::Take), Step::Clear(s.slot));
            match s.slot {
                Some(id) => next(cleared, Step::Fire(id)),
                None => cleared,
            }
        } else {
            announced
        }
    }
}

/// The slot is never entered by two sides at once: in every world that a run
/// reaches, the task and the callbacks inside the cell are at most one.
pub proof fn lemma_slot_exclusive(steps: Seq<Step>)
    requires
        legal(init(), steps),
    ensures
        (if owner_inside(run(init(), steps).owner) { 1nat } else { 0nat })
            + callbacks_inside(run(init(), steps)) <= 1,
{
    lemma_reachable(steps);
}

/// No waker is woken twice: in every world that a run reaches, each waker
/// that was registered has been woken at most once, and no other has been
/// woken at all.
pub proof fn lemma_woken_at_most_once(steps: Seq<Step>, id: nat)
    requires
        legal(init(), steps),
    ensures
        run(init(), steps).fired.count(id) <= 1,
        id >= run(init(), steps).issued ==> run(init(), steps).fired.count(id) == 0,
{
    lemma_reachable(steps);
    let s = run(init(), steps);
    if id < s.issued {
        assert(copies(s, id) + s.fired.count(id) <= 1);
    } else {
        assert(copies(s, id) + s.fired.count(id) == 0);
    }
}

/// No wakeup is lost: whenever a wake has set its mark, or a callback has set
/// the expiry flag, after the latest `register` began, then once every side
/// has run to its end the waker of that `register` has been woken exactly
/// once, however the steps were interleaved.
pub proof fn lemma_no_lost_wakeup(steps: Seq<Step>)
    requires
        legal(init(), steps),
        quiescent(run(init(), steps)),
        run(init(), steps).issued > 0,
        run(init(), steps).woken_since || run(init(), steps).expired_since,
    ensures
        run(init(), steps).fired.count(latest(run(init(), steps))) == 1,
{
    lemma_reachable(steps);
    let s = run(init(), steps);
    lemma_nothing(s.clearing);
    lemma_nothing(s.holding);
    assert(copies(s, latest(s)) == 0);
}

/// A second wake is idle: of two wakes that run one after the other from a
/// world at rest, with no `register` between them, the second wakes nobody,
/// and the first wakes at most the one waker that the slot held.
pub proof fn lemma_double_wake(steps: Seq<Step>)
    requires
        legal(init(), steps),
        quiescent(run(init(), steps)),
    ensures
        quiescent(wake_alone(run(init(), steps))),
        consistent(wake_alone(run(init(), steps))),
        wake_alone(run(init(), steps)).fired == with_fired(
            run(init(), steps).fired,
            run(init(), steps).slot,
        ),
        wake_alone(wake_alone(run(init(), steps))).fired == wake_alone(run(init(), steps)).fired,
{
    lemma_reachable(steps);
    let s = run(init(), steps);
    lemma_wake_alone(s);
    lemma_wake_alone(wake_alone(s));
}

/// What one wake that runs alone from a world at rest leaves behind.
proof fn lemma_wake_alone(s: World)
    requires
        consistent(s),
        quiescent(s),
    ensures
        consistent(wake_alone(s)),
        quiescent(wake_alone(s)),
        wake_alone(s).slot is None,
        wake_alone(s).fired == with_fired(s.fired, s.slot),
{
    lemma_bits(s.bits);
    lemma_nothing(s.clearing);
    lemma_nothing(s.holding);
    let announced = next(s, Step::Announce { direct: true });
    lemma_step_keeps_consistent(s, Step::Announce { direct: true });
    let taken = next(announced, Step::Take);
    lemma_step_keeps_consistent(announced, Step::Take);
    lemma_insert(announced.clearing, s.slot);
    let cleared = next(taken, Step::Clear(s.slot));
    lemma_step_keeps_consistent(taken, Step::Clear(s.slot));
    lemma_remove(taken.clearing, s.slot);
    lemma_bits(taken.bits);
    match s.slot {
        Some(id) => {
            lemma_insert(taken.holding, id);
            lemma_step_keeps_consistent(cleared, Step::Fire(id));
            lemma_remove(cleared.holding, id);
            assert(next(cleared, Step::Fire(id)).holding =~= s.holding);
        },
        None => {},
    }
    assert(wake_alone(s).clearing =~= s.clearing);
}

/// A second callback is idle: of two native callbacks that run one after the
/// other with no reset between them, the second changes nothing.
pub proof fn lemma_double_callback(s: World)
    ensures
        callback_alone(callback_alone(s)) == callback_alone(s),
{
    assert(callback_alone(s).flag);
}

/// The expiry flag does not move by itself. It is unset at the start and after
/// a reset, only a reset unsets it, and only a callback that reports the
/// expiry or a cancel set it.
pub proof fn lemma_flag_moves(s: World, step: Step)
    ensures
        !init().flag,
        step is Reset ==> !next(s, step).flag,
        step is Cancel ==> next(s, step).flag,
        step is Expire ==> next(s, step).flag,
        !s.flag && next(s, step).flag ==> step is Expire || step is Cancel,
        s.flag && !next(s, step).flag ==> step is Reset,
{
}

} // verus!
