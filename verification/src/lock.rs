//! The lock around the flow state.
//!
//! Both halves of a link share the state behind a `parking_lot::RwLock`. What
//! such a lock holds changes behind a shared reference, so no contract speaks
//! of the contents of a lock at some time. It speaks of the turns that are
//! taken at it: a reader's turn sees one state, and a writer's turn finds one
//! state and leaves another when it ends, with nobody else at the lock in
//! between. What a turn finds is what the lock was made with, or what some
//! writer's turn left. Which of these it is, is up to the threads that share
//! the lock. A thread waits for ever that begins a turn while it has a
//! writer's turn at the same lock, or a writer's turn while it has any; with
//! two readers' turns it may.

use crate::state::LinkFlowStateInner;
use parking_lot::{RwLock, RwLockReadGuard, RwLockWriteGuard};
use vstd::prelude::*;

verus! {

/// The raw lock of `parking_lot`, opaque here.
#[verifier::external_type_specification]
#[verifier::external_body]
pub struct ExRawRwLock(parking_lot::RawRwLock);

/// The lock of `parking_lot`, opaque here.
#[verifier::external_type_specification]
#[verifier::external_body]
#[verifier::reject_recursive_types(R)]
#[verifier::reject_recursive_types(T)]
pub struct ExRwLock<R, T: ?Sized>(parking_lot::lock_api::RwLock<R, T>);

/// A reader's turn at the lock, which ends when this is dropped. The guard is
/// hidden in here because its type bounds a parameter by a trait that only
/// `parking_lot` knows.
#[verifier::external_body]
pub struct ReadTurn<'l> {
    guard: RwLockReadGuard<'l, LinkFlowStateInner>,
}

/// A writer's turn at the lock, which ends when this is dropped. The guard is
/// hidden in here for the same reason as a reader's.
#[verifier::external_body]
pub struct WriteTurn<'l> {
    guard: RwLockWriteGuard<'l, LinkFlowStateInner>,
}

/// A writer's turn that is over. It is opaque because two turns at one lock are
/// two values, though each keeps no more than a reference to the lock.
#[verifier::external_body]
pub struct EndedTurn<'l> {
    #[allow(dead_code)]
    lock: &'l RwLock<LinkFlowStateInner>,
}

/// That a writer's turn at a lock could not be had at once. It is opaque because
/// only an attempt at the lock makes one.
#[verifier::external_body]
pub struct Refusal<'l> {
    #[allow(dead_code)]
    lock: &'l RwLock<LinkFlowStateInner>,
}

/// The state that a lock was made with. A lock whose state its sole owner has
/// replaced through a `&mut` reference counts as made with the new one.
pub uninterp spec fn made_with(lock: RwLock<LinkFlowStateInner>) -> LinkFlowStateInner;

/// The lock at which a reader has its turn.
pub uninterp spec fn read_lock(turn: ReadTurn<'_>) -> RwLock<LinkFlowStateInner>;

/// The state that a reader sees.
pub uninterp spec fn read_state(turn: ReadTurn<'_>) -> LinkFlowStateInner;

/// The lock at which a writer has its turn.
pub uninterp spec fn write_lock(turn: WriteTurn<'_>) -> RwLock<LinkFlowStateInner>;

/// The state that was in the lock when the writer's turn began.
pub uninterp spec fn write_found(turn: WriteTurn<'_>) -> LinkFlowStateInner;

/// The state that is in the lock by now.
pub uninterp spec fn write_state(turn: WriteTurn<'_>) -> LinkFlowStateInner;

/// The lock at which a writer had the turn that is over.
pub uninterp spec fn ended_lock(over: EndedTurn<'_>) -> RwLock<LinkFlowStateInner>;

/// The state that was in the lock when the turn began.
pub uninterp spec fn ended_found(over: EndedTurn<'_>) -> LinkFlowStateInner;

/// The state that was in the lock when the turn ended.
pub uninterp spec fn ended_left(over: EndedTurn<'_>) -> LinkFlowStateInner;

/// The lock at which a writer's turn was refused.
pub uninterp spec fn refused_lock(refusal: Refusal<'_>) -> RwLock<LinkFlowStateInner>;

/// Whether somebody was refused a writer's turn at `lock`.
pub open spec fn refused(lock: RwLock<LinkFlowStateInner>) -> bool {
    exists|refusal: Refusal<'_>| #[trigger] refused_lock(refusal) == lock
}

/// Whether `state` is or was in `lock` between two turns: the lock was made
/// with it, or some writer left it there.
pub open spec fn rested(lock: RwLock<LinkFlowStateInner>, state: LinkFlowStateInner) -> bool {
    ||| state == made_with(lock)
    ||| exists|over: EndedTurn<'_>|
        #![trigger ended_lock(over)]
        ended_lock(over) == lock && ended_left(over) == state
}

/// Whether somebody had a reader's turn at `lock` and saw `seen`.
pub open spec fn read_turn(lock: RwLock<LinkFlowStateInner>, seen: LinkFlowStateInner) -> bool {
    &&& rested(lock, seen)
    &&& exists|turn: ReadTurn<'_>|
        #![trigger read_lock(turn)]
        read_lock(turn) == lock && read_state(turn) == seen
}

/// Whether somebody had a writer's turn at `lock`, found `found` when it began
/// and left `left` when it ended.
pub open spec fn write_turn(
    lock: RwLock<LinkFlowStateInner>,
    found: LinkFlowStateInner,
    left: LinkFlowStateInner,
) -> bool {
    &&& rested(lock, found)
    &&& exists|over: EndedTurn<'_>|
        #![trigger ended_lock(over)]
        ended_lock(over) == lock && ended_found(over) == found && ended_left(over) == left
}

/// Calls `RwLock::new`, which puts `state` into a new lock that nobody holds.
#[verifier::external_body]
pub(crate) fn new_lock(state: LinkFlowStateInner) -> (lock: RwLock<LinkFlowStateInner>)
    ensures
        made_with(lock) == state,
{
    RwLock::new(state)
}

/// Calls `RwLock::read`, which waits until no writer holds the lock. The turn
/// is one at this lock, and it sees what the lock was made with or what a writer
/// left there: nothing but a writer's guard changes what a shared lock holds.
/// The call does not return to a thread that is itself a writer at the lock, and
/// may not return to one that is a reader already.
#[verifier::external_body]
pub(crate) fn begin_read<'l>(lock: &'l RwLock<LinkFlowStateInner>) -> (turn: ReadTurn<'l>)
    ensures
        read_lock(turn) == *lock,
        rested(*lock, read_state(turn)),
{
    ReadTurn { guard: lock.read() }
}

/// Calls `RwLock::write`, which waits until nobody holds the lock. The turn is
/// one at this lock, and what it finds is what is there: what the lock was made
/// with or what a writer left. The call does not return to a thread that already
/// holds the lock.
#[verifier::external_body]
fn begin_write<'l>(lock: &'l RwLock<LinkFlowStateInner>) -> (turn: WriteTurn<'l>)
    ensures
        write_lock(turn) == *lock,
        write_found(turn) == write_state(turn),
        rested(*lock, write_found(turn)),
    opens_invariants none
{
    WriteTurn { guard: lock.write() }
}

/// Calls `RwLock::try_write`, which gives a writer's turn if it can be had at
/// once. Whether it can is up to those who hold the lock. A turn that is given
/// is one at this lock, and what it finds is what is there: what the lock was
/// made with or what a writer left. A refusal is one at this lock.
#[verifier::external_body]
fn try_begin_write<'l>(lock: &'l RwLock<LinkFlowStateInner>) -> (turn: Result<
    WriteTurn<'l>,
    Refusal<'l>,
>)
    ensures
        match turn {
            Ok(turn) => {
                &&& write_lock(turn) == *lock
                &&& write_found(turn) == write_state(turn)
                &&& rested(*lock, write_found(turn))
            },
            Err(refusal) => refused_lock(refusal) == *lock,
        },
    opens_invariants none
{
    match lock.try_write() {
        Some(guard) => Ok(WriteTurn { guard }),
        None => Err(Refusal { lock }),
    }
}

/// Calls `deref` on the guard of a reader, which refers to the state in the
/// lock.
#[verifier::external_body]
pub(crate) fn seen<'t, 'l>(turn: &'t ReadTurn<'l>) -> (state: &'t LinkFlowStateInner)
    ensures
        *state == read_state(*turn),
{
    &*turn.guard
}

/// Calls `deref_mut` on the guard of a writer, which refers to the state in
/// the lock. What is written through the reference is then in the lock. The
/// turn stays one at the same lock with the same beginning.
#[verifier::external_body]
pub(crate) fn held<'t, 'l>(turn: &'t mut WriteTurn<'l>) -> (state: &'t mut LinkFlowStateInner)
    ensures
        *state == write_state(*old(turn)),
        write_state(*final(turn)) == *final(state),
        write_lock(*final(turn)) == write_lock(*old(turn)),
        write_found(*final(turn)) == write_found(*old(turn)),
    opens_invariants none
{
    &mut *turn.guard
}

/// Drops the guard of a writer, which `RwLockWriteGuard::rwlock` says the lock
/// of. That releases the lock and changes nothing of the state in it, so the
/// turn leaves what is there by now.
#[verifier::external_body]
pub(crate) fn end_write<'l>(turn: WriteTurn<'l>) -> (over: EndedTurn<'l>)
    ensures
        ended_lock(over) == write_lock(turn),
        ended_found(over) == write_found(turn),
        ended_left(over) == write_state(turn),
    opens_invariants none
{
    let lock = RwLockWriteGuard::rwlock(&turn.guard);
    drop(turn.guard);
    EndedTurn { lock }
}

/// Counts the writers' turns that its owner has begun, at whatever lock. There
/// is no writer's turn without a count of it.
#[derive(Debug)]
pub struct Turns {
    begun: u64,
}

/// The count after one turn more than `count`. After the greatest count comes
/// zero again.
pub open spec fn one_more(count: u64) -> u64 {
    if count == u64::MAX {
        0
    } else {
        (count + 1) as u64
    }
}

impl Turns {
    /// How many turns have been begun.
    pub closed spec fn begun(self) -> u64 {
        self.begun
    }

    /// No turn has been begun. A function that opens no invariants cannot call
    /// this: it can only count on what it is handed.
    pub(crate) fn new() -> (turns: Turns)
        ensures
            turns.begun() == 0,
    {
        Turns { begun: 0 }
    }

    /// Counts one turn.
    fn count_one(&mut self)
        ensures
            final(self).begun() == one_more(old(self).begun()),
        opens_invariants none
    {
        self.begun = if self.begun == u64::MAX {
            0
        } else {
            self.begun + 1
        };
    }
}

/// Begins a writer's turn at `lock`, and counts it. Waits until nobody holds the
/// lock.
pub(crate) fn begin_counted<'l>(
    lock: &'l RwLock<LinkFlowStateInner>,
    turns: &mut Turns,
) -> (turn: WriteTurn<'l>)
    ensures
        write_lock(turn) == *lock,
        write_found(turn) == write_state(turn),
        rested(*lock, write_found(turn)),
        final(turns).begun() == one_more(old(turns).begun()),
    opens_invariants none
{
    turns.count_one();
    begin_write(lock)
}

/// Begins a writer's turn at `lock` if it can be had at once, and counts it if
/// it can.
pub(crate) fn try_begin_counted<'l>(
    lock: &'l RwLock<LinkFlowStateInner>,
    turns: &mut Turns,
) -> (turn: Result<WriteTurn<'l>, Refusal<'l>>)
    ensures
        match turn {
            Ok(turn) => {
                &&& write_lock(turn) == *lock
                &&& write_found(turn) == write_state(turn)
                &&& rested(*lock, write_found(turn))
                &&& final(turns).begun() == one_more(old(turns).begun())
            },
            Err(refusal) => refused_lock(refusal) == *lock && *final(turns) == *old(turns),
        },
    opens_invariants none
{
    match try_begin_write(lock) {
        Ok(turn) => {
            turns.count_one();
            Ok(turn)
        },
        Err(refusal) => Err(refusal),
    }
}

} // verus!
