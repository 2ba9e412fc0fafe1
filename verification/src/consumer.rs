//! Spending the credit of a sending link.

use crate::delivery_tag::DeliveryTagSlot;
use crate::error::{InsufficientCredit, SenderTryConsumeError};
use crate::flow_state::LinkFlowState;
use crate::lock::{begin_counted, end_write, held, try_begin_counted, Refusal, Turns, WriteTurn};
use crate::role::SenderMarker;
use crate::state::LinkFlowStateInner;
use parking_lot::RwLock;
use std::sync::Arc;
use vstd::prelude::*;

verus! {

/// Whether a writer had a turn at `lock` that sent a delivery as [`sent`]
/// says.
///
/// [`sent`]: crate::state::sent
pub open spec fn sent_in_turn(
    lock: RwLock<LinkFlowStateInner>,
    slot_before: DeliveryTagSlot,
    slot_after: DeliveryTagSlot,
    count: u32,
    result: Result<[u8; 16], InsufficientCredit>,
) -> bool {
    exists|found: LinkFlowStateInner, left: LinkFlowStateInner| #[trigger]
        crate::lock::write_turn(lock, found, left) && crate::state::sent(
            found,
            left,
            slot_before,
            slot_after,
            count,
            result,
        )
}

/// Spends one credit of the sender whose state is behind `lock` on a delivery,
/// and gives its tag, if the credit covers `count`. Waits for the lock.
pub fn consume_link_credit(
    lock: &RwLock<LinkFlowStateInner>,
    slot: &mut DeliveryTagSlot,
    count: u32,
) -> (result: Result<[u8; 16], InsufficientCredit>)
    ensures
        sent_in_turn(*lock, *old(slot), *final(slot), count, result),
{
    let mut turns = Turns::new();
    consume_counted(lock, &mut turns, slot, count)
}

/// Does what [`consume_link_credit`] does, in one turn and no other.
fn consume_counted(
    lock: &RwLock<LinkFlowStateInner>,
    turns: &mut Turns,
    slot: &mut DeliveryTagSlot,
    count: u32,
) -> (result: Result<[u8; 16], InsufficientCredit>)
    ensures
        sent_in_turn(*lock, *old(slot), *final(slot), count, result),
        final(turns).begun() == crate::lock::one_more(old(turns).begun()),
    opens_invariants none
{
    let mut turn = begin_counted(lock, turns);
    let result = held(&mut turn).send(slot, count);
    let over = end_write(turn);
    proof {
        let found = crate::lock::ended_found(over);
        let left = crate::lock::ended_left(over);
        assert(crate::lock::write_turn(*lock, found, left));
    }
    result
}

/// Whether `result` is what comes of an attempt that had a turn and was
/// answered `answer`.
pub open spec fn same_answer(
    answer: Result<[u8; 16], InsufficientCredit>,
    result: Result<[u8; 16], SenderTryConsumeError>,
) -> bool {
    match answer {
        Ok(tag) => result == Ok::<[u8; 16], SenderTryConsumeError>(tag),
        Err(_) => result == Err::<[u8; 16], SenderTryConsumeError>(
            SenderTryConsumeError::InsufficientCredit,
        ),
    }
}

/// What is done with the writer's turn that was, or was not, given.
fn consume_in_turn(
    turn: Result<WriteTurn<'_>, Refusal<'_>>,
    slot: &mut DeliveryTagSlot,
    count: u32,
) -> (result: Result<[u8; 16], SenderTryConsumeError>)
    requires
        turn matches Ok(turn) ==> crate::lock::rested(
            crate::lock::write_lock(turn),
            crate::lock::write_found(turn),
        ),
    ensures
        match turn {
            Ok(turn) => exists|
                left: LinkFlowStateInner,
                answer: Result<[u8; 16], InsufficientCredit>,
            | #[trigger]
                crate::state::sent(
                    crate::lock::write_state(turn),
                    left,
                    *old(slot),
                    *final(slot),
                    count,
                    answer,
                ) && same_answer(answer, result) && crate::lock::write_turn(
                    crate::lock::write_lock(turn),
                    crate::lock::write_found(turn),
                    left,
                ),
            Err(_) => result == Err::<[u8; 16], SenderTryConsumeError>(
                SenderTryConsumeError::TryLockError,
            ) && *final(slot) == *old(slot),
        },
    opens_invariants none
{
    match turn {
        Err(_) => Err(SenderTryConsumeError::TryLockError),
        Ok(mut turn) => {
            let ghost begun = turn;
            let answer = held(&mut turn).send(slot, count);
            let over = end_write(turn);
            proof {
                let left = crate::lock::ended_left(over);
                assert(crate::lock::write_turn(
                    crate::lock::write_lock(begun),
                    crate::lock::write_found(begun),
                    left,
                ));
            }
            match answer {
                Ok(tag) => Ok(tag),
                Err(_) => Err(SenderTryConsumeError::InsufficientCredit),
            }
        },
    }
}

/// What a consumer that is willing to wait does next.
#[derive(Debug, Clone, Copy)]
pub enum ConsumeStep {
    /// Make the delivery under this tag
    Deliver([u8; 16]),

    /// Wait to be told that the state has changed, and try again
    AwaitNotification,
}

/// The consuming side of a sending link.
#[derive(Debug)]
pub struct SenderFlowState {
    /// The flow state, which the producing side shares
    pub state: Arc<LinkFlowState<SenderMarker>>,

    /// The count of all turns that this side takes at the lock of the state
    pub turns: Turns,
}

impl SenderFlowState {
    /// The consuming side of the link with this state.
    pub fn new(state: Arc<LinkFlowState<SenderMarker>>) -> (consumer: SenderFlowState)
        ensures
            consumer.state == state,
            consumer.turns.begun() == 0,
    {
        SenderFlowState { state, turns: Turns::new() }
    }

    /// The shared flow state.
    pub fn state(&self) -> (state: &Arc<LinkFlowState<SenderMarker>>)
        ensures
            *state == self.state,
        opens_invariants none
    {
        &self.state
    }

    /// Increments the delivery-count and decrements the link-credit, or says to
    /// wait if there is not enough credit. Waits for the lock.
    ///
    /// Who is told to wait calls this again after a notification. To be told so
    /// is to have changed nothing, so it is safe to give up while waiting.
    pub fn consume(&mut self, slot: &mut DeliveryTagSlot, count: u32) -> (step: ConsumeStep)
        ensures
            final(self).state == old(self).state,
            final(self).turns.begun() == crate::lock::one_more(old(self).turns.begun()),
            match step {
                ConsumeStep::Deliver(tag) => sent_in_turn(
                    old(self).state.lock,
                    *old(slot),
                    *final(slot),
                    count,
                    Ok(tag),
                ),
                ConsumeStep::AwaitNotification => sent_in_turn(
                    old(self).state.lock,
                    *old(slot),
                    *final(slot),
                    count,
                    Err(InsufficientCredit {}),
                ),
            },
        opens_invariants none
    {
        match consume_counted(&self.state.lock, &mut self.turns, slot, count) {
            Ok(tag) => ConsumeStep::Deliver(tag),
            Err(_) => ConsumeStep::AwaitNotification,
        }
    }

    /// Increments the delivery-count and decrements the link-credit, if that
    /// can be done without waiting for the lock or for credit.
    pub fn try_consume(&mut self, slot: &mut DeliveryTagSlot, count: u32) -> (result: Result<
        [u8; 16],
        SenderTryConsumeError,
    >)
        ensures
            final(self).state == old(self).state,
            result == Err::<[u8; 16], SenderTryConsumeError>(SenderTryConsumeError::TryLockError)
                ==> *final(self) == *old(self),
            result != Err::<[u8; 16], SenderTryConsumeError>(SenderTryConsumeError::TryLockError)
                ==> final(self).turns.begun() == crate::lock::one_more(old(self).turns.begun()),
            match result {
                Ok(tag) => sent_in_turn(
                    old(self).state.lock,
                    *old(slot),
                    *final(slot),
                    count,
                    Ok(tag),
                ),
                Err(SenderTryConsumeError::InsufficientCredit) => sent_in_turn(
                    old(self).state.lock,
                    *old(slot),
                    *final(slot),
                    count,
                    Err(InsufficientCredit {}),
                ),
                Err(SenderTryConsumeError::TryLockError) => crate::lock::refused(
                    old(self).state.lock,
                ) && *final(slot) == *old(slot),
            },
        opens_invariants none
    {
        let turn = try_begin_counted(&self.state.lock, &mut self.turns);
        consume_in_turn(turn, slot, count)
    }
}

} // verus!
