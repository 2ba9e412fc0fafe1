//! The flow state of a link, shared behind a lock.
//!
//! The sender and the receiver handle flow control differently; each has the
//! operations of its role. A method of a shared state takes a turn at the lock,
//! and its contract says what the turn found, what it left, and what came of it.
//! How many turns a method takes is not stated.

use crate::definitions::clone_properties;
use crate::endpoint::{LinkFlow, OutputHandle};
use crate::error::ReceiverTransferError;
use crate::lock::{begin_counted, begin_read, end_write, held, new_lock, seen, Turns};
use crate::role::{ReceiverMarker, SenderMarker};
use crate::state::LinkFlowStateInner;
use fe2o3_amqp_types::definitions::{Fields, SequenceNo};
use parking_lot::RwLock;
use std::marker::PhantomData;
use std::sync::Arc;
use vstd::prelude::*;

verus! {

/// The flow state of a link whose role is `R`.
#[derive(Debug)]
#[verifier::reject_recursive_types(R)]
pub struct LinkFlowState<R> {
    /// The lock around the state
    pub lock: RwLock<LinkFlowStateInner>,

    /// The role
    pub role: PhantomData<R>,
}

impl<R> LinkFlowState<R> {
    /// Shares `inner` behind a new lock.
    pub fn new(inner: LinkFlowStateInner) -> (state: Self)
        ensures
            crate::lock::made_with(state.lock) == inner,
    {
        LinkFlowState { lock: new_lock(inner), role: PhantomData }
    }
}

impl LinkFlowState<SenderMarker> {
    /// The state of a sending link.
    pub fn sender(inner: LinkFlowStateInner) -> (state: Self)
        ensures
            crate::lock::made_with(state.lock) == inner,
    {
        Self::new(inner)
    }
}

impl LinkFlowState<ReceiverMarker> {
    /// The state of a receiving link.
    pub fn receiver(inner: LinkFlowStateInner) -> (state: Self)
        ensures
            crate::lock::made_with(state.lock) == inner,
    {
        Self::new(inner)
    }
}

impl LinkFlowState<SenderMarker> {
    /// Handles an incoming flow frame.
    ///
    /// If an echo (a reply with the local flow state) is requested, or the
    /// flow drains, this gives the flow to reply with.
    pub fn on_incoming_flow(&self, flow: LinkFlow, output_handle: OutputHandle) -> (reply: Option<
        LinkFlow,
    >)
        ensures
            exists|found: LinkFlowStateInner| #[trigger]
                crate::lock::write_turn(self.lock, found, found.after_flow_to_sender(flow)) && reply
                    == found.sender_reply(flow, output_handle),
    {
        let mut turns = Turns::new();
        let mut turn = begin_counted(&self.lock, &mut turns);
        let reply = held(&mut turn).on_flow_to_sender(flow, output_handle);
        let over = end_write(turn);
        proof {
            let found = crate::lock::ended_found(over);
            assert(crate::lock::write_turn(self.lock, found, found.after_flow_to_sender(flow)));
        }
        reply
    }
}

impl LinkFlowState<ReceiverMarker> {
    /// Handles an incoming flow frame, and gives the flow to reply with if an
    /// echo is requested.
    pub fn on_incoming_flow(&self, flow: LinkFlow, output_handle: OutputHandle) -> (reply: Option<
        LinkFlow,
    >)
        ensures
            exists|found: LinkFlowStateInner| #[trigger]
                crate::lock::write_turn(self.lock, found, found.after_flow_to_receiver(flow))
                    && reply == found.receiver_reply(flow, output_handle),
    {
        let mut turns = Turns::new();
        let mut turn = begin_counted(&self.lock, &mut turns);
        let reply = held(&mut turn).on_flow_to_receiver(flow, output_handle);
        let over = end_write(turn);
        proof {
            let found = crate::lock::ended_found(over);
            assert(crate::lock::write_turn(self.lock, found, found.after_flow_to_receiver(flow)));
        }
        reply
    }

    /// Consumes `count` link credits, one for each delivery that arrived.
    /// Gives an error if there is not enough link credit.
    pub fn consume(&self, count: u32) -> (result: Result<(), ReceiverTransferError>)
        ensures
            exists|found: LinkFlowStateInner, left: LinkFlowStateInner| #[trigger]
                crate::lock::write_turn(self.lock, found, left) && crate::state::received(
                    found,
                    left,
                    count,
                    result,
                ),
    {
        let mut turns = Turns::new();
        let mut turn = begin_counted(&self.lock, &mut turns);
        let result = held(&mut turn).receive(count);
        let over = end_write(turn);
        proof {
            let found = crate::lock::ended_found(over);
            let left = crate::lock::ended_left(over);
            assert(crate::lock::write_turn(self.lock, found, left));
        }
        result
    }
}

impl<R> LinkFlowState<R> {
    /// How many more deliveries the receiver takes.
    pub fn link_credit(&self) -> (link_credit: u32)
        ensures
            exists|seen: LinkFlowStateInner| #[trigger]
                crate::lock::read_turn(self.lock, seen) && link_credit == seen.link_credit,
    {
        let turn = begin_read(&self.lock);
        assert(crate::lock::read_turn(self.lock, crate::lock::read_state(turn)));
        seen(&turn).link_credit
    }

    /// Whether the sender should use up its credit.
    pub fn drain(&self) -> (drain: bool)
        ensures
            exists|seen: LinkFlowStateInner| #[trigger]
                crate::lock::read_turn(self.lock, seen) && drain == seen.drain,
    {
        let turn = begin_read(&self.lock);
        assert(crate::lock::read_turn(self.lock, crate::lock::read_state(turn)));
        seen(&turn).drain
    }

    /// The delivery-count that the sender started from.
    pub fn initial_delivery_count(&self) -> (initial_delivery_count: SequenceNo)
        ensures
            exists|seen: LinkFlowStateInner| #[trigger]
                crate::lock::read_turn(self.lock, seen) && initial_delivery_count
                    == seen.initial_delivery_count,
    {
        let turn = begin_read(&self.lock);
        assert(crate::lock::read_turn(self.lock, crate::lock::read_state(turn)));
        seen(&turn).initial_delivery_count
    }

    /// Replaces the delivery-count that the sender started from by what `f`
    /// makes of it. `f` is called during the turn, and must take none itself.
    pub fn initial_delivery_count_mut(&self, f: impl Fn(u32) -> u32)
        requires
            forall|n: u32| call_requires(f, (n,)),
        ensures
            exists|found: LinkFlowStateInner, new: u32|
                call_ensures(f, (found.initial_delivery_count,), new)
                    && #[trigger] crate::lock::write_turn(
                    self.lock,
                    found,
                    (LinkFlowStateInner { initial_delivery_count: new, ..found }),
                ),
    {
        let mut turns = Turns::new();
        let mut turn = begin_counted(&self.lock, &mut turns);
        let state = held(&mut turn);
        let new: u32 = f(state.initial_delivery_count);
        state.initial_delivery_count = new;
        let over = end_write(turn);
        proof {
            let found = crate::lock::ended_found(over);
            let left = LinkFlowStateInner { initial_delivery_count: new, ..found };
            assert(crate::lock::write_turn(self.lock, found, left));
        }
    }

    /// Replaces the delivery-count by what `f` makes of it. `f` is called
    /// during the turn, and must take none itself.
    pub fn delivery_count_mut(&self, f: impl Fn(u32) -> u32)
        requires
            forall|n: u32| call_requires(f, (n,)),
        ensures
            exists|found: LinkFlowStateInner, new: u32|
                call_ensures(f, (found.delivery_count,), new)
                    && #[trigger] crate::lock::write_turn(
                    self.lock,
                    found,
                    (LinkFlowStateInner { delivery_count: new, ..found }),
                ),
    {
        let mut turns = Turns::new();
        let mut turn = begin_counted(&self.lock, &mut turns);
        let state = held(&mut turn);
        let new: u32 = f(state.delivery_count);
        state.delivery_count = new;
        let over = end_write(turn);
        proof {
            let found = crate::lock::ended_found(over);
            let left = LinkFlowStateInner { delivery_count: new, ..found };
            assert(crate::lock::write_turn(self.lock, found, left));
        }
    }

    /// A copy of the link properties.
    pub fn properties(&self) -> (properties: Option<Fields>)
        ensures
            exists|seen: LinkFlowStateInner| #[trigger]
                crate::lock::read_turn(self.lock, seen) && properties == seen.properties,
    {
        let turn = begin_read(&self.lock);
        assert(crate::lock::read_turn(self.lock, crate::lock::read_state(turn)));
        clone_properties(&seen(&turn).properties)
    }
}

/// State that whoever produces for a link updates item by item.
pub trait ProducerState {
    /// What is produced
    type Item;

    /// What comes of an item
    type Outcome;

    /// Takes one item into the state.
    fn update_state(&mut self, item: Self::Item) -> Self::Outcome;
}

impl ProducerState for Arc<LinkFlowState<SenderMarker>> {
    type Item = (LinkFlow, OutputHandle);

    type Outcome = Option<LinkFlow>;

    /// Handles an incoming flow frame, and gives the flow to reply with if
    /// there is to be one.
    fn update_state(&mut self, item: (LinkFlow, OutputHandle)) -> (outcome: Option<LinkFlow>)
        ensures
            *final(self) == *old(self),
            exists|found: LinkFlowStateInner| #[trigger]
                crate::lock::write_turn(old(self).lock, found, found.after_flow_to_sender(item.0))
                    && outcome == found.sender_reply(item.0, item.1),
    {
        let (flow, output_handle) = item;
        self.on_incoming_flow(flow, output_handle)
    }
}

} // verus!
