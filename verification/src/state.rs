//! Link state and link flow state.

use crate::definitions::clone_properties;
use crate::delivery_tag::{next_delivery_tag, DeliveryTagSlot};
use crate::endpoint::{Handle, LinkFlow, OutputHandle};
use crate::error::{InsufficientCredit, ReceiverTransferError};
use fe2o3_amqp_types::definitions::{Fields, SequenceNo};
use vstd::prelude::*;

verus! {

/// Link state.
#[derive(Debug)]
pub enum LinkState {
    /// The initial state after initialization
    Unattached,

    /// An attach frame has been sent
    AttachSent,

    /// An attach has been sent but with incomplete unsettled
    IncompleteAttachSent,

    /// An attach frame has been received
    AttachReceived,

    /// An attach frame has been received with incomplete unsettled
    IncompleteAttachReceived,

    /// The link is attached
    Attached,

    /// The two endpoints has exchanged Attach frames but at least one of them is incomplete
    IncompleteAttachExchanged,

    /// A non-closing detach frame has been sent
    DetachSent,

    /// A non-closing detach frame has been received
    DetachReceived,

    /// The link is detached
    Detached,

    /// A closing detach frame has been sent
    CloseSent,

    /// A closing detach has arrived
    CloseReceived,

    /// The link is closed
    Closed,
}


/// The sequence number that comes `steps` after `number`.
pub open spec fn advanced(number: SequenceNo, steps: int) -> SequenceNo {
    ((number + steps) % 0x1_0000_0000) as u32
}

/// The flow state of one end of a link.
#[derive(Debug)]
pub struct LinkFlowStateInner {
    /// The delivery-count that the sender's first attach frame carried
    pub initial_delivery_count: SequenceNo,

    /// The sequence number of the next delivery
    pub delivery_count: SequenceNo,

    /// How many more deliveries the receiver takes
    pub link_credit: u32,

    /// How many messages wait at the sender
    pub available: u32,

    /// Whether the sender should use up its credit
    pub drain: bool,

    /// Link properties
    pub properties: Option<Fields>,
}

/// What the operations on the state come to.
impl LinkFlowStateInner {
    /// The flow that tells the peer this state.
    pub open spec fn flow(
        self,
        output_handle: OutputHandle,
        echo: bool,
        include_properties: bool,
    ) -> LinkFlow {
        LinkFlow {
            handle: Handle(output_handle.0),
            delivery_count: Some(self.delivery_count),
            link_credit: Some(self.link_credit),
            available: Some(self.available),
            drain: self.drain,
            echo,
            properties: if include_properties {
                self.properties
            } else {
                None
            },
        }
    }

    /// The delivery-count that `flow` speaks of: while the receiver does not
    /// know it, the one that the sender started from.
    pub open spec fn receiver_delivery_count(self, flow: LinkFlow) -> SequenceNo {
        match flow.delivery_count {
            Some(delivery_count) => delivery_count,
            None => self.initial_delivery_count,
        }
    }

    /// How far the limit that `flow` sets with a credit of `link_credit` is from
    /// the sender's own delivery-count, as plain numbers.
    pub open spec fn distance_to_limit(self, flow: LinkFlow, link_credit: u32) -> int {
        self.receiver_delivery_count(flow) + link_credit - self.delivery_count
    }

    /// The credit of a sender after `flow`: its distance to the limit, counted
    /// round where the limit comes after the last sequence number and the
    /// sender's delivery-count has come round already. A sender whose
    /// delivery-count is a greater number than the limit has none. A flow
    /// without credit changes nothing.
    pub open spec fn granted_credit(self, flow: LinkFlow) -> u32 {
        match flow.link_credit {
            Some(link_credit) => {
                let distance = self.distance_to_limit(flow, link_credit);
                if distance < 0 {
                    0
                } else {
                    (distance % 0x1_0000_0000) as u32
                }
            },
            None => self.link_credit,
        }
    }

    /// The sender's state after `flow`. To drain is to advance the
    /// delivery-count by all the credit there is.
    pub open spec fn after_flow_to_sender(self, flow: LinkFlow) -> LinkFlowStateInner {
        let credit = self.granted_credit(flow);
        if flow.drain {
            LinkFlowStateInner {
                delivery_count: advanced(self.delivery_count, credit as int),
                link_credit: 0,
                drain: true,
                ..self
            }
        } else {
            LinkFlowStateInner { link_credit: credit, drain: false, ..self }
        }
    }

    /// What a sender answers to `flow`: its new state, if the flow drains or
    /// asks for an answer. The answer asks for none.
    pub open spec fn sender_reply(
        self,
        flow: LinkFlow,
        output_handle: OutputHandle,
    ) -> Option<LinkFlow> {
        if flow.drain || flow.echo {
            Some(self.after_flow_to_sender(flow).flow(output_handle, false, false))
        } else {
            None
        }
    }

    /// The receiver's state after `flow`: what the sender says of its
    /// delivery-count and of waiting messages is taken over.
    pub open spec fn after_flow_to_receiver(self, flow: LinkFlow) -> LinkFlowStateInner {
        LinkFlowStateInner {
            delivery_count: match flow.delivery_count {
                Some(delivery_count) => delivery_count,
                None => self.delivery_count,
            },
            available: match flow.available {
                Some(available) => available,
                None => self.available,
            },
            ..self
        }
    }

    /// What a receiver answers to `flow`: its new state, if the flow asks for
    /// an answer. The answer asks for none.
    pub open spec fn receiver_reply(
        self,
        flow: LinkFlow,
        output_handle: OutputHandle,
    ) -> Option<LinkFlow> {
        if flow.echo {
            Some(self.after_flow_to_receiver(flow).flow(output_handle, false, false))
        } else {
            None
        }
    }

    /// The receiver's state after `count` deliveries arrived.
    pub open spec fn after_receiving(self, count: u32) -> LinkFlowStateInner {
        LinkFlowStateInner {
            delivery_count: advanced(self.delivery_count, count as int),
            link_credit: (self.link_credit - count) as u32,
            ..self
        }
    }

    /// The sender's state after one delivery, which takes one credit if there
    /// is any.
    pub open spec fn after_sending(self) -> LinkFlowStateInner {
        LinkFlowStateInner {
            delivery_count: advanced(self.delivery_count, 1),
            link_credit: if self.link_credit == 0 {
                0
            } else {
                (self.link_credit - 1) as u32
            },
            ..self
        }
    }
}

impl LinkFlowStateInner {
    /// The flow that tells the peer this state.
    pub fn as_link_flow(
        &self,
        output_handle: OutputHandle,
        echo: bool,
        include_properties: bool,
    ) -> (flow: LinkFlow)
        ensures
            flow == self.flow(output_handle, echo, include_properties),
    {
        let properties = if include_properties {
            clone_properties(&self.properties)
        } else {
            None
        };

        LinkFlow {
            handle: Handle::from(output_handle),
            delivery_count: Some(self.delivery_count),
            link_credit: Some(self.link_credit),
            available: Some(self.available),
            drain: self.drain,
            echo,
            properties,
        }
    }

    /// Takes in a flow that the receiver sent to this sender, and gives the
    /// answer to it, if there is to be one.
    pub fn on_flow_to_sender(&mut self, flow: LinkFlow, output_handle: OutputHandle) -> (reply:
        Option<LinkFlow>)
        ensures
            *final(self) == old(self).after_flow_to_sender(flow),
            reply == old(self).sender_reply(flow, output_handle),
    {
        // link-credit_snd := delivery-count_rcv + link-credit_rcv - delivery-count_snd.
        let delivery_count_rcv: SequenceNo = match flow.delivery_count {
            Some(delivery_count) => delivery_count,
            None => self.initial_delivery_count,
        };

        if let Some(link_credit_rcv) = flow.link_credit {
            let limit: u64 = delivery_count_rcv as u64 + link_credit_rcv as u64;
            let distance: u64 = limit.saturating_sub(self.delivery_count as u64);
            self.link_credit = (distance % 0x1_0000_0000) as u32;
        }

        // The sender's drain flag is always the last that the receiver indicated.
        self.drain = flow.drain;
        if flow.drain {
            self.delivery_count = self.delivery_count.wrapping_add(self.link_credit);
            self.link_credit = 0;

            return Some(self.as_link_flow(output_handle, false, false));
        }

        if flow.echo {
            // An answer that asked for another would never end.
            Some(self.as_link_flow(output_handle, false, false))
        } else {
            None
        }
    }

    /// Takes in a flow that the sender sent to this receiver, and gives the
    /// answer to it, if there is to be one.
    pub fn on_flow_to_receiver(&mut self, flow: LinkFlow, output_handle: OutputHandle) -> (reply:
        Option<LinkFlow>)
        ensures
            *final(self) == old(self).after_flow_to_receiver(flow),
            reply == old(self).receiver_reply(flow, output_handle),
    {
        if let Some(delivery_count) = flow.delivery_count {
            self.delivery_count = delivery_count;
        }
        if let Some(available) = flow.available {
            self.available = available;
        }
        if flow.echo {
            Some(self.as_link_flow(output_handle, false, false))
        } else {
            None
        }
    }

    /// Takes `count` credits of this receiver for as many deliveries, if it
    /// has them.
    pub fn receive(&mut self, count: u32) -> (result: Result<(), ReceiverTransferError>)
        ensures
            received(*old(self), *final(self), count, result),
    {
        if self.link_credit < count {
            Err(ReceiverTransferError::TransferLimitExceeded)
        } else {
            self.delivery_count = self.delivery_count.wrapping_add(count);
            self.link_credit = self.link_credit.saturating_sub(count);
            Ok(())
        }
    }

    /// Spends one credit of this sender on a delivery, and gives its tag, if
    /// the credit covers `count`.
    pub fn send(&mut self, slot: &mut DeliveryTagSlot, count: u32) -> (result: Result<
        [u8; 16],
        InsufficientCredit,
    >)
        ensures
            sent(*old(self), *final(self), *old(slot), *final(slot), count, result),
        opens_invariants none
    {
        if self.link_credit < count {
            Err(InsufficientCredit {})
        } else {
            let tag = generate_delivery_tag(self, slot);
            Ok(tag)
        }
    }
}

/// Whether `result` is what a receiver, whose state was `before` and is
/// `after`, answers when `count` credits are asked of it.
pub open spec fn received(
    before: LinkFlowStateInner,
    after: LinkFlowStateInner,
    count: u32,
    result: Result<(), ReceiverTransferError>,
) -> bool {
    if before.link_credit < count {
        &&& result == Err::<(), ReceiverTransferError>(ReceiverTransferError::TransferLimitExceeded)
        &&& after == before
    } else {
        &&& result == Ok::<(), ReceiverTransferError>(())
        &&& after == before.after_receiving(count)
    }
}

/// Whether `result` is what a sender, whose state was `before` and is `after`
/// and whose tag slot was `slot_before` and is `slot_after`, answers to a
/// delivery that asks for `count` credits. Where it has fewer, it is refused
/// and nothing changes.
pub open spec fn sent(
    before: LinkFlowStateInner,
    after: LinkFlowStateInner,
    slot_before: DeliveryTagSlot,
    slot_after: DeliveryTagSlot,
    count: u32,
    result: Result<[u8; 16], InsufficientCredit>,
) -> bool {
    if before.link_credit < count {
        &&& result is Err
        &&& after == before
        &&& slot_after == slot_before
    } else {
        &&& result matches Ok(tag)
        &&& crate::delivery_tag::tag_taken(slot_before, slot_after, tag)
        &&& after == before.after_sending()
    }
}

/// Counts one delivery, and gives it a tag of sixteen octets.
///
/// The tag is the custom one, if the slot holds one; handing it out clears it.
/// Else it is a random UUID in the order in which the peer reads it.
pub fn generate_delivery_tag(
    state: &mut LinkFlowStateInner,
    slot: &mut DeliveryTagSlot,
) -> (tag: [u8; 16])
    ensures
        *final(state) == old(state).after_sending(),
        crate::delivery_tag::tag_taken(*old(slot), *final(slot), tag),
    opens_invariants none
{
    state.delivery_count = if state.delivery_count == u32::MAX {
        0
    } else {
        state.delivery_count + 1
    };
    if state.link_credit > 0 {
        state.link_credit = state.link_credit - 1;
    }
    next_delivery_tag(slot)
}

} // verus!
