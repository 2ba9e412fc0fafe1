//! What holds of links as a whole.

use crate::delivery_tag::{DeliveryTagSlot, UuidFields};
use crate::endpoint::{LinkFlow, OutputHandle};
use crate::error::{InsufficientCredit, ReceiverTransferError};
use crate::lock::{EndedTurn, ReadTurn, Refusal};
use crate::state::LinkFlowStateInner;
use parking_lot::RwLock;
use uuid::Uuid;
use vstd::prelude::*;

verus! {

/// The sequence number up to which this end of the link lets deliveries go:
/// the delivery-count plus the credit, counted round after the last number.
pub open spec fn delivery_limit(state: LinkFlowStateInner) -> int {
    (state.delivery_count + state.link_credit) % 0x1_0000_0000
}

/// How far the limit that `flow` sets is from the delivery-count of `sender`, as
/// plain numbers: delivery-count_rcv + link-credit_rcv - delivery-count_snd.
pub open spec fn distance_to_limit(sender: LinkFlowStateInner, flow: LinkFlow) -> int {
    sender.distance_to_limit(flow, flow.link_credit.unwrap())
}

/// Whether `flow` gives credit, and sets a limit that is no smaller a number
/// than the delivery-count of `sender`.
pub open spec fn limit_in_reach(sender: LinkFlowStateInner, flow: LinkFlow) -> bool {
    flow.link_credit is Some && distance_to_limit(sender, flow) >= 0
}

/// A flow that gives credit sets the sender's credit by the formula
/// link-credit_snd := delivery-count_rcv + link-credit_rcv - delivery-count_snd,
/// counted round after the last sequence number, unless that is negative.
/// Wherever the plain formula gives a credit, it is that.
pub proof fn credit_follows_formula(sender: LinkFlowStateInner, flow: LinkFlow)
    requires
        limit_in_reach(sender, flow),
    ensures
        sender.granted_credit(flow) == distance_to_limit(sender, flow) % 0x1_0000_0000,
        distance_to_limit(sender, flow) <= u32::MAX ==> sender.granted_credit(flow)
            == distance_to_limit(sender, flow),
        !flow.drain ==> sender.after_flow_to_sender(flow).link_credit == sender.granted_credit(
            flow,
        ),
{
}

/// A sender whose delivery-count is a greater number than the limit which a flow
/// sets is left without credit and where it is.
pub proof fn no_credit_past_limit(sender: LinkFlowStateInner, flow: LinkFlow)
    requires
        flow.link_credit is Some,
        !limit_in_reach(sender, flow),
    ensures
        sender.granted_credit(flow) == 0,
        sender.after_flow_to_sender(flow).link_credit == 0,
        sender.after_flow_to_sender(flow).delivery_count == sender.delivery_count,
{
}

/// Whatever credit a flow grants, to spend it all is to arrive at the limit.
pub proof fn credit_ends_at_limit(sender: LinkFlowStateInner, flow: LinkFlow)
    requires
        flow.link_credit is Some,
        sender.granted_credit(flow) > 0,
    ensures
        crate::state::advanced(sender.delivery_count, sender.granted_credit(flow) as int)
            == crate::state::advanced(
            sender.receiver_delivery_count(flow),
            flow.link_credit.unwrap() as int,
        ),
{
}

/// A sender that is not behind the receiver, or that has come round to the limit
/// already, is granted no more than the flow gives.
pub proof fn no_more_credit_than_given(sender: LinkFlowStateInner, flow: LinkFlow)
    requires
        flow.link_credit is Some,
        sender.receiver_delivery_count(flow) <= sender.delivery_count || distance_to_limit(
            sender,
            flow,
        ) > u32::MAX,
    ensures
        sender.granted_credit(flow) <= flow.link_credit.unwrap(),
{
}

/// The more credit a flow gives, the more credit a sender ends up with. The
/// exception is where the greater credit moves the limit all the way round past
/// the sender, and the smaller does not.
pub proof fn more_credit_grants_more(
    sender: LinkFlowStateInner,
    flow: LinkFlow,
    less: u32,
    more: u32,
)
    requires
        less <= more,
        sender.distance_to_limit(flow, more) <= u32::MAX || sender.distance_to_limit(flow, less)
            > u32::MAX,
    ensures
        sender.granted_credit(LinkFlow { link_credit: Some(less), ..flow })
            <= sender.granted_credit(LinkFlow { link_credit: Some(more), ..flow }),
{
}

/// To handle the same flow twice is to handle it once: the second time leaves
/// the state as it is and gives the same answer.
pub proof fn same_flow_twice_is_once(
    sender: LinkFlowStateInner,
    flow: LinkFlow,
    output_handle: OutputHandle,
)
    ensures
        ({
            let once = sender.after_flow_to_sender(flow);
            &&& once.after_flow_to_sender(flow) == once
            &&& once.sender_reply(flow, output_handle) == sender.sender_reply(flow, output_handle)
        }),
{
}

/// The same holds of a receiver.
pub proof fn same_flow_to_receiver_twice_is_once(
    receiver: LinkFlowStateInner,
    flow: LinkFlow,
    output_handle: OutputHandle,
)
    ensures
        ({
            let once = receiver.after_flow_to_receiver(flow);
            &&& once.after_flow_to_receiver(flow) == once
            &&& once.receiver_reply(flow, output_handle) == receiver.receiver_reply(
                flow,
                output_handle,
            )
        }),
{
}

/// A flow that does not say the receiver's delivery-count means the one that
/// the sender started from.
pub proof fn unknown_delivery_count_is_initial(
    sender: LinkFlowStateInner,
    flow: LinkFlow,
    output_handle: OutputHandle,
)
    requires
        flow.delivery_count is None,
    ensures
        ({
            let spelled_out = LinkFlow {
                delivery_count: Some(sender.initial_delivery_count),
                ..flow
            };
            &&& sender.after_flow_to_sender(flow) == sender.after_flow_to_sender(spelled_out)
            &&& sender.sender_reply(flow, output_handle) == sender.sender_reply(
                spelled_out,
                output_handle,
            )
        }),
{
}

/// Once a sender has taken in the receiver's state, both have the same limit,
/// unless the sender's delivery-count was a greater number. That holds also where
/// the flow drains, and where the limit or the sender has come round after the
/// last sequence number.
pub proof fn limits_agree_after_flow(
    sender: LinkFlowStateInner,
    receiver: LinkFlowStateInner,
    output_handle: OutputHandle,
    echo: bool,
    include_properties: bool,
)
    requires
        limit_in_reach(sender, receiver.flow(output_handle, echo, include_properties)),
    ensures
        delivery_limit(
            sender.after_flow_to_sender(receiver.flow(output_handle, echo, include_properties)),
        ) == delivery_limit(receiver),
{
}

/// A delivery leaves the sender's limit where it is, as long as there is
/// credit for it.
pub proof fn sending_keeps_limit(sender: LinkFlowStateInner)
    requires
        sender.link_credit > 0,
    ensures
        delivery_limit(sender.after_sending()) == delivery_limit(sender),
{
}

/// Whatever a receiver answers to arriving deliveries, its limit stays where it
/// is.
pub proof fn receiving_keeps_limit(
    before: LinkFlowStateInner,
    after: LinkFlowStateInner,
    count: u32,
    result: Result<(), ReceiverTransferError>,
)
    requires
        crate::state::received(before, after, count, result),
    ensures
        delivery_limit(after) == delivery_limit(before),
{
}

/// Deliveries that arrive in two lots come to the same as all of them at once.
pub proof fn receiving_adds_up(receiver: LinkFlowStateInner, first: u32, second: u32)
    requires
        first + second <= receiver.link_credit,
    ensures
        receiver.after_receiving(first).after_receiving(second) == receiver.after_receiving(
            (first + second) as u32,
        ),
{
}

/// A delivery that the sender's credit covers keeps two ends in step that are
/// so: the receiver takes it, and the ends again agree on delivery-count and
/// credit.
pub proof fn delivery_keeps_ends_in_step(
    sender: LinkFlowStateInner,
    receiver: LinkFlowStateInner,
    receiver_after: LinkFlowStateInner,
    result: Result<(), ReceiverTransferError>,
)
    requires
        sender.link_credit > 0,
        sender.delivery_count == receiver.delivery_count,
        sender.link_credit == receiver.link_credit,
        crate::state::received(receiver, receiver_after, 1, result),
    ensures
        result is Ok,
        sender.after_sending().delivery_count == receiver_after.delivery_count,
        sender.after_sending().link_credit == receiver_after.link_credit,
{
}

/// A flow that drains is always answered. It leaves the sender without
/// credit, with the delivery-count advanced by all the credit it had, and the
/// answer says so.
pub proof fn drain_uses_up_credit(
    sender: LinkFlowStateInner,
    flow: LinkFlow,
    output_handle: OutputHandle,
)
    requires
        flow.drain,
    ensures
        ({
            let drained = sender.after_flow_to_sender(flow);
            &&& drained.link_credit == 0
            &&& drained.delivery_count == crate::state::advanced(
                sender.delivery_count,
                sender.granted_credit(flow) as int,
            )
            &&& sender.sender_reply(flow, output_handle) matches Some(reply)
            &&& reply.link_credit == Some(0u32)
            &&& reply.delivery_count == Some(drained.delivery_count)
            &&& reply.drain
        }),
{
}

/// After the answer to a drain has reached it, the receiver has the sender's
/// delivery-count.
pub proof fn drain_answer_tells_receiver(
    sender: LinkFlowStateInner,
    receiver: LinkFlowStateInner,
    flow: LinkFlow,
    output_handle: OutputHandle,
)
    requires
        flow.drain,
    ensures
        receiver.after_flow_to_receiver(
            sender.sender_reply(flow, output_handle).unwrap(),
        ).delivery_count == sender.after_flow_to_sender(flow).delivery_count,
{
}

/// The sender's drain flag is always the last that the receiver indicated.
pub proof fn drain_flag_is_last_indicated(sender: LinkFlowStateInner, flow: LinkFlow)
    ensures
        sender.after_flow_to_sender(flow).drain == flow.drain,
{
}

/// What a flow leaves alone at a sender: the number of waiting messages, the
/// delivery-count it started from and the properties always, and the
/// delivery-count unless the flow drains.
pub proof fn sender_keeps_its_own(sender: LinkFlowStateInner, flow: LinkFlow)
    ensures
        sender.after_flow_to_sender(flow).available == sender.available,
        sender.after_flow_to_sender(flow).initial_delivery_count == sender.initial_delivery_count,
        sender.after_flow_to_sender(flow).properties == sender.properties,
        !flow.drain ==> sender.after_flow_to_sender(flow).delivery_count == sender.delivery_count,
{
}

/// What a flow leaves alone at a receiver: the credit, the drain flag, the
/// delivery-count that the sender started from and the properties.
pub proof fn receiver_keeps_its_own(receiver: LinkFlowStateInner, flow: LinkFlow)
    ensures
        receiver.after_flow_to_receiver(flow).link_credit == receiver.link_credit,
        receiver.after_flow_to_receiver(flow).drain == receiver.drain,
        receiver.after_flow_to_receiver(flow).initial_delivery_count
            == receiver.initial_delivery_count,
        receiver.after_flow_to_receiver(flow).properties == receiver.properties,
{
}

/// No reply asks for a reply, and none carries properties.
pub proof fn replies_ask_for_nothing(
    state: LinkFlowStateInner,
    flow: LinkFlow,
    output_handle: OutputHandle,
)
    ensures
        state.sender_reply(flow, output_handle) matches Some(reply) ==> !reply.echo
            && reply.properties is None,
        state.receiver_reply(flow, output_handle) matches Some(reply) ==> !reply.echo
            && reply.properties is None,
{
}

/// There is no constant ping-pong: what a sender replies is never replied to,
/// and what a receiver replies is replied to only while the receiver drains.
pub proof fn replies_come_to_an_end(
    sender: LinkFlowStateInner,
    receiver: LinkFlowStateInner,
    flow: LinkFlow,
    sender_handle: OutputHandle,
    receiver_handle: OutputHandle,
)
    ensures
        sender.sender_reply(flow, sender_handle) matches Some(reply) ==> receiver.receiver_reply(
            reply,
            receiver_handle,
        ) is None,
        receiver.receiver_reply(flow, receiver_handle) matches Some(reply) ==> (
        sender.sender_reply(reply, sender_handle) is Some <==> receiver.drain),
{
}

/// The sender's state after `deliveries` deliveries.
pub open spec fn after_sending_times(
    sender: LinkFlowStateInner,
    deliveries: nat,
) -> LinkFlowStateInner
    decreases deliveries,
{
    if deliveries == 0 {
        sender
    } else {
        after_sending_times(sender, (deliveries - 1) as nat).after_sending()
    }
}

/// Credit is spent one delivery at a time, and the delivery-count goes up one
/// at a time.
pub proof fn each_delivery_takes_one_credit(sender: LinkFlowStateInner, deliveries: nat)
    requires
        deliveries <= sender.link_credit,
    ensures
        after_sending_times(sender, deliveries) == (LinkFlowStateInner {
            delivery_count: crate::state::advanced(sender.delivery_count, deliveries as int),
            link_credit: (sender.link_credit - deliveries) as u32,
            ..sender
        }),
    decreases deliveries,
{
    if deliveries > 0 {
        each_delivery_takes_one_credit(sender, (deliveries - 1) as nat);
    }
}

/// A sender with some credit makes exactly as many deliveries as it has
/// credits: the attempt after `deliveries` of them succeeds if and only if
/// credit is left.
pub proof fn credit_is_number_of_deliveries(
    sender: LinkFlowStateInner,
    deliveries: nat,
    after: LinkFlowStateInner,
    slot_before: DeliveryTagSlot,
    slot_after: DeliveryTagSlot,
    result: Result<[u8; 16], InsufficientCredit>,
)
    requires
        deliveries <= sender.link_credit,
        crate::state::sent(
            after_sending_times(sender, deliveries),
            after,
            slot_before,
            slot_after,
            1,
            result,
        ),
    ensures
        result is Ok <==> deliveries < sender.link_credit,
{
    each_delivery_takes_one_credit(sender, deliveries);
}

/// A delivery that waits for credit can be made once a flow has granted
/// enough, whatever the state was before.
pub proof fn grant_ends_waiting(
    sender: LinkFlowStateInner,
    flow: LinkFlow,
    after: LinkFlowStateInner,
    slot_before: DeliveryTagSlot,
    slot_after: DeliveryTagSlot,
    count: u32,
    result: Result<[u8; 16], InsufficientCredit>,
)
    requires
        !flow.drain,
        count <= sender.granted_credit(flow),
        crate::state::sent(
            sender.after_flow_to_sender(flow),
            after,
            slot_before,
            slot_after,
            count,
            result,
        ),
    ensures
        result is Ok,
{
}

/// After a drain nothing can be delivered that asks for credit.
pub proof fn drained_sender_waits(
    sender: LinkFlowStateInner,
    flow: LinkFlow,
    after: LinkFlowStateInner,
    slot_before: DeliveryTagSlot,
    slot_after: DeliveryTagSlot,
    count: u32,
    result: Result<[u8; 16], InsufficientCredit>,
)
    requires
        flow.drain,
        count > 0,
        crate::state::sent(
            sender.after_flow_to_sender(flow),
            after,
            slot_before,
            slot_after,
            count,
            result,
        ),
    ensures
        result is Err,
{
}

/// Attempts that have to wait leave no trace, however many there are, so they
/// may be given up at any time: the next attempt comes out as if none of them
/// had been made. `states[i]` and `slots[i]` are what attempt `i`, which asks for
/// `counts[i]` credits, comes upon.
pub proof fn giving_up_is_safe(
    states: Seq<LinkFlowStateInner>,
    slots: Seq<DeliveryTagSlot>,
    counts: Seq<u32>,
    after: LinkFlowStateInner,
    slot_after: DeliveryTagSlot,
    count: u32,
    result: Result<[u8; 16], InsufficientCredit>,
)
    requires
        states.len() == counts.len() + 1,
        slots.len() == counts.len() + 1,
        forall|i: int|
            #![trigger counts[i]]
            0 <= i < counts.len() ==> crate::state::sent(
                states[i],
                states[i + 1],
                slots[i],
                slots[i + 1],
                counts[i],
                Err(InsufficientCredit {}),
            ),
        crate::state::sent(states.last(), after, slots.last(), slot_after, count, result),
    ensures
        states.last() == states.first(),
        slots.last() == slots.first(),
        crate::state::sent(states.first(), after, slots.first(), slot_after, count, result),
    decreases counts.len(),
{
    if counts.len() > 0 {
        let last = counts.len() - 1;
        assert(crate::state::sent(
            states[last],
            states[last + 1],
            slots[last],
            slots[last + 1],
            counts[last],
            Err(InsufficientCredit {}),
        ));
        let earlier = counts.drop_last();
        assert forall|i: int|
            #![trigger earlier[i]]
            0 <= i < earlier.len() implies crate::state::sent(
            states.drop_last()[i],
            states.drop_last()[i + 1],
            slots.drop_last()[i],
            slots.drop_last()[i + 1],
            earlier[i],
            Err(InsufficientCredit {}),
        ) by {
            assert(earlier[i] == counts[i]);
        }
        giving_up_is_safe(
            states.drop_last(),
            slots.drop_last(),
            earlier,
            after,
            slot_after,
            count,
            result,
        );
    }
}

/// An attempt at a shared state that has to wait ends its turn with the state
/// that it found, and keeps the chosen tag, whatever others do before and after.
pub proof fn waiting_leaves_no_trace(
    lock: RwLock<LinkFlowStateInner>,
    slot_before: DeliveryTagSlot,
    slot_after: DeliveryTagSlot,
    count: u32,
)
    requires
        crate::consumer::sent_in_turn(
            lock,
            slot_before,
            slot_after,
            count,
            Err(InsufficientCredit {}),
        ),
    ensures
        slot_after == slot_before,
        exists|found: LinkFlowStateInner| #[trigger]
            crate::lock::write_turn(lock, found, found) && found.link_credit < count,
{
    let (found, left) = choose|found: LinkFlowStateInner, left: LinkFlowStateInner| #[trigger]
        crate::lock::write_turn(lock, found, left) && crate::state::sent(
            found,
            left,
            slot_before,
            slot_after,
            count,
            Err(InsufficientCredit {}),
        );
    assert(crate::lock::write_turn(lock, found, found));
}

/// A lock holds what it was made with until a writer's turn ends at it: whatever
/// else a reader sees there or a writer finds there, the turn of some writer
/// left when it ended.
pub proof fn lock_holds_what_it_was_made_with_or_left(
    lock: RwLock<LinkFlowStateInner>,
    state: LinkFlowStateInner,
    left: LinkFlowStateInner,
)
    requires
        crate::lock::read_turn(lock, state) || crate::lock::write_turn(lock, state, left),
        state != crate::lock::made_with(lock),
    ensures
        exists|over: EndedTurn<'_>| #[trigger]
            crate::lock::ended_lock(over) == lock && crate::lock::ended_left(over) == state,
{
}

/// Read in little-endian order, a tag made of a UUID is that UUID.
pub proof fn peer_reads_same_uuid(octets: Seq<u8>)
    requires
        octets.len() == 16,
    ensures
        UuidFields::from_little_endian(crate::delivery_tag::little_endian_octets(octets))
            == UuidFields::from_big_endian(octets),
{
    let tag = crate::delivery_tag::little_endian_octets(octets);
    assert(tag.skip(8) =~= octets.skip(8));
}

/// The order of octets in a tag is undone by applying it again.
pub proof fn tag_order_undoes_itself(octets: Seq<u8>)
    requires
        octets.len() == 16,
    ensures
        crate::delivery_tag::little_endian_octets(
            crate::delivery_tag::little_endian_octets(octets),
        ) == octets,
{
    let tag = crate::delivery_tag::little_endian_octets(octets);
    assert(crate::delivery_tag::little_endian_octets(tag) =~= octets);
}

/// Different UUIDs make different tags.
pub proof fn tags_differ_as_uuids_do(first: Seq<u8>, second: Seq<u8>)
    requires
        first.len() == 16,
        second.len() == 16,
        first != second,
    ensures
        crate::delivery_tag::little_endian_octets(first)
            != crate::delivery_tag::little_endian_octets(second),
{
    tag_order_undoes_itself(first);
    tag_order_undoes_itself(second);
}

/// The tag of a delivery for which none was chosen, read in little-endian order,
/// is the UUID that was drawn for it, which is marked as a random one.
pub proof fn peer_reads_drawn_uuid(
    slot_before: DeliveryTagSlot,
    slot_after: DeliveryTagSlot,
    tag: [u8; 16],
)
    requires
        slot_before.custom is None,
        crate::delivery_tag::tag_taken(slot_before, slot_after, tag),
    ensures
        exists|uuid: Uuid| #[trigger]
            crate::delivery_tag::made_of(tag, uuid) && UuidFields::from_little_endian(tag@)
                == UuidFields::from_big_endian(crate::delivery_tag::uuid_octets(uuid)),
        crate::delivery_tag::is_random_tag(tag),
{
}

/// Tags that are made of different UUIDs differ, whatever the states are of the
/// links that they are for.
pub proof fn drawn_tags_differ_as_uuids_do(
    first: [u8; 16],
    second: [u8; 16],
    first_uuid: Uuid,
    second_uuid: Uuid,
)
    requires
        crate::delivery_tag::made_of(first, first_uuid),
        crate::delivery_tag::made_of(second, second_uuid),
        crate::delivery_tag::uuid_octets(first_uuid) != crate::delivery_tag::uuid_octets(
            second_uuid,
        ),
    ensures
        first != second,
{
    tags_differ_as_uuids_do(
        crate::delivery_tag::uuid_octets(first_uuid),
        crate::delivery_tag::uuid_octets(second_uuid),
    );
}

/// In a random tag the version, four, is the high half of octet seven, and the
/// variant is the two highest bits of octet eight. So the octets are not all
/// zero.
pub proof fn random_tag_format(tag: [u8; 16])
    requires
        crate::delivery_tag::is_random_tag(tag),
    ensures
        tag[7] >> 4 == 4,
        tag[8] >> 6 == 2,
        tag@ != Seq::new(16, |i: int| 0u8),
{
    let version = tag[7];
    let variant = tag[8];
    assert(tag@.skip(8)[0] == variant);
    assert(version / 16 == 4);
    assert(version >> 4 == 4) by (bit_vector)
        requires
            version / 16 == 4,
    ;
    assert(variant >> 6 == 2) by (bit_vector)
        requires
            variant / 64 == 2,
    ;
    assert(tag@[7] != 0);
}

/// A custom tag is used for the next delivery and only for that: the delivery
/// after it gets a random tag.
pub proof fn custom_tag_is_used_once(
    custom: [u8; 16],
    slot_between: DeliveryTagSlot,
    slot_after: DeliveryTagSlot,
    first: [u8; 16],
    second: [u8; 16],
)
    requires
        crate::delivery_tag::tag_taken(
            DeliveryTagSlot { custom: Some(custom) },
            slot_between,
            first,
        ),
        crate::delivery_tag::tag_taken(slot_between, slot_after, second),
    ensures
        first == custom,
        crate::delivery_tag::is_random_tag(second),
        !crate::delivery_tag::is_random_tag(custom) ==> second != custom,
{
}

/// Without a chosen tag, because none was set or it was cleared, the tag is a
/// random one, and so not one that cannot be random.
pub proof fn cleared_tag_is_not_used(
    slot_before: DeliveryTagSlot,
    slot_after: DeliveryTagSlot,
    tag: [u8; 16],
    cleared: [u8; 16],
)
    requires
        slot_before.custom is None,
        crate::delivery_tag::tag_taken(slot_before, slot_after, tag),
    ensures
        crate::delivery_tag::is_random_tag(tag),
        !crate::delivery_tag::is_random_tag(cleared) ==> tag != cleared,
{
}

/// A flow tells the peer the state that it is made of, number by number, under
/// the handle and with the echo flag that it is given. It carries the properties
/// if and only if they are asked for.
pub proof fn flow_tells_state(
    state: LinkFlowStateInner,
    output_handle: OutputHandle,
    echo: bool,
    include_properties: bool,
)
    ensures
        ({
            let flow = state.flow(output_handle, echo, include_properties);
            &&& flow.handle.0 == output_handle.0
            &&& flow.delivery_count == Some(state.delivery_count)
            &&& flow.link_credit == Some(state.link_credit)
            &&& flow.available == Some(state.available)
            &&& flow.drain == state.drain
            &&& flow.echo == echo
            &&& include_properties ==> flow.properties == state.properties
            &&& !include_properties ==> flow.properties is None
        }),
{
}

/// A sender answers a flow if and only if the flow drains or asks for an answer.
/// The answer tells the state that the sender has after the flow, whichever of
/// the two was the reason.
pub proof fn sender_answers_with_its_state(
    sender: LinkFlowStateInner,
    flow: LinkFlow,
    output_handle: OutputHandle,
)
    ensures
        sender.sender_reply(flow, output_handle) is Some <==> (flow.drain || flow.echo),
        sender.sender_reply(flow, output_handle) matches Some(reply) ==> {
            let after = sender.after_flow_to_sender(flow);
            &&& reply.handle.0 == output_handle.0
            &&& reply.delivery_count == Some(after.delivery_count)
            &&& reply.link_credit == Some(after.link_credit)
            &&& reply.available == Some(after.available)
            &&& reply.drain == after.drain
            &&& reply.drain == flow.drain
            &&& !reply.echo
            &&& reply.properties is None
        },
{
}

/// A receiver answers a flow if and only if the flow asks for an answer. The
/// answer tells the state that the receiver has after the flow.
pub proof fn receiver_answers_with_its_state(
    receiver: LinkFlowStateInner,
    flow: LinkFlow,
    output_handle: OutputHandle,
)
    ensures
        receiver.receiver_reply(flow, output_handle) is Some <==> flow.echo,
        receiver.receiver_reply(flow, output_handle) matches Some(reply) ==> {
            let after = receiver.after_flow_to_receiver(flow);
            &&& reply.handle.0 == output_handle.0
            &&& reply.delivery_count == Some(after.delivery_count)
            &&& reply.link_credit == Some(after.link_credit)
            &&& reply.available == Some(after.available)
            &&& reply.drain == after.drain
            &&& !reply.echo
            &&& reply.properties is None
        },
{
}

/// A receiver that takes in the sender's answer to any flow has the sender's
/// delivery-count and number of waiting messages, whatever it had before.
pub proof fn answer_brings_receiver_in_step(
    sender: LinkFlowStateInner,
    receiver: LinkFlowStateInner,
    flow: LinkFlow,
    output_handle: OutputHandle,
)
    requires
        flow.drain || flow.echo,
    ensures
        sender.sender_reply(flow, output_handle) matches Some(reply) && {
            let informed = receiver.after_flow_to_receiver(reply);
            &&& informed.delivery_count == sender.after_flow_to_sender(flow).delivery_count
            &&& informed.available == sender.available
        },
{
}

/// A sender that takes in the receiver's answer to any flow that asks for one
/// comes to the receiver's limit, if its delivery-count is not a greater number,
/// and has the receiver's drain flag.
pub proof fn answer_brings_sender_in_step(
    sender: LinkFlowStateInner,
    receiver: LinkFlowStateInner,
    flow: LinkFlow,
    output_handle: OutputHandle,
)
    requires
        flow.echo,
        sender.delivery_count <= receiver.after_flow_to_receiver(flow).delivery_count
            + receiver.link_credit,
    ensures
        receiver.receiver_reply(flow, output_handle) matches Some(reply) && {
            let informed = sender.after_flow_to_sender(reply);
            &&& (informed.delivery_count + informed.link_credit) % 0x1_0000_0000 == (
            receiver.after_flow_to_receiver(flow).delivery_count + receiver.link_credit)
                % 0x1_0000_0000
            &&& informed.drain == receiver.drain
        },
{
}

/// What a flow makes of a sender. The limit of the flow is as many after the
/// receiver's delivery-count, or after the one that the sender started from if
/// the flow says none, as the flow gives credit.
///
/// If that is no smaller a number than the sender's delivery-count, then
/// delivery-count and credit together come to the limit afterwards, counted
/// round: by the credit alone if the flow does not drain, and by the
/// delivery-count alone if it does. If it is a smaller number, no credit is left
/// and the delivery-count stays. Without a credit in the flow, the two together
/// come to what they came to before. Nothing else changes but the drain flag,
/// which is that of the flow.
pub proof fn flow_leads_sender_to_limit(sender: LinkFlowStateInner, flow: LinkFlow)
    ensures
        ({
            let after = sender.after_flow_to_sender(flow);
            let start = match flow.delivery_count {
                Some(delivery_count) => delivery_count,
                None => sender.initial_delivery_count,
            };
            &&& !flow.drain ==> after.delivery_count == sender.delivery_count
            &&& flow.drain ==> after.link_credit == 0
            &&& after.drain == flow.drain
            &&& after.initial_delivery_count == sender.initial_delivery_count
            &&& after.available == sender.available
            &&& after.properties == sender.properties
            &&& flow.link_credit matches Some(link_credit) ==> {
                if sender.delivery_count <= start + link_credit {
                    (after.delivery_count + after.link_credit - start - link_credit) % 0x1_0000_0000
                        == 0
                } else {
                    after.delivery_count == sender.delivery_count && after.link_credit == 0
                }
            }
            &&& flow.link_credit is None ==> (after.delivery_count + after.link_credit
                - sender.delivery_count - sender.link_credit) % 0x1_0000_0000 == 0
        }),
{
}

/// What a flow makes of a receiver, whether it drains or asks for an answer or
/// not: what it says of the delivery-count and of waiting messages is so
/// afterwards, and all else is as it was.
pub proof fn receiver_believes_sender(receiver: LinkFlowStateInner, flow: LinkFlow)
    ensures
        ({
            let after = receiver.after_flow_to_receiver(flow);
            &&& flow.delivery_count matches Some(n) ==> after.delivery_count == n
            &&& flow.delivery_count is None ==> after.delivery_count == receiver.delivery_count
            &&& flow.available matches Some(n) ==> after.available == n
            &&& flow.available is None ==> after.available == receiver.available
            &&& after.initial_delivery_count == receiver.initial_delivery_count
            &&& after.link_credit == receiver.link_credit
            &&& after.drain == receiver.drain
            &&& after.properties == receiver.properties
        }),
{
}

/// Of two flows the later decides what a receiver believes.
pub proof fn later_flow_overrides(
    receiver: LinkFlowStateInner,
    earlier: LinkFlow,
    later: LinkFlow,
)
    requires
        later.delivery_count is Some,
        later.available is Some,
    ensures
        receiver.after_flow_to_receiver(earlier).after_flow_to_receiver(later)
            == receiver.after_flow_to_receiver(later),
{
}

/// A flow that says nothing is not answered. It leaves a receiver as it is, and
/// of a sender it only takes back the drain flag.
pub proof fn silent_flow_is_silent(state: LinkFlowStateInner, output_handle: OutputHandle)
    ensures
        LinkFlow::silent().handle.0 == u32::MAX,
        LinkFlow::silent().properties is None,
        state.sender_reply(LinkFlow::silent(), output_handle) is None,
        state.receiver_reply(LinkFlow::silent(), output_handle) is None,
        state.after_flow_to_receiver(LinkFlow::silent()) == state,
        state.after_flow_to_sender(LinkFlow::silent()) == (LinkFlowStateInner {
            drain: false,
            ..state
        }),
{
}

/// A receiver takes deliveries if and only if its credit covers them. What it
/// takes adds to its delivery-count, counted round, and is missing from its
/// credit. What it does not take it refuses as too much, and stays as it is.
pub proof fn receiver_takes_what_credit_covers(
    before: LinkFlowStateInner,
    after: LinkFlowStateInner,
    count: u32,
    result: Result<(), ReceiverTransferError>,
)
    requires
        crate::state::received(before, after, count, result),
    ensures
        result is Ok <==> count <= before.link_credit,
        result is Ok ==> {
            &&& after.link_credit + count == before.link_credit
            &&& (after.delivery_count - before.delivery_count - count) % 0x1_0000_0000 == 0
        },
        result matches Err(error) ==> {
            &&& error == ReceiverTransferError::TransferLimitExceeded
            &&& after.link_credit == before.link_credit
            &&& after.delivery_count == before.delivery_count
        },
        after.initial_delivery_count == before.initial_delivery_count,
        after.available == before.available,
        after.drain == before.drain,
        after.properties == before.properties,
{
}

/// The smaller of two numbers.
pub open spec fn smaller(a: int, b: int) -> int {
    if a <= b {
        a
    } else {
        b
    }
}

/// A receiver takes exactly as many single deliveries in a row as it has
/// credits, and refuses each one after them. `states[i]` is what delivery `i`
/// comes upon.
pub proof fn receiver_takes_as_many_as_it_has_credits(
    states: Seq<LinkFlowStateInner>,
    results: Seq<Result<(), ReceiverTransferError>>,
)
    requires
        states.len() == results.len() + 1,
        forall|i: int|
            #![trigger results[i]]
            0 <= i < results.len() ==> crate::state::received(
                states[i],
                states[i + 1],
                1,
                results[i],
            ),
    ensures
        forall|i: int|
            #![trigger results[i]]
            0 <= i < results.len() ==> (results[i] is Ok <==> i < states[0].link_credit),
        states.last().link_credit == states[0].link_credit - smaller(
            results.len() as int,
            states[0].link_credit as int,
        ),
        (states.last().delivery_count - states[0].delivery_count - smaller(
            results.len() as int,
            states[0].link_credit as int,
        )) % 0x1_0000_0000 == 0,
    decreases results.len(),
{
    if results.len() > 0 {
        let last = results.len() - 1;
        let earlier = results.drop_last();
        assert forall|i: int| #![trigger earlier[i]] 0 <= i < earlier.len() implies {
            crate::state::received(
                states.drop_last()[i],
                states.drop_last()[i + 1],
                1,
                earlier[i],
            )
        } by {
            assert(earlier[i] == results[i]);
        }
        receiver_takes_as_many_as_it_has_credits(states.drop_last(), earlier);
        assert(crate::state::received(states[last], states[last + 1], 1, results[last]));
        assert forall|i: int| #![trigger results[i]] 0 <= i < results.len() implies {
            results[i] is Ok <==> i < states[0].link_credit
        } by {
            if i < last {
                assert(results[i] == earlier[i]);
            }
        }
    }
}

/// A sender makes a delivery if and only if its credit covers what is asked for.
/// The delivery adds one to the delivery-count, counted round, and takes one from
/// the credit if there is any. A refused one changes nothing, neither of the
/// state nor of the chosen tag.
pub proof fn sender_makes_what_credit_covers(
    before: LinkFlowStateInner,
    after: LinkFlowStateInner,
    slot_before: DeliveryTagSlot,
    slot_after: DeliveryTagSlot,
    count: u32,
    result: Result<[u8; 16], InsufficientCredit>,
)
    requires
        crate::state::sent(before, after, slot_before, slot_after, count, result),
    ensures
        result is Ok <==> count <= before.link_credit,
        result is Ok ==> {
            &&& (after.delivery_count - before.delivery_count - 1) % 0x1_0000_0000 == 0
            &&& after.link_credit + smaller(1, before.link_credit as int) == before.link_credit
            &&& slot_after.custom is None
        },
        result is Err ==> {
            &&& after.delivery_count == before.delivery_count
            &&& after.link_credit == before.link_credit
            &&& slot_after.custom == slot_before.custom
        },
        after.initial_delivery_count == before.initial_delivery_count,
        after.available == before.available,
        after.drain == before.drain,
        after.properties == before.properties,
{
}

/// To count a delivery is to go one on, counted round, and to spend a credit if
/// there is one. Nothing else changes.
pub proof fn delivery_is_counted_once(sender: LinkFlowStateInner)
    ensures
        ({
            let after = sender.after_sending();
            &&& (after.delivery_count - sender.delivery_count - 1) % 0x1_0000_0000 == 0
            &&& after.link_credit + smaller(1, sender.link_credit as int) == sender.link_credit
            &&& after.initial_delivery_count == sender.initial_delivery_count
            &&& after.available == sender.available
            &&& after.drain == sender.drain
            &&& after.properties == sender.properties
        }),
{
}

/// Deliveries that a receiver takes move it on by as many, counted round, and
/// leave it as much less credit. Nothing else changes.
pub proof fn receipt_is_counted_once(receiver: LinkFlowStateInner, count: u32)
    requires
        count <= receiver.link_credit,
    ensures
        ({
            let after = receiver.after_receiving(count);
            &&& (after.delivery_count - receiver.delivery_count - count) % 0x1_0000_0000 == 0
            &&& after.link_credit + count == receiver.link_credit
            &&& after.initial_delivery_count == receiver.initial_delivery_count
            &&& after.available == receiver.available
            &&& after.drain == receiver.drain
            &&& after.properties == receiver.properties
        }),
{
}

/// A sender makes exactly as many deliveries in a row as it has credits, each of
/// which asks for one, and refuses each one after them. `states[i]` and
/// `slots[i]` are what delivery `i` comes upon.
pub proof fn sender_makes_as_many_as_it_has_credits(
    states: Seq<LinkFlowStateInner>,
    slots: Seq<DeliveryTagSlot>,
    results: Seq<Result<[u8; 16], InsufficientCredit>>,
)
    requires
        states.len() == results.len() + 1,
        slots.len() == results.len() + 1,
        forall|i: int|
            #![trigger results[i]]
            0 <= i < results.len() ==> crate::state::sent(
                states[i],
                states[i + 1],
                slots[i],
                slots[i + 1],
                1,
                results[i],
            ),
    ensures
        forall|i: int|
            #![trigger results[i]]
            0 <= i < results.len() ==> (results[i] is Ok <==> i < states[0].link_credit),
        states.last().link_credit == states[0].link_credit - smaller(
            results.len() as int,
            states[0].link_credit as int,
        ),
        (states.last().delivery_count - states[0].delivery_count - smaller(
            results.len() as int,
            states[0].link_credit as int,
        )) % 0x1_0000_0000 == 0,
    decreases results.len(),
{
    if results.len() > 0 {
        let last = results.len() - 1;
        let earlier = results.drop_last();
        assert forall|i: int| #![trigger earlier[i]] 0 <= i < earlier.len() implies {
            crate::state::sent(
                states.drop_last()[i],
                states.drop_last()[i + 1],
                slots.drop_last()[i],
                slots.drop_last()[i + 1],
                1,
                earlier[i],
            )
        } by {
            assert(earlier[i] == results[i]);
        }
        sender_makes_as_many_as_it_has_credits(states.drop_last(), slots.drop_last(), earlier);
        assert(crate::state::sent(
            states[last],
            states[last + 1],
            slots[last],
            slots[last + 1],
            1,
            results[last],
        ));
        assert forall|i: int| #![trigger results[i]] 0 <= i < results.len() implies {
            results[i] is Ok <==> i < states[0].link_credit
        } by {
            if i < last {
                assert(results[i] == earlier[i]);
            }
        }
    }
}

/// Whether `tag` holds the octets of `uuid` as the peer expects them, one by one:
/// the first four reversed, then two and again two reversed, then the last eight
/// as they are.
pub open spec fn holds_octets_of(tag: [u8; 16], uuid: Uuid) -> bool {
    let octets = crate::delivery_tag::uuid_octets(uuid);
    &&& octets.len() == 16
    &&& tag[0] == octets[3] && tag[1] == octets[2] && tag[2] == octets[1] && tag[3] == octets[0]
    &&& tag[4] == octets[5] && tag[5] == octets[4]
    &&& tag[6] == octets[7] && tag[7] == octets[6]
    &&& forall|i: int| 8 <= i < 16 ==> #[trigger] tag[i] == octets[i]
}

/// The octets of a tag that is made of a UUID are those of the UUID as the peer
/// expects them, with the version and the variant of a random one.
pub proof fn tag_holds_octets_of_uuid(tag: [u8; 16], uuid: Uuid)
    requires
        crate::delivery_tag::made_of(tag, uuid),
    ensures
        holds_octets_of(tag, uuid),
        tag[7] >> 4 == 4,
        tag[8] >> 6 == 2,
{
    let octets = crate::delivery_tag::uuid_octets(uuid);
    assert(holds_octets_of(tag, uuid)) by {
        tag_order_place_by_place(octets);
        assert forall|i: int| 8 <= i < 16 implies #[trigger] tag[i] == octets[i] by {
            assert(tag@.subrange(8, 16)[i - 8] == octets.subrange(8, 16)[i - 8]);
        }
    }
    assert(tag[7] >> 4 == 4 && tag[8] >> 6 == 2) by {
        assert(crate::delivery_tag::is_random_tag(tag));
        random_tag_format(tag);
    }
}

/// The tag of a delivery for which one was chosen is that one. Else it is made of
/// a UUID that was drawn: it holds the octets of one as the peer expects them. In
/// either case no tag stays chosen.
pub proof fn tag_is_chosen_or_drawn(
    slot_before: DeliveryTagSlot,
    slot_after: DeliveryTagSlot,
    tag: [u8; 16],
)
    requires
        crate::delivery_tag::tag_taken(slot_before, slot_after, tag),
    ensures
        slot_after.custom is None,
        slot_before.custom matches Some(custom) ==> tag == custom,
        slot_before.custom is None ==> exists|uuid: Uuid| #[trigger] holds_octets_of(tag, uuid),
        slot_before.custom is None ==> tag[7] >> 4 == 4 && tag[8] >> 6 == 2,
{
    if slot_before.custom is None {
        let uuid = choose|uuid: Uuid| #[trigger] crate::delivery_tag::made_of(tag, uuid);
        tag_holds_octets_of_uuid(tag, uuid);
    }
}

/// Each delivery that a sender makes has the tag that was chosen for it, or else
/// one that is made of a UUID that was drawn. In either case no tag stays chosen.
pub proof fn delivery_has_chosen_or_drawn_tag(
    before: LinkFlowStateInner,
    after: LinkFlowStateInner,
    slot_before: DeliveryTagSlot,
    slot_after: DeliveryTagSlot,
    count: u32,
    tag: [u8; 16],
)
    requires
        crate::state::sent(before, after, slot_before, slot_after, count, Ok(tag)),
    ensures
        slot_after.custom is None,
        slot_before.custom matches Some(custom) ==> tag == custom,
        slot_before.custom is None ==> exists|uuid: Uuid| #[trigger] holds_octets_of(tag, uuid),
        slot_before.custom is None ==> exists|uuid: Uuid| #[trigger]
            crate::delivery_tag::made_of(tag, uuid),
        slot_before.custom is None ==> tag[7] >> 4 == 4 && tag[8] >> 6 == 2,
{
    tag_is_chosen_or_drawn(slot_before, slot_after, tag);
}

/// The tag that was chosen last is the tag of the next delivery. After it was
/// cleared, the next one is made of a UUID.
pub proof fn choice_decides_next_tag(
    chosen: [u8; 16],
    slot_after: DeliveryTagSlot,
    slot_after_clearing: DeliveryTagSlot,
    tag: [u8; 16],
    tag_after_clearing: [u8; 16],
)
    requires
        crate::delivery_tag::tag_taken(DeliveryTagSlot::choosing(chosen), slot_after, tag),
        crate::delivery_tag::tag_taken(
            DeliveryTagSlot::vacant(),
            slot_after_clearing,
            tag_after_clearing,
        ),
    ensures
        tag == chosen,
        slot_after == DeliveryTagSlot::vacant(),
        slot_after_clearing == DeliveryTagSlot::vacant(),
        exists|uuid: Uuid| #[trigger] holds_octets_of(tag_after_clearing, uuid),
{
    tag_is_chosen_or_drawn(DeliveryTagSlot::choosing(chosen), slot_after, tag);
    tag_is_chosen_or_drawn(DeliveryTagSlot::vacant(), slot_after_clearing, tag_after_clearing);
}

/// Of two deliveries in a row the first has the chosen tag, and the second one
/// that is made of a UUID.
pub proof fn chosen_tag_is_for_one_delivery(
    states: Seq<LinkFlowStateInner>,
    slots: Seq<DeliveryTagSlot>,
    first: [u8; 16],
    second: [u8; 16],
    first_count: u32,
    second_count: u32,
)
    requires
        states.len() == 3,
        slots.len() == 3,
        crate::state::sent(states[0], states[1], slots[0], slots[1], first_count, Ok(first)),
        crate::state::sent(states[1], states[2], slots[1], slots[2], second_count, Ok(second)),
    ensures
        slots[0].custom matches Some(custom) ==> first == custom,
        exists|uuid: Uuid| #[trigger] holds_octets_of(second, uuid),
{
    delivery_has_chosen_or_drawn_tag(
        states[0],
        states[1],
        slots[0],
        slots[1],
        first_count,
        first,
    );
    delivery_has_chosen_or_drawn_tag(
        states[1],
        states[2],
        slots[1],
        slots[2],
        second_count,
        second,
    );
}

/// What the peer makes of the octets of a tag, number by number, and what a UUID
/// is by its octets in network order.
pub proof fn uuid_is_read_field_by_field(octets: Seq<u8>)
    requires
        octets.len() == 16,
    ensures
        ({
            let network = UuidFields::from_big_endian(octets);
            let peer = UuidFields::from_little_endian(octets);
            &&& network.time_low == ((octets[0] * 256 + octets[1]) * 256 + octets[2]) * 256
                + octets[3]
            &&& network.time_mid == octets[4] * 256 + octets[5]
            &&& network.time_hi_and_version == octets[6] * 256 + octets[7]
            &&& network.clock_seq_and_node == octets.subrange(8, 16)
            &&& peer.time_low == ((octets[3] * 256 + octets[2]) * 256 + octets[1]) * 256
                + octets[0]
            &&& peer.time_mid == octets[5] * 256 + octets[4]
            &&& peer.time_hi_and_version == octets[7] * 256 + octets[6]
            &&& peer.clock_seq_and_node == octets.subrange(8, 16)
        }),
{
    assert(octets.skip(8) =~= octets.subrange(8, 16));
}

/// The octets of a tag are those of the UUID, each in its place.
pub proof fn tag_order_place_by_place(octets: Seq<u8>)
    requires
        octets.len() == 16,
    ensures
        ({
            let tag = crate::delivery_tag::little_endian_octets(octets);
            &&& tag.len() == 16
            &&& tag[0] == octets[3] && tag[1] == octets[2] && tag[2] == octets[1] && tag[3]
                == octets[0]
            &&& tag[4] == octets[5] && tag[5] == octets[4]
            &&& tag[6] == octets[7] && tag[7] == octets[6]
            &&& tag.subrange(8, 16) == octets.subrange(8, 16)
        }),
{
    let tag = crate::delivery_tag::little_endian_octets(octets);
    assert(tag.subrange(8, 16) =~= octets.subrange(8, 16));
}

/// To go some steps on from a sequence number is to arrive at one that differs
/// from the sum by whole rounds.
pub proof fn sequence_numbers_go_round(number: u32, steps: int)
    ensures
        (crate::state::advanced(number, steps) - number - steps) % 0x1_0000_0000 == 0,
{
}

/// A writer's turn at a lock has ended there: it began with what was found, it
/// ended with what was left, and what was found is what the lock was made with or
/// what such a turn had left.
pub proof fn writers_turn_has_ended(
    lock: RwLock<LinkFlowStateInner>,
    found: LinkFlowStateInner,
    left: LinkFlowStateInner,
)
    requires
        crate::lock::write_turn(lock, found, left),
    ensures
        exists|over: EndedTurn<'_>| #[trigger]
            crate::lock::ended_lock(over) == lock && crate::lock::ended_found(over) == found
                && crate::lock::ended_left(over) == left,
        found == crate::lock::made_with(lock) || exists|over: EndedTurn<'_>| #[trigger]
            crate::lock::ended_lock(over) == lock && crate::lock::ended_left(over) == found,
{
}

/// A reader's turn at a lock was one there, and it saw what it says.
pub proof fn readers_turn_was_taken(
    lock: RwLock<LinkFlowStateInner>,
    seen: LinkFlowStateInner,
)
    requires
        crate::lock::read_turn(lock, seen),
    ensures
        exists|turn: ReadTurn<'_>| #[trigger]
            crate::lock::read_lock(turn) == lock && crate::lock::read_state(turn) == seen,
{
}

/// Who is told that the lock is taken was refused a turn at it.
pub proof fn refusal_was_at_the_lock(lock: RwLock<LinkFlowStateInner>)
    requires
        crate::lock::refused(lock),
    ensures
        exists|refusal: Refusal<'_>| #[trigger] crate::lock::refused_lock(refusal) == lock,
{
}

/// A delivery from a shared state was made in a writer's turn at its lock, which
/// found credit for it, and which left the delivery-count one further and the
/// credit one less when it ended. Its tag is the chosen one or made of a UUID.
pub proof fn shared_delivery_is_counted_once(
    lock: RwLock<LinkFlowStateInner>,
    slot_before: DeliveryTagSlot,
    slot_after: DeliveryTagSlot,
    count: u32,
    tag: [u8; 16],
)
    requires
        crate::consumer::sent_in_turn(lock, slot_before, slot_after, count, Ok(tag)),
    ensures
        exists|over: EndedTurn<'_>| #[trigger]
            crate::lock::ended_lock(over) == lock && {
                let found = crate::lock::ended_found(over);
                let left = crate::lock::ended_left(over);
                &&& count <= found.link_credit
                &&& (left.delivery_count - found.delivery_count - 1) % 0x1_0000_0000 == 0
                &&& left.link_credit + smaller(1, found.link_credit as int) == found.link_credit
                &&& left.initial_delivery_count == found.initial_delivery_count
                &&& left.available == found.available
                &&& left.drain == found.drain
                &&& left.properties == found.properties
            },
        slot_after.custom is None,
        slot_before.custom matches Some(custom) ==> tag == custom,
        slot_before.custom is None ==> exists|uuid: Uuid| #[trigger] holds_octets_of(tag, uuid),
{
    let (found, left) = choose|found: LinkFlowStateInner, left: LinkFlowStateInner| #[trigger]
        crate::lock::write_turn(lock, found, left) && crate::state::sent(
            found,
            left,
            slot_before,
            slot_after,
            count,
            Ok(tag),
        );
    writers_turn_has_ended(lock, found, left);
    sender_makes_what_credit_covers(found, left, slot_before, slot_after, count, Ok(tag));
    delivery_has_chosen_or_drawn_tag(found, left, slot_before, slot_after, count, tag);
}

/// Who has to wait for credit at a shared state took a writer's turn at its lock,
/// which found too little and left it as it was, and keeps the chosen tag.
pub proof fn shared_waiting_changes_nothing(
    lock: RwLock<LinkFlowStateInner>,
    slot_before: DeliveryTagSlot,
    slot_after: DeliveryTagSlot,
    count: u32,
)
    requires
        crate::consumer::sent_in_turn(
            lock,
            slot_before,
            slot_after,
            count,
            Err(InsufficientCredit {}),
        ),
    ensures
        exists|over: EndedTurn<'_>| #[trigger]
            crate::lock::ended_lock(over) == lock && crate::lock::ended_found(over).link_credit
                < count && crate::lock::ended_left(over) == crate::lock::ended_found(over),
        slot_after.custom == slot_before.custom,
{
    waiting_leaves_no_trace(lock, slot_before, slot_after, count);
    let found = choose|found: LinkFlowStateInner| #[trigger]
        crate::lock::write_turn(lock, found, found) && found.link_credit < count;
    writers_turn_has_ended(lock, found, found);
}

/// One turn more is one more and not two: a count that goes up by one turn is
/// neither where it was nor where a further turn would take it.
pub proof fn turns_are_told_apart(count: u64)
    ensures
        (crate::lock::one_more(count) - count - 1) % 0x1_0000_0000_0000_0000 == 0,
        crate::lock::one_more(count) != count,
        crate::lock::one_more(crate::lock::one_more(count)) != crate::lock::one_more(count),
{
}

} // verus!
