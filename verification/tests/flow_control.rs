use amqp_link_state::consumer::{ConsumeStep, SenderFlowState};
use amqp_link_state::definitions::clone_properties;
use amqp_link_state::delivery_tag::{set_custom_delivery_tag, DeliveryTagSlot};
use amqp_link_state::endpoint::{Handle, LinkFlow, OutputHandle};
use amqp_link_state::error::{InsufficientCredit, ReceiverTransferError, SenderTryConsumeError};
use amqp_link_state::flow_state::{LinkFlowState, ProducerState};
use amqp_link_state::role::{ReceiverMarker, SenderMarker};
use amqp_link_state::state::{LinkFlowStateInner, LinkState};
use fe2o3_amqp_types::definitions::Fields;
use fe2o3_amqp_types::primitives::{Symbol, Value};
use std::sync::Arc;

fn inner(delivery_count: u32, link_credit: u32) -> LinkFlowStateInner {
    LinkFlowStateInner {
        initial_delivery_count: 0,
        delivery_count,
        link_credit,
        available: 0,
        drain: false,
        properties: None,
    }
}

fn credit(link_credit: u32) -> LinkFlow {
    LinkFlow {
        link_credit: Some(link_credit),
        ..Default::default()
    }
}

fn some_fields() -> Fields {
    let mut fields = Fields::new();
    fields.insert(Symbol::from("second"), Value::Uint(2));
    fields.insert(Symbol::from("first"), Value::Bool(true));
    fields
}

fn create_sender_flow_state_producer_and_consumer(
) -> (Arc<LinkFlowState<SenderMarker>>, SenderFlowState) {
    let producer = Arc::new(LinkFlowState::sender(inner(0, 0)));
    let consumer = SenderFlowState::new(producer.clone());
    (producer, consumer)
}

fn is_pending(step: ConsumeStep) -> bool {
    matches!(step, ConsumeStep::AwaitNotification)
}

fn is_ready(step: ConsumeStep) -> bool {
    matches!(step, ConsumeStep::Deliver(_))
}

#[test]
fn test_sender_flow_state_producer_and_consumer() {
    let (mut producer, mut consumer) = create_sender_flow_state_producer_and_consumer();
    let mut slot = DeliveryTagSlot::new();

    // wait on notify
    assert!(is_pending(consumer.consume(&mut slot, 1)));

    // wait after notify with zero credit
    producer.update_state((LinkFlow::default(), OutputHandle(0)));
    assert!(is_pending(consumer.consume(&mut slot, 1)));

    // ready after notify with non-zero credit
    producer.update_state((credit(2), OutputHandle(0)));
    assert!(is_ready(consumer.consume(&mut slot, 1)));
    assert!(is_ready(consumer.consume(&mut slot, 1)));

    // All credits have been consumed already
    assert!(is_pending(consumer.consume(&mut slot, 1)));
}

#[test]
fn test_spawned_flow_state_producer_and_consumer() {
    let (mut producer, mut consumer) = create_sender_flow_state_producer_and_consumer();
    let mut slot = DeliveryTagSlot::new();
    assert!(is_pending(consumer.consume(&mut slot, 1)));
    producer.update_state((credit(1), OutputHandle(0)));
    assert!(is_ready(consumer.consume(&mut slot, 1)));
}

#[test]
fn test_drop_consume_fut_before_produce() {
    let (mut producer, mut consumer) = create_sender_flow_state_producer_and_consumer();
    let mut slot = DeliveryTagSlot::new();

    // Given up before notify
    assert!(is_pending(consumer.consume(&mut slot, 1)));

    producer.update_state((credit(2), OutputHandle(0)));

    // If it is not safe to give up, we cannot consume all 2 credits
    assert!(is_ready(consumer.consume(&mut slot, 1)));
    assert!(is_ready(consumer.consume(&mut slot, 1)));

    // All credits have been consumed already
    assert!(is_pending(consumer.consume(&mut slot, 1)));
}

#[test]
fn test_drop_consume_fut_after_produce() {
    let (mut producer, mut consumer) = create_sender_flow_state_producer_and_consumer();
    let mut slot = DeliveryTagSlot::new();

    let waiting = consumer.consume(&mut slot, 1);
    assert!(is_pending(waiting));

    producer.update_state((credit(2), OutputHandle(0)));

    // Given up after notify: nothing was taken for it
    let _ = waiting;

    assert!(is_ready(consumer.consume(&mut slot, 1)));
    assert!(is_ready(consumer.consume(&mut slot, 1)));

    // All credits have been consumed already
    assert!(is_pending(consumer.consume(&mut slot, 1)));
}

#[test]
fn credit_follows_the_formula() {
    let mut sender = inner(7, 0);
    let flow = LinkFlow {
        delivery_count: Some(5),
        ..credit(10)
    };
    assert!(sender.on_flow_to_sender(flow, OutputHandle(1)).is_none());
    assert_eq!(sender.link_credit, 8);
    assert_eq!(sender.delivery_count, 7);
}

#[test]
fn unknown_delivery_count_is_the_initial_one() {
    let mut sender = inner(7, 0);
    sender.initial_delivery_count = 6;
    sender.on_flow_to_sender(credit(10), OutputHandle(1));
    assert_eq!(sender.link_credit, 9);
}

#[test]
fn flow_without_credit_keeps_credit() {
    let mut sender = inner(7, 3);
    let flow = LinkFlow {
        delivery_count: Some(100),
        ..Default::default()
    };
    sender.on_flow_to_sender(flow, OutputHandle(1));
    assert_eq!(sender.link_credit, 3);
}

#[test]
fn sender_past_the_limit_has_no_credit() {
    let mut sender = inner(20, 3);
    sender.on_flow_to_sender(credit(10), OutputHandle(1));
    assert_eq!(sender.link_credit, 0);
}

#[test]
fn credit_is_granted_across_the_last_sequence_number() {
    let mut sender = inner(u32::MAX - 2, 0);
    let flow = LinkFlow {
        delivery_count: Some(u32::MAX - 2),
        ..credit(10)
    };
    sender.on_flow_to_sender(flow, OutputHandle(1));
    assert_eq!(sender.link_credit, 10);

    let sender = LinkFlowState::sender(inner(u32::MAX, 0));
    let flow = LinkFlow {
        delivery_count: Some(u32::MAX),
        ..credit(10)
    };
    assert!(sender.on_incoming_flow(flow, OutputHandle(0)).is_none());
    assert_eq!(sender.link_credit(), 10);
}

#[test]
fn credit_is_counted_round_after_the_last_sequence_number() {
    // From the last sequence number ten credits go up to number nine.
    for (delivery_count, expected) in [
        (u32::MAX - 1, 11),
        (u32::MAX, 10),
        (0, 9),
        (1, 8),
        (9, 0),
        (10, u32::MAX),
        (20, u32::MAX - 10),
    ] {
        let mut sender = inner(delivery_count, 0);
        let flow = LinkFlow {
            delivery_count: Some(u32::MAX),
            ..credit(10)
        };
        sender.on_flow_to_sender(flow, OutputHandle(1));
        assert_eq!(sender.link_credit, expected);
        assert_eq!(sender.delivery_count, delivery_count);
    }
}

#[test]
fn sender_behind_the_receiver_gets_the_formula() {
    for (delivery_count, delivery_count_rcv, link_credit, expected) in [
        (4294967289, 4294967291, 10, 12),
        (1000, 2147483648, 2147483647, 4294966295),
        (1000, 2147483648, 2147483648, 4294966296),
    ] {
        let mut sender = inner(delivery_count, 0);
        let flow = LinkFlow {
            delivery_count: Some(delivery_count_rcv),
            ..credit(link_credit)
        };
        sender.on_flow_to_sender(flow, OutputHandle(1));
        assert_eq!(sender.link_credit, expected);
    }
}

#[test]
fn same_flow_twice_is_once() {
    for (drain, link_credit, delivery_count) in [
        (true, Some(10), Some(u32::MAX)),
        (false, Some(10), Some(u32::MAX)),
        (true, Some(3), Some(u32::MAX - 5)),
        (true, None, None),
        (false, None, Some(4)),
    ] {
        let mut sender = inner(u32::MAX, 2);
        let flow = || LinkFlow {
            delivery_count,
            link_credit,
            drain,
            echo: true,
            ..Default::default()
        };
        let first = sender.on_flow_to_sender(flow(), OutputHandle(1)).unwrap();
        let once = (sender.delivery_count, sender.link_credit, sender.drain);
        let second = sender.on_flow_to_sender(flow(), OutputHandle(1)).unwrap();
        assert_eq!((sender.delivery_count, sender.link_credit, sender.drain), once);
        assert_eq!(second.delivery_count, first.delivery_count);
        assert_eq!(second.link_credit, first.link_credit);
        assert_eq!(second.drain, first.drain);
    }
}

#[test]
fn drain_across_the_last_sequence_number_stays_where_it_is() {
    let sender = LinkFlowState::sender(inner(u32::MAX, 0));
    for _ in 0..3 {
        let flow = LinkFlow {
            delivery_count: Some(u32::MAX),
            drain: true,
            ..credit(10)
        };
        let reply = sender.on_incoming_flow(flow, OutputHandle(0)).unwrap();
        assert_eq!(reply.delivery_count, Some(9));
        assert_eq!(reply.link_credit, Some(0));
    }
}

#[test]
fn drain_uses_up_the_credit_and_is_answered() {
    let mut sender = inner(7, 0);
    sender.available = 4;
    let flow = LinkFlow {
        delivery_count: Some(7),
        drain: true,
        ..credit(10)
    };
    let reply = sender.on_flow_to_sender(flow, OutputHandle(9)).unwrap();
    assert_eq!(sender.delivery_count, 17);
    assert_eq!(sender.link_credit, 0);
    assert!(sender.drain);
    assert_eq!(reply.handle, Handle(9));
    assert_eq!(reply.delivery_count, Some(17));
    assert_eq!(reply.link_credit, Some(0));
    assert_eq!(reply.available, Some(4));
    assert!(reply.drain);
    assert!(!reply.echo);
    assert!(reply.properties.is_none());

    let mut slot = DeliveryTagSlot::new();
    assert_eq!(sender.send(&mut slot, 1), Err(InsufficientCredit {}));

    // A later flow without the flag takes it back
    sender.on_flow_to_sender(LinkFlow::default(), OutputHandle(9));
    assert!(!sender.drain);
}

#[test]
fn drain_counts_on_past_the_last_sequence_number() {
    let mut sender = inner(u32::MAX, 3);
    let flow = LinkFlow {
        drain: true,
        ..Default::default()
    };
    sender.on_flow_to_sender(flow, OutputHandle(0));
    assert_eq!(sender.delivery_count, 2);
}

#[test]
fn ends_agree_on_the_limit_after_a_flow() {
    let mut receiver = inner(5, 10);
    let mut sender = inner(7, 0);
    sender.on_flow_to_sender(receiver.as_link_flow(OutputHandle(0), false, false), OutputHandle(0));
    assert_eq!(sender.delivery_count + sender.link_credit, 15);
    assert_eq!(receiver.receive(2), Ok(()));
    assert_eq!(receiver.delivery_count, sender.delivery_count);
    assert_eq!(receiver.link_credit, sender.link_credit);
}

#[test]
fn replies_do_not_go_on() {
    let asking = LinkFlow {
        echo: true,
        ..Default::default()
    };
    let mut sender = inner(1, 1);
    let mut receiver = inner(1, 1);
    let reply = sender.on_flow_to_sender(asking, OutputHandle(0)).unwrap();
    assert!(receiver.on_flow_to_receiver(reply, OutputHandle(0)).is_none());

    let asking = LinkFlow {
        echo: true,
        ..Default::default()
    };
    let reply = receiver.on_flow_to_receiver(asking, OutputHandle(3)).unwrap();
    assert_eq!(reply.handle, Handle(3));
    assert!(sender.on_flow_to_sender(reply, OutputHandle(0)).is_none());

    receiver.drain = true;
    let asking = LinkFlow {
        echo: true,
        ..Default::default()
    };
    let reply = receiver.on_flow_to_receiver(asking, OutputHandle(0)).unwrap();
    let answer = sender.on_flow_to_sender(reply, OutputHandle(0)).unwrap();
    assert!(receiver.on_flow_to_receiver(answer, OutputHandle(0)).is_none());
}

#[test]
fn receiver_takes_over_what_the_sender_says() {
    let receiver: LinkFlowState<ReceiverMarker> = LinkFlowState::receiver(inner(1, 6));
    let flow = LinkFlow {
        delivery_count: Some(40),
        available: Some(8),
        drain: true,
        ..credit(99)
    };
    assert!(receiver.on_incoming_flow(flow, OutputHandle(0)).is_none());
    assert_eq!(receiver.lock.read().delivery_count, 40);
    assert_eq!(receiver.lock.read().available, 8);
    assert_eq!(receiver.link_credit(), 6);
    assert!(!receiver.drain());

    let asking = LinkFlow {
        echo: true,
        ..Default::default()
    };
    let reply = receiver.on_incoming_flow(asking, OutputHandle(2)).unwrap();
    assert_eq!(reply.handle, Handle(2));
    assert_eq!(reply.delivery_count, Some(40));
    assert_eq!(reply.available, Some(8));
    assert_eq!(reply.link_credit, Some(6));
}

#[test]
fn receiver_refuses_more_than_its_credit() {
    let receiver = LinkFlowState::receiver(inner(u32::MAX, 3));
    assert_eq!(
        receiver.consume(4),
        Err(ReceiverTransferError::TransferLimitExceeded)
    );
    assert_eq!(receiver.link_credit(), 3);
    assert_eq!(receiver.consume(2), Ok(()));
    assert_eq!(receiver.link_credit(), 1);
    assert_eq!(receiver.lock.read().delivery_count, 1);
    assert_eq!(receiver.consume(1), Ok(()));
    assert_eq!(receiver.consume(0), Ok(()));
}

#[test]
fn sender_takes_in_flows_behind_the_lock() {
    let sender = LinkFlowState::sender(inner(2, 0));
    let flow = LinkFlow {
        drain: true,
        ..credit(5)
    };
    let reply = sender.on_incoming_flow(flow, OutputHandle(6)).unwrap();
    assert_eq!(reply.delivery_count, Some(5));
    assert!(sender.drain());
    assert_eq!(sender.link_credit(), 0);
    assert_eq!(sender.lock.read().delivery_count, 5);
}

#[test]
fn counts_are_replaced_by_what_the_function_makes_of_them() {
    let sender = LinkFlowState::sender(inner(2, 0));
    sender.initial_delivery_count_mut(|n| n + 10);
    sender.delivery_count_mut(|n| n * 3);
    assert_eq!(sender.initial_delivery_count(), 10);
    assert_eq!(sender.lock.read().delivery_count, 6);
}

#[test]
fn new_state_is_the_one_given() {
    let state: LinkFlowState<SenderMarker> = LinkFlowState::new(LinkFlowStateInner {
        initial_delivery_count: 11,
        delivery_count: 12,
        link_credit: 13,
        available: 14,
        drain: true,
        properties: Some(some_fields()),
    });
    assert_eq!(state.initial_delivery_count(), 11);
    assert_eq!(state.link_credit(), 13);
    assert!(state.drain());
    let seen = state.lock.read();
    assert_eq!(seen.delivery_count, 12);
    assert_eq!(seen.available, 14);
}

#[test]
fn properties_are_copied_on_request() {
    let mut state = inner(1, 2);
    state.properties = Some(some_fields());

    let flow = state.as_link_flow(OutputHandle(5), true, true);
    assert_eq!(flow.handle, Handle(5));
    assert!(flow.echo);
    assert_eq!(flow.properties, Some(some_fields()));
    assert!(state.as_link_flow(OutputHandle(5), false, false).properties.is_none());

    assert_eq!(clone_properties(&None), None);
    let shared = LinkFlowState::sender(state);
    assert_eq!(shared.properties(), Some(some_fields()));
    assert_eq!(shared.properties(), Some(some_fields()));
}

#[test]
fn trying_fails_at_once_where_somebody_holds_the_lock() {
    let (mut producer, mut consumer) = create_sender_flow_state_producer_and_consumer();
    producer.update_state((credit(1), OutputHandle(0)));
    let mut slot = DeliveryTagSlot::new();
    set_custom_delivery_tag(&mut slot, [3; 16]);

    let reading = producer.lock.read();
    assert_eq!(
        consumer.try_consume(&mut slot, 1),
        Err(SenderTryConsumeError::TryLockError)
    );
    drop(reading);

    assert_eq!(
        consumer.try_consume(&mut slot, 2),
        Err(SenderTryConsumeError::InsufficientCredit)
    );
    assert_eq!(slot.custom, Some([3; 16]));
    assert_eq!(consumer.try_consume(&mut slot, 1), Ok([3; 16]));
    assert_eq!(slot.custom, None);
    assert_eq!(consumer.state().link_credit(), 0);
}

#[test]
fn echo_alone_is_answered_with_the_new_state() {
    let (mut producer, consumer) = create_sender_flow_state_producer_and_consumer();
    let flow = LinkFlow {
        echo: true,
        ..credit(4)
    };
    let reply = producer.update_state((flow, OutputHandle(8))).unwrap();
    assert_eq!(reply.handle, Handle(8));
    assert_eq!(reply.link_credit, Some(4));
    assert!(!reply.echo);
    assert_eq!(consumer.state().link_credit(), 4);
}

#[test]
fn silent_flow_has_the_greatest_handle() {
    let flow = LinkFlow::default();
    assert_eq!(flow.handle, Handle(u32::MAX));
    assert_eq!(flow.delivery_count, None);
    assert!(!flow.drain && !flow.echo);
}

#[test]
fn link_states_have_names() {
    assert_eq!(format!("{:?}", LinkState::Unattached), "Unattached");
    assert_eq!(
        format!("{:?}", LinkState::IncompleteAttachExchanged),
        "IncompleteAttachExchanged"
    );
}
