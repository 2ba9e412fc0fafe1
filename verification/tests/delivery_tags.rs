use amqp_link_state::consumer::{consume_link_credit, ConsumeStep, SenderFlowState};
use amqp_link_state::delivery_tag::{
    clear_custom_delivery_tag, delivery_tag_from_uuid, next_delivery_tag, set_custom_delivery_tag,
    DeliveryTagSlot,
};
use amqp_link_state::endpoint::{LinkFlow, OutputHandle};
use amqp_link_state::flow_state::{LinkFlowState, ProducerState};
use amqp_link_state::state::{generate_delivery_tag, LinkFlowStateInner};
use std::sync::Arc;

fn inner(delivery_count: u32, link_credit: u32) -> LinkFlowStateInner {
    LinkFlowStateInner {
        initial_delivery_count: 0,
        delivery_count,
        link_credit,
        available: 0,
        drain: false,
        properties: None,
    }
}

#[test]
fn test_generate_delivery_tag_returns_16_bytes() {
    let mut state = inner(5, 10);
    let mut slot = DeliveryTagSlot::new();

    let tag = generate_delivery_tag(&mut state, &mut slot);
    assert_eq!(tag.len(), 16);
    // Should not be all zeros
    assert_ne!(tag, [0u8; 16]);
}

#[test]
fn test_generate_delivery_tag_is_unique() {
    let mut state1 = inner(0, 100);
    let mut state2 = inner(50, 100);
    let mut slot = DeliveryTagSlot::new();

    let tag1 = generate_delivery_tag(&mut state1, &mut slot);
    let tag2 = generate_delivery_tag(&mut state2, &mut slot);
    assert_ne!(tag1, tag2);
}

#[test]
fn test_generate_delivery_tag_increments_delivery_count() {
    let mut state = inner(10, 5);
    let mut slot = DeliveryTagSlot::new();

    let _ = generate_delivery_tag(&mut state, &mut slot);
    assert_eq!(state.delivery_count, 11);
    assert_eq!(state.link_credit, 4);
}

#[test]
fn test_custom_delivery_tag_is_used() {
    let mut state = inner(0, 10);
    let mut slot = DeliveryTagSlot::new();

    let custom = [
        0x01, 0x02, 0x03, 0x04, 0x05, 0x06, 0x07, 0x08, 0x09, 0x0a, 0x0b, 0x0c, 0x0d, 0x0e, 0x0f,
        0x10,
    ];
    set_custom_delivery_tag(&mut slot, custom);

    let tag = generate_delivery_tag(&mut state, &mut slot);
    assert_eq!(tag, custom);
}

#[test]
fn test_custom_delivery_tag_consumed_once() {
    let mut state = inner(0, 10);
    let mut slot = DeliveryTagSlot::new();

    let custom = [0xFF; 16];
    set_custom_delivery_tag(&mut slot, custom);

    // First call uses the custom tag
    let tag1 = generate_delivery_tag(&mut state, &mut slot);
    assert_eq!(tag1, custom);

    // Second call generates a new random tag
    let tag2 = generate_delivery_tag(&mut state, &mut slot);
    assert_ne!(tag2, custom);
}

#[test]
fn test_clear_custom_delivery_tag() {
    let mut state = inner(0, 10);
    let mut slot = DeliveryTagSlot::new();

    let custom = [0xAB; 16];
    set_custom_delivery_tag(&mut slot, custom);
    clear_custom_delivery_tag(&mut slot);

    // Should get a random tag, not the cleared custom one
    let tag = generate_delivery_tag(&mut state, &mut slot);
    assert_ne!(tag, custom);
}

#[test]
fn test_generate_delivery_tag_uuid_v4_format() {
    let mut state = inner(0, 10);
    let mut slot = DeliveryTagSlot::new();

    let tag = generate_delivery_tag(&mut state, &mut slot);

    assert_eq!(tag[7] >> 4, 0x4, "UUID version should be 4");

    let variant = tag[8] >> 6;
    assert!(
        variant == 0x2,
        "UUID variant should be RFC 4122 (0x2), got {variant}"
    );
}

#[test]
fn test_consume_link_credit_returns_16_bytes() {
    let lock = Arc::new(parking_lot::RwLock::new(inner(0, 5)));
    let mut slot = DeliveryTagSlot::new();

    let result = consume_link_credit(&lock, &mut slot, 1);
    assert!(result.is_ok());
    let tag = result.unwrap();
    assert_eq!(tag.len(), 16);
    assert_ne!(tag, [0u8; 16]);
    assert_eq!(tag[7] >> 4, 0x4);
}

#[test]
fn test_consume_link_credit_insufficient_credit() {
    let lock = parking_lot::RwLock::new(inner(0, 0));
    let mut slot = DeliveryTagSlot::new();

    let result = consume_link_credit(&lock, &mut slot, 1);
    assert!(result.is_err());
}

fn producer_and_consumer() -> (
    Arc<LinkFlowState<amqp_link_state::role::SenderMarker>>,
    SenderFlowState,
) {
    let producer = Arc::new(LinkFlowState::sender(inner(0, 0)));
    let consumer = SenderFlowState::new(producer.clone());
    (producer, consumer)
}

fn credit(link_credit: u32) -> LinkFlow {
    LinkFlow {
        link_credit: Some(link_credit),
        ..Default::default()
    }
}

#[test]
fn test_consume_async_returns_16_bytes() {
    let (mut producer, mut consumer) = producer_and_consumer();
    let mut slot = DeliveryTagSlot::new();
    producer.update_state((credit(1), OutputHandle(0)));

    match consumer.consume(&mut slot, 1) {
        ConsumeStep::Deliver(tag) => {
            assert_eq!(tag.len(), 16);
            assert_ne!(tag, [0u8; 16]);
            // Should be a valid UUID v4
            assert_eq!(tag[7] >> 4, 0x4);
        }
        ConsumeStep::AwaitNotification => panic!("there is credit"),
    }
}

#[test]
fn test_consume_async_uses_custom_delivery_tag() {
    let (mut producer, mut consumer) = producer_and_consumer();
    let mut slot = DeliveryTagSlot::new();

    let custom = [
        0x11, 0x22, 0x33, 0x44, 0x55, 0x66, 0x77, 0x88, 0x99, 0xaa, 0xbb, 0xcc, 0xdd, 0xee, 0xff,
        0x00,
    ];
    set_custom_delivery_tag(&mut slot, custom);
    producer.update_state((credit(2), OutputHandle(0)));

    match consumer.consume(&mut slot, 1) {
        ConsumeStep::Deliver(tag1) => {
            assert_eq!(tag1, custom, "first consume should use custom tag")
        }
        ConsumeStep::AwaitNotification => panic!("there is credit"),
    }
    match consumer.consume(&mut slot, 1) {
        ConsumeStep::Deliver(tag2) => {
            assert_ne!(tag2, custom, "second consume should use random tag");
            assert_eq!(tag2.len(), 16);
        }
        ConsumeStep::AwaitNotification => panic!("there is credit"),
    }
}

#[test]
fn tag_holds_uuid_in_little_endian_order() {
    let octets = [
        0x00, 0x11, 0x22, 0x33, 0x44, 0x55, 0x66, 0x77, 0x88, 0x99, 0xaa, 0xbb, 0xcc, 0xdd, 0xee,
        0xff,
    ];
    let tag = delivery_tag_from_uuid(&octets);
    assert_eq!(
        tag,
        [
            0x33, 0x22, 0x11, 0x00, 0x55, 0x44, 0x77, 0x66, 0x88, 0x99, 0xaa, 0xbb, 0xcc, 0xdd,
            0xee, 0xff,
        ]
    );
}

#[test]
fn peer_reads_the_uuid_that_the_tag_was_made_of() {
    let uuid = uuid::Uuid::from_u128(0x00112233_4455_6677_8899_aabbccddeeff);
    let tag = delivery_tag_from_uuid(uuid.as_bytes());
    assert_eq!(uuid::Uuid::from_bytes_le(tag), uuid);
}

#[test]
fn tag_order_applied_twice_is_no_change() {
    let octets: [u8; 16] = [1, 2, 3, 4, 5, 6, 7, 8, 9, 10, 11, 12, 13, 14, 15, 16];
    assert_eq!(
        delivery_tag_from_uuid(&delivery_tag_from_uuid(&octets)),
        octets
    );
}

#[test]
fn peer_reads_a_random_tag_as_a_random_uuid() {
    let mut slot = DeliveryTagSlot::new();
    let uuid = uuid::Uuid::from_bytes_le(next_delivery_tag(&mut slot));
    assert_eq!(uuid.get_version_num(), 4);
    assert_eq!(uuid.get_variant(), uuid::Variant::RFC4122);
}

#[test]
fn last_custom_tag_counts() {
    let mut slot = DeliveryTagSlot::new();
    set_custom_delivery_tag(&mut slot, [1; 16]);
    set_custom_delivery_tag(&mut slot, [2; 16]);
    assert_eq!(next_delivery_tag(&mut slot), [2; 16]);
    assert_eq!(slot, DeliveryTagSlot { custom: None });
}

#[test]
fn delivery_without_credit_still_counts() {
    let mut state = inner(u32::MAX, 0);
    let mut slot = DeliveryTagSlot::new();
    generate_delivery_tag(&mut state, &mut slot);
    assert_eq!(state.delivery_count, 0);
    assert_eq!(state.link_credit, 0);
}

#[test]
fn refused_delivery_keeps_custom_tag() {
    let lock = parking_lot::RwLock::new(inner(3, 1));
    let mut slot = DeliveryTagSlot::new();
    set_custom_delivery_tag(&mut slot, [7; 16]);
    assert!(consume_link_credit(&lock, &mut slot, 2).is_err());
    assert_eq!(slot.custom, Some([7; 16]));
    assert_eq!(lock.read().delivery_count, 3);
    assert_eq!(lock.read().link_credit, 1);
}

#[test]
fn delivery_spends_one_credit_whatever_it_asks_for() {
    let lock = parking_lot::RwLock::new(inner(3, 5));
    let mut slot = DeliveryTagSlot::new();
    assert!(consume_link_credit(&lock, &mut slot, 4).is_ok());
    assert_eq!(lock.read().delivery_count, 4);
    assert_eq!(lock.read().link_credit, 4);
}
