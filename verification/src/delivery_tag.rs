//! Delivery tags: sixteen octets that name a delivery.
//!
//! A tag is a random UUID unless the caller chose one for the next delivery.
//! The peer reads the octets of a tag as a UUID in little-endian order, so the
//! octets of a random UUID are put in that order first.

use uuid::Uuid;
use vstd::prelude::*;

verus! {

/// A UUID by its fields.
#[verifier::ext_equal]
pub struct UuidFields {
    /// 32 bits
    pub time_low: int,

    /// 16 bits
    pub time_mid: int,

    /// 16 bits, the highest four of which are the version
    pub time_hi_and_version: int,

    /// The last eight octets; the highest two bits of the first are the variant
    pub clock_seq_and_node: Seq<u8>,
}

impl UuidFields {
    /// The UUID whose octets, each field in network order, are `octets`.
    pub open spec fn from_big_endian(octets: Seq<u8>) -> UuidFields {
        UuidFields {
            time_low: octets[0] * 0x1000000 + octets[1] * 0x10000 + octets[2] * 0x100 + octets[3],
            time_mid: octets[4] * 0x100 + octets[5],
            time_hi_and_version: octets[6] * 0x100 + octets[7],
            clock_seq_and_node: octets.skip(8),
        }
    }

    /// The UUID whose octets are `octets` when the first three fields stand in
    /// little-endian order.
    pub open spec fn from_little_endian(octets: Seq<u8>) -> UuidFields {
        UuidFields {
            time_low: octets[3] * 0x1000000 + octets[2] * 0x10000 + octets[1] * 0x100 + octets[0],
            time_mid: octets[5] * 0x100 + octets[4],
            time_hi_and_version: octets[7] * 0x100 + octets[6],
            clock_seq_and_node: octets.skip(8),
        }
    }

    /// Whether version and variant mark the UUID as a random one.
    pub open spec fn is_random(self) -> bool {
        &&& self.time_hi_and_version / 0x1000 == 4
        &&& self.clock_seq_and_node[0] / 0x40 == 2
    }
}

/// Whether the peer reads `tag` as a random UUID.
pub open spec fn is_random_tag(tag: [u8; 16]) -> bool {
    UuidFields::from_little_endian(tag@).is_random()
}

/// The UUID type of the `uuid` crate, opaque here.
#[verifier::external_type_specification]
#[verifier::external_body]
pub struct ExUuid(uuid::Uuid);

/// The octets of a UUID in network order, as `Uuid::as_bytes` gives them.
pub uninterp spec fn uuid_octets(uuid: Uuid) -> Seq<u8>;

/// `Uuid::new_v4` draws a UUID. Its octets are random but for the version, which
/// is four, and the variant, whose two bits are one and zero. Nothing is said of
/// the random bits, nor that two UUIDs differ. The call panics if the operating
/// system has no randomness to give. Verified code has no other way to come by a
/// UUID.
pub assume_specification[ Uuid::new_v4 ]() -> (uuid: Uuid)
    ensures
        uuid_octets(uuid).len() == 16,
        0x40 <= uuid_octets(uuid)[6] < 0x50,
        0x80 <= uuid_octets(uuid)[8] < 0xc0,
    opens_invariants none
;

/// `Uuid::as_bytes` gives the sixteen octets of a UUID in network order.
pub assume_specification[ Uuid::as_bytes ](uuid: &Uuid) -> (octets: &uuid::Bytes)
    ensures
        octets@ == uuid_octets(*uuid),
    opens_invariants none
;

/// Whether `tag` is made of `uuid`, which was drawn at random: it holds the
/// octets in the order in which the peer reads them.
pub open spec fn made_of(tag: [u8; 16], uuid: Uuid) -> bool {
    &&& uuid_octets(uuid).len() == 16
    &&& UuidFields::from_big_endian(uuid_octets(uuid)).is_random()
    &&& tag@ == little_endian_octets(uuid_octets(uuid))
    &&& UuidFields::from_little_endian(tag@) == UuidFields::from_big_endian(uuid_octets(uuid))
}

/// The tag that the peer reads as the UUID whose octets, in network order, are
/// `octets`.
pub fn delivery_tag_from_uuid(octets: &[u8; 16]) -> (tag: [u8; 16])
    ensures
        UuidFields::from_little_endian(tag@) == UuidFields::from_big_endian(octets@),
        tag@ == little_endian_octets(octets@),
    opens_invariants none
{
    let tag = [
        octets[3],
        octets[2],
        octets[1],
        octets[0],
        octets[5],
        octets[4],
        octets[7],
        octets[6],
        octets[8],
        octets[9],
        octets[10],
        octets[11],
        octets[12],
        octets[13],
        octets[14],
        octets[15],
    ];
    assert(tag@ =~= little_endian_octets(octets@));
    assert(tag@.skip(8) =~= octets@.skip(8));
    tag
}

/// `octets` with the octets of each of the first three UUID fields reversed.
pub open spec fn little_endian_octets(octets: Seq<u8>) -> Seq<u8> {
    octets.subrange(0, 4).reverse() + octets.subrange(4, 6).reverse() + octets.subrange(
        6,
        8,
    ).reverse() + octets.skip(8)
}

/// Holds the tag that the caller chose for the next delivery, if any.
#[derive(Debug, Clone, Copy, PartialEq, Eq)]
pub struct DeliveryTagSlot {
    /// The chosen tag
    pub custom: Option<[u8; 16]>,
}

impl DeliveryTagSlot {
    /// The slot that holds `tag` for the next delivery.
    pub open spec fn choosing(tag: [u8; 16]) -> DeliveryTagSlot {
        DeliveryTagSlot { custom: Some(tag) }
    }

    /// The slot that holds no tag.
    pub open spec fn vacant() -> DeliveryTagSlot {
        DeliveryTagSlot { custom: None }
    }

    /// A slot without a chosen tag.
    pub fn new() -> (slot: DeliveryTagSlot)
        ensures
            slot.custom is None,
            slot == DeliveryTagSlot::vacant(),
    {
        DeliveryTagSlot { custom: None }
    }
}

/// Sets a custom tag of sixteen octets to be used for the next delivery.
///
/// While it is set, the next tag is this one in place of a random UUID. It is
/// used once: handing it out clears it.
pub fn set_custom_delivery_tag(slot: &mut DeliveryTagSlot, tag: [u8; 16])
    ensures
        final(slot).custom == Some(tag),
        *final(slot) == DeliveryTagSlot::choosing(tag),
{
    slot.custom = Some(tag);
}

/// Clears the custom tag, so that the next tag is a random UUID.
pub fn clear_custom_delivery_tag(slot: &mut DeliveryTagSlot)
    ensures
        final(slot).custom is None,
        *final(slot) == DeliveryTagSlot::vacant(),
    opens_invariants none
{
    slot.custom = None;
}

/// Whether `tag` is what a slot that was `before` and is `after` gives for a
/// delivery: the chosen tag where there is one, else one made of a UUID that was
/// drawn for it, and in either case no tag is left chosen.
pub open spec fn tag_taken(
    before: DeliveryTagSlot,
    after: DeliveryTagSlot,
    tag: [u8; 16],
) -> bool {
    &&& after.custom is None
    &&& match before.custom {
        Some(custom) => tag == custom,
        None => is_random_tag(tag) && exists|uuid: Uuid| #[trigger] made_of(tag, uuid),
    }
}

/// The tag for the next delivery: the custom tag, which is thereby cleared, or
/// else a new random UUID in the order in which the peer reads it.
pub fn next_delivery_tag(slot: &mut DeliveryTagSlot) -> (tag: [u8; 16])
    ensures
        tag_taken(*old(slot), *final(slot), tag),
    opens_invariants none
{
    match slot.custom {
        Some(tag) => {
            clear_custom_delivery_tag(slot);
            tag
        },
        None => {
            let uuid = Uuid::new_v4();
            let tag = delivery_tag_from_uuid(uuid.as_bytes());
            assert(made_of(tag, uuid));
            tag
        },
    }
}

} // verus!
