//! Laws of the codec: round-trip, length-prefix exactness, unknown-tag
//! rejection, and the tag-width boundary, proved over the frame model.

use vstd::prelude::*;
use crate::codec::{decoded, encoded, frame_bytes, header_len, tag_width, wire_tag, DpError};
use crate::le_bytes::{lemma_u16_le_recompose, lemma_u32_le_recompose};
use crate::value::{catalog_has, payload_bytes, tag_of, MyEnum};

verus! {

/// Every catalog variant encodes under every version, and decoding the
/// frame yields the value that was encoded.
pub proof fn lemma_round_trip(v: MyEnum, version: u8)
    ensures
        encoded(v, version) is Ok,
        encoded(v, version) matches Ok(frame) ==> decoded(frame, version) == Ok::<
            MyEnum,
            DpError,
        >(v),
{
    let frame = frame_bytes(v, version);
    lemma_u16_le_recompose(tag_of(v));
    assert(wire_tag(frame, version) == tag_of(v));
    if let MyEnum::Variant1(x) = v {
        lemma_u32_le_recompose(x);
    }
}

/// The tag of a value never depends on the framing version: `encoded` puts
/// the same `tag_of(v)` in the tag field under every version.
pub proof fn lemma_tag_stable(v: MyEnum, version_a: u8, version_b: u8)
    ensures
        wire_tag(frame_bytes(v, version_a), version_a) == tag_of(v),
        wire_tag(frame_bytes(v, version_b), version_b) == tag_of(v),
{
    lemma_u16_le_recompose(tag_of(v));
}

/// Under the prefixed layout the length byte of every frame equals the
/// exact count of the tag and payload bytes that follow it.
pub proof fn lemma_length_prefix_exact(v: MyEnum)
    ensures
        frame_bytes(v, 1).len() > 0,
        frame_bytes(v, 1)[0] == frame_bytes(v, 1).len() - 1,
        frame_bytes(v, 1)[0] == tag_width(1) + payload_bytes(v).len(),
{
}

/// Decoding a frame whose tag field holds a value absent from the catalog
/// yields `UnknownTag` with that value, under every version.
pub proof fn lemma_unknown_tag_rejected(bytes: Seq<u8>, version: u8)
    requires
        bytes.len() >= header_len(version),
        !catalog_has(wire_tag(bytes, version)),
    ensures
        decoded(bytes, version) == Err::<MyEnum, DpError>(
            DpError::UnknownTag(wire_tag(bytes, version)),
        ),
{
}

/// A tag too wide for a one-byte tag field is rejected before anything is
/// written, while from version 2 upward the two-byte field carries every
/// tag; and every tag of this catalog fits even the one-byte field.
pub proof fn lemma_tag_width_boundary(v: MyEnum, version: u8)
    ensures
        version <= 1 && tag_of(v) > 255 ==> encoded(v, version) == Err::<Seq<u8>, DpError>(
            DpError::TagWidthOverflow,
        ),
        version >= 2 ==> encoded(v, version) is Ok,
        tag_of(v) <= 255,
{
}

} // verus!
