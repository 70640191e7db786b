//! The variant catalog: the closed set of record payload types, each with a
//! fixed numeric tag, and tag lookup in both directions.

use vstd::prelude::*;
use crate::le_bytes::u32_le;

verus! {

/// A tagged datapoint value: exactly one active variant of the catalog.
///
/// The tag of each variant is fixed at definition time: `0x10` for the
/// 32-bit payload, `0x20` for the 8-bit payload.
#[derive(Debug, Clone, Copy, PartialEq, Eq, Structural)]
pub enum MyEnum {
    Variant1(u32),
    Variant2(u8),
}

/// The tag associated with a value's active variant.
pub open spec fn tag_of(v: MyEnum) -> u16 {
    match v {
        MyEnum::Variant1(_) => 0x10,
        MyEnum::Variant2(_) => 0x20,
    }
}

/// Whether `tag` selects some variant of the catalog.
pub open spec fn catalog_has(tag: u16) -> bool {
    tag == 0x10 || tag == 0x20
}

/// The payload bytes of a value's active variant, little-endian.
pub open spec fn payload_bytes(v: MyEnum) -> Seq<u8> {
    match v {
        MyEnum::Variant1(x) => u32_le(x),
        MyEnum::Variant2(x) => seq![x],
    }
}

impl MyEnum {
    /// Returns the fixed tag of the active variant; total, never fails.
    pub fn get_id(&self) -> (id: u16)
        ensures
            id == tag_of(*self),
    {
        match self {
            MyEnum::Variant1(_) => 0x10,
            MyEnum::Variant2(_) => 0x20,
        }
    }
}

} // verus!
