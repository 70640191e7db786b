//! The header and record codec: framing a tagged value as
//! `[length_prefix?][tag][payload]` under a version-selected layout, and
//! reading such a frame back.
//!
//! The version picks one of three layouts: `0` writes a one-byte tag and no
//! length prefix, `1` writes a one-byte length prefix followed by a one-byte
//! tag, and every version from `2` upward writes a two-byte little-endian
//! tag and no prefix. The length prefix counts the tag and payload bytes,
//! excluding itself, and is backpatched once the payload size is known.

use vstd::prelude::*;
use crate::le_bytes::{
    u16_from_le, u16_from_le_pair, u16_le, u32_from_le, u32_from_le_quad, push_u16_le, push_u32_le,
};
use crate::value::{payload_bytes, tag_of, MyEnum};
use vstd::slice::slice_index_get;

verus! {

/// Why an encode or decode call failed.
#[derive(Debug, Clone, Copy, PartialEq, Eq, Structural)]
pub enum DpError {
    /// Decoding met a tag absent from the variant catalog.
    UnknownTag(u16),
    /// Encoding was asked to write a tag wider than the layout's tag field.
    TagWidthOverflow,
    /// The tag and payload outgrew the one-byte length prefix.
    LengthOverflow,
    /// The input ended before a complete header or payload.
    Truncated,
}

/// Whether the layout of `version` starts the frame with a length prefix.
pub open spec fn has_length_prefix(version: u8) -> bool {
    version == 1
}

/// The width in bytes of the tag field under `version`.
pub open spec fn tag_width(version: u8) -> nat {
    if version <= 1 {
        1
    } else {
        2
    }
}

/// The byte count of the whole header (length prefix, if any, plus tag).
pub open spec fn header_len(version: u8) -> nat {
    (if has_length_prefix(version) {
        1nat
    } else {
        0nat
    }) + tag_width(version)
}

/// The wire form of a tag under `version`: one byte, or two little-endian.
pub open spec fn tag_field_bytes(tag: u16, version: u8) -> Seq<u8> {
    if tag_width(version) == 1 {
        seq![tag as u8]
    } else {
        u16_le(tag)
    }
}

/// The frame of `v` under `version`, assuming the layout can carry it:
/// optional length prefix, then tag field, then payload.
pub open spec fn frame_bytes(v: MyEnum, version: u8) -> Seq<u8> {
    let body = tag_field_bytes(tag_of(v), version) + payload_bytes(v);
    if has_length_prefix(version) {
        seq![body.len() as u8] + body
    } else {
        body
    }
}

/// What encoding `v` under `version` returns: the frame, or the error owed
/// when the tag outgrows the tag field or the body outgrows the prefix.
pub open spec fn encoded(v: MyEnum, version: u8) -> Result<Seq<u8>, DpError> {
    if tag_width(version) == 1 && tag_of(v) > 255 {
        Err(DpError::TagWidthOverflow)
    } else if has_length_prefix(version) && tag_width(version) + payload_bytes(v).len() > 255 {
        Err(DpError::LengthOverflow)
    } else {
        Ok(frame_bytes(v, version))
    }
}

/// The tag held in the tag field of `bytes` under `version`.
pub open spec fn wire_tag(bytes: Seq<u8>, version: u8) -> u16
    recommends
        bytes.len() >= header_len(version),
{
    let off = if has_length_prefix(version) {
        1int
    } else {
        0int
    };
    if tag_width(version) == 1 {
        bytes[off] as u16
    } else {
        u16_from_le(bytes[off], bytes[off + 1])
    }
}

/// What decoding `bytes` under `version` returns.
///
/// The header is read first: a missing byte is `Truncated`. The tag then
/// selects the catalog variant, whose fixed-layout payload is read right
/// after the header; a tag outside the catalog is `UnknownTag`. A length
/// prefix, where the layout has one, is read past but not checked against
/// the bytes the payload reader consumes.
pub open spec fn decoded(bytes: Seq<u8>, version: u8) -> Result<MyEnum, DpError> {
    if bytes.len() < header_len(version) {
        Err(DpError::Truncated)
    } else {
        let tag = wire_tag(bytes, version);
        let p = header_len(version) as int;
        if tag == 0x10 {
            if bytes.len() < p + 4 {
                Err(DpError::Truncated)
            } else {
                Ok(MyEnum::Variant1(u32_from_le(bytes[p], bytes[p + 1], bytes[p + 2], bytes[p + 3])))
            }
        } else if tag == 0x20 {
            if bytes.len() < p + 1 {
                Err(DpError::Truncated)
            } else {
                Ok(MyEnum::Variant2(bytes[p]))
            }
        } else {
            Err(DpError::UnknownTag(tag))
        }
    }
}

impl MyEnum {
    /// Decodes one frame from the start of `bytes` under `version`; bytes
    /// past the frame are ignored.
    pub fn read_with_dp_version(bytes: &[u8], version: u8) -> (r: Result<MyEnum, DpError>)
        ensures
            r == decoded(bytes@, version),
    {
        let prefix: usize = if version == 1 {
            1
        } else {
            0
        };
        let tag_w: usize = if version <= 1 {
            1
        } else {
            2
        };
        let header: usize = prefix + tag_w;
        if bytes.len() < header {
            return Err(DpError::Truncated);
        }
        let tag: u16 = if tag_w == 1 {
            *slice_index_get(bytes, prefix) as u16
        } else {
            u16_from_le_pair(*slice_index_get(bytes, prefix), *slice_index_get(bytes, prefix + 1))
        };
        if tag == 0x10 {
            if bytes.len() < header + 4 {
                return Err(DpError::Truncated);
            }
            let x = u32_from_le_quad(
                *slice_index_get(bytes, header),
                *slice_index_get(bytes, header + 1),
                *slice_index_get(bytes, header + 2),
                *slice_index_get(bytes, header + 3),
            );
            Ok(MyEnum::Variant1(x))
        } else if tag == 0x20 {
            if bytes.len() < header + 1 {
                return Err(DpError::Truncated);
            }
            Ok(MyEnum::Variant2(*slice_index_get(bytes, header)))
        } else {
            Err(DpError::UnknownTag(tag))
        }
    }

    /// Encodes `self` as one frame under `version`.
    ///
    /// Under a prefixed layout the prefix byte is written as a zero
    /// placeholder first and backpatched with the tag-plus-payload size once
    /// the payload has been serialized, as the size is only known then.
    pub fn write_with_dp_version(&self, version: u8) -> (r: Result<Vec<u8>, DpError>)
        ensures
            r is Ok <==> encoded(*self, version) is Ok,
            r matches Ok(out) ==> Ok::<Seq<u8>, DpError>(out@) == encoded(*self, version),
            r matches Err(e) ==> Err::<Seq<u8>, DpError>(e) == encoded(*self, version),
    {
        let tag: u16 = self.get_id();
        let one_byte_tag: bool = version <= 1;
        if one_byte_tag && tag > 255 {
            return Err(DpError::TagWidthOverflow);
        }
        let mut out: Vec<u8> = Vec::new();
        let prefixed: bool = version == 1;
        if prefixed {
            out.push(0);
        }
        if one_byte_tag {
            out.push(tag as u8);
        } else {
            push_u16_le(&mut out, tag);
        }
        match self {
            MyEnum::Variant1(x) => {
                push_u32_le(&mut out, *x);
            },
            MyEnum::Variant2(x) => {
                out.push(*x);
            },
        }
        if prefixed {
            let body_len: usize = out.len() - 1;
            if body_len > 255 {
                return Err(DpError::LengthOverflow);
            }
            out[0] = body_len as u8;
        }
        assert(out@ =~= frame_bytes(*self, version));
        Ok(out)
    }
}

} // verus!
