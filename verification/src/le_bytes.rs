//! Little-endian byte layouts of the fixed-width integers that payloads and
//! headers are made of, with the recomposition lemmas the codec proofs need.

use vstd::prelude::*;

verus! {

/// The two little-endian bytes of a 16-bit integer.
pub open spec fn u16_le(x: u16) -> Seq<u8> {
    seq![(x & 0xff) as u8, ((x >> 8) & 0xff) as u8]
}

/// The four little-endian bytes of a 32-bit integer.
pub open spec fn u32_le(x: u32) -> Seq<u8> {
    seq![
        (x & 0xff) as u8,
        ((x >> 8) & 0xff) as u8,
        ((x >> 16) & 0xff) as u8,
        ((x >> 24) & 0xff) as u8,
    ]
}

/// The 16-bit integer whose little-endian bytes are `b0`, `b1`.
pub open spec fn u16_from_le(b0: u8, b1: u8) -> u16 {
    (b0 as u16) | ((b1 as u16) << 8)
}

/// The 32-bit integer whose little-endian bytes are `b0` .. `b3`.
pub open spec fn u32_from_le(b0: u8, b1: u8, b2: u8, b3: u8) -> u32 {
    (b0 as u32) | ((b1 as u32) << 8) | ((b2 as u32) << 16) | ((b3 as u32) << 24)
}

/// Reading back the little-endian bytes of a 16-bit integer yields it again.
pub proof fn lemma_u16_le_recompose(x: u16)
    ensures
        u16_from_le(u16_le(x)[0], u16_le(x)[1]) == x,
{
    assert((((x & 0xff) as u8) as u16) | ((((x >> 8) & 0xff) as u8) as u16) << 8 == x)
        by (bit_vector);
}

/// Reading back the little-endian bytes of a 32-bit integer yields it again.
pub proof fn lemma_u32_le_recompose(x: u32)
    ensures
        u32_from_le(u32_le(x)[0], u32_le(x)[1], u32_le(x)[2], u32_le(x)[3]) == x,
{
    assert((((x & 0xff) as u8) as u32) | ((((x >> 8) & 0xff) as u8) as u32) << 8 | ((((x >> 16)
        & 0xff) as u8) as u32) << 16 | ((((x >> 24) & 0xff) as u8) as u32) << 24 == x)
        by (bit_vector);
}

/// Appends the two little-endian bytes of `x`.
pub fn push_u16_le(out: &mut Vec<u8>, x: u16)
    ensures
        final(out)@ == old(out)@ + u16_le(x),
{
    proof {
        assert(x & 0xff < 256 && (x >> 8) & 0xff < 256) by (bit_vector);
    }
    out.push((x & 0xff) as u8);
    out.push(((x >> 8) & 0xff) as u8);
    assert(out@ =~= old(out)@ + u16_le(x));
}

/// Appends the four little-endian bytes of `x`.
pub fn push_u32_le(out: &mut Vec<u8>, x: u32)
    ensures
        final(out)@ == old(out)@ + u32_le(x),
{
    proof {
        assert(x & 0xff < 256 && (x >> 8) & 0xff < 256 && (x >> 16) & 0xff < 256 && (x >> 24)
            & 0xff < 256) by (bit_vector);
    }
    out.push((x & 0xff) as u8);
    out.push(((x >> 8) & 0xff) as u8);
    out.push(((x >> 16) & 0xff) as u8);
    out.push(((x >> 24) & 0xff) as u8);
    assert(out@ =~= old(out)@ + u32_le(x));
}

/// Recomposes a 16-bit integer from its little-endian bytes.
pub fn u16_from_le_pair(b0: u8, b1: u8) -> (x: u16)
    ensures
        x == u16_from_le(b0, b1),
{
    (b0 as u16) | ((b1 as u16) << 8)
}

/// Recomposes a 32-bit integer from its little-endian bytes.
pub fn u32_from_le_quad(b0: u8, b1: u8, b2: u8, b3: u8) -> (x: u32)
    ensures
        x == u32_from_le(b0, b1, b2, b3),
{
    (b0 as u32) | ((b1 as u32) << 8) | ((b2 as u32) << 16) | ((b3 as u32) << 24)
}

} // verus!
