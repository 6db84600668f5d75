//! Byte-level helpers shared by the UDP and TCP codecs: big-endian integer
//! packing and the specification-level view of each encoding.

use vstd::prelude::*;

verus! {

/// High byte of a big-endian `u16`.
pub open spec fn u16_hi(x: u16) -> u8 {
    (x >> 8) as u8
}

/// Low byte of a big-endian `u16`.
pub open spec fn u16_lo(x: u16) -> u8 {
    x as u8
}

/// The `u16` read back from two big-endian bytes.
pub open spec fn u16_of_be(hi: u8, lo: u8) -> u16 {
    ((hi as u16) << 8) | (lo as u16)
}

/// The four big-endian bytes of a `u32`, most significant first.
pub open spec fn u32_be(x: u32) -> Seq<u8> {
    seq![(x >> 24) as u8, (x >> 16) as u8, (x >> 8) as u8, x as u8]
}

/// The `u32` read back from four big-endian bytes.
pub open spec fn u32_of_be(b0: u8, b1: u8, b2: u8, b3: u8) -> u32 {
    ((b0 as u32) << 24) | ((b1 as u32) << 16) | ((b2 as u32) << 8) | (b3 as u32)
}

/// Packing a `u16` big-endian and reading it back is the identity, and
/// reading two bytes and repacking them restores the bytes.
pub proof fn lemma_u16_be_roundtrip(x: u16, hi: u8, lo: u8)
    by (bit_vector)
    ensures
        u16_of_be(u16_hi(x), u16_lo(x)) == x,
        u16_hi(u16_of_be(hi, lo)) == hi,
        u16_lo(u16_of_be(hi, lo)) == lo,
{
}

/// Appends a `u16` in big-endian order.
pub fn push_u16_be(out: &mut Vec<u8>, x: u16)
    ensures
        final(out)@ == old(out)@ + seq![u16_hi(x), u16_lo(x)],
{
    out.push(#[verifier::truncate] ((x >> 8) as u8));
    out.push(#[verifier::truncate] (x as u8));
    proof {
        assert(out@ =~= old(out)@ + seq![u16_hi(x), u16_lo(x)]);
    }
}

/// Appends a `u32` in big-endian order.
pub fn push_u32_be(out: &mut Vec<u8>, x: u32)
    ensures
        final(out)@ == old(out)@ + u32_be(x),
{
    out.push(#[verifier::truncate] ((x >> 24) as u8));
    out.push(#[verifier::truncate] ((x >> 16) as u8));
    out.push(#[verifier::truncate] ((x >> 8) as u8));
    out.push(#[verifier::truncate] (x as u8));
    proof {
        assert(out@ =~= old(out)@ + u32_be(x));
    }
}

/// Reads a big-endian `u16` from two bytes.
pub fn read_u16_be(hi: u8, lo: u8) -> (r: u16)
    ensures
        r == u16_of_be(hi, lo),
{
    ((hi as u16) << 8) | (lo as u16)
}

/// Reads a big-endian `u32` from four bytes.
pub fn read_u32_be(b0: u8, b1: u8, b2: u8, b3: u8) -> (r: u32)
    ensures
        r == u32_of_be(b0, b1, b2, b3),
{
    ((b0 as u32) << 24) | ((b1 as u32) << 16) | ((b2 as u32) << 8) | (b3 as u32)
}

} // verus!
