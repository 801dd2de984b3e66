//! Big-endian and little-endian byte codecs used by the wire formats:
//! RTP headers, the IP-discovery probe, AEAD counters, and s16le PCM.

use vstd::prelude::*;

verus! {

/// The two big-endian bytes of a 16-bit value.
pub open spec fn spec_u16_be(x: u16) -> Seq<u8> {
    seq![(x / 256) as u8, (x % 256) as u8]
}

/// The four big-endian bytes of a 32-bit value.
pub open spec fn spec_u32_be(x: u32) -> Seq<u8> {
    seq![
        (x / 0x1000000) as u8,
        ((x / 0x10000) % 256) as u8,
        ((x / 256) % 256) as u8,
        (x % 256) as u8,
    ]
}

/// The 16-bit value read big-endian from two bytes.
pub open spec fn spec_u16_from_be(b0: u8, b1: u8) -> u16 {
    (b0 * 256 + b1) as u16
}

/// Reads a big-endian u16 from the first two bytes of a slice.
pub fn u16_from_be_bytes(b: &[u8]) -> (x: u16)
    requires
        b@.len() >= 2,
    ensures
        x == spec_u16_from_be(b@[0], b@[1]),
{
    let hi: u16 = b[0] as u16;
    let lo: u16 = b[1] as u16;
    hi * 256 + lo
}

/// Appends the two big-endian bytes of `x` to `out`.
pub fn push_u16_be(out: &mut Vec<u8>, x: u16)
    ensures
        final(out)@ == old(out)@ + spec_u16_be(x),
{
    out.push((x / 256) as u8);
    out.push((x % 256) as u8);
    assert(final(out)@ =~= old(out)@ + spec_u16_be(x));
}

/// Appends the four big-endian bytes of `x` to `out`.
pub fn push_u32_be(out: &mut Vec<u8>, x: u32)
    ensures
        final(out)@ == old(out)@ + spec_u32_be(x),
{
    out.push((x / 0x1000000) as u8);
    out.push(((x / 0x10000) % 256) as u8);
    out.push(((x / 256) % 256) as u8);
    out.push((x % 256) as u8);
    assert(final(out)@ =~= old(out)@ + spec_u32_be(x));
}

/// Round trip: the big-endian encoding of a u16 reads back to itself.
pub proof fn lemma_u16_be_round_trip(x: u16)
    ensures
        spec_u16_from_be(spec_u16_be(x)[0], spec_u16_be(x)[1]) == x,
{
}

/// The 32-bit value read big-endian from four bytes.
pub open spec fn spec_u32_from_be(b0: u8, b1: u8, b2: u8, b3: u8) -> u32 {
    (b0 * 0x1000000 + b1 * 0x10000 + b2 * 256 + b3) as u32
}

/// Reads a big-endian u32 from the first four bytes of a slice.
pub fn u32_from_be_bytes(b: &[u8]) -> (x: u32)
    requires
        b@.len() >= 4,
    ensures
        x == spec_u32_from_be(b@[0], b@[1], b@[2], b@[3]),
{
    (b[0] as u32) * 0x1000000 + (b[1] as u32) * 0x10000 + (b[2] as u32) * 256 + (b[3] as u32)
}

/// Round trip: the big-endian encoding of a u32 reads back to itself.
pub proof fn lemma_u32_be_round_trip(x: u32)
    ensures
        spec_u32_from_be(
            spec_u32_be(x)[0],
            spec_u32_be(x)[1],
            spec_u32_be(x)[2],
            spec_u32_be(x)[3],
        ) == x,
{
    assert((x / 0x1000000) * 0x1000000 + ((x / 0x10000) % 256) * 0x10000 + ((x / 256) % 256)
        * 256 + x % 256 == x) by (nonlinear_arith);
}

/// The signed 16-bit sample stored little-endian as `lo`, `hi`.
pub open spec fn spec_i16_from_le(lo: u8, hi: u8) -> i16 {
    if hi < 128 {
        (hi * 256 + lo) as i16
    } else {
        (hi * 256 + lo - 0x10000) as i16
    }
}

/// Reads a signed 16-bit little-endian sample from two bytes.
pub fn i16_from_le_pair(lo: u8, hi: u8) -> (s: i16)
    ensures
        s == spec_i16_from_le(lo, hi),
{
    if hi < 128 {
        (hi as i16) * 256 + (lo as i16)
    } else {
        (hi as i32 * 256 + lo as i32 - 0x10000) as i16
    }
}

} // verus!
