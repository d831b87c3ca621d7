//! Byte-order arithmetic.
//!
//! The socket ABI stores some 16- and 32-bit fields in the host's byte order
//! (family tags, flow information, scope identifiers) and others in network
//! order (ports).  This module defines the byte-level meaning of both: the
//! little-endian byte encoding used by the host this library targets, and the
//! 16-bit byte swap that turns a host-order value into a network-order one.

use vstd::prelude::*;

verus! {

/// The little-endian byte pair that a 16-bit value occupies in memory.
pub open spec fn spec_le16(x: u16) -> Seq<u8> {
    seq![(x & 0xff) as u8, ((x >> 8) & 0xff) as u8]
}

/// The 16-bit value stored as the little-endian byte pair `(b0, b1)`.
pub open spec fn spec_u16_le(b0: u8, b1: u8) -> u16 {
    (b0 as u16) | ((b1 as u16) << 8)
}

/// The little-endian byte quadruple that a 32-bit value occupies in memory.
pub open spec fn spec_le32(x: u32) -> Seq<u8> {
    seq![
        (x & 0xff) as u8,
        ((x >> 8) & 0xff) as u8,
        ((x >> 16) & 0xff) as u8,
        ((x >> 24) & 0xff) as u8,
    ]
}

/// The 32-bit value stored as the little-endian bytes `(b0, b1, b2, b3)`.
pub open spec fn spec_u32_le(b0: u8, b1: u8, b2: u8, b3: u8) -> u32 {
    (b0 as u32) | ((b1 as u32) << 8) | ((b2 as u32) << 16) | ((b3 as u32) << 24)
}

/// The big-endian (network-order) byte pair of a 16-bit value.
pub open spec fn spec_be16(x: u16) -> Seq<u8> {
    seq![((x >> 8) & 0xff) as u8, (x & 0xff) as u8]
}

/// The 16-bit value whose big-endian (network-order) byte pair is `(b0, b1)`.
pub open spec fn spec_u16_be(b0: u8, b1: u8) -> u16 {
    ((b0 as u16) << 8) | (b1 as u16)
}

/// Decoding the big-endian byte pair of a 16-bit value gives the value back.
pub proof fn lemma_be16_round_trip(x: u16)
    ensures
        spec_u16_be(((x >> 8) & 0xff) as u8, (x & 0xff) as u8) == x,
{
    assert(((((x >> 8) & 0xff) as u8 as u16) << 8) | ((x & 0xff) as u8 as u16) == x)
        by (bit_vector);
}

/// Combine two bytes into the 16-bit value they spell in network order.
pub fn u16_from_be(b0: u8, b1: u8) -> (r: u16)
    ensures
        r == spec_u16_be(b0, b1),
{
    assert(((b0 as u16) << 8) <= 0xff00) by (bit_vector);
    ((b0 as u16) << 8) | (b1 as u16)
}

/// The high byte of a 16-bit value: the first of its network-order pair.
pub fn be_hi(x: u16) -> (r: u8)
    ensures
        r == spec_be16(x)[0],
{
    assert((x >> 8) & 0xff < 256) by (bit_vector);
    ((x >> 8) & 0xff) as u8
}

/// The low byte of a 16-bit value: the second of its network-order pair.
pub fn be_lo(x: u16) -> (r: u8)
    ensures
        r == spec_be16(x)[1],
{
    assert(x & 0xff < 256) by (bit_vector);
    (x & 0xff) as u8
}

/// A 16-bit value with its two bytes exchanged: the conversion between host
/// (little-endian) and network (big-endian) order, its own inverse.
pub open spec fn spec_swap16(x: u16) -> u16 {
    ((x & 0xff) << 8) | (x >> 8)
}

/// Swapping a 16-bit value twice gives the value back: reading a port that
/// was stored in network order returns exactly the port that was stored.
pub proof fn lemma_swap16_involutive(x: u16)
    ensures
        spec_swap16(spec_swap16(x)) == x,
{
    assert(((((((x & 0xff) << 8) | (x >> 8)) & 0xff) << 8) | ((((x & 0xff) << 8) | (x >> 8))
        >> 8)) == x) by (bit_vector);
}

/// Decoding the little-endian byte pair of a 16-bit value gives the value back.
pub proof fn lemma_le16_round_trip(x: u16)
    ensures
        spec_u16_le((x & 0xff) as u8, ((x >> 8) & 0xff) as u8) == x,
{
    assert((((x & 0xff) as u8) as u16) | (((((x >> 8) & 0xff) as u8) as u16) << 8) == x)
        by (bit_vector);
}

/// Decoding the little-endian bytes of a 32-bit value gives the value back.
pub proof fn lemma_le32_round_trip(x: u32)
    ensures
        spec_u32_le(
            (x & 0xff) as u8,
            ((x >> 8) & 0xff) as u8,
            ((x >> 16) & 0xff) as u8,
            ((x >> 24) & 0xff) as u8,
        ) == x,
{
    assert((((x & 0xff) as u8) as u32) | (((((x >> 8) & 0xff) as u8) as u32) << 8) | (((((x >> 16)
        & 0xff) as u8) as u32) << 16) | (((((x >> 24) & 0xff) as u8) as u32) << 24) == x)
        by (bit_vector);
}

/// Encoding a decoded little-endian byte pair gives the bytes back.
pub proof fn lemma_u16_le_round_trip(b0: u8, b1: u8)
    ensures
        spec_le16(spec_u16_le(b0, b1)) =~= seq![b0, b1],
{
    assert(((b0 as u16) | ((b1 as u16) << 8)) & 0xff == b0 as u16) by (bit_vector);
    assert((((b0 as u16) | ((b1 as u16) << 8)) >> 8) & 0xff == b1 as u16) by (bit_vector);
}

/// Encoding a decoded little-endian byte quadruple gives the bytes back.
pub proof fn lemma_u32_le_round_trip(b0: u8, b1: u8, b2: u8, b3: u8)
    ensures
        spec_le32(spec_u32_le(b0, b1, b2, b3)) =~= seq![b0, b1, b2, b3],
{
    assert(((b0 as u32) | ((b1 as u32) << 8) | ((b2 as u32) << 16) | ((b3 as u32) << 24)) & 0xff
        == b0 as u32) by (bit_vector);
    assert((((b0 as u32) | ((b1 as u32) << 8) | ((b2 as u32) << 16) | ((b3 as u32) << 24)) >> 8)
        & 0xff == b1 as u32) by (bit_vector);
    assert((((b0 as u32) | ((b1 as u32) << 8) | ((b2 as u32) << 16) | ((b3 as u32) << 24)) >> 16)
        & 0xff == b2 as u32) by (bit_vector);
    assert((((b0 as u32) | ((b1 as u32) << 8) | ((b2 as u32) << 16) | ((b3 as u32) << 24)) >> 24)
        & 0xff == b3 as u32) by (bit_vector);
}

/// Exchange the two bytes of a 16-bit value: host order to network order and
/// back.
pub fn swap16(x: u16) -> (r: u16)
    ensures
        r == spec_swap16(x),
{
    assert((x & 0xff) << 8 <= 0xff00 && (x >> 8) <= 0xff) by (bit_vector);
    ((x & 0xff) << 8) | (x >> 8)
}

/// Append the little-endian byte pair of a 16-bit value to a byte buffer.
pub fn push_le16(v: &mut Vec<u8>, x: u16)
    ensures
        final(v)@ == old(v)@ + spec_le16(x),
{
    assert(x & 0xff < 256 && (x >> 8) & 0xff < 256) by (bit_vector);
    v.push((x & 0xff) as u8);
    v.push(((x >> 8) & 0xff) as u8);
    assert(v@ =~= old(v)@ + spec_le16(x));
}

/// Append the little-endian bytes of a 32-bit value to a byte buffer.
pub fn push_le32(v: &mut Vec<u8>, x: u32)
    ensures
        final(v)@ == old(v)@ + spec_le32(x),
{
    assert(x & 0xff < 256 && (x >> 8) & 0xff < 256 && (x >> 16) & 0xff < 256 && (x >> 24) & 0xff
        < 256) by (bit_vector);
    v.push((x & 0xff) as u8);
    v.push(((x >> 8) & 0xff) as u8);
    v.push(((x >> 16) & 0xff) as u8);
    v.push(((x >> 24) & 0xff) as u8);
    assert(v@ =~= old(v)@ + spec_le32(x));
}

/// Read the 16-bit value stored little-endian at offset `i` of a byte buffer.
pub fn read_le16(b: &Vec<u8>, i: usize) -> (r: u16)
    requires
        i + 2 <= b@.len(),
    ensures
        r == spec_u16_le(b@[i as int], b@[i + 1]),
{
    let n = b.len();
    assert(i + 2 <= n);
    (b[i] as u16) | ((b[i + 1] as u16) << 8)
}

/// Read the 32-bit value stored little-endian at offset `i` of a byte buffer.
pub fn read_le32(b: &Vec<u8>, i: usize) -> (r: u32)
    requires
        i + 4 <= b@.len(),
    ensures
        r == spec_u32_le(b@[i as int], b@[i + 1], b@[i + 2], b@[i + 3]),
{
    let n = b.len();
    assert(i + 4 <= n);
    (b[i] as u32) | ((b[i + 1] as u32) << 8) | ((b[i + 2] as u32) << 16) | ((b[i + 3] as u32)
        << 24)
}

} // verus!
