//! Big-endian integers as the protocol writes them on the wire: the payload
//! length of a request is a 32-bit big-endian number, that of a reply a
//! 64-bit one.

use vstd::prelude::*;

verus! {

/// The value of four bytes read as a big-endian 32-bit number.
pub open spec fn be_u32_value(b: Seq<u8>) -> u32
    recommends
        b.len() == 4,
{
    (b[0] as u32) << 24u32 | (b[1] as u32) << 16u32 | (b[2] as u32) << 8u32 | (b[3] as u32)
}

/// The four big-endian bytes of `n`.
pub open spec fn be_u32_bytes(n: u32) -> Seq<u8> {
    seq![
        ((n >> 24u32) & 0xffu32) as u8,
        ((n >> 16u32) & 0xffu32) as u8,
        ((n >> 8u32) & 0xffu32) as u8,
        (n & 0xffu32) as u8,
    ]
}

/// The value of eight bytes read as a big-endian 64-bit number.
pub open spec fn be_u64_value(b: Seq<u8>) -> u64
    recommends
        b.len() == 8,
{
    (b[0] as u64) << 56u64 | (b[1] as u64) << 48u64 | (b[2] as u64) << 40u64 | (b[3] as u64)
        << 32u64 | (b[4] as u64) << 24u64 | (b[5] as u64) << 16u64 | (b[6] as u64) << 8u64 | (
    b[7] as u64)
}

/// The eight big-endian bytes of `n`.
pub open spec fn be_u64_bytes(n: u64) -> Seq<u8> {
    seq![
        ((n >> 56u64) & 0xffu64) as u8,
        ((n >> 48u64) & 0xffu64) as u8,
        ((n >> 40u64) & 0xffu64) as u8,
        ((n >> 32u64) & 0xffu64) as u8,
        ((n >> 24u64) & 0xffu64) as u8,
        ((n >> 16u64) & 0xffu64) as u8,
        ((n >> 8u64) & 0xffu64) as u8,
        (n & 0xffu64) as u8,
    ]
}

/// Reads four bytes as a big-endian 32-bit number.
pub fn read_be_u32(b0: u8, b1: u8, b2: u8, b3: u8) -> (n: u32)
    ensures
        n == be_u32_value(seq![b0, b1, b2, b3]),
{
    (b0 as u32) << 24u32 | (b1 as u32) << 16u32 | (b2 as u32) << 8u32 | (b3 as u32)
}

/// Writes `n` as eight big-endian bytes.
pub fn write_be_u64(n: u64) -> (bytes: [u8; 8])
    ensures
        bytes@ == be_u64_bytes(n),
{
    let bytes: [u8; 8] = [
        ((n >> 56u64) & 0xffu64) as u8,
        ((n >> 48u64) & 0xffu64) as u8,
        ((n >> 40u64) & 0xffu64) as u8,
        ((n >> 32u64) & 0xffu64) as u8,
        ((n >> 24u64) & 0xffu64) as u8,
        ((n >> 16u64) & 0xffu64) as u8,
        ((n >> 8u64) & 0xffu64) as u8,
        (n & 0xffu64) as u8,
    ];
    assert(bytes@ == be_u64_bytes(n));
    bytes
}

/// Reading back the four big-endian bytes of a number gives the number.
pub proof fn lemma_be_u32_roundtrip(n: u32)
    ensures
        be_u32_bytes(n).len() == 4,
        be_u32_value(be_u32_bytes(n)) == n,
{
    let b = be_u32_bytes(n);
    assert(((n >> 24u32) & 0xffu32) < 256 && ((n >> 16u32) & 0xffu32) < 256 && ((n >> 8u32)
        & 0xffu32) < 256 && (n & 0xffu32) < 256) by (bit_vector);
    assert(b[0] as u32 == (n >> 24u32) & 0xffu32);
    assert(b[1] as u32 == (n >> 16u32) & 0xffu32);
    assert(b[2] as u32 == (n >> 8u32) & 0xffu32);
    assert(b[3] as u32 == n & 0xffu32);
    assert(n == ((n >> 24u32) & 0xffu32) << 24u32 | ((n >> 16u32) & 0xffu32) << 16u32 | ((n
        >> 8u32) & 0xffu32) << 8u32 | (n & 0xffu32)) by (bit_vector);
}

/// Reading back the eight big-endian bytes of a number gives the number.
pub proof fn lemma_be_u64_roundtrip(n: u64)
    ensures
        be_u64_bytes(n).len() == 8,
        be_u64_value(be_u64_bytes(n)) == n,
{
    let b = be_u64_bytes(n);
    assert(((n >> 56u64) & 0xffu64) < 256 && ((n >> 48u64) & 0xffu64) < 256 && ((n >> 40u64)
        & 0xffu64) < 256 && ((n >> 32u64) & 0xffu64) < 256 && ((n >> 24u64) & 0xffu64) < 256
        && ((n >> 16u64) & 0xffu64) < 256 && ((n >> 8u64) & 0xffu64) < 256 && (n & 0xffu64)
        < 256) by (bit_vector);
    assert(b[0] as u64 == (n >> 56u64) & 0xffu64);
    assert(b[1] as u64 == (n >> 48u64) & 0xffu64);
    assert(b[2] as u64 == (n >> 40u64) & 0xffu64);
    assert(b[3] as u64 == (n >> 32u64) & 0xffu64);
    assert(b[4] as u64 == (n >> 24u64) & 0xffu64);
    assert(b[5] as u64 == (n >> 16u64) & 0xffu64);
    assert(b[6] as u64 == (n >> 8u64) & 0xffu64);
    assert(b[7] as u64 == n & 0xffu64);
    assert(n == ((n >> 56u64) & 0xffu64) << 56u64 | ((n >> 48u64) & 0xffu64) << 48u64 | ((n
        >> 40u64) & 0xffu64) << 40u64 | ((n >> 32u64) & 0xffu64) << 32u64 | ((n >> 24u64)
        & 0xffu64) << 24u64 | ((n >> 16u64) & 0xffu64) << 16u64 | ((n >> 8u64) & 0xffu64)
        << 8u64 | (n & 0xffu64)) by (bit_vector);
}

} // verus!
