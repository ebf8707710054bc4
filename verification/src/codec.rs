//! Big-endian integer encodings used on the wire, with their decoders and
//! the facts that each decoder inverts its encoder.

use vstd::prelude::*;

verus! {

/// The two big-endian bytes of `n`.
pub open spec fn be_u16(n: u16) -> Seq<u8> {
    seq![(n >> 8u16) as u8, n as u8]
}

/// The four big-endian bytes of `n`.
pub open spec fn be_u32(n: u32) -> Seq<u8> {
    seq![(n >> 24u32) as u8, (n >> 16u32) as u8, (n >> 8u32) as u8, n as u8]
}

/// The eight big-endian bytes of `n`.
pub open spec fn be_u64(n: u64) -> Seq<u8> {
    seq![
        (n >> 56u64) as u8,
        (n >> 48u64) as u8,
        (n >> 40u64) as u8,
        (n >> 32u64) as u8,
        (n >> 24u64) as u8,
        (n >> 16u64) as u8,
        (n >> 8u64) as u8,
        n as u8,
    ]
}

/// The eight big-endian two's-complement bytes of `n`.
pub open spec fn be_i64(n: i64) -> Seq<u8> {
    be_u64(n as u64)
}

/// The value of two big-endian bytes.
pub open spec fn u16_from_be(b0: u8, b1: u8) -> u16 {
    ((b0 as u16) << 8u16) | (b1 as u16)
}

/// The value of the first eight bytes of `b`, read big-endian.
pub open spec fn u64_from_be(b: Seq<u8>) -> u64 {
    ((b[0] as u64) << 56u64) | ((b[1] as u64) << 48u64) | ((b[2] as u64) << 40u64) | ((
    b[3] as u64) << 32u64) | ((b[4] as u64) << 24u64) | ((b[5] as u64) << 16u64) | ((b[6] as u64)
        << 8u64) | (b[7] as u64)
}

/// Reads the two bytes at `data[at]`, `data[at + 1]` as a big-endian `u16`.
pub fn read_u16_be(data: &[u8], at: usize) -> (r: u16)
    requires
        at + 2 <= data@.len(),
    ensures
        r == u16_from_be(data@[at as int], data@[at + 1]),
{
    ((data[at] as u16) << 8u16) | (data[at + 1] as u16)
}

/// Reads the eight bytes starting at `data[at]` as a big-endian `u64`.
pub fn read_u64_be(data: &[u8], at: usize) -> (r: u64)
    requires
        at + 8 <= data@.len(),
    ensures
        r == u64_from_be(data@.subrange(at as int, at + 8)),
{
    let ghost s = data@.subrange(at as int, at + 8);
    assert(s[0] == data@[at as int] && s[7] == data@[at + 7]);
    ((data[at] as u64) << 56u64) | ((data[at + 1] as u64) << 48u64) | ((data[at + 2] as u64)
        << 40u64) | ((data[at + 3] as u64) << 32u64) | ((data[at + 4] as u64) << 24u64) | ((data[at
        + 5] as u64) << 16u64) | ((data[at + 6] as u64) << 8u64) | (data[at + 7] as u64)
}

/// Decoding two big-endian bytes gives back the encoded `u16`.
pub proof fn lemma_u16_roundtrip(n: u16)
    ensures
        u16_from_be(be_u16(n)[0], be_u16(n)[1]) == n,
{
    assert((((n >> 8u16) as u8 as u16) << 8u16) | ((n as u8) as u16) == n) by (bit_vector);
}

/// Decoding eight big-endian bytes gives back the encoded `u64`.
pub proof fn lemma_u64_roundtrip(n: u64)
    ensures
        u64_from_be(be_u64(n)) == n,
{
    assert(((((n >> 56u64) as u8) as u64) << 56u64) | ((((n >> 48u64) as u8) as u64) << 48u64)
        | ((((n >> 40u64) as u8) as u64) << 40u64) | ((((n >> 32u64) as u8) as u64) << 32u64)
        | ((((n >> 24u64) as u8) as u64) << 24u64) | ((((n >> 16u64) as u8) as u64) << 16u64)
        | ((((n >> 8u64) as u8) as u64) << 8u64) | ((n as u8) as u64) == n) by (bit_vector);
}

/// Decoding the eight bytes of an `i64` and reinterpreting gives it back.
pub proof fn lemma_i64_roundtrip(n: i64)
    ensures
        u64_from_be(be_i64(n)) as i64 == n,
{
    lemma_u64_roundtrip(n as u64);
    assert((n as u64) as i64 == n) by (bit_vector);
}

} // verus!
