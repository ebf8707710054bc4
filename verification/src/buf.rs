//! Byte buffers of the `bytes` crate, as the wire-format builders use them.
//!
//! `BytesMut` and `Bytes` are opaque to Verus; their contents are named by
//! `bytes_mut_view` and `bytes_view`, and each method the builders call has a
//! wrapper whose contract says what it does to those contents.

use vstd::prelude::*;
use bytes::BufMut;

verus! {

#[verifier::external_type_specification]
#[verifier::external_body]
pub struct ExBytesMut(bytes::BytesMut);

#[verifier::external_type_specification]
#[verifier::external_body]
pub struct ExBytes(bytes::Bytes);

/// The bytes written so far into a `bytes::BytesMut`.
pub uninterp spec fn bytes_mut_view(b: bytes::BytesMut) -> Seq<u8>;

/// The bytes held by a frozen `bytes::Bytes`.
pub uninterp spec fn bytes_view(b: bytes::Bytes) -> Seq<u8>;

/// `BytesMut::with_capacity`: an empty buffer (the capacity is only an
/// allocation hint and is not modelled). Panics when the capacity exceeds
/// `isize::MAX`, which `requires` rules out.
#[verifier::external_body]
pub(crate) fn bytes_mut_with_capacity(capacity: usize) -> (b: bytes::BytesMut)
    requires
        capacity <= isize::MAX,
    ensures
        bytes_mut_view(b) == Seq::<u8>::empty(),
{
    bytes::BytesMut::with_capacity(capacity)
}

/// `BufMut::put_slice` on `BytesMut`: appends `src`.
#[verifier::external_body]
pub(crate) fn bytes_mut_put_slice(buf: &mut bytes::BytesMut, src: &[u8])
    requires
        bytes_mut_view(*old(buf)).len() + src@.len() <= isize::MAX,
    ensures
        bytes_mut_view(*final(buf)) == bytes_mut_view(*old(buf)) + src@,
{
    buf.put_slice(src)
}

/// `BufMut::put_u8` on `BytesMut`: appends one byte.
#[verifier::external_body]
pub(crate) fn bytes_mut_put_u8(buf: &mut bytes::BytesMut, n: u8)
    requires
        bytes_mut_view(*old(buf)).len() + 1 <= isize::MAX,
    ensures
        bytes_mut_view(*final(buf)) == bytes_mut_view(*old(buf)).push(n),
{
    buf.put_u8(n)
}

/// `BufMut::put_u16` on `BytesMut`: appends `n` in big-endian order.
#[verifier::external_body]
pub(crate) fn bytes_mut_put_u16(buf: &mut bytes::BytesMut, n: u16)
    requires
        bytes_mut_view(*old(buf)).len() + 2 <= isize::MAX,
    ensures
        bytes_mut_view(*final(buf)) == bytes_mut_view(*old(buf)) + crate::codec::be_u16(n),
{
    buf.put_u16(n)
}

/// `BufMut::put_u32` on `BytesMut`: appends `n` in big-endian order.
#[verifier::external_body]
pub(crate) fn bytes_mut_put_u32(buf: &mut bytes::BytesMut, n: u32)
    requires
        bytes_mut_view(*old(buf)).len() + 4 <= isize::MAX,
    ensures
        bytes_mut_view(*final(buf)) == bytes_mut_view(*old(buf)) + crate::codec::be_u32(n),
{
    buf.put_u32(n)
}

/// `BufMut::put_u64` on `BytesMut`: appends `n` in big-endian order.
#[verifier::external_body]
pub(crate) fn bytes_mut_put_u64(buf: &mut bytes::BytesMut, n: u64)
    requires
        bytes_mut_view(*old(buf)).len() + 8 <= isize::MAX,
    ensures
        bytes_mut_view(*final(buf)) == bytes_mut_view(*old(buf)) + crate::codec::be_u64(n),
{
    buf.put_u64(n)
}

/// `BufMut::put_i64` on `BytesMut`: appends the two's-complement big-endian
/// bytes of `n`.
#[verifier::external_body]
pub(crate) fn bytes_mut_put_i64(buf: &mut bytes::BytesMut, n: i64)
    requires
        bytes_mut_view(*old(buf)).len() + 8 <= isize::MAX,
    ensures
        bytes_mut_view(*final(buf)) == bytes_mut_view(*old(buf)) + crate::codec::be_i64(n),
{
    buf.put_i64(n)
}

/// `BytesMut::freeze`: the frozen `Bytes` holds exactly the written bytes.
#[verifier::external_body]
pub(crate) fn bytes_mut_freeze(buf: bytes::BytesMut) -> (b: bytes::Bytes)
    ensures
        bytes_view(b) == bytes_mut_view(buf),
{
    buf.freeze()
}

/// `Bytes::clone`: a handle to the same bytes.
#[verifier::external_body]
pub(crate) fn bytes_clone(b: &bytes::Bytes) -> (c: bytes::Bytes)
    ensures
        bytes_view(c) == bytes_view(*b),
{
    b.clone()
}

} // verus!
