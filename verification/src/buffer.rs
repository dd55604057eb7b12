//! The byte buffers of the `bytes` crate, as this library uses them.
//!
//! Nothing in this file is proved: each contract restates what the `bytes`
//! crate documents for the function named above it, over the sequence of
//! bytes that a buffer holds.

use bytes::{Bytes, BytesMut};
use vstd::bytes::spec_u32_to_le_bytes;
use vstd::prelude::*;

verus! {

/// `bytes::Bytes`, an immutable buffer of bytes. Nothing is known of what
/// is inside but through `bytes_seq`.
#[verifier::external_type_specification]
#[verifier::external_body]
pub struct ExBytes(bytes::Bytes);

/// `bytes::BytesMut`, a buffer of bytes that grows as it is written to.
/// Nothing is known of what is inside but through `bytes_mut_seq`.
#[verifier::external_type_specification]
#[verifier::external_body]
pub struct ExBytesMut(bytes::BytesMut);

/// The bytes that a `Bytes` holds, first to last.
pub uninterp spec fn bytes_seq(buf: Bytes) -> Seq<u8>;

/// The bytes written so far to a `BytesMut`, first to last.
pub uninterp spec fn bytes_mut_seq(buf: BytesMut) -> Seq<u8>;

/// `Bytes::len`: the number of bytes held.
pub assume_specification[ Bytes::len ](buf: &Bytes) -> (len: usize)
    ensures
        len == bytes_seq(*buf).len(),
;

/// `BytesMut::with_capacity`: a buffer that holds no bytes yet, whatever
/// capacity was asked for. A capacity of more than `isize::MAX` bytes
/// panics, so it is left out.
pub assume_specification[ BytesMut::with_capacity ](capacity: usize) -> (buf: BytesMut)
    requires
        capacity <= isize::MAX,
    ensures
        bytes_mut_seq(buf) == Seq::<u8>::empty(),
;

/// `BytesMut::freeze`: the same bytes, now immutable.
pub assume_specification[ BytesMut::freeze ](buf: BytesMut) -> (frozen: Bytes)
    ensures
        bytes_seq(frozen) == bytes_mut_seq(buf),
;

/// `BufMut::put_u8` on a `BytesMut`: appends one byte. The buffer grows as
/// needed; growing past `isize::MAX` bytes panics, so that is left out.
#[verifier::external_body]
pub(crate) fn put_u8(buf: &mut BytesMut, byte: u8)
    requires
        bytes_mut_seq(*old(buf)).len() + 1 <= isize::MAX,
    ensures
        bytes_mut_seq(*final(buf)) == bytes_mut_seq(*old(buf)).push(byte),
{
    bytes::BufMut::put_u8(buf, byte)
}

/// `BufMut::put_u32_le` on a `BytesMut`: appends the four bytes of `value`,
/// least significant first.
#[verifier::external_body]
pub(crate) fn put_u32_le(buf: &mut BytesMut, value: u32)
    requires
        bytes_mut_seq(*old(buf)).len() + 4 <= isize::MAX,
    ensures
        bytes_mut_seq(*final(buf)) == bytes_mut_seq(*old(buf)) + spec_u32_to_le_bytes(value),
{
    bytes::BufMut::put_u32_le(buf, value)
}

/// `BufMut::put_slice` on a `BytesMut`: appends the bytes of `src` in order.
#[verifier::external_body]
pub(crate) fn put_slice(buf: &mut BytesMut, src: &[u8])
    requires
        bytes_mut_seq(*old(buf)).len() + src@.len() <= isize::MAX,
    ensures
        bytes_mut_seq(*final(buf)) == bytes_mut_seq(*old(buf)) + src@,
{
    bytes::BufMut::put_slice(buf, src)
}

/// `AsRef<[u8]>` of `Bytes`: the held bytes as a slice.
#[verifier::external_body]
pub(crate) fn as_slice(buf: &Bytes) -> (slice: &[u8])
    ensures
        slice@ == bytes_seq(*buf),
{
    buf.as_ref()
}

/// `Bytes::slice` with a range that is open at the end: a buffer of the
/// bytes from `begin` on. A `begin` past the end panics, so it is left out.
#[verifier::external_body]
pub(crate) fn slice_from(buf: &Bytes, begin: usize) -> (tail: Bytes)
    requires
        begin <= bytes_seq(*buf).len(),
    ensures
        bytes_seq(tail) == bytes_seq(*buf).skip(begin as int),
{
    buf.slice(begin..)
}

} // verus!
