//! The byte buffers of the `bytes` crate, as the codecs use them.
//!
//! Of a `BytesMut` the verifier knows the byte sequence that it holds,
//! [`bytes_of`], and what the six operations below do to it. Their bodies
//! call into `bytes` and are taken on trust.

use super::word::word;
use bytes::{Buf, BufMut, BytesMut};
use vstd::prelude::*;

verus! {

/// `bytes::BytesMut`, a buffer of bytes that grows at its end and is
/// consumed at its front. Nothing inside it is visible to the verifier.
#[verifier::external_type_specification]
#[verifier::external_body]
pub struct ExBytesMut(bytes::BytesMut);

/// The bytes that a buffer holds, first to last. It has no definition: the
/// operations below say what each of them does to it.
pub uninterp spec fn bytes_of(buf: BytesMut) -> Seq<u8>;

/// Whether `more` further bytes fit into a buffer that holds `held`.
pub open spec fn has_room(held: Seq<u8>, more: nat) -> bool {
    held.len() + more <= isize::MAX
}

/// `BytesMut::with_capacity`: makes a buffer that holds nothing and has room
/// for `capacity` bytes before it grows. It allocates as a `Vec` does, which
/// panics above `isize::MAX` bytes.
#[verifier::external_body]
pub(crate) fn with_capacity(capacity: usize) -> (buf: BytesMut)
    requires
        capacity <= isize::MAX,
    ensures
        bytes_of(buf) == Seq::<u8>::empty(),
{
    BytesMut::with_capacity(capacity)
}

/// `BytesMut::as_ref`, to which its `Deref` to `[u8]` forwards: hands out
/// the bytes that the buffer holds, as a slice, and leaves the buffer as it
/// is.
#[verifier::external_body]
pub(crate) fn peek(src: &BytesMut) -> (held: &[u8])
    ensures
        held@ == bytes_of(*src),
{
    src.as_ref()
}

/// `Buf::advance` on a `BytesMut`: drops the first `count` bytes and keeps
/// the rest in order. It panics where fewer than `count` bytes are held.
#[verifier::external_body]
pub(crate) fn advance(src: &mut BytesMut, count: usize)
    requires
        count <= bytes_of(*old(src)).len(),
    ensures
        bytes_of(*final(src)) == bytes_of(*old(src)).skip(count as int),
{
    src.advance(count)
}

/// `BufMut::put_u8` on a `BytesMut`: appends one byte. The buffer grows as
/// needed; `bytes` documents a panic where the bytes held would exceed
/// `isize::MAX`.
#[verifier::external_body]
pub(crate) fn put_u8(dst: &mut BytesMut, value: u8)
    requires
        has_room(bytes_of(*old(dst)), 1),
    ensures
        bytes_of(*final(dst)) == bytes_of(*old(dst)).push(value),
{
    dst.put_u8(value)
}

/// `BufMut::put_u16` on a `BytesMut`: appends the two bytes of a word, high
/// byte first. It grows and panics as `put_u8` does.
#[verifier::external_body]
pub(crate) fn put_u16(dst: &mut BytesMut, value: u16)
    requires
        has_room(bytes_of(*old(dst)), 2),
    ensures
        bytes_of(*final(dst)) == bytes_of(*old(dst)) + word(value),
{
    dst.put_u16(value)
}

/// `BufMut::put_slice` on a `BytesMut`: appends the bytes of a slice in
/// order. It grows and panics as `put_u8` does.
#[verifier::external_body]
pub(crate) fn put_slice(dst: &mut BytesMut, bytes: &[u8])
    requires
        has_room(bytes_of(*old(dst)), bytes@.len()),
    ensures
        bytes_of(*final(dst)) == bytes_of(*old(dst)) + bytes@,
{
    dst.put_slice(bytes)
}

} // verus!
