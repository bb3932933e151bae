//! The byte buffers that frames live in.
//!
//! Frames are kept in the reference-counted buffers of the `bytes` crate so
//! that a received message is never copied on its way to a reader. Verus does
//! not look inside those buffers: this module names their contents and states,
//! for each operation the codec uses, what it does to them. These statements
//! are believed, not proved.

use bytes::BufMut;
use bytes::Bytes;
use bytes::BytesMut;
use vstd::prelude::*;

verus! {

/// `bytes::Bytes`: an immutable buffer of bytes that is cheap to clone and
/// to cut. What it holds is named by [`bytes_view`].
#[verifier::external_type_specification]
#[verifier::external_body]
pub struct ExBytes(bytes::Bytes);

/// `bytes::BytesMut`: a buffer of bytes that grows as bytes are put into it.
/// What it holds is named by [`bytes_mut_view`].
#[verifier::external_type_specification]
#[verifier::external_body]
pub struct ExBytesMut(bytes::BytesMut);

/// The bytes that an immutable buffer holds, first to last.
pub uninterp spec fn bytes_view(buffer: Bytes) -> Seq<u8>;

/// The bytes that a growable buffer holds, first to last.
pub uninterp spec fn bytes_mut_view(buffer: BytesMut) -> Seq<u8>;

/// `Bytes::len`: the number of bytes held.
#[verifier::external_body]
pub(crate) fn bytes_len(buffer: &Bytes) -> (len: usize)
    ensures
        len == bytes_view(*buffer).len(),
{
    buffer.len()
}

/// `AsRef<[u8]>` of `Bytes`: the contents as a slice, unchanged.
#[verifier::external_body]
pub(crate) fn bytes_as_slice(buffer: &Bytes) -> (slice: &[u8])
    ensures
        slice@ == bytes_view(*buffer),
{
    buffer.as_ref()
}

/// `Clone` of `Bytes`: a second handle on the same contents.
#[verifier::external_body]
pub(crate) fn bytes_clone(buffer: &Bytes) -> (copy: Bytes)
    ensures
        bytes_view(copy) == bytes_view(*buffer),
{
    buffer.clone()
}

/// `Bytes::split_off`: the buffer keeps the first `at` bytes and the rest is
/// returned. The outside function panics when `at` exceeds the length.
#[verifier::external_body]
pub(crate) fn bytes_split_off(buffer: &mut Bytes, at: usize) -> (tail: Bytes)
    requires
        at <= bytes_view(*old(buffer)).len(),
    ensures
        bytes_view(*final(buffer)) == bytes_view(*old(buffer)).take(at as int),
        bytes_view(tail) == bytes_view(*old(buffer)).skip(at as int),
{
    buffer.split_off(at)
}

/// `BytesMut::with_capacity`: an empty buffer, whatever the capacity.
#[verifier::external_body]
pub(crate) fn bytes_mut_with_capacity(capacity: usize) -> (buffer: BytesMut)
    ensures
        bytes_mut_view(buffer) == Seq::<u8>::empty(),
{
    BytesMut::with_capacity(capacity)
}

/// `From<Bytes>` of `BytesMut`: the same contents, now growable.
#[verifier::external_body]
pub(crate) fn bytes_mut_from(buffer: Bytes) -> (grown: BytesMut)
    ensures
        bytes_mut_view(grown) == bytes_view(buffer),
{
    BytesMut::from(buffer)
}

/// `BytesMut::freeze`: the same contents, now immutable.
#[verifier::external_body]
pub(crate) fn bytes_mut_freeze(buffer: BytesMut) -> (frozen: Bytes)
    ensures
        bytes_view(frozen) == bytes_mut_view(buffer),
{
    buffer.freeze()
}

/// `BytesMut::truncate`: keeps the first `len` bytes; no effect when the
/// buffer is shorter than that.
#[verifier::external_body]
pub(crate) fn bytes_mut_truncate(buffer: &mut BytesMut, len: usize)
    ensures
        len <= bytes_mut_view(*old(buffer)).len() ==> bytes_mut_view(*final(buffer))
            == bytes_mut_view(*old(buffer)).take(len as int),
        len > bytes_mut_view(*old(buffer)).len() ==> bytes_mut_view(*final(buffer))
            == bytes_mut_view(*old(buffer)),
{
    buffer.truncate(len)
}

/// `BufMut::put_u8` on `BytesMut`: appends one byte, growing the buffer as
/// needed.
#[verifier::external_body]
pub(crate) fn bytes_mut_put_u8(buffer: &mut BytesMut, value: u8)
    requires
        bytes_mut_view(*old(buffer)).len() < usize::MAX,
    ensures
        bytes_mut_view(*final(buffer)) == bytes_mut_view(*old(buffer)).push(value),
{
    buffer.put_u8(value)
}

/// `BufMut::put_slice` on `BytesMut`: appends the slice, growing the buffer
/// as needed.
#[verifier::external_body]
pub(crate) fn bytes_mut_put_slice(buffer: &mut BytesMut, src: &[u8])
    requires
        bytes_mut_view(*old(buffer)).len() + src@.len() <= usize::MAX,
    ensures
        bytes_mut_view(*final(buffer)) == bytes_mut_view(*old(buffer)) + src@,
{
    buffer.put_slice(src)
}

/// `AsMut<[u8]>` of `BytesMut` with the slice method `copy_from_slice`:
/// overwrites the bytes from `offset` on with `src`, which must fit.
#[verifier::external_body]
pub(crate) fn bytes_mut_write_at(buffer: &mut BytesMut, offset: usize, src: &[u8])
    requires
        offset + src@.len() <= bytes_mut_view(*old(buffer)).len(),
    ensures
        bytes_mut_view(*final(buffer)) == bytes_mut_view(*old(buffer)).take(offset as int) + src@
            + bytes_mut_view(*old(buffer)).skip(offset + src@.len()),
{
    buffer.as_mut()[offset..][..src.len()].copy_from_slice(src)
}

} // verus!
