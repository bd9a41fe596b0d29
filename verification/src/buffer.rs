//! The byte buffers of a connection: what was received and is not yet read,
//! and what is written and not yet sent. They are `BytesMut` of the `bytes`
//! crate, known here by the bytes they hold.

use vstd::prelude::*;

verus! {

/// `bytes::BytesMut`, carried as it is: nothing inside it is seen here, and
/// it is known only by the bytes that [`held`] says it holds.
#[verifier::external_type_specification]
#[verifier::external_body]
pub struct ExBytesMut(bytes::BytesMut);

/// The bytes that a `BytesMut` holds, the oldest first: what its `AsRef<[u8]>`
/// shows. Trusted to be what the functions below say of it.
pub uninterp spec fn held(buffer: bytes::BytesMut) -> Seq<u8>;

/// The room that a buffer of a connection starts with.
pub const BUFFER_CAPACITY: usize = 10240;

/// Makes a buffer with `BytesMut::with_capacity`. Trusted: the buffer holds
/// nothing.
#[verifier::external_body]
pub(crate) fn empty_buffer(capacity: usize) -> (buffer: bytes::BytesMut)
    ensures
        held(buffer) == Seq::<u8>::empty(),
{
    bytes::BytesMut::with_capacity(capacity)
}

/// Appends bytes with `BytesMut::extend_from_slice`. Trusted: the buffer
/// holds what it held, and then the bytes.
#[verifier::external_body]
pub(crate) fn extend(buffer: &mut bytes::BytesMut, bytes: &[u8])
    ensures
        held(*final(buffer)) == held(*old(buffer)) + bytes@,
{
    buffer.extend_from_slice(bytes)
}

/// Borrows the contents through `AsRef<[u8]>`. Trusted: the slice is what
/// the buffer holds.
#[verifier::external_body]
pub(crate) fn contents(buffer: &bytes::BytesMut) -> (bytes: &[u8])
    ensures
        bytes@ == held(*buffer),
{
    buffer.as_ref()
}

/// Drops the oldest `count` bytes with `Buf::advance`, which panics where
/// the buffer holds fewer. Trusted: the buffer holds what it held after
/// those bytes.
#[verifier::external_body]
pub(crate) fn advance(buffer: &mut bytes::BytesMut, count: usize)
    requires
        count <= held(*old(buffer)).len(),
    ensures
        held(*final(buffer)) == held(*old(buffer)).skip(count as int),
{
    bytes::Buf::advance(buffer, count)
}

/// Empties the buffer with `BytesMut::clear`. Trusted: the buffer holds
/// nothing.
#[verifier::external_body]
pub(crate) fn clear(buffer: &mut bytes::BytesMut)
    ensures
        held(*final(buffer)) == Seq::<u8>::empty(),
{
    buffer.clear()
}

} // verus!
