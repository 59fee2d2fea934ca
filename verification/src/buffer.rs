//! Fixed-capacity byte buffers.
//!
//! All buffers of this crate are [`heapless::Vec`]s. Verus does not look inside
//! them: what a buffer holds is named by [`raw_bytes`] and [`msg_bytes`], and the
//! functions below state, without proof, what the `heapless` methods do to it.

use vstd::prelude::*;
use crate::constants::{MAX_MSG_LENGTH, PACKET_SIZE};

verus! {

#[verifier::external_type_specification]
#[verifier::external_body]
#[verifier::reject_recursive_types(T)]
pub struct ExHeaplessVec<T, const N: usize>(heapless::Vec<T, N>);

/// One USB bulk packet.
pub type RawPacket = heapless::Vec<u8, PACKET_SIZE>;

/// Storage for one CCID message, or for one APDU on its way through the channel.
pub type MessageBuffer = heapless::Vec<u8, MAX_MSG_LENGTH>;

/// The bytes that a packet-sized buffer holds, in order.
pub uninterp spec fn raw_bytes(buffer: heapless::Vec<u8, PACKET_SIZE>) -> Seq<u8>;

/// The bytes that a message-sized buffer holds, in order.
pub uninterp spec fn msg_bytes(buffer: heapless::Vec<u8, MAX_MSG_LENGTH>) -> Seq<u8>;

/// `heapless::Vec::new`: the new buffer is empty.
#[verifier::external_body]
pub(crate) fn raw_new() -> (buffer: RawPacket)
    ensures
        raw_bytes(buffer) == Seq::<u8>::empty(),
{
    heapless::Vec::new()
}

/// `heapless::Vec::as_slice`: the slice holds the buffer's bytes, which never
/// exceed its capacity.
#[verifier::external_body]
pub(crate) fn raw_as_slice(buffer: &RawPacket) -> (bytes: &[u8])
    ensures
        bytes@ == raw_bytes(*buffer),
        bytes@.len() <= PACKET_SIZE,
{
    buffer.as_slice()
}

/// `heapless::Vec::extend_from_slice`: if the bytes fit into the remaining
/// capacity they are appended, otherwise the buffer is left as it was and the
/// call fails.
#[verifier::external_body]
pub(crate) fn raw_extend_from_slice(buffer: &mut RawPacket, other: &[u8]) -> (result: Result<(), ()>)
    ensures
        result is Ok <==> raw_bytes(*old(buffer)).len() + other@.len() <= PACKET_SIZE,
        result is Ok ==> raw_bytes(*final(buffer)) == raw_bytes(*old(buffer)) + other@,
        result is Err ==> raw_bytes(*final(buffer)) == raw_bytes(*old(buffer)),
{
    buffer.extend_from_slice(other)
}

/// `heapless::Vec::new`: the new buffer is empty.
#[verifier::external_body]
pub(crate) fn msg_new() -> (buffer: MessageBuffer)
    ensures
        msg_bytes(buffer) == Seq::<u8>::empty(),
{
    heapless::Vec::new()
}

/// `heapless::Vec::as_slice`: the slice holds the buffer's bytes, which never
/// exceed its capacity.
#[verifier::external_body]
pub(crate) fn msg_as_slice(buffer: &MessageBuffer) -> (bytes: &[u8])
    ensures
        bytes@ == msg_bytes(*buffer),
        bytes@.len() <= MAX_MSG_LENGTH,
{
    buffer.as_slice()
}

/// `heapless::Vec::clear`: the buffer is empty afterwards.
#[verifier::external_body]
pub(crate) fn msg_clear(buffer: &mut MessageBuffer)
    ensures
        msg_bytes(*final(buffer)) == Seq::<u8>::empty(),
{
    buffer.clear()
}

/// `heapless::Vec::extend_from_slice`: if the bytes fit into the remaining
/// capacity they are appended, otherwise the buffer is left as it was and the
/// call fails.
#[verifier::external_body]
pub(crate) fn msg_extend_from_slice(buffer: &mut MessageBuffer, other: &[u8]) -> (result: Result<(), ()>)
    ensures
        result is Ok <==> msg_bytes(*old(buffer)).len() + other@.len() <= MAX_MSG_LENGTH,
        result is Ok ==> msg_bytes(*final(buffer)) == msg_bytes(*old(buffer)) + other@,
        result is Err ==> msg_bytes(*final(buffer)) == msg_bytes(*old(buffer)),
{
    buffer.extend_from_slice(other)
}

} // verus!
