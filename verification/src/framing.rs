//! Length-prefixed frames on a byte stream: one length byte, then that many
//! bytes of payload.

use vstd::prelude::*;
use bytes::{Buf, BytesMut};

verus! {

/// The growable byte buffer that the stream reader fills.
#[verifier::external_type_specification]
#[verifier::external_body]
pub struct ExBytesMut(bytes::BytesMut);

/// The error type of the stream reader. The frame decoder never makes one.
#[verifier::external_type_specification]
#[verifier::external_body]
pub struct ExIoError(std::io::Error);

/// The bytes that a buffer holds, first to last.
pub uninterp spec fn contents(buf: &BytesMut) -> Seq<u8>;

/// Number of bytes in the buffer.
///
/// Calls `BytesMut::len`, which returns the number of bytes contained.
#[verifier::external_body]
fn buffered(buf: &BytesMut) -> (n: usize)
    ensures
        n == contents(buf).len(),
{
    buf.len()
}

/// The first byte of a buffer that is not empty.
///
/// Indexes the buffer through its view as a byte slice.
#[verifier::external_body]
fn first_byte(buf: &BytesMut) -> (b: u8)
    requires
        contents(buf).len() > 0,
    ensures
        b == contents(buf)[0],
{
    buf[0]
}

/// Drops the first `n` bytes of the buffer.
///
/// Calls `Buf::advance` on `BytesMut`, which moves the start of the buffer
/// forward and panics when asked to move past the end.
#[verifier::external_body]
fn drop_front(buf: &mut BytesMut, n: usize)
    requires
        n <= contents(old(buf)).len(),
    ensures
        contents(final(buf)) == contents(old(buf)).skip(n as int),
{
    buf.advance(n)
}

/// Cuts the first `n` bytes off the buffer and returns them.
///
/// Calls `BytesMut::split_to`: afterwards the buffer holds the bytes from
/// `n` on and the result holds the bytes before `n`. It panics when `n`
/// exceeds the length.
#[verifier::external_body]
fn take_front(buf: &mut BytesMut, n: usize) -> (front: BytesMut)
    requires
        n <= contents(old(buf)).len(),
    ensures
        contents(&front) == contents(old(buf)).take(n as int),
        contents(final(buf)) == contents(old(buf)).skip(n as int),
{
    buf.split_to(n)
}

/// Whether the buffered bytes begin with a complete frame.
pub open spec fn frame_ready(data: Seq<u8>) -> bool {
    data.len() >= 1 && data.len() >= data[0] as int + 1
}

/// The payload of the frame at the front of the buffered bytes.
pub open spec fn front_payload(data: Seq<u8>) -> Seq<u8>
    recommends
        frame_ready(data),
{
    data.subrange(1, data[0] as int + 1)
}

/// What follows the frame at the front of the buffered bytes.
pub open spec fn after_frame(data: Seq<u8>) -> Seq<u8>
    recommends
        frame_ready(data),
{
    data.skip(data[0] as int + 1)
}

/// Cuts a byte stream into frames.
pub struct FrameDecoder {}

impl FrameDecoder {
    /// Takes the next frame out of the buffer.
    ///
    /// While the buffer does not hold a whole frame, the buffer stays as it
    /// is and the result is `None`. Otherwise the length byte and the
    /// payload leave the buffer and the payload is returned. The result is
    /// never an error.
    pub fn decode(&mut self, buf: &mut BytesMut) -> (r: Result<Option<BytesMut>, std::io::Error>)
        ensures
            r is Ok,
            !frame_ready(contents(old(buf))) ==> r->Ok_0 is None && contents(final(buf))
                == contents(old(buf)),
            frame_ready(contents(old(buf))) ==> r->Ok_0 is Some && contents(&r->Ok_0->0)
                == front_payload(contents(old(buf))) && contents(final(buf)) == after_frame(
                contents(old(buf)),
            ),
    {
        if buffered(buf) < 1 {
            return Ok(None);
        }
        let packet_len: usize = first_byte(buf) as usize;
        if buffered(buf) < packet_len + 1 {
            return Ok(None);
        }
        drop_front(buf, 1);
        let payload = take_front(buf, packet_len);
        proof {
            let data = contents(old(buf));
            assert(data.skip(1).take(packet_len as int) =~= front_payload(data));
            assert(data.skip(1).skip(packet_len as int) =~= after_frame(data));
        }
        Ok(Some(payload))
    }
}

/// A frame put in front of any bytes is found again: the decoder returns
/// its payload and leaves exactly the bytes that followed it.
pub proof fn lemma_frame_round_trip(payload: Seq<u8>, rest: Seq<u8>)
    requires
        payload.len() <= 255,
    ensures
        frame_ready(seq![payload.len() as u8] + payload + rest),
        front_payload(seq![payload.len() as u8] + payload + rest) == payload,
        after_frame(seq![payload.len() as u8] + payload + rest) == rest,
{
    let data = seq![payload.len() as u8] + payload + rest;
    assert(data[0] == payload.len());
    assert(front_payload(data) =~= payload);
    assert(after_frame(data) =~= rest);
}

} // verus!
