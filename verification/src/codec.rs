//! Messages to bytes and back: a header, then the payload that the opcode
//! calls for, with the header's length field telling the size of both.

use vstd::prelude::*;
use crate::header::RequestHeader;
use crate::record::{MessageHeader, WireRecord};

verus! {

/// Why bytes could not be read as a record.
#[derive(Clone, Copy, Debug, PartialEq, Eq, Structural)]
pub enum DecodeError {
    /// The buffer ends before the record does.
    TruncatedBuffer,
}

/// The record of type `T` that starts at `offset` in `bytes`, if the buffer
/// holds all of it.
pub open spec fn record_at<T: WireRecord>(bytes: Seq<u8>, offset: nat) -> Result<T, DecodeError> {
    if offset + T::wire_size() <= bytes.len() {
        Ok(T::parse(bytes.skip(offset as int)))
    } else {
        Err(DecodeError::TruncatedBuffer)
    }
}

/// The bytes of the message made of `header` and `payload`: the header, with
/// the length of the whole message in its length field, then the payload.
pub open spec fn message<H: MessageHeader, P: WireRecord>(header: H, payload: P) -> Seq<u8> {
    header.with_length((H::wire_size() + P::wire_size()) as u32).wire() + payload.wire()
}

/// Reads the payload of type `T` that starts at `offset` in `bytes`. Fails
/// if the buffer holds fewer bytes from there on than the payload takes.
pub fn decode_payload<T: WireRecord>(bytes: &[u8], offset: usize) -> (result: Result<
    T,
    DecodeError,
>)
    ensures
        result == record_at::<T>(bytes@, offset as nat),
{
    let size: usize = T::size();
    if offset <= bytes.len() && size <= bytes.len() - offset {
        Ok(T::read(bytes, offset))
    } else {
        Err(DecodeError::TruncatedBuffer)
    }
}

/// Reads the request header that opens `bytes`. Fails if the buffer holds
/// fewer bytes than a request header takes.
pub fn decode_header(bytes: &[u8]) -> (result: Result<RequestHeader, DecodeError>)
    ensures
        result == record_at::<RequestHeader>(bytes@, 0),
{
    decode_payload::<RequestHeader>(bytes, 0)
}

/// The bytes of the message made of `header` and `payload`, as one unit. The
/// header's length field is set to the length of the whole message first.
pub fn encode<H: MessageHeader, P: WireRecord>(header: H, payload: &P) -> (out: Vec<u8>)
    ensures
        out@ == message(header, *payload),
        out@.len() == H::wire_size() + P::wire_size(),
        record_at::<H>(out@, 0) matches Ok(opening) && opening.length() == out@.len(),
{
    let total: usize = H::size() + P::size();
    let mut header = header;
    proof {
        lemma_message_length(header, *payload);
    }
    header.set_length(total as u32);
    let mut out: Vec<u8> = Vec::with_capacity(total);
    header.write(&mut out);
    payload.write(&mut out);
    out
}

/// An encoded message is as long as its header and payload together, and its
/// length field says so.
pub proof fn lemma_message_length<H: MessageHeader, P: WireRecord>(header: H, payload: P)
    ensures
        message(header, payload).len() == H::wire_size() + P::wire_size(),
        record_at::<H>(message(header, payload), 0) matches Ok(decoded)
            && decoded.length() == message(header, payload).len(),
{
    let total = (H::wire_size() + P::wire_size()) as u32;
    let sent = header.with_length(total);
    sent.lemma_layout(payload.wire());
    payload.lemma_layout(Seq::empty());
    header.lemma_with_length(total);
    assert(message(header, payload).skip(0) =~= sent.wire() + payload.wire());
}

/// Decoding an encoded message gives back the header, with the message's
/// length in its length field, and the payload. A header that already tells
/// the message's length comes back unchanged.
pub proof fn lemma_round_trip<H: MessageHeader, P: WireRecord>(header: H, payload: P)
    ensures
        record_at::<H>(message(header, payload), 0) == Ok::<H, DecodeError>(
            header.with_length((H::wire_size() + P::wire_size()) as u32),
        ),
        header.length() == H::wire_size() + P::wire_size() ==> record_at::<H>(
            message(header, payload),
            0,
        ) == Ok::<H, DecodeError>(header),
        record_at::<P>(message(header, payload), H::wire_size()) == Ok::<P, DecodeError>(payload),
{
    let total = (H::wire_size() + P::wire_size()) as u32;
    let sent = header.with_length(total);
    let bytes = message(header, payload);
    sent.lemma_layout(payload.wire());
    payload.lemma_layout(Seq::empty());
    header.lemma_with_length(total);
    assert(bytes.skip(0) =~= sent.wire() + payload.wire());
    assert(bytes.skip(H::wire_size() as int) =~= payload.wire() + Seq::<u8>::empty());
}

} // verus!
