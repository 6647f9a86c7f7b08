//! The responder's side of a session: one request in, one response out.
//!
//! A session starts in `Handshaking`, where only a handshake is accepted, and
//! moves to `Serving` with the first handshake. There it stays.

use vstd::prelude::*;
use vstd::slice::slice_subrange;
use crate::attr::{AttributeResponse, ATTRIBUTE_RESPONSE_SIZE};
use crate::codec::{decode_header, decode_payload, encode, message, record_at, DecodeError};
use crate::codec::{lemma_message_length, lemma_round_trip};
use crate::error::FatalError;
use crate::handshake::{negotiate, negotiated, HandshakeRequest, HandshakeResponse};
use crate::handshake::HANDSHAKE_RESPONSE_SIZE;
use crate::header::{RequestHeader, ResponseHeader, REQUEST_HEADER_SIZE, RESPONSE_HEADER_SIZE};
use crate::protocol::{ENOENT, ENOSYS, FUSE_GETATTR, FUSE_INIT, FUSE_LOOKUP, FUSE_READDIR};
use crate::record::{Empty, WireRecord};

verus! {

/// Where a session stands.
#[derive(Clone, Copy, Debug, PartialEq, Eq, Structural)]
pub enum SessionState {
    /// No handshake yet.
    Handshaking,
    /// The handshake is done; the version it settled on holds from now on.
    Serving { major: u32, minor: u32 },
}

/// What follows the header of a response.
#[derive(Clone, Copy, Debug, PartialEq, Eq, Structural)]
pub enum ReplyBody {
    /// Nothing.
    Empty,
    /// The outcome of the handshake.
    Handshake(HandshakeResponse),
    /// The attributes of a node.
    Attributes(AttributeResponse),
}

/// The response to one request.
#[derive(Clone, Copy, Debug, PartialEq, Eq, Structural)]
pub struct Reply {
    /// The identifier of the request that is answered.
    pub unique: u64,
    /// Zero for success, else the negated error code.
    pub error: i32,
    /// The payload.
    pub body: ReplyBody,
}

impl ReplyBody {
    /// The number of bytes of the payload.
    pub open spec fn wire_size(self) -> nat {
        match self {
            ReplyBody::Empty => 0,
            ReplyBody::Handshake(_) => HANDSHAKE_RESPONSE_SIZE as nat,
            ReplyBody::Attributes(_) => ATTRIBUTE_RESPONSE_SIZE as nat,
        }
    }

    /// The bytes of the payload.
    pub open spec fn wire(self) -> Seq<u8> {
        match self {
            ReplyBody::Empty => Seq::empty(),
            ReplyBody::Handshake(response) => response.wire(),
            ReplyBody::Attributes(response) => response.wire(),
        }
    }
}

impl Reply {
    /// The header of the response: the length of header and payload
    /// together, the error code, and the request's identifier.
    pub open spec fn header(self) -> ResponseHeader {
        ResponseHeader {
            len: (RESPONSE_HEADER_SIZE + self.body.wire_size()) as u32,
            error: self.error,
            unique: self.unique,
        }
    }

    /// The bytes of the response: the header, then the payload.
    pub open spec fn wire(self) -> Seq<u8> {
        self.header().wire() + self.body.wire()
    }

    /// A response without payload.
    pub open spec fn status(unique: u64, error: i32) -> Reply {
        Reply { unique, error, body: ReplyBody::Empty }
    }

    /// The bytes of the response, as one unit.
    pub fn encode(&self) -> (out: Vec<u8>)
        ensures
            out@ == self.wire(),
            out@.len() == RESPONSE_HEADER_SIZE + self.body.wire_size(),
    {
        let header = ResponseHeader { len: 0, error: self.error, unique: self.unique };
        proof {
            self.lemma_wire();
        }
        match &self.body {
            ReplyBody::Empty => encode(header, &Empty),
            ReplyBody::Handshake(response) => encode(header, response),
            ReplyBody::Attributes(response) => encode(header, response),
        }
    }

    /// The bytes of a response are as many as its header says, and header
    /// and payload are read back from them as they were written.
    pub proof fn lemma_wire(self)
        ensures
            self.wire().len() == self.header().len,
            self.header().len == RESPONSE_HEADER_SIZE + self.body.wire_size(),
            record_at::<ResponseHeader>(self.wire(), 0) == Ok::<ResponseHeader, DecodeError>(
                self.header(),
            ),
            self.body matches ReplyBody::Handshake(response) ==> record_at::<HandshakeResponse>(
                self.wire(),
                RESPONSE_HEADER_SIZE as nat,
            ) == Ok::<HandshakeResponse, DecodeError>(response),
            self.body matches ReplyBody::Attributes(response) ==> record_at::<AttributeResponse>(
                self.wire(),
                RESPONSE_HEADER_SIZE as nat,
            ) == Ok::<AttributeResponse, DecodeError>(response),
    {
        let header = self.header();
        match self.body {
            ReplyBody::Empty => {
                lemma_message_length(header, Empty);
                lemma_round_trip(header, Empty);
                assert(self.wire() == message(header, Empty));
            },
            ReplyBody::Handshake(response) => {
                lemma_message_length(header, response);
                lemma_round_trip(header, response);
                assert(self.wire() == message(header, response));
            },
            ReplyBody::Attributes(response) => {
                lemma_message_length(header, response);
                lemma_round_trip(header, response);
                assert(self.wire() == message(header, response));
            },
        }
    }
}

/// The response that a session in `state` gives to the request with
/// `header` and the bytes `body` after it, or the reason why the session
/// ends instead.
pub open spec fn reply_to(state: SessionState, header: RequestHeader, body: Seq<u8>) -> Result<
    Reply,
    FatalError,
> {
    match state {
        SessionState::Handshaking => {
            if header.opcode != FUSE_INIT {
                Err(FatalError::ExpectedHandshake)
            } else {
                match record_at::<HandshakeRequest>(body, 0) {
                    Ok(request) => Ok(
                        Reply {
                            unique: header.unique,
                            error: 0,
                            body: ReplyBody::Handshake(negotiated(request)),
                        },
                    ),
                    Err(e) => Err(FatalError::Decode(e)),
                }
            }
        },
        SessionState::Serving { .. } => {
            if header.opcode == FUSE_GETATTR {
                Ok(
                    Reply {
                        unique: header.unique,
                        error: 0,
                        body: ReplyBody::Attributes(AttributeResponse::directory()),
                    },
                )
            } else if header.opcode == FUSE_LOOKUP {
                Ok(Reply::status(header.unique, (-ENOENT) as i32))
            } else if header.opcode == FUSE_READDIR {
                Ok(Reply::status(header.unique, 0))
            } else {
                Ok(Reply::status(header.unique, (-ENOSYS) as i32))
            }
        },
    }
}

/// Where the session stands after the request: a handshake that is answered
/// moves it to `Serving`, with the version of the answer; nothing else moves it.
pub open spec fn state_after(state: SessionState, header: RequestHeader, body: Seq<u8>) -> SessionState {
    match (state, reply_to(state, header, body)) {
        (SessionState::Handshaking, Ok(Reply { body: ReplyBody::Handshake(response), .. })) => {
            SessionState::Serving { major: response.major, minor: response.minor }
        },
        _ => state,
    }
}

/// The response that a session in `state` gives to the request that `bytes`
/// holds, header first, or the reason why the session ends instead.
pub open spec fn reply_to_message(state: SessionState, bytes: Seq<u8>) -> Result<Reply, FatalError> {
    match record_at::<RequestHeader>(bytes, 0) {
        Ok(header) => reply_to(state, header, bytes.skip(REQUEST_HEADER_SIZE as int)),
        Err(e) => Err(FatalError::Decode(e)),
    }
}

/// Where the session stands after the request that `bytes` holds.
pub open spec fn state_after_message(state: SessionState, bytes: Seq<u8>) -> SessionState {
    match record_at::<RequestHeader>(bytes, 0) {
        Ok(header) => state_after(state, header, bytes.skip(REQUEST_HEADER_SIZE as int)),
        Err(_) => state,
    }
}

/// The encoded form of a reply, where there is one.
pub open spec fn sent(reply: Result<Reply, FatalError>) -> Result<Seq<u8>, FatalError> {
    match reply {
        Ok(reply) => Ok(reply.wire()),
        Err(e) => Err(e),
    }
}

/// What was handed back, as plain bytes.
pub open spec fn bytes_of(result: Result<Vec<u8>, FatalError>) -> Result<Seq<u8>, FatalError> {
    match result {
        Ok(bytes) => Ok(bytes@),
        Err(e) => Err(e),
    }
}

/// Answers requests, one at a time, and keeps the state of the session.
#[derive(Debug)]
pub struct RequestDispatcher {
    state: SessionState,
}

impl RequestDispatcher {
    /// Where the session stands.
    pub closed spec fn spec_state(&self) -> SessionState {
        self.state
    }

    /// A dispatcher for a new session, which awaits the handshake.
    pub fn new() -> (dispatcher: RequestDispatcher)
        ensures
            dispatcher.state() == SessionState::Handshaking,
    {
        RequestDispatcher { state: SessionState::Handshaking }
    }

    /// Where the session stands.
    #[verifier::when_used_as_spec(spec_state)]
    pub fn state(&self) -> (state: SessionState)
        ensures
            state == self.spec_state(),
    {
        self.state
    }

    /// Decides the response to the request with `header` and the bytes
    /// `body` after it, and moves the session on.
    pub fn respond(&mut self, header: &RequestHeader, body: &[u8]) -> (result: Result<
        Reply,
        FatalError,
    >)
        ensures
            result == reply_to(old(self).state(), *header, body@),
            final(self).state() == state_after(old(self).state(), *header, body@),
            result matches Ok(reply) ==> reply.unique == header.unique,
    {
        match self.state {
            SessionState::Handshaking => {
                if header.opcode != FUSE_INIT {
                    return Err(FatalError::ExpectedHandshake);
                }
                match decode_payload::<HandshakeRequest>(body, 0) {
                    Ok(request) => {
                        let response = negotiate(&request);
                        self.state =
                        SessionState::Serving { major: response.major, minor: response.minor };
                        Ok(
                            Reply {
                                unique: header.unique,
                                error: 0,
                                body: ReplyBody::Handshake(response),
                            },
                        )
                    },
                    Err(e) => Err(FatalError::Decode(e)),
                }
            },
            SessionState::Serving { .. } => {
                if header.opcode == FUSE_GETATTR {
                    Ok(
                        Reply {
                            unique: header.unique,
                            error: 0,
                            body: ReplyBody::Attributes(AttributeResponse::new_directory()),
                        },
                    )
                } else if header.opcode == FUSE_LOOKUP {
                    Ok(Reply { unique: header.unique, error: -ENOENT, body: ReplyBody::Empty })
                } else if header.opcode == FUSE_READDIR {
                    Ok(Reply { unique: header.unique, error: 0, body: ReplyBody::Empty })
                } else {
                    Ok(Reply { unique: header.unique, error: -ENOSYS, body: ReplyBody::Empty })
                }
            },
        }
    }

    /// Answers the request with `header` and the bytes `body` after it: the
    /// encoded response, or the reason why the session ends.
    pub fn handle(&mut self, header: &RequestHeader, body: &[u8]) -> (result: Result<
        Vec<u8>,
        FatalError,
    >)
        ensures
            bytes_of(result) == sent(reply_to(old(self).state(), *header, body@)),
            final(self).state() == state_after(old(self).state(), *header, body@),
            result matches Ok(bytes) ==> {
                &&& reply_to(old(self).state(), *header, body@) matches Ok(reply)
                &&& record_at::<ResponseHeader>(bytes@, 0) == Ok::<ResponseHeader, DecodeError>(
                    reply.header(),
                )
                &&& reply.header().unique == header.unique
                &&& reply.header().len == bytes@.len()
            },
    {
        match self.respond(header, body) {
            Ok(reply) => {
                proof {
                    reply.lemma_wire();
                }
                Ok(reply.encode())
            },
            Err(e) => Err(e),
        }
    }

    /// Answers the request that `bytes` holds: a header, then what the
    /// opcode calls for.
    pub fn handle_message(&mut self, bytes: &[u8]) -> (result: Result<Vec<u8>, FatalError>)
        ensures
            bytes_of(result) == sent(reply_to_message(old(self).state(), bytes@)),
            final(self).state() == state_after_message(old(self).state(), bytes@),
            result matches Ok(out) ==> {
                &&& record_at::<RequestHeader>(bytes@, 0) matches Ok(header)
                &&& reply_to_message(old(self).state(), bytes@) matches Ok(reply)
                &&& record_at::<ResponseHeader>(out@, 0) == Ok::<ResponseHeader, DecodeError>(
                    reply.header(),
                )
                &&& reply.header().unique == header.unique
                &&& reply.header().len == out@.len()
            },
    {
        match decode_header(bytes) {
            Ok(header) => {
                let body = slice_subrange(bytes, REQUEST_HEADER_SIZE, bytes.len());
                assert(body@ =~= bytes@.skip(REQUEST_HEADER_SIZE as int));
                self.handle(&header, body)
            },
            Err(e) => Err(FatalError::Decode(e)),
        }
    }
}

/// Every response carries the identifier of the request that it answers, in
/// the reply and in the bytes sent.
pub proof fn lemma_reply_echoes_request(state: SessionState, header: RequestHeader, body: Seq<u8>)
    ensures
        reply_to(state, header, body) matches Ok(reply) ==> {
            &&& reply.unique == header.unique
            &&& record_at::<ResponseHeader>(reply.wire(), 0) matches Ok(opening)
            &&& opening.unique == header.unique
        },
{
    if let Ok(reply) = reply_to(state, header, body) {
        reply.lemma_wire();
    }
}

/// The length field of every response is the number of bytes sent: those of
/// the header and of the payload, none where the response tells an error.
pub proof fn lemma_reply_length(state: SessionState, header: RequestHeader, body: Seq<u8>)
    ensures
        reply_to(state, header, body) matches Ok(reply) ==> {
            &&& record_at::<ResponseHeader>(reply.wire(), 0) matches Ok(opening)
            &&& opening.len == reply.wire().len()
            &&& reply.wire().len() == RESPONSE_HEADER_SIZE + reply.body.wire_size()
            &&& reply.error != 0 ==> reply.wire().len() == RESPONSE_HEADER_SIZE
        },
{
    if let Ok(reply) = reply_to(state, header, body) {
        reply.lemma_wire();
    }
}

/// The readahead that the handshake settles on, as the bytes sent hold it,
/// is not above the readahead that the initiator proposed.
pub proof fn lemma_handshake_readahead(header: RequestHeader, body: Seq<u8>)
    ensures
        reply_to(SessionState::Handshaking, header, body) matches Ok(reply) ==> {
            &&& record_at::<HandshakeRequest>(body, 0) matches Ok(request)
            &&& record_at::<HandshakeResponse>(reply.wire(), RESPONSE_HEADER_SIZE as nat) matches Ok(
                response,
            )
            &&& response == negotiated(request)
            &&& response.max_readahead <= request.max_readahead
        },
{
    if let Ok(reply) = reply_to(SessionState::Handshaking, header, body) {
        reply.lemma_wire();
    }
}

/// Before the handshake nothing but a handshake is answered; whatever else
/// comes first ends the session.
pub proof fn lemma_handshake_comes_first(header: RequestHeader, body: Seq<u8>)
    ensures
        header.opcode != FUSE_INIT ==> reply_to(SessionState::Handshaking, header, body) == Err::<
            Reply,
            FatalError,
        >(FatalError::ExpectedHandshake),
        header.opcode != FUSE_INIT ==> state_after(SessionState::Handshaking, header, body)
            == SessionState::Handshaking,
        reply_to(SessionState::Handshaking, header, body) is Ok ==> state_after(
            SessionState::Handshaking,
            header,
            body,
        ) is Serving,
{
}

/// A session that serves answers every request and keeps serving, with the
/// version that the handshake settled on.
pub proof fn lemma_serving_goes_on(state: SessionState, header: RequestHeader, body: Seq<u8>)
    requires
        state is Serving,
    ensures
        reply_to(state, header, body) is Ok,
        state_after(state, header, body) == state,
{
}

} // verus!
