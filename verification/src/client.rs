//! The probing endpoint, without its connection: the one handshake request
//! that it sends, and what it makes of the reply.

use vstd::prelude::*;
use vstd::string::*;
use crate::channel::{message_read, on_read};
use crate::codec::{decode_payload, encode, message, record_at};
use crate::error::FatalError;
use crate::handshake::{HandshakeRequest, HandshakeResponse};
use crate::header::{RequestHeader, ResponseHeader, RESPONSE_HEADER_SIZE};
use crate::protocol::{FUSE_INIT, PROTOCOL_MAJOR, PROTOCOL_MINOR};

verus! {

/// The identifier of the probe's one request.
pub const PROBE_UNIQUE: u64 = 1;

/// The readahead, in bytes, that the probe proposes.
pub const PROBE_READAHEAD: u32 = 131072;

/// The reply to the probe: the header and the outcome of the handshake.
#[derive(Clone, Copy, Debug, PartialEq, Eq, Structural)]
pub struct HandshakeReply {
    /// The header of the reply.
    pub header: ResponseHeader,
    /// What the peer settled on.
    pub payload: HandshakeResponse,
}

/// The header of the probe's request, before its length is filled in.
pub open spec fn probe_header() -> RequestHeader {
    RequestHeader {
        len: 0,
        opcode: FUSE_INIT,
        unique: PROBE_UNIQUE,
        nodeid: 0,
        uid: 0,
        gid: 0,
        pid: 0,
        padding: 0,
    }
}

/// What the probe proposes: this endpoint's version and its readahead.
pub open spec fn probe_request() -> HandshakeRequest {
    HandshakeRequest {
        major: PROTOCOL_MAJOR,
        minor: PROTOCOL_MINOR,
        max_readahead: PROBE_READAHEAD,
        flags: 0,
    }
}

/// What a read that returned `count` with the reply in `buffer` amounts to:
/// the header and the handshake payload after it, if the read brought both.
pub open spec fn reply_read(buffer: Seq<u8>, count: int) -> Result<HandshakeReply, FatalError> {
    match message_read(buffer, count) {
        Err(e) => Err(e),
        Ok(bytes) => match record_at::<ResponseHeader>(bytes, 0) {
            Err(e) => Err(FatalError::Decode(e)),
            Ok(header) => match record_at::<HandshakeResponse>(bytes, RESPONSE_HEADER_SIZE as nat) {
                Err(e) => Err(FatalError::Decode(e)),
                Ok(payload) => Ok(HandshakeReply { header, payload }),
            },
        },
    }
}

/// The probing endpoint: the address of its peer.
#[derive(Debug)]
pub struct ClientEndpoint {
    peer_address: String,
}

impl ClientEndpoint {
    /// The address of the peer that the endpoint was made for.
    pub closed spec fn spec_peer_address(&self) -> Seq<char> {
        self.peer_address@
    }

    /// An endpoint for the peer at `peer_address`.
    pub fn new(peer_address: &str) -> (endpoint: ClientEndpoint)
        ensures
            endpoint.spec_peer_address() == peer_address@,
    {
        ClientEndpoint { peer_address: String::from_str(peer_address) }
    }

    /// The address of the peer that the endpoint was made for.
    pub fn peer_address(&self) -> (path: &str)
        ensures
            path@ == self.spec_peer_address(),
    {
        self.peer_address.as_str()
    }

    /// The bytes of the one request that the probe sends: a handshake.
    pub fn handshake(&self) -> (out: Vec<u8>)
        ensures
            out@ == message(probe_header(), probe_request()),
            record_at::<RequestHeader>(out@, 0) matches Ok(opening) && opening.len == out@.len(),
    {
        let header = RequestHeader {
            len: 0,
            opcode: FUSE_INIT,
            unique: PROBE_UNIQUE,
            nodeid: 0,
            uid: 0,
            gid: 0,
            pid: 0,
            padding: 0,
        };
        let request = HandshakeRequest {
            major: PROTOCOL_MAJOR,
            minor: PROTOCOL_MINOR,
            max_readahead: PROBE_READAHEAD,
            flags: 0,
        };
        encode(header, &request)
    }

    /// What follows the attempt to reach the peer that returned `status`:
    /// the probe goes on if it returned zero, and gives up otherwise.
    pub fn on_connect(&self, status: i32) -> (result: Result<(), FatalError>)
        ensures
            status == 0 ==> result == Ok::<(), FatalError>(()),
            status != 0 ==> result == Err::<(), FatalError>(FatalError::ConnectionFailed),
    {
        if status == 0 {
            Ok(())
        } else {
            Err(FatalError::ConnectionFailed)
        }
    }

    /// What the probe makes of a read that returned `count` with the reply
    /// in `buffer`: header and handshake payload, for inspection. A read
    /// that failed or brought nothing, or less than both, is fatal.
    pub fn on_reply(&self, buffer: &[u8], count: isize) -> (result: Result<
        HandshakeReply,
        FatalError,
    >)
        ensures
            result == reply_read(buffer@, count as int),
    {
        let bytes = match on_read(buffer, count) {
            Ok(bytes) => bytes,
            Err(e) => {
                return Err(e);
            },
        };
        match decode_payload::<ResponseHeader>(bytes, 0) {
            Err(e) => Err(FatalError::Decode(e)),
            Ok(header) => match decode_payload::<HandshakeResponse>(bytes, RESPONSE_HEADER_SIZE) {
                Err(e) => Err(FatalError::Decode(e)),
                Ok(payload) => Ok(HandshakeReply { header, payload }),
            },
        }
    }
}

} // verus!
