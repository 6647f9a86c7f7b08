//! The handshake that opens a session: what the initiator proposes and what
//! the responder settles on.

use vstd::prelude::*;
use crate::bytes::{get_u32, put_u32, put_zeros};
use crate::bytes::{group_fields, lemma_append_twice, u32_at, u32_bytes, zeros};
use crate::protocol::{MAX_WRITE, PROTOCOL_MAJOR, PROTOCOL_MINOR, TIME_GRANULARITY};
use crate::record::WireRecord;

verus! {

/// The number of bytes of a handshake request.
pub const HANDSHAKE_REQUEST_SIZE: usize = 16;

/// The number of bytes of a handshake response: eight fields, then nine
/// reserved 32-bit slots.
pub const HANDSHAKE_RESPONSE_SIZE: usize = 68;

/// The number of reserved bytes that close a handshake response.
pub const HANDSHAKE_RESERVED: usize = 36;

/// What the initiator of a session proposes.
#[derive(Clone, Copy, Debug, PartialEq, Eq, Structural)]
pub struct HandshakeRequest {
    /// Proposed major version.
    pub major: u32,
    /// Proposed minor version.
    pub minor: u32,
    /// The largest readahead, in bytes, that the initiator would use.
    pub max_readahead: u32,
    /// Capabilities that the initiator offers.
    pub flags: u32,
}

/// What the responder settles on. All eight fields are 32 bits wide; the
/// reserved slots after them are written as zero and not read.
#[derive(Clone, Copy, Debug, PartialEq, Eq, Structural)]
pub struct HandshakeResponse {
    /// Negotiated major version.
    pub major: u32,
    /// Negotiated minor version.
    pub minor: u32,
    /// The largest readahead, in bytes, that the responder allows.
    pub max_readahead: u32,
    /// Capabilities that the responder accepts.
    pub flags: u32,
    /// How many requests may be in the background at once.
    pub max_background: u32,
    /// The number of background requests from which the channel counts as congested.
    pub congestion_threshold: u32,
    /// The largest write, in bytes, that the responder accepts.
    pub max_write: u32,
    /// The granularity of timestamps, in nanoseconds.
    pub time_gran: u32,
}

impl WireRecord for HandshakeRequest {
    open spec fn wire_size() -> nat {
        HANDSHAKE_REQUEST_SIZE as nat
    }

    open spec fn wire(&self) -> Seq<u8> {
        u32_bytes(self.major) + u32_bytes(self.minor) + u32_bytes(self.max_readahead) + u32_bytes(
            self.flags,
        )
    }

    open spec fn parse(bytes: Seq<u8>) -> Self {
        HandshakeRequest {
            major: u32_at(bytes, 0),
            minor: u32_at(bytes, 4),
            max_readahead: u32_at(bytes, 8),
            flags: u32_at(bytes, 12),
        }
    }

    proof fn lemma_layout(&self, rest: Seq<u8>) {
        broadcast use group_fields;

    }

    fn size() -> (n: usize) {
        HANDSHAKE_REQUEST_SIZE
    }

    fn write(&self, out: &mut Vec<u8>) {
        broadcast use lemma_append_twice;

        put_u32(out, self.major);
        put_u32(out, self.minor);
        put_u32(out, self.max_readahead);
        put_u32(out, self.flags);
    }

    fn read(bytes: &[u8], at: usize) -> (record: Self) {
        broadcast use group_fields;

        HandshakeRequest {
            major: get_u32(bytes, at),
            minor: get_u32(bytes, at + 4),
            max_readahead: get_u32(bytes, at + 8),
            flags: get_u32(bytes, at + 12),
        }
    }
}

impl WireRecord for HandshakeResponse {
    open spec fn wire_size() -> nat {
        HANDSHAKE_RESPONSE_SIZE as nat
    }

    open spec fn wire(&self) -> Seq<u8> {
        u32_bytes(self.major) + u32_bytes(self.minor) + u32_bytes(self.max_readahead) + u32_bytes(
            self.flags,
        ) + u32_bytes(self.max_background) + u32_bytes(self.congestion_threshold) + u32_bytes(
            self.max_write,
        ) + u32_bytes(self.time_gran) + zeros(HANDSHAKE_RESERVED as nat)
    }

    open spec fn parse(bytes: Seq<u8>) -> Self {
        HandshakeResponse {
            major: u32_at(bytes, 0),
            minor: u32_at(bytes, 4),
            max_readahead: u32_at(bytes, 8),
            flags: u32_at(bytes, 12),
            max_background: u32_at(bytes, 16),
            congestion_threshold: u32_at(bytes, 20),
            max_write: u32_at(bytes, 24),
            time_gran: u32_at(bytes, 28),
        }
    }

    proof fn lemma_layout(&self, rest: Seq<u8>) {
        broadcast use group_fields;

    }

    fn size() -> (n: usize) {
        HANDSHAKE_RESPONSE_SIZE
    }

    fn write(&self, out: &mut Vec<u8>) {
        broadcast use lemma_append_twice;

        put_u32(out, self.major);
        put_u32(out, self.minor);
        put_u32(out, self.max_readahead);
        put_u32(out, self.flags);
        put_u32(out, self.max_background);
        put_u32(out, self.congestion_threshold);
        put_u32(out, self.max_write);
        put_u32(out, self.time_gran);
        put_zeros(out, HANDSHAKE_RESERVED);
    }

    fn read(bytes: &[u8], at: usize) -> (record: Self) {
        broadcast use group_fields;

        HandshakeResponse {
            major: get_u32(bytes, at),
            minor: get_u32(bytes, at + 4),
            max_readahead: get_u32(bytes, at + 8),
            flags: get_u32(bytes, at + 12),
            max_background: get_u32(bytes, at + 16),
            congestion_threshold: get_u32(bytes, at + 20),
            max_write: get_u32(bytes, at + 24),
            time_gran: get_u32(bytes, at + 28),
        }
    }
}

/// The response that settles the session opened by `request`: this
/// endpoint's major version, the lower of the proposed minor version and its
/// own, the initiator's readahead, and this endpoint's limits.
pub open spec fn negotiated(request: HandshakeRequest) -> HandshakeResponse {
    HandshakeResponse {
        major: PROTOCOL_MAJOR,
        minor: if request.minor < PROTOCOL_MINOR {
            request.minor
        } else {
            PROTOCOL_MINOR
        },
        max_readahead: request.max_readahead,
        flags: 0,
        max_background: 0,
        congestion_threshold: 0,
        max_write: MAX_WRITE,
        time_gran: TIME_GRANULARITY,
    }
}

/// Settles the session opened by `request`.
pub fn negotiate(request: &HandshakeRequest) -> (response: HandshakeResponse)
    ensures
        response == negotiated(*request),
        response.max_readahead <= request.max_readahead,
        response.minor <= request.minor,
{
    HandshakeResponse {
        major: PROTOCOL_MAJOR,
        minor: if request.minor < PROTOCOL_MINOR {
            request.minor
        } else {
            PROTOCOL_MINOR
        },
        max_readahead: request.max_readahead,
        flags: 0,
        max_background: 0,
        congestion_threshold: 0,
        max_write: MAX_WRITE,
        time_gran: TIME_GRANULARITY,
    }
}

} // verus!
