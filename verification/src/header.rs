//! The two message headers: the one that opens a request and the one that
//! opens a response.

use vstd::prelude::*;
use crate::bytes::{get_i32, get_u32, get_u64, put_i32, put_u32, put_u64};
use crate::bytes::{i32_bits, i32_of_bits, u32_at, u32_bytes, u64_at, u64_bytes};
use crate::bytes::{group_fields, lemma_append_twice};
use crate::record::{MessageHeader, WireRecord};

verus! {

/// The number of bytes of a request header.
pub const REQUEST_HEADER_SIZE: usize = 40;

/// The number of bytes of a response header.
pub const RESPONSE_HEADER_SIZE: usize = 16;

/// The header that opens every request.
#[derive(Clone, Copy, Debug, PartialEq, Eq, Structural)]
pub struct RequestHeader {
    /// Length of the whole message: this header and the payload after it.
    pub len: u32,
    /// The operation asked for.
    pub opcode: u32,
    /// The caller's identifier of the request, to be echoed in the response.
    pub unique: u64,
    /// The node that the operation is about.
    pub nodeid: u64,
    /// User id of the calling process.
    pub uid: u32,
    /// Group id of the calling process.
    pub gid: u32,
    /// Process id of the caller.
    pub pid: u32,
    /// Reserved.
    pub padding: u32,
}

impl WireRecord for RequestHeader {
    open spec fn wire_size() -> nat {
        REQUEST_HEADER_SIZE as nat
    }

    open spec fn wire(&self) -> Seq<u8> {
        u32_bytes(self.len) + u32_bytes(self.opcode) + u64_bytes(self.unique) + u64_bytes(
            self.nodeid,
        ) + u32_bytes(self.uid) + u32_bytes(self.gid) + u32_bytes(self.pid) + u32_bytes(
            self.padding,
        )
    }

    open spec fn parse(bytes: Seq<u8>) -> Self {
        RequestHeader {
            len: u32_at(bytes, 0),
            opcode: u32_at(bytes, 4),
            unique: u64_at(bytes, 8),
            nodeid: u64_at(bytes, 16),
            uid: u32_at(bytes, 24),
            gid: u32_at(bytes, 28),
            pid: u32_at(bytes, 32),
            padding: u32_at(bytes, 36),
        }
    }

    proof fn lemma_layout(&self, rest: Seq<u8>) {
        broadcast use group_fields;

    }

    fn size() -> (n: usize) {
        REQUEST_HEADER_SIZE
    }

    fn write(&self, out: &mut Vec<u8>) {
        broadcast use lemma_append_twice;

        put_u32(out, self.len);
        put_u32(out, self.opcode);
        put_u64(out, self.unique);
        put_u64(out, self.nodeid);
        put_u32(out, self.uid);
        put_u32(out, self.gid);
        put_u32(out, self.pid);
        put_u32(out, self.padding);
    }

    fn read(bytes: &[u8], at: usize) -> (record: Self) {
        broadcast use group_fields;

        RequestHeader {
            len: get_u32(bytes, at),
            opcode: get_u32(bytes, at + 4),
            unique: get_u64(bytes, at + 8),
            nodeid: get_u64(bytes, at + 16),
            uid: get_u32(bytes, at + 24),
            gid: get_u32(bytes, at + 28),
            pid: get_u32(bytes, at + 32),
            padding: get_u32(bytes, at + 36),
        }
    }
}

impl MessageHeader for RequestHeader {
    open spec fn length(&self) -> u32 {
        self.len
    }

    open spec fn with_length(self, len: u32) -> Self {
        RequestHeader { len, ..self }
    }

    proof fn lemma_with_length(self, len: u32) {
    }

    fn set_length(&mut self, len: u32) {
        self.len = len;
    }
}

/// The header that opens every response.
#[derive(Clone, Copy, Debug, PartialEq, Eq, Structural)]
pub struct ResponseHeader {
    /// Length of the whole message: this header and the payload after it.
    pub len: u32,
    /// Zero for success, else the negated error code.
    pub error: i32,
    /// The identifier of the request that this message answers.
    pub unique: u64,
}

impl WireRecord for ResponseHeader {
    open spec fn wire_size() -> nat {
        RESPONSE_HEADER_SIZE as nat
    }

    open spec fn wire(&self) -> Seq<u8> {
        u32_bytes(self.len) + u32_bytes(i32_bits(self.error)) + u64_bytes(self.unique)
    }

    open spec fn parse(bytes: Seq<u8>) -> Self {
        ResponseHeader {
            len: u32_at(bytes, 0),
            error: i32_of_bits(u32_at(bytes, 4)),
            unique: u64_at(bytes, 8),
        }
    }

    proof fn lemma_layout(&self, rest: Seq<u8>) {
        broadcast use group_fields;

    }

    fn size() -> (n: usize) {
        RESPONSE_HEADER_SIZE
    }

    fn write(&self, out: &mut Vec<u8>) {
        broadcast use lemma_append_twice;

        put_u32(out, self.len);
        put_i32(out, self.error);
        put_u64(out, self.unique);
    }

    fn read(bytes: &[u8], at: usize) -> (record: Self) {
        broadcast use group_fields;

        ResponseHeader {
            len: get_u32(bytes, at),
            error: get_i32(bytes, at + 4),
            unique: get_u64(bytes, at + 8),
        }
    }
}

impl MessageHeader for ResponseHeader {
    open spec fn length(&self) -> u32 {
        self.len
    }

    open spec fn with_length(self, len: u32) -> Self {
        ResponseHeader { len, ..self }
    }

    proof fn lemma_with_length(self, len: u32) {
    }

    fn set_length(&mut self, len: u32) {
        self.len = len;
    }
}

} // verus!
