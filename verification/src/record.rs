//! What every fixed-layout record of the protocol offers: its size, its
//! bytes, and the way back from bytes to the record.

use vstd::prelude::*;

verus! {

/// No record of the protocol is longer than this, so that a header and a
/// payload together always fit the 32-bit length field.
pub const MAX_RECORD_SIZE: usize = 4096;

/// A record with a fixed number of bytes on the wire.
pub trait WireRecord: Sized {
    /// The number of bytes of the record on the wire.
    spec fn wire_size() -> nat;

    /// The bytes of the record, field after field.
    spec fn wire(&self) -> Seq<u8>;

    /// The record held by the first `wire_size()` bytes of `bytes`.
    spec fn parse(bytes: Seq<u8>) -> Self;

    /// A record takes exactly `wire_size()` bytes, and `parse` gives it back
    /// from them, whatever follows.
    proof fn lemma_layout(&self, rest: Seq<u8>)
        ensures
            self.wire().len() == Self::wire_size(),
            Self::wire_size() <= MAX_RECORD_SIZE,
            Self::parse(self.wire() + rest) == *self,
    ;

    /// The number of bytes of the record on the wire.
    fn size() -> (n: usize)
        ensures
            n == Self::wire_size(),
            n <= MAX_RECORD_SIZE,
    ;

    /// Appends the bytes of the record to `out`.
    fn write(&self, out: &mut Vec<u8>)
        ensures
            final(out)@ == old(out)@ + self.wire(),
    ;

    /// Reads the record that starts at index `at` of `bytes`.
    fn read(bytes: &[u8], at: usize) -> (record: Self)
        requires
            at + Self::wire_size() <= bytes.len(),
        ensures
            record == Self::parse(bytes@.skip(at as int)),
    ;
}

/// A record that opens a message and tells the message's length.
pub trait MessageHeader: WireRecord {
    /// The value of the length field.
    spec fn length(&self) -> u32;

    /// The same header with `len` in the length field.
    spec fn with_length(self, len: u32) -> Self;

    /// `with_length` changes the length field, and nothing where the field
    /// already holds the value.
    proof fn lemma_with_length(self, len: u32)
        ensures
            self.with_length(len).length() == len,
            self.length() == len ==> self.with_length(len) == self,
    ;

    /// Puts `len` in the length field.
    fn set_length(&mut self, len: u32)
        ensures
            *final(self) == old(self).with_length(len),
    ;
}

/// The payload of a message that is a header and nothing more.
#[derive(Clone, Copy, Debug, PartialEq, Eq, Structural)]
pub struct Empty;

impl WireRecord for Empty {
    open spec fn wire_size() -> nat {
        0
    }

    open spec fn wire(&self) -> Seq<u8> {
        Seq::empty()
    }

    open spec fn parse(bytes: Seq<u8>) -> Self {
        Empty
    }

    proof fn lemma_layout(&self, rest: Seq<u8>) {
    }

    fn size() -> (n: usize) {
        0
    }

    fn write(&self, out: &mut Vec<u8>) {
        assert(out@ =~= old(out)@ + self.wire());
    }

    fn read(bytes: &[u8], at: usize) -> (record: Self) {
        Empty
    }
}

} // verus!
