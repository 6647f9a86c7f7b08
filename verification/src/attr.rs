//! The answer to an attribute query: for how long the answer holds, then the
//! attribute record of the node, laid out as the kernel's 64-bit `stat`.

use vstd::prelude::*;
use crate::bytes::{get_i64, get_u32, get_u64, put_i64, put_u32, put_u64, put_zeros};
use crate::bytes::{group_fields, lemma_append_twice, i64_bits, i64_of_bits, u32_at, u32_bytes, u64_at, u64_bytes, zeros};
use crate::protocol::{
    ATTRIBUTE_VALIDITY,
    DIRECTORY_LINKS,
    DIRECTORY_PERMISSIONS,
    S_IFDIR,
    S_IFMT,
};
use crate::record::WireRecord;

verus! {

/// The number of bytes of an attribute record.
pub const STAT_SIZE: usize = 144;

/// The number of bytes of the validity block that opens an attribute response.
pub const VALIDITY_SIZE: usize = 16;

/// The number of bytes of an attribute response.
pub const ATTRIBUTE_RESPONSE_SIZE: usize = 160;

/// The attributes of a node. On the wire the fields stand in this order;
/// four reserved bytes follow `gid` and twenty-four close the record, all
/// written as zero and not read.
#[derive(Clone, Copy, Debug, PartialEq, Eq, Structural)]
pub struct StatRecord {
    /// The device that holds the node.
    pub dev: u64,
    /// The node's number on that device.
    pub ino: u64,
    /// How many links lead to the node.
    pub nlink: u64,
    /// Type and permission bits.
    pub mode: u32,
    /// The owning user.
    pub uid: u32,
    /// The owning group.
    pub gid: u32,
    /// The device that the node stands for, if it is a device node.
    pub rdev: u64,
    /// Size in bytes.
    pub size: i64,
    /// The block size preferred for transfers.
    pub blksize: i64,
    /// The number of 512-byte blocks allocated.
    pub blocks: i64,
    /// Time of last access, in seconds.
    pub atime: i64,
    /// Nanoseconds of the time of last access.
    pub atime_nsec: i64,
    /// Time of last modification, in seconds.
    pub mtime: i64,
    /// Nanoseconds of the time of last modification.
    pub mtime_nsec: i64,
    /// Time of last status change, in seconds.
    pub ctime: i64,
    /// Nanoseconds of the time of last status change.
    pub ctime_nsec: i64,
}

/// The payload that answers an attribute query.
#[derive(Clone, Copy, Debug, PartialEq, Eq, Structural)]
pub struct AttributeResponse {
    /// For how many seconds the attributes may be kept.
    pub attr_valid: u64,
    /// Nanoseconds on top of `attr_valid`.
    pub attr_valid_nsec: u32,
    /// Reserved.
    pub dummy: u32,
    /// The attributes.
    pub st: StatRecord,
}

/// Whether `mode` has the type bits of a directory.
pub open spec fn is_directory_mode(mode: u32) -> bool {
    mode & S_IFMT == S_IFDIR
}

/// The mode of the one directory that this endpoint shows: the type bits of
/// a directory and the permissions `rwxr-xr-x`.
pub const DIRECTORY_MODE: u32 = 0o040755;

impl StatRecord {
    /// The record with every field zero.
    pub open spec fn zeroed() -> StatRecord {
        StatRecord {
            dev: 0,
            ino: 0,
            nlink: 0,
            mode: 0,
            uid: 0,
            gid: 0,
            rdev: 0,
            size: 0,
            blksize: 0,
            blocks: 0,
            atime: 0,
            atime_nsec: 0,
            mtime: 0,
            mtime_nsec: 0,
            ctime: 0,
            ctime_nsec: 0,
        }
    }

    /// The attributes of the one directory that this endpoint shows: a
    /// directory with two links, every other field zero.
    pub open spec fn directory() -> StatRecord {
        StatRecord { mode: DIRECTORY_MODE, nlink: DIRECTORY_LINKS, ..StatRecord::zeroed() }
    }

    /// The attributes of the one directory that this endpoint shows.
    pub fn new_directory() -> (st: StatRecord)
        ensures
            st == StatRecord::directory(),
            st.is_directory(),
            st.mode == S_IFDIR | DIRECTORY_PERMISSIONS,
            st.nlink == 2,
    {
        assert(0o040755u32 & 0o170000u32 == 0o040000u32) by (bit_vector);
        assert(0o040755u32 == 0o040000u32 | 0o755u32) by (bit_vector);
        StatRecord {
            dev: 0,
            ino: 0,
            nlink: DIRECTORY_LINKS,
            mode: S_IFDIR | DIRECTORY_PERMISSIONS,
            uid: 0,
            gid: 0,
            rdev: 0,
            size: 0,
            blksize: 0,
            blocks: 0,
            atime: 0,
            atime_nsec: 0,
            mtime: 0,
            mtime_nsec: 0,
            ctime: 0,
            ctime_nsec: 0,
        }
    }

    /// Whether the record describes a directory.
    #[verifier::when_used_as_spec(spec_is_directory)]
    pub fn is_directory(&self) -> (yes: bool)
        ensures
            yes == is_directory_mode(self.mode),
    {
        self.mode & S_IFMT == S_IFDIR
    }

    /// Whether the record describes a directory.
    pub open spec fn spec_is_directory(&self) -> bool {
        is_directory_mode(self.mode)
    }
}

impl WireRecord for StatRecord {
    open spec fn wire_size() -> nat {
        STAT_SIZE as nat
    }

    open spec fn wire(&self) -> Seq<u8> {
        u64_bytes(self.dev) + u64_bytes(self.ino) + u64_bytes(self.nlink) + u32_bytes(self.mode)
            + u32_bytes(self.uid) + u32_bytes(self.gid) + zeros(4) + u64_bytes(self.rdev)
            + u64_bytes(i64_bits(self.size)) + u64_bytes(i64_bits(self.blksize)) + u64_bytes(
            i64_bits(self.blocks),
        ) + u64_bytes(i64_bits(self.atime)) + u64_bytes(i64_bits(self.atime_nsec)) + u64_bytes(
            i64_bits(self.mtime),
        ) + u64_bytes(i64_bits(self.mtime_nsec)) + u64_bytes(i64_bits(self.ctime)) + u64_bytes(
            i64_bits(self.ctime_nsec),
        ) + zeros(24)
    }

    open spec fn parse(bytes: Seq<u8>) -> Self {
        StatRecord {
            dev: u64_at(bytes, 0),
            ino: u64_at(bytes, 8),
            nlink: u64_at(bytes, 16),
            mode: u32_at(bytes, 24),
            uid: u32_at(bytes, 28),
            gid: u32_at(bytes, 32),
            rdev: u64_at(bytes, 40),
            size: i64_of_bits(u64_at(bytes, 48)),
            blksize: i64_of_bits(u64_at(bytes, 56)),
            blocks: i64_of_bits(u64_at(bytes, 64)),
            atime: i64_of_bits(u64_at(bytes, 72)),
            atime_nsec: i64_of_bits(u64_at(bytes, 80)),
            mtime: i64_of_bits(u64_at(bytes, 88)),
            mtime_nsec: i64_of_bits(u64_at(bytes, 96)),
            ctime: i64_of_bits(u64_at(bytes, 104)),
            ctime_nsec: i64_of_bits(u64_at(bytes, 112)),
        }
    }

    proof fn lemma_layout(&self, rest: Seq<u8>) {
        broadcast use group_fields;

    }

    fn size() -> (n: usize) {
        STAT_SIZE
    }

    fn write(&self, out: &mut Vec<u8>) {
        broadcast use lemma_append_twice;

        put_u64(out, self.dev);
        put_u64(out, self.ino);
        put_u64(out, self.nlink);
        put_u32(out, self.mode);
        put_u32(out, self.uid);
        put_u32(out, self.gid);
        put_zeros(out, 4);
        put_u64(out, self.rdev);
        put_i64(out, self.size);
        put_i64(out, self.blksize);
        put_i64(out, self.blocks);
        put_i64(out, self.atime);
        put_i64(out, self.atime_nsec);
        put_i64(out, self.mtime);
        put_i64(out, self.mtime_nsec);
        put_i64(out, self.ctime);
        put_i64(out, self.ctime_nsec);
        put_zeros(out, 24);
    }

    fn read(bytes: &[u8], at: usize) -> (record: Self) {
        broadcast use group_fields;

        StatRecord {
            dev: get_u64(bytes, at),
            ino: get_u64(bytes, at + 8),
            nlink: get_u64(bytes, at + 16),
            mode: get_u32(bytes, at + 24),
            uid: get_u32(bytes, at + 28),
            gid: get_u32(bytes, at + 32),
            rdev: get_u64(bytes, at + 40),
            size: get_i64(bytes, at + 48),
            blksize: get_i64(bytes, at + 56),
            blocks: get_i64(bytes, at + 64),
            atime: get_i64(bytes, at + 72),
            atime_nsec: get_i64(bytes, at + 80),
            mtime: get_i64(bytes, at + 88),
            mtime_nsec: get_i64(bytes, at + 96),
            ctime: get_i64(bytes, at + 104),
            ctime_nsec: get_i64(bytes, at + 112),
        }
    }
}

impl AttributeResponse {
    /// The answer to every attribute query: the one directory, valid for a second.
    pub open spec fn directory() -> AttributeResponse {
        AttributeResponse {
            attr_valid: ATTRIBUTE_VALIDITY,
            attr_valid_nsec: 0,
            dummy: 0,
            st: StatRecord::directory(),
        }
    }

    /// The answer to every attribute query.
    pub fn new_directory() -> (reply: AttributeResponse)
        ensures
            reply == AttributeResponse::directory(),
            reply.attr_valid == 1,
            reply.st.is_directory(),
            reply.st.nlink == 2,
    {
        AttributeResponse {
            attr_valid: ATTRIBUTE_VALIDITY,
            attr_valid_nsec: 0,
            dummy: 0,
            st: StatRecord::new_directory(),
        }
    }
}

impl WireRecord for AttributeResponse {
    open spec fn wire_size() -> nat {
        ATTRIBUTE_RESPONSE_SIZE as nat
    }

    open spec fn wire(&self) -> Seq<u8> {
        u64_bytes(self.attr_valid) + u32_bytes(self.attr_valid_nsec) + u32_bytes(self.dummy)
            + self.st.wire()
    }

    open spec fn parse(bytes: Seq<u8>) -> Self {
        AttributeResponse {
            attr_valid: u64_at(bytes, 0),
            attr_valid_nsec: u32_at(bytes, 8),
            dummy: u32_at(bytes, 12),
            st: StatRecord::parse(bytes.skip(VALIDITY_SIZE as int)),
        }
    }

    proof fn lemma_layout(&self, rest: Seq<u8>) {
        broadcast use group_fields;

        let validity = u64_bytes(self.attr_valid) + u32_bytes(self.attr_valid_nsec) + u32_bytes(
            self.dummy,
        );
        let tail = self.st.wire() + rest;
        self.st.lemma_layout(rest);
        assert(self.wire() + rest =~= validity + tail);
        assert((validity + tail).skip(VALIDITY_SIZE as int) =~= tail);
    }

    fn size() -> (n: usize) {
        ATTRIBUTE_RESPONSE_SIZE
    }

    fn write(&self, out: &mut Vec<u8>) {
        broadcast use lemma_append_twice;

        put_u64(out, self.attr_valid);
        put_u32(out, self.attr_valid_nsec);
        put_u32(out, self.dummy);
        self.st.write(out);
    }

    fn read(bytes: &[u8], at: usize) -> (record: Self) {
        broadcast use group_fields;

        let st: StatRecord = StatRecord::read(bytes, at + VALIDITY_SIZE);
        assert(bytes@.skip(at as int).skip(VALIDITY_SIZE as int) =~= bytes@.skip(
            at + VALIDITY_SIZE,
        ));
        AttributeResponse {
            attr_valid: get_u64(bytes, at),
            attr_valid_nsec: get_u32(bytes, at + 8),
            dummy: get_u32(bytes, at + 12),
            st,
        }
    }
}

} // verus!
