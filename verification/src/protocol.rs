//! The numbers of the protocol: opcodes, the version spoken, the error codes
//! and mode bits of the kernel that sends the requests.

use vstd::prelude::*;

verus! {

/// Opcode: look a name up in a directory.
pub const FUSE_LOOKUP: u32 = 1;

/// Opcode: query the attributes of a node.
pub const FUSE_GETATTR: u32 = 3;

/// Opcode: the handshake that opens a session.
pub const FUSE_INIT: u32 = 26;

/// Opcode: list a directory.
pub const FUSE_READDIR: u32 = 28;

/// The major version that this endpoint speaks.
pub const PROTOCOL_MAJOR: u32 = 7;

/// The highest minor version that this endpoint speaks.
pub const PROTOCOL_MINOR: u32 = 31;

/// The largest write, in bytes, that this endpoint accepts.
pub const MAX_WRITE: u32 = 131072;

/// The granularity of timestamps, in nanoseconds.
pub const TIME_GRANULARITY: u32 = 1;

/// Error code: no such entry.
pub const ENOENT: i32 = 2;

/// Error code: operation not supported.
pub const ENOSYS: i32 = 38;

/// The bits of a mode that tell the type of the node.
pub const S_IFMT: u32 = 0o170000;

/// The type bits of a directory.
pub const S_IFDIR: u32 = 0o040000;

/// The permission bits of the one directory that this endpoint shows.
pub const DIRECTORY_PERMISSIONS: u32 = 0o755;

/// The link count of the one directory that this endpoint shows.
pub const DIRECTORY_LINKS: u64 = 2;

/// For how many seconds the kernel may keep the attributes it was given.
pub const ATTRIBUTE_VALIDITY: u64 = 1;

/// Mount flag: set-uid and set-gid bits are not honoured.
pub const MS_NOSUID: u64 = 2;

/// Mount flag: device nodes are not interpreted.
pub const MS_NODEV: u64 = 4;

} // verus!
