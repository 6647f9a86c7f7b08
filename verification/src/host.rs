//! The host's own numbers, held against those that the library writes.
//!
//! The peer on the channel is the host's kernel, which reads records in the
//! host's layout and knows the host's error codes. The library writes one
//! fixed layout. Here it asks the host for its numbers and says whether the
//! two agree.

use vstd::prelude::*;
use crate::attr::STAT_SIZE;
use crate::bytes::u32_bytes;
use crate::protocol::{ENOENT, ENOSYS, MS_NODEV, MS_NOSUID, S_IFDIR};

verus! {

/// What a host says of itself.
#[derive(Clone, Copy, Debug, PartialEq, Eq, Structural)]
pub struct HostLayout {
    /// Whether integers are stored least significant byte first.
    pub little_endian: bool,
    /// The number of bytes of the host's attribute record.
    pub stat_size: usize,
    /// The host's code for "no such entry".
    pub no_entry: i32,
    /// The host's code for "operation not supported".
    pub not_supported: i32,
    /// The host's type bits of a directory.
    pub directory_bits: u32,
    /// The host's mount flag that switches set-uid bits off.
    pub no_suid: u64,
    /// The host's mount flag that switches device nodes off.
    pub no_dev: u64,
}

/// `u32::to_ne_bytes`: the four bytes of `x` in the order in which the host
/// stores them, which is least significant first or most significant first.
#[verifier::external_body]
fn host_bytes(x: u32) -> (bytes: [u8; 4])
    ensures
        bytes@ == u32_bytes(x) || bytes@ == u32_bytes(x).reverse(),
{
    x.to_ne_bytes()
}

/// `std::mem::size_of` at `libc::stat`: the number of bytes of the host's
/// attribute record. It differs from host to host; nothing is claimed of it.
#[verifier::external_body]
fn host_stat_size() -> usize {
    std::mem::size_of::<libc::stat>()
}

/// `libc::ENOENT`: the host's code for "no such entry". It differs from host
/// to host; nothing is claimed of it.
#[verifier::external_body]
fn host_no_entry() -> i32 {
    libc::ENOENT
}

/// `libc::ENOSYS`: the host's code for "operation not supported". It differs
/// from host to host; nothing is claimed of it.
#[verifier::external_body]
fn host_not_supported() -> i32 {
    libc::ENOSYS
}

/// `libc::S_IFDIR`: the host's type bits of a directory. Nothing is claimed
/// of them.
#[verifier::external_body]
fn host_directory_bits() -> u32 {
    libc::S_IFDIR as u32
}

/// `libc::MS_NOSUID`: the host's mount flag that switches set-uid bits off.
/// Nothing is claimed of it.
#[verifier::external_body]
fn host_no_suid() -> u64 {
    libc::MS_NOSUID as u64
}

/// `libc::MS_NODEV`: the host's mount flag that switches device nodes off.
/// Nothing is claimed of it.
#[verifier::external_body]
fn host_no_dev() -> u64 {
    libc::MS_NODEV as u64
}

impl HostLayout {
    /// Whether a host with these numbers reads the library's bytes as they
    /// are meant: every number is the one that the library writes.
    pub open spec fn matches_wire(self) -> bool {
        &&& self.little_endian
        &&& self.stat_size == STAT_SIZE
        &&& self.no_entry == ENOENT
        &&& self.not_supported == ENOSYS
        &&& self.directory_bits == S_IFDIR
        &&& self.no_suid == MS_NOSUID
        &&& self.no_dev == MS_NODEV
    }

    /// Whether a host with these numbers reads the library's bytes as they
    /// are meant.
    pub fn is_supported(&self) -> (yes: bool)
        ensures
            yes == self.matches_wire(),
    {
        self.little_endian && self.stat_size == STAT_SIZE && self.no_entry == ENOENT
            && self.not_supported == ENOSYS && self.directory_bits == S_IFDIR && self.no_suid
            == MS_NOSUID && self.no_dev == MS_NODEV
    }

    /// What this host says of itself.
    pub fn of_host() -> (host: HostLayout) {
        let probe: [u8; 4] = host_bytes(1);
        HostLayout {
            little_endian: probe[0] == 1,
            stat_size: host_stat_size(),
            no_entry: host_no_entry(),
            not_supported: host_not_supported(),
            directory_bits: host_directory_bits(),
            no_suid: host_no_suid(),
            no_dev: host_no_dev(),
        }
    }
}

} // verus!
