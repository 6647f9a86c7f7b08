//! Wire-level core of a userspace filesystem endpoint: the byte layouts of the
//! protocol's records, the request dispatcher, and the decisions of the two
//! endpoints that speak the protocol.
//!
//! The layout is fixed, and it is that of a 64-bit little-endian Linux host:
//! integers stand least significant byte first, the attribute record is that
//! host's `stat` of 144 bytes, error codes and mode bits are that host's, and
//! both trailing fields of the handshake response are 32 bits wide. `host`
//! tells whether the machine at hand is such a host.
//!
//! Nothing here reads or writes a channel. An endpoint is handed what a read
//! returned and hands back what to write.

pub mod attr;
pub mod bytes;
pub mod channel;
pub mod client;
pub mod codec;
pub mod dispatch;
pub mod error;
pub mod handshake;
pub mod header;
pub mod host;
pub mod protocol;
pub mod record;
pub mod server;
