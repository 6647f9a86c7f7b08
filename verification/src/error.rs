//! The conditions that end a session. A request that cannot be served is not
//! among them: it is answered with an error code and the session goes on.

use vstd::prelude::*;
use crate::codec::DecodeError;

verus! {

/// Why an endpoint gives up. None of these is retried.
#[derive(Clone, Copy, Debug, PartialEq, Eq, Structural)]
pub enum FatalError {
    /// The channel could not be bound to the mount point.
    RegistrationFailed,
    /// The peer could not be reached.
    ConnectionFailed,
    /// A read failed or brought nothing.
    ReadFailed,
    /// A write failed or took less than the whole message.
    WriteFailed,
    /// The first message of the session was not a handshake.
    ExpectedHandshake,
    /// A message was shorter than the records it must hold.
    Decode(DecodeError),
}

} // verus!
