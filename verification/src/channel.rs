//! What both endpoints make of the outcome of a read or a write on their
//! channel. A channel that fails once is not tried again.

use vstd::prelude::*;
use vstd::slice::slice_subrange;
use crate::error::FatalError;

verus! {

/// The size of the buffer that one message is read into.
pub const BUFFER_CAPACITY: usize = 8192;

/// The message that a read brought, where it returned `count` and filled
/// `buffer` from the start: the first `count` bytes. A read that failed or
/// brought nothing is fatal.
pub open spec fn message_read(buffer: Seq<u8>, count: int) -> Result<Seq<u8>, FatalError> {
    if 0 < count <= buffer.len() {
        Ok(buffer.subrange(0, count))
    } else {
        Err(FatalError::ReadFailed)
    }
}

/// The message that a read brought, where it returned `count` and filled
/// `buffer` from the start.
pub fn on_read<'a>(buffer: &'a [u8], count: isize) -> (result: Result<&'a [u8], FatalError>)
    ensures
        match message_read(buffer@, count as int) {
            Ok(message) => result matches Ok(bytes) && bytes@ == message,
            Err(e) => result matches Err(err) && err == e,
        },
{
    if count <= 0 || count as usize > buffer.len() {
        Err(FatalError::ReadFailed)
    } else {
        Ok(slice_subrange(buffer, 0, count as usize))
    }
}

/// What follows a write of a message of `len` bytes that returned
/// `written`: the session goes on if the whole message was taken, and ends
/// otherwise.
pub fn on_write(len: usize, written: isize) -> (result: Result<(), FatalError>)
    ensures
        written == len ==> result == Ok::<(), FatalError>(()),
        written != len ==> result == Err::<(), FatalError>(FatalError::WriteFailed),
{
    if written >= 0 && written as usize == len {
        Ok(())
    } else {
        Err(FatalError::WriteFailed)
    }
}

} // verus!
