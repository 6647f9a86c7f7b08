//! The serving endpoint, without its channel: what it asks of the kernel to
//! be registered at its mount point, and what it makes of every read and
//! write on the channel.

use vstd::prelude::*;
use vstd::string::*;
use crate::channel::{message_read, on_read};
use crate::dispatch::{bytes_of, reply_to_message, sent, state_after_message};
use crate::dispatch::{RequestDispatcher, SessionState};
use crate::error::FatalError;
use crate::protocol::{MS_NODEV, MS_NOSUID};

verus! {

/// The character of the digit `d`.
pub open spec fn digit(d: nat) -> char
    recommends
        d < 10,
{
    "0123456789"@[d as int]
}

/// The decimal digits of `n`, most significant first.
pub open spec fn decimal(n: nat) -> Seq<char>
    decreases n,
{
    if n < 10 {
        seq![digit(n)]
    } else {
        decimal(n / 10).push(digit(n % 10))
    }
}

/// The decimal text of `n`, with a minus sign where `n` is negative.
pub open spec fn signed_decimal(n: int) -> Seq<char> {
    if n < 0 {
        "-"@ + decimal((-n) as nat)
    } else {
        decimal(n as nat)
    }
}

/// The options that go with the registration of the channel `channel`: the
/// channel itself, a directory as root, and user and group zero as owners.
pub open spec fn mount_options_text(channel: i32) -> Seq<char> {
    "fd="@ + signed_decimal(channel as int) + ",rootmode=40000,user_id=0,group_id=0"@
}

/// Appends the decimal digits of `n` to `out`.
fn append_decimal(out: &mut String, n: u32)
    ensures
        final(out)@ == old(out)@ + decimal(n as nat),
    decreases n,
{
    if n >= 10 {
        append_decimal(out, n / 10);
    }
    let digits: &str = "0123456789";
    proof {
        reveal_strlit("0123456789");
    }
    let d: usize = (n % 10) as usize;
    out.append(digits.substring_ascii(d, d + 1));
    assert(digits@.subrange(d as int, d + 1) =~= seq![digit(d as nat)]);
    assert(out@ =~= old(out)@ + decimal(n as nat));
}

/// The options that go with the registration of the channel `channel`.
pub fn mount_options(channel: i32) -> (options: String)
    ensures
        options@ == mount_options_text(channel),
{
    let mut options: String = String::from_str("fd=");
    if channel < 0 {
        options.append("-");
        append_decimal(&mut options, (-(channel as i64)) as u32);
    } else {
        append_decimal(&mut options, channel as u32);
    }
    options.append(",rootmode=40000,user_id=0,group_id=0");
    assert(options@ =~= mount_options_text(channel));
    options
}

/// What the endpoint asks of the kernel to be registered: the arguments of
/// one mount call.
#[derive(Debug)]
pub struct MountRequest {
    /// The name of the source.
    pub source: String,
    /// The mount point.
    pub target: String,
    /// The type of the file system.
    pub fstype: String,
    /// The mount flags.
    pub flags: u64,
    /// The options.
    pub data: String,
}

/// The serving endpoint: its mount point and the session with its peer.
#[derive(Debug)]
pub struct ServerEndpoint {
    mount_point: String,
    dispatcher: RequestDispatcher,
}

impl ServerEndpoint {
    /// The mount point that the endpoint was made for.
    pub closed spec fn spec_mount_point(&self) -> Seq<char> {
        self.mount_point@
    }

    /// Where the session stands.
    pub closed spec fn spec_state(&self) -> SessionState {
        self.dispatcher.state()
    }

    /// An endpoint for `mount_point`, whose session awaits the handshake.
    pub fn new(mount_point: &str) -> (endpoint: ServerEndpoint)
        ensures
            endpoint.spec_mount_point() == mount_point@,
            endpoint.state() == SessionState::Handshaking,
    {
        ServerEndpoint {
            mount_point: String::from_str(mount_point),
            dispatcher: RequestDispatcher::new(),
        }
    }

    /// The mount point that the endpoint was made for.
    pub fn mount_point(&self) -> (path: &str)
        ensures
            path@ == self.spec_mount_point(),
    {
        self.mount_point.as_str()
    }

    /// Where the session stands.
    #[verifier::when_used_as_spec(spec_state)]
    pub fn state(&self) -> (state: SessionState)
        ensures
            state == self.spec_state(),
    {
        self.dispatcher.state()
    }

    /// The registration of the channel `channel` at the mount point: set-uid
    /// bits and device nodes are switched off, the root is a directory, and
    /// user and group zero own it.
    pub fn registration(&self, channel: i32) -> (request: MountRequest)
        ensures
            request.source@ == "fuse"@,
            request.target@ == self.spec_mount_point(),
            request.fstype@ == "fuse"@,
            request.flags == MS_NOSUID | MS_NODEV,
            request.flags == 6,
            request.data@ == mount_options_text(channel),
    {
        assert(2u64 | 4u64 == 6u64) by (bit_vector);
        MountRequest {
            source: String::from_str("fuse"),
            target: self.mount_point.clone(),
            fstype: String::from_str("fuse"),
            flags: MS_NOSUID | MS_NODEV,
            data: mount_options(channel),
        }
    }

    /// What follows the registration call that returned `status`: the
    /// endpoint may serve if the call returned zero, and gives up otherwise.
    pub fn on_registration(&self, status: i32) -> (result: Result<(), FatalError>)
        ensures
            status == 0 ==> result == Ok::<(), FatalError>(()),
            status != 0 ==> result == Err::<(), FatalError>(FatalError::RegistrationFailed),
    {
        if status == 0 {
            Ok(())
        } else {
            Err(FatalError::RegistrationFailed)
        }
    }

    /// What follows a read on the channel that returned `count` with the
    /// message in `buffer`: the response to write, or the end of the
    /// session. A read that failed or brought nothing ends it.
    pub fn on_read(&mut self, buffer: &[u8], count: isize) -> (result: Result<Vec<u8>, FatalError>)
        ensures
            bytes_of(result) == after_read(old(self).state(), buffer@, count as int),
            final(self).state() == state_after_read(old(self).state(), buffer@, count as int),
            final(self).spec_mount_point() == old(self).spec_mount_point(),
    {
        match on_read(buffer, count) {
            Ok(message) => self.dispatcher.handle_message(message),
            Err(e) => Err(e),
        }
    }
}

/// The bytes to write after a read that returned `count` with the message
/// in `buffer`, or the reason why the session ends.
pub open spec fn after_read(state: SessionState, buffer: Seq<u8>, count: int) -> Result<
    Seq<u8>,
    FatalError,
> {
    match message_read(buffer, count) {
        Ok(message) => sent(reply_to_message(state, message)),
        Err(e) => Err(e),
    }
}

/// Where the session stands after a read that returned `count` with the
/// message in `buffer`.
pub open spec fn state_after_read(state: SessionState, buffer: Seq<u8>, count: int) -> SessionState {
    match message_read(buffer, count) {
        Ok(message) => state_after_message(state, message),
        Err(_) => state,
    }
}

} // verus!
