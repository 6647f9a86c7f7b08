use fuse_wire::attr::{AttributeResponse, StatRecord, DIRECTORY_MODE, STAT_SIZE};
use fuse_wire::client::{ClientEndpoint, HandshakeReply, PROBE_READAHEAD, PROBE_UNIQUE};
use fuse_wire::codec::{decode_header, decode_payload, DecodeError};
use fuse_wire::dispatch::SessionState;
use fuse_wire::error::FatalError;
use fuse_wire::handshake::{HandshakeRequest, HandshakeResponse};
use fuse_wire::header::ResponseHeader;
use fuse_wire::protocol::{DIRECTORY_PERMISSIONS, FUSE_INIT, MS_NODEV, MS_NOSUID, S_IFDIR, S_IFMT};
use fuse_wire::channel::{on_read, on_write, BUFFER_CAPACITY};
use fuse_wire::server::{mount_options, ServerEndpoint};

#[test]
fn mount_options_name_the_channel() {
    assert_eq!(mount_options(3), "fd=3,rootmode=40000,user_id=0,group_id=0");
    assert_eq!(mount_options(0), "fd=0,rootmode=40000,user_id=0,group_id=0");
    assert_eq!(mount_options(10), "fd=10,rootmode=40000,user_id=0,group_id=0");
    assert_eq!(mount_options(1024), "fd=1024,rootmode=40000,user_id=0,group_id=0");
    assert_eq!(
        mount_options(i32::MAX),
        "fd=2147483647,rootmode=40000,user_id=0,group_id=0"
    );
}

#[test]
fn mount_options_are_what_formatting_gives() {
    for fd in [-1, -10, i32::MIN, 7, 99, 100, 65535] {
        assert_eq!(mount_options(fd), format!("fd={},rootmode=40000,user_id=0,group_id=0", fd));
    }
}

#[test]
fn registration_binds_the_channel_to_the_mount_point() {
    let endpoint = ServerEndpoint::new("/tmp/mnt");
    assert_eq!(endpoint.mount_point(), "/tmp/mnt");
    let request = endpoint.registration(5);
    assert_eq!(request.source, "fuse");
    assert_eq!(request.fstype, "fuse");
    assert_eq!(request.target, "/tmp/mnt");
    assert_eq!(request.flags, 6);
    assert_eq!(request.data, "fd=5,rootmode=40000,user_id=0,group_id=0");
}

#[test]
fn mount_flags_are_those_of_the_host() {
    assert_eq!(MS_NOSUID, libc::MS_NOSUID as u64);
    assert_eq!(MS_NODEV, libc::MS_NODEV as u64);
    assert_eq!(S_IFDIR, libc::S_IFDIR as u32);
    assert_eq!(S_IFMT, libc::S_IFMT as u32);
    assert_eq!(DIRECTORY_MODE, (libc::S_IFDIR | 0o755) as u32);
    assert_eq!(DIRECTORY_MODE, S_IFDIR | DIRECTORY_PERMISSIONS);
}

#[test]
fn attribute_record_is_as_large_as_the_host_stat() {
    assert_eq!(STAT_SIZE, std::mem::size_of::<libc::stat>());
    let st = StatRecord::new_directory();
    assert_eq!(st.mode, 0o040755);
    assert_eq!(st.nlink, 2);
    assert!(st.is_directory());
    assert_eq!(AttributeResponse::new_directory().st, st);
}

#[test]
fn failed_read_ends_the_session() {
    let mut endpoint = ServerEndpoint::new("/tmp/mnt");
    let buffer = [0u8; 64];
    assert_eq!(endpoint.on_read(&buffer, 0), Err(FatalError::ReadFailed));
    assert_eq!(endpoint.on_read(&buffer, -1), Err(FatalError::ReadFailed));
    assert_eq!(endpoint.on_read(&buffer, isize::MIN), Err(FatalError::ReadFailed));
    assert_eq!(endpoint.on_read(&buffer, 65), Err(FatalError::ReadFailed));
    assert_eq!(endpoint.state(), SessionState::Handshaking);
}

#[test]
fn short_read_ends_the_session() {
    let mut endpoint = ServerEndpoint::new("/tmp/mnt");
    let buffer = [0u8; 64];
    assert_eq!(
        endpoint.on_read(&buffer, 39),
        Err(FatalError::Decode(DecodeError::TruncatedBuffer))
    );
}

#[test]
fn only_the_bytes_read_count() {
    let client = ClientEndpoint::new("/tmp/peer");
    let hello = client.handshake();
    let mut buffer = vec![0u8; BUFFER_CAPACITY];
    buffer[..hello.len()].copy_from_slice(&hello);
    let mut endpoint = ServerEndpoint::new("/tmp/mnt");
    assert_eq!(
        endpoint.on_read(&buffer, 55),
        Err(FatalError::Decode(DecodeError::TruncatedBuffer))
    );
    assert_eq!(endpoint.state(), SessionState::Handshaking);
    let out = endpoint.on_read(&buffer, 56).unwrap();
    assert_eq!(out.len(), 84);
    assert_eq!(endpoint.state(), SessionState::Serving { major: 7, minor: 31 });
}

#[test]
fn first_read_must_bring_a_handshake() {
    let mut endpoint = ServerEndpoint::new("/tmp/mnt");
    let mut buffer = vec![0u8; BUFFER_CAPACITY];
    buffer[4] = 3;
    assert_eq!(endpoint.on_read(&buffer, 40), Err(FatalError::ExpectedHandshake));
}

#[test]
fn write_must_take_the_whole_message() {
    assert_eq!(on_write(16, 16), Ok(()));
    assert_eq!(on_write(0, 0), Ok(()));
    assert_eq!(on_write(16, 15), Err(FatalError::WriteFailed));
    assert_eq!(on_write(16, 17), Err(FatalError::WriteFailed));
    assert_eq!(on_write(16, 0), Err(FatalError::WriteFailed));
    assert_eq!(on_write(16, -1), Err(FatalError::WriteFailed));
    assert_eq!(on_write(usize::MAX, -1), Err(FatalError::WriteFailed));
}

#[test]
fn probe_sends_one_handshake() {
    let client = ClientEndpoint::new("/tmp/peer");
    assert_eq!(client.peer_address(), "/tmp/peer");
    let hello = client.handshake();
    assert_eq!(hello.len(), 56);
    let header = decode_header(&hello).unwrap();
    assert_eq!(header.len, 56);
    assert_eq!(header.opcode, FUSE_INIT);
    assert_eq!(header.unique, PROBE_UNIQUE);
    assert_eq!(header.nodeid, 0);
    assert_eq!((header.uid, header.gid, header.pid, header.padding), (0, 0, 0, 0));
    assert_eq!(
        decode_payload::<HandshakeRequest>(&hello, 40),
        Ok(HandshakeRequest { major: 7, minor: 31, max_readahead: PROBE_READAHEAD, flags: 0 })
    );
}

#[test]
fn probe_and_server_agree() {
    let client = ClientEndpoint::new("/tmp/peer");
    let mut server = ServerEndpoint::new("/tmp/mnt");
    let hello = client.handshake();
    let answer = server.on_read(&hello, hello.len() as isize).unwrap();
    let mut buffer = vec![0xffu8; BUFFER_CAPACITY];
    buffer[..answer.len()].copy_from_slice(&answer);
    let reply = client.on_reply(&buffer, answer.len() as isize).unwrap();
    assert_eq!(
        reply,
        HandshakeReply {
            header: ResponseHeader { len: 84, error: 0, unique: PROBE_UNIQUE },
            payload: HandshakeResponse {
                major: 7,
                minor: 31,
                max_readahead: PROBE_READAHEAD,
                flags: 0,
                max_background: 0,
                congestion_threshold: 0,
                max_write: 131072,
                time_gran: 1,
            },
        }
    );
}

#[test]
fn probe_needs_header_and_payload() {
    let client = ClientEndpoint::new("/tmp/peer");
    let buffer = [0u8; 128];
    assert_eq!(client.on_reply(&buffer, 0), Err(FatalError::ReadFailed));
    assert_eq!(client.on_reply(&buffer, -1), Err(FatalError::ReadFailed));
    assert_eq!(client.on_reply(&buffer, 129), Err(FatalError::ReadFailed));
    assert_eq!(
        client.on_reply(&buffer, 15),
        Err(FatalError::Decode(DecodeError::TruncatedBuffer))
    );
    assert_eq!(
        client.on_reply(&buffer, 16),
        Err(FatalError::Decode(DecodeError::TruncatedBuffer))
    );
    assert_eq!(
        client.on_reply(&buffer, 83),
        Err(FatalError::Decode(DecodeError::TruncatedBuffer))
    );
    assert!(client.on_reply(&buffer, 84).is_ok());
}

#[test]
fn registration_succeeds_with_status_zero_only() {
    let endpoint = ServerEndpoint::new("/tmp/mnt");
    assert_eq!(endpoint.on_registration(0), Ok(()));
    assert_eq!(endpoint.on_registration(-1), Err(FatalError::RegistrationFailed));
    assert_eq!(endpoint.on_registration(1), Err(FatalError::RegistrationFailed));
    assert_eq!(endpoint.on_registration(i32::MIN), Err(FatalError::RegistrationFailed));
}

#[test]
fn connection_succeeds_with_status_zero_only() {
    let client = ClientEndpoint::new("/tmp/peer");
    assert_eq!(client.on_connect(0), Ok(()));
    assert_eq!(client.on_connect(-1), Err(FatalError::ConnectionFailed));
    assert_eq!(client.on_connect(7), Err(FatalError::ConnectionFailed));
}

#[test]
fn read_brings_the_first_bytes_of_the_buffer() {
    let buffer = [1u8, 2, 3, 4];
    assert_eq!(on_read(&buffer, 1), Ok(&buffer[..1]));
    assert_eq!(on_read(&buffer, 3), Ok(&buffer[..3]));
    assert_eq!(on_read(&buffer, 4), Ok(&buffer[..]));
    assert_eq!(on_read(&buffer, 0), Err(FatalError::ReadFailed));
    assert_eq!(on_read(&buffer, -1), Err(FatalError::ReadFailed));
    assert_eq!(on_read(&buffer, 5), Err(FatalError::ReadFailed));
    assert_eq!(on_read(&buffer, isize::MAX), Err(FatalError::ReadFailed));
    assert_eq!(on_read(&[], 0), Err(FatalError::ReadFailed));
    assert_eq!(BUFFER_CAPACITY, 8192);
}
