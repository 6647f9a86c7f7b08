use fuse_wire::attr::{AttributeResponse, StatRecord, ATTRIBUTE_RESPONSE_SIZE, STAT_SIZE};
use fuse_wire::bytes::{get_i32, get_i64, get_u32, get_u64, put_i32, put_i64, put_u32, put_u64, put_zeros};
use fuse_wire::codec::{decode_header, decode_payload, encode, DecodeError};
use fuse_wire::handshake::{HandshakeRequest, HandshakeResponse};
use fuse_wire::handshake::{HANDSHAKE_REQUEST_SIZE, HANDSHAKE_RESPONSE_SIZE};
use fuse_wire::header::{RequestHeader, ResponseHeader, REQUEST_HEADER_SIZE, RESPONSE_HEADER_SIZE};
use fuse_wire::record::{Empty, MessageHeader, WireRecord};

fn sample_header() -> RequestHeader {
    RequestHeader {
        len: 40,
        opcode: 3,
        unique: 0x1122_3344_5566_7788,
        nodeid: 1,
        uid: 1000,
        gid: 100,
        pid: 4242,
        padding: 0,
    }
}

#[test]
fn u32_is_written_least_significant_byte_first() {
    let mut out: Vec<u8> = vec![0xaa];
    put_u32(&mut out, 0x0102_0304);
    assert_eq!(out, vec![0xaa, 0x04, 0x03, 0x02, 0x01]);
    assert_eq!(get_u32(&out, 1), 0x0102_0304);
}

#[test]
fn u64_is_written_least_significant_byte_first() {
    let mut out: Vec<u8> = Vec::new();
    put_u64(&mut out, 0x0102_0304_0506_0708);
    assert_eq!(out, vec![0x08, 0x07, 0x06, 0x05, 0x04, 0x03, 0x02, 0x01]);
    assert_eq!(get_u64(&out, 0), 0x0102_0304_0506_0708);
}

#[test]
fn integers_are_laid_out_as_the_host_stores_them() {
    let mut out: Vec<u8> = Vec::new();
    put_u32(&mut out, 0xdead_beef);
    put_u64(&mut out, 0x0123_4567_89ab_cdef);
    put_i32(&mut out, -38);
    put_i64(&mut out, -1_234_567_890_123);
    let mut expected: Vec<u8> = Vec::new();
    expected.extend_from_slice(&0xdead_beefu32.to_ne_bytes());
    expected.extend_from_slice(&0x0123_4567_89ab_cdefu64.to_ne_bytes());
    expected.extend_from_slice(&(-38i32).to_ne_bytes());
    expected.extend_from_slice(&(-1_234_567_890_123i64).to_ne_bytes());
    assert_eq!(out, expected);
}

#[test]
fn signed_numbers_round_trip_at_their_limits() {
    let mut out: Vec<u8> = Vec::new();
    put_i32(&mut out, i32::MIN);
    put_i32(&mut out, -1);
    put_i32(&mut out, i32::MAX);
    put_i64(&mut out, i64::MIN);
    put_i64(&mut out, -1);
    put_i64(&mut out, i64::MAX);
    assert_eq!(&out[4..8], &[0xff, 0xff, 0xff, 0xff]);
    assert_eq!(get_i32(&out, 0), i32::MIN);
    assert_eq!(get_i32(&out, 4), -1);
    assert_eq!(get_i32(&out, 8), i32::MAX);
    assert_eq!(get_i64(&out, 12), i64::MIN);
    assert_eq!(get_i64(&out, 20), -1);
    assert_eq!(get_i64(&out, 28), i64::MAX);
}

#[test]
fn zeros_are_appended() {
    let mut out: Vec<u8> = vec![7];
    put_zeros(&mut out, 3);
    assert_eq!(out, vec![7, 0, 0, 0]);
    put_zeros(&mut out, 0);
    assert_eq!(out.len(), 4);
}

#[test]
fn record_sizes_are_those_of_the_layouts() {
    assert_eq!(RequestHeader::size(), 40);
    assert_eq!(ResponseHeader::size(), 16);
    assert_eq!(HandshakeRequest::size(), 16);
    assert_eq!(HandshakeResponse::size(), 68);
    assert_eq!(StatRecord::size(), 144);
    assert_eq!(AttributeResponse::size(), 160);
    assert_eq!(Empty::size(), 0);
    assert_eq!(REQUEST_HEADER_SIZE, 40);
    assert_eq!(RESPONSE_HEADER_SIZE, 16);
    assert_eq!(HANDSHAKE_REQUEST_SIZE, 16);
    assert_eq!(HANDSHAKE_RESPONSE_SIZE, 68);
    assert_eq!(STAT_SIZE, 144);
    assert_eq!(ATTRIBUTE_RESPONSE_SIZE, 160);
}

#[test]
fn request_header_has_its_fields_in_order() {
    let out = encode(sample_header(), &Empty);
    let mut expected: Vec<u8> = Vec::new();
    expected.extend_from_slice(&40u32.to_le_bytes());
    expected.extend_from_slice(&3u32.to_le_bytes());
    expected.extend_from_slice(&0x1122_3344_5566_7788u64.to_le_bytes());
    expected.extend_from_slice(&1u64.to_le_bytes());
    expected.extend_from_slice(&1000u32.to_le_bytes());
    expected.extend_from_slice(&100u32.to_le_bytes());
    expected.extend_from_slice(&4242u32.to_le_bytes());
    expected.extend_from_slice(&0u32.to_le_bytes());
    assert_eq!(out, expected);
}

#[test]
fn response_header_has_its_fields_in_order() {
    let header = ResponseHeader { len: 0, error: -2, unique: 77 };
    let out = encode(header, &Empty);
    let mut expected: Vec<u8> = Vec::new();
    expected.extend_from_slice(&16u32.to_le_bytes());
    expected.extend_from_slice(&(-2i32).to_le_bytes());
    expected.extend_from_slice(&77u64.to_le_bytes());
    assert_eq!(out, expected);
}

#[test]
fn header_round_trips() {
    let header = sample_header();
    let out = encode(header, &Empty);
    assert_eq!(decode_header(&out), Ok(header));
}

#[test]
fn header_round_trips_with_every_field_at_its_limit() {
    let header = RequestHeader {
        len: 40,
        opcode: u32::MAX,
        unique: u64::MAX,
        nodeid: u64::MAX,
        uid: u32::MAX,
        gid: u32::MAX,
        pid: u32::MAX,
        padding: u32::MAX,
    };
    let out = encode(header, &Empty);
    assert_eq!(decode_header(&out), Ok(header));
}

#[test]
fn header_round_trip_keeps_reserved_padding_zero() {
    let out = encode(sample_header(), &Empty);
    let decoded = decode_header(&out).unwrap();
    assert_eq!(decoded.padding, 0);
    assert_eq!(&out[36..40], &[0, 0, 0, 0]);
}

#[test]
fn encode_sets_the_length_field() {
    let mut header = sample_header();
    header.len = 9999;
    let request = HandshakeRequest { major: 7, minor: 31, max_readahead: 4096, flags: 0 };
    let out = encode(header, &request);
    assert_eq!(out.len(), 56);
    let decoded = decode_header(&out).unwrap();
    assert_eq!(decoded.len, 56);
    let mut expected = header;
    expected.set_length(56);
    assert_eq!(decoded, expected);
    assert_eq!(decode_payload::<HandshakeRequest>(&out, 40), Ok(request));
}

#[test]
fn length_field_is_the_number_of_bytes() {
    let header = ResponseHeader { len: 0, error: 0, unique: 5 };
    let plain = encode(header, &Empty);
    assert_eq!(plain.len(), 16);
    assert_eq!(get_u32(&plain, 0), 16);
    let response = HandshakeResponse {
        major: 7,
        minor: 31,
        max_readahead: 1,
        flags: 2,
        max_background: 3,
        congestion_threshold: 4,
        max_write: 5,
        time_gran: 6,
    };
    let handshake = encode(header, &response);
    assert_eq!(handshake.len(), 84);
    assert_eq!(get_u32(&handshake, 0), 84);
    let attributes = encode(header, &AttributeResponse::new_directory());
    assert_eq!(attributes.len(), 176);
    assert_eq!(get_u32(&attributes, 0), 176);
}

#[test]
fn short_buffer_is_no_header() {
    assert_eq!(decode_header(&[]), Err(DecodeError::TruncatedBuffer));
    assert_eq!(decode_header(&[0u8; 39]), Err(DecodeError::TruncatedBuffer));
    assert!(decode_header(&[0u8; 40]).is_ok());
    assert!(decode_header(&[0u8; 41]).is_ok());
}

#[test]
fn payload_must_fit_from_its_offset() {
    let bytes = [0u8; 56];
    assert!(decode_payload::<HandshakeRequest>(&bytes, 40).is_ok());
    assert_eq!(
        decode_payload::<HandshakeRequest>(&bytes, 41),
        Err(DecodeError::TruncatedBuffer)
    );
    assert_eq!(
        decode_payload::<HandshakeRequest>(&bytes, 57),
        Err(DecodeError::TruncatedBuffer)
    );
    assert_eq!(
        decode_payload::<HandshakeRequest>(&bytes, usize::MAX),
        Err(DecodeError::TruncatedBuffer)
    );
    assert_eq!(decode_payload::<Empty>(&bytes, 56), Ok(Empty));
    assert_eq!(decode_payload::<Empty>(&bytes, 57), Err(DecodeError::TruncatedBuffer));
}

#[test]
fn payload_is_read_from_its_offset() {
    let mut bytes: Vec<u8> = vec![0xee; 5];
    let request = HandshakeRequest { major: 7, minor: 12, max_readahead: 65536, flags: 9 };
    request.write(&mut bytes);
    bytes.push(0xee);
    assert_eq!(decode_payload::<HandshakeRequest>(&bytes, 5), Ok(request));
    assert_eq!(HandshakeRequest::read(&bytes, 5), request);
}

#[test]
fn handshake_response_ends_in_reserved_zeros() {
    let response = HandshakeResponse {
        major: 7,
        minor: 31,
        max_readahead: 0x10,
        flags: 0x20,
        max_background: 0x30,
        congestion_threshold: 0x40,
        max_write: 0x50,
        time_gran: 0x60,
    };
    let mut out: Vec<u8> = Vec::new();
    response.write(&mut out);
    assert_eq!(out.len(), 68);
    assert_eq!(get_u32(&out, 16), 0x30);
    assert_eq!(get_u32(&out, 20), 0x40);
    assert_eq!(get_u32(&out, 24), 0x50);
    assert_eq!(get_u32(&out, 28), 0x60);
    assert!(out[32..].iter().all(|b| *b == 0));
    assert_eq!(decode_payload::<HandshakeResponse>(&out, 0), Ok(response));
}

#[test]
fn attribute_record_round_trips() {
    let st = StatRecord {
        dev: 1,
        ino: 2,
        nlink: 3,
        mode: 0o100644,
        uid: 5,
        gid: 6,
        rdev: 7,
        size: -8,
        blksize: 4096,
        blocks: 10,
        atime: 11,
        atime_nsec: 12,
        mtime: -13,
        mtime_nsec: 14,
        ctime: i64::MAX,
        ctime_nsec: i64::MIN,
    };
    let reply = AttributeResponse { attr_valid: 21, attr_valid_nsec: 22, dummy: 23, st };
    let mut out: Vec<u8> = Vec::new();
    reply.write(&mut out);
    assert_eq!(out.len(), 160);
    assert_eq!(decode_payload::<AttributeResponse>(&out, 0), Ok(reply));
    assert_eq!(decode_payload::<StatRecord>(&out, 16), Ok(st));
    assert!(!st.is_directory());
}

#[test]
fn attribute_record_has_its_fields_where_the_kernel_reads_them() {
    let reply = AttributeResponse::new_directory();
    let mut out: Vec<u8> = Vec::new();
    reply.write(&mut out);
    assert_eq!(get_u64(&out, 0), 1);
    assert_eq!(get_u32(&out, 8), 0);
    assert_eq!(get_u32(&out, 12), 0);
    assert_eq!(get_u64(&out, 16 + 16), 2);
    assert_eq!(get_u32(&out, 16 + 24), 0o040755);
    for (i, b) in out.iter().enumerate() {
        let set = i == 0 || i == 32 || i == 40 || i == 41;
        assert_eq!(*b != 0, set, "byte {}", i);
    }
    assert_eq!(get_i64(&out, 16 + 48), 0);
}
