use concert::frame::Frame;
use concert::frame::Op;
use concert::frame::ParseError;
use std::str;

#[test]
fn test_parse_op_code() {
    let op_code = Op::from_u8(0b1001_1111u8 >> 4).expect("expected success");
    assert_eq!(op_code, Op::Ping);
}

#[test]
fn test_parse_bad_op_code() {
    assert!(Op::from_u8(0b1111_0000u8 >> 4).is_none(), "expected failure");
}

#[test]
fn test_parse_unmasked() {
    let f = Frame::parse(&[0x81, 0x05, 0x48, 0x65, 0x6c, 0x6c, 0x6f]).expect("expected success");
    assert!(f.fin);
    assert_eq!(f.op, Op::Text);
    assert_eq!(f.masking_key, None);
    assert_eq!(str::from_utf8(&f.raw_payload).expect("not utf8"), "Hello");
}

#[test]
fn test_parse_masked() {
    let f = Frame::parse(&[0x81, 0x85, 0x37, 0xfa, 0x21, 0x3d, 0x7f, 0x9f, 0x4d, 0x51, 0x58])
        .expect("expected success");
    assert!(f.fin);
    assert_eq!(f.op, Op::Text);
    assert_eq!(f.masking_key, Some(0x37fa213d));
    assert_eq!(f.raw_payload, &[0x7f, 0x9f, 0x4d, 0x51, 0x58]);
    assert_eq!(str::from_utf8(&f.payload()).expect("not utf8"), "Hello");
}

fn round_trip(fin: bool, op: Op, masking_key: Option<u32>, len: usize) {
    let payload: Vec<u8> = (0..len).map(|i| (i % 251) as u8).collect();
    let frame = Frame { fin, op, masking_key, raw_payload: payload };
    let bytes = frame.serialize();
    let back = Frame::parse(&bytes).expect("round trip should parse");
    assert_eq!(back, frame);
}

#[test]
fn test_round_trip_boundary_lengths() {
    for &len in &[0usize, 1, 125, 126, 65536] {
        round_trip(true, Op::Text, None, len);
        round_trip(true, Op::Text, Some(0x37fa213d), len);
        round_trip(true, Op::Binary, None, len);
        round_trip(true, Op::Close, Some(0xdeadbeef), len);
        round_trip(true, Op::Ping, None, len);
        round_trip(true, Op::Pong, Some(1), len);
    }
}

#[test]
fn test_serialize_short_text() {
    let frame = Frame {
        fin: true,
        op: Op::Text,
        masking_key: None,
        raw_payload: b"Hello".to_vec(),
    };
    assert_eq!(frame.serialize(), vec![0x81, 0x05, 0x48, 0x65, 0x6c, 0x6c, 0x6f]);
}

#[test]
fn test_serialize_sixteen_bit_length() {
    let frame = Frame {
        fin: true,
        op: Op::Binary,
        masking_key: None,
        raw_payload: vec![0xaa; 126],
    };
    let bytes = frame.serialize();
    assert_eq!(&bytes[..4], &[0x82, 126, 0x00, 0x7e]);
    assert_eq!(bytes.len(), 4 + 126);
}

#[test]
fn test_serialize_sixty_four_bit_length() {
    let frame = Frame {
        fin: true,
        op: Op::Binary,
        masking_key: None,
        raw_payload: vec![0x55; 65536],
    };
    let bytes = frame.serialize();
    assert_eq!(&bytes[..10], &[0x82, 127, 0, 0, 0, 0, 0, 1, 0, 0]);
    assert_eq!(bytes.len(), 10 + 65536);
}

#[test]
fn test_reserved_bits_fail() {
    for rsv in [0x10u8, 0x20, 0x40, 0x70] {
        let r = Frame::parse(&[0x81 | rsv, 0x01, 0x41]);
        assert_eq!(r.unwrap_err(), ParseError::ReservedBits);
    }
}

#[test]
fn test_unknown_opcode_fails() {
    for bad in [0x3u8, 0x4, 0x5, 0x6, 0x7, 0xb, 0xc, 0xd, 0xe, 0xf] {
        let r = Frame::parse(&[0x80 | bad, 0x00]);
        assert_eq!(r.unwrap_err(), ParseError::UnknownOpcode);
    }
}

#[test]
fn test_truncated_header() {
    assert_eq!(Frame::parse(&[]).unwrap_err(), ParseError::Truncated);
    assert_eq!(Frame::parse(&[0x81]).unwrap_err(), ParseError::Truncated);
    // declared length 5, only 2 payload bytes present
    assert_eq!(Frame::parse(&[0x81, 0x05, 0x48, 0x65]).unwrap_err(), ParseError::Truncated);
    // 16-bit length announced, extension missing
    assert_eq!(Frame::parse(&[0x81, 126, 0x00]).unwrap_err(), ParseError::Truncated);
    // masked frame whose masking key is cut short
    assert_eq!(Frame::parse(&[0x81, 0x85, 0x37, 0xfa]).unwrap_err(), ParseError::Truncated);
}

#[test]
fn test_trailing_bytes_fail() {
    let r = Frame::parse(&[0x81, 0x01, 0x41, 0x42]);
    assert_eq!(r.unwrap_err(), ParseError::TrailingData);
}

#[test]
fn test_payload_of_unmasked_is_verbatim() {
    let f = Frame {
        fin: true,
        op: Op::Text,
        masking_key: None,
        raw_payload: b"abc".to_vec(),
    };
    assert_eq!(f.payload(), b"abc".to_vec());
}
