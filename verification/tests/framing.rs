use ftls::flavor::{FlavorError, FtlsDeFlavor, FtlsSeFlavor, MAGIC_HEADER};
use ftls::message::{FrameStage, FrameStep, MessageParsingError};

fn framed(payload: &[u8]) -> Vec<u8> {
    let mut se = FtlsSeFlavor::new();
    for b in payload {
        assert!(se.try_push(*b).is_ok());
    }
    se.finalize().unwrap()
}

#[test]
fn magic_header_is_ftls() {
    assert_eq!(&MAGIC_HEADER, b"FTLS");
}

#[test]
fn finalize_wraps_payload_in_header_and_length() {
    let out = framed(b"abc");
    let mut expected = b"FTLS".to_vec();
    expected.extend_from_slice(&[3, 0, 0, 0, 0, 0, 0, 0]);
    expected.extend_from_slice(b"abc");
    assert_eq!(out, expected);
}

#[test]
fn finalize_of_empty_flavor_is_bare_prefix() {
    let out = FtlsSeFlavor::default().finalize().unwrap();
    assert_eq!(out, b"FTLS\0\0\0\0\0\0\0\0".to_vec());
}

#[test]
fn length_is_little_endian() {
    let payload = vec![7u8; 300];
    let out = framed(&payload);
    assert_eq!(&out[4..12], &[0x2c, 0x01, 0, 0, 0, 0, 0, 0]);
    assert_eq!(out.len(), 312);
}

#[test]
fn pushed_bytes_pop_back_in_order() {
    let out = framed(&[10, 20, 30]);
    let mut de = FtlsDeFlavor::new(&out).ok().unwrap();
    assert_eq!(de.pop(), Ok(10));
    assert_eq!(de.pop(), Ok(20));
    assert_eq!(de.pop(), Ok(30));
    assert_eq!(de.finalize(), Ok(&[][..]));
}

#[test]
fn pop_stops_at_the_claimed_length() {
    // The length field claims one byte, but more follow: only the claimed
    // byte is handed out.
    let mut buf = b"FTLS".to_vec();
    buf.extend_from_slice(&[1, 0, 0, 0, 0, 0, 0, 0]);
    buf.extend_from_slice(&[5, 6, 9]);
    let mut de = FtlsDeFlavor::new(&buf).ok().unwrap();
    assert_eq!(de.pop(), Ok(5));
    assert_eq!(de.pop(), Err(FlavorError::DeserializeBadEncoding));
    assert_eq!(de.finalize(), Ok(&[6u8, 9][..]));
}

#[test]
fn pop_fails_on_a_frame_shorter_than_claimed() {
    let mut buf = b"FTLS".to_vec();
    buf.extend_from_slice(&[9, 0, 0, 0, 0, 0, 0, 0]);
    buf.push(1);
    let mut de = FtlsDeFlavor::new(&buf).ok().unwrap();
    assert_eq!(de.pop(), Ok(1));
    assert_eq!(de.pop(), Err(FlavorError::DeserializeBadEncoding));
    assert_eq!(de.try_take_n(1), Err(FlavorError::DeserializeBadEncoding));
}

#[test]
fn take_n_may_end_at_the_claimed_length() {
    let out = framed(&[1, 2, 3, 4]);
    let mut de = FtlsDeFlavor::new(&out).ok().unwrap();
    assert_eq!(de.try_take_n(2), Ok(&[1u8, 2][..]));
    assert_eq!(de.try_take_n(3), Err(FlavorError::DeserializeBadEncoding));
    assert_eq!(de.try_take_n(2), Ok(&[3u8, 4][..]));
    assert_eq!(de.try_take_n(1), Err(FlavorError::DeserializeBadEncoding));
    assert_eq!(de.try_take_n(usize::MAX), Err(FlavorError::DeserializeBadEncoding));
    assert_eq!(de.finalize(), Ok(&[][..]));
}

#[test]
fn string_at_end_of_payload_is_read() {
    // The calls a postcard decoder makes for `Message::Error("hi")`:
    // variant, string length, string bytes.
    let out = framed(&[3, 2, b'h', b'i']);
    let mut de = FtlsDeFlavor::new(&out).ok().unwrap();
    assert_eq!(de.pop(), Ok(3));
    assert_eq!(de.pop(), Ok(2));
    assert_eq!(de.try_take_n(2), Ok(&b"hi"[..]));
    assert_eq!(de.pop(), Err(FlavorError::DeserializeBadEncoding));
}

#[test]
fn new_refuses_wrong_header() {
    let buf = b"XTLS\x01\0\0\0\0\0\0\0a".to_vec();
    match FtlsDeFlavor::new(&buf) {
        Err(MessageParsingError::InvalidHeader(h)) => assert_eq!(h, b"XTLS".to_vec()),
        _ => panic!("expected an invalid header"),
    }
}

#[test]
fn new_refuses_short_buffer_with_its_bytes() {
    match FtlsDeFlavor::new(b"FT") {
        Err(MessageParsingError::InvalidHeader(h)) => assert_eq!(h, b"FT".to_vec()),
        _ => panic!("expected an invalid header"),
    }
}

#[test]
fn new_refuses_missing_length() {
    assert!(matches!(
        FtlsDeFlavor::new(b"FTLS\x01\0\0"),
        Err(MessageParsingError::PrimitiveConversion)
    ));
}

#[test]
fn frame_reader_reads_back_payload() {
    let out = framed(b"hello");
    let stage = FrameStage::start();
    assert_eq!(stage.bytes_wanted(), 4);
    let stage = match stage.advance(&out[0..4]) {
        FrameStep::Next(s) => s,
        _ => panic!("header refused"),
    };
    assert_eq!(stage, FrameStage::Length);
    assert_eq!(stage.bytes_wanted(), 8);
    let stage = match stage.advance(&out[4..12]) {
        FrameStep::Next(s) => s,
        _ => panic!("length refused"),
    };
    assert_eq!(stage, FrameStage::Payload(5));
    assert_eq!(stage.bytes_wanted(), 5);
    match stage.advance(&out[12..]) {
        FrameStep::Done(p) => assert_eq!(p, b"hello".to_vec()),
        _ => panic!("payload refused"),
    }
}

#[test]
fn frame_reader_refuses_wrong_header() {
    match FrameStage::start().advance(b"FTLX") {
        FrameStep::Failed(MessageParsingError::InvalidHeader(h)) => assert_eq!(h, b"FTLX".to_vec()),
        _ => panic!("expected an invalid header"),
    }
}
