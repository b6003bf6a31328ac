use arcbox::frame::{build_message, decode_message, decode_raw_frame, FrameError};
use arcbox::text::{format_number, parse_unsigned};
use arcbox::wire::MessageType;

#[test]
fn frames_roundtrip_with_trailing_bytes() {
    let mut buf = build_message(MessageType::SandboxEvent, "trace-9", &[1, 2, 3]);
    assert_eq!(&buf[..10], &[0, 0, 0, 16, 0, 0, 0x10, 0x37, 0, 7]);
    let frame_len = buf.len();
    buf.extend_from_slice(&[0xaa, 0xbb]);
    let f = decode_message(&buf).unwrap();
    assert_eq!(f.msg_type, MessageType::SandboxEvent);
    assert_eq!(f.trace, b"trace-9".to_vec());
    assert_eq!(f.payload, vec![1, 2, 3]);
    assert_eq!(f.consumed, frame_len);
}

#[test]
fn long_trace_ids_are_cut() {
    let trace = "t".repeat(70_000);
    let buf = build_message(MessageType::PingRequest, &trace, &[9]);
    let f = decode_raw_frame(&buf).unwrap();
    assert_eq!(f.trace.len(), 65_535);
    assert_eq!(f.payload, vec![9]);
}

#[test]
fn short_and_unknown_frames_are_refused() {
    assert_eq!(decode_message(&[0, 0, 0]).unwrap_err(), FrameError::Truncated);
    assert_eq!(
        decode_message(&[0, 0, 0, 6, 0, 0, 0x99, 0x99, 0, 0]).unwrap_err(),
        FrameError::UnknownType(0x9999)
    );
    // The length claims a payload that is not there.
    assert_eq!(
        decode_message(&[0, 0, 0, 9, 0, 0, 0, 1, 0, 0, 1]).unwrap_err(),
        FrameError::Truncated
    );
    // A minimal frame without a trace length field.
    let f = decode_raw_frame(&[0, 0, 0, 5, 0, 0, 0, 1, 7]).unwrap();
    assert_eq!(f.trace, Vec::<u8>::new());
    assert_eq!(f.payload, vec![7]);
}

#[test]
fn number_formatting_and_parsing() {
    assert_eq!(format_number(0xab, 16, 4).into_iter().collect::<String>(), "00ab");
    assert_eq!(format_number(0, 10, 0).into_iter().collect::<String>(), "0");
    assert_eq!(format_number(12345, 10, 3).into_iter().collect::<String>(), "12345");
    let chars = |s: &str| s.chars().collect::<Vec<char>>();
    assert_eq!(parse_unsigned(&chars("+ff"), 16, 0xffff), Some(0xff));
    assert_eq!(parse_unsigned(&chars("10000"), 16, 0xffff), None);
    assert_eq!(parse_unsigned(&chars(""), 10, 100), None);
    assert_eq!(parse_unsigned(&chars("+"), 10, 100), None);
}

#[test]
fn frame_error_messages() {
    assert_eq!(
        arcbox::frame::FrameError::UnknownType(48879).message(),
        "unknown message type: 48879"
    );
    assert_eq!(arcbox::frame::FrameError::Truncated.message(), "message truncated");
}
