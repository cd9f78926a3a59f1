use i3ipc_client::decoder::{EofStatus, FrameDecoder, PollFrame};
use i3ipc_client::frame::encode_frame;
use i3ipc_client::response::{eof_error, poll_response, ClientError, PollResponse};
use i3ipc_client::writer::FrameWriter;

fn magic() -> Vec<u8> {
    b"i3-ipc".to_vec()
}

fn frame(msg_type: u32, payload: &[u8]) -> Vec<u8> {
    let mut f = magic();
    f.extend_from_slice(&(payload.len() as u32).to_le_bytes());
    f.extend_from_slice(&msg_type.to_le_bytes());
    f.extend_from_slice(payload);
    f
}

#[test]
fn encoder_emits_exact_bytes() {
    let out = encode_frame(0, b"test");
    let mut expected = b"i3-ipc".to_vec();
    expected.extend_from_slice(&[4, 0, 0, 0]);
    expected.extend_from_slice(&[0, 0, 0, 0]);
    expected.extend_from_slice(b"test");
    assert_eq!(out, expected);
}

#[test]
fn encoder_length_is_header_plus_payload() {
    for len in [0usize, 1, 13, 14, 255, 300] {
        let payload = vec![b'x'; len];
        let out = encode_frame(9, &payload);
        assert_eq!(out.len(), 14 + len);
    }
}

#[test]
fn encoder_little_endian_fields() {
    let out = encode_frame(0x0403_0201, &vec![b'a'; 0x102]);
    assert_eq!(&out[6..10], &[0x02, 0x01, 0, 0]);
    assert_eq!(&out[10..14], &[0x01, 0x02, 0x03, 0x04]);
}

#[test]
fn round_trip_single_chunk() {
    let payload = br#"{"success":true}"#;
    let wire = encode_frame(7, payload);
    let mut dec = FrameDecoder::new();
    dec.feed(&wire);
    match dec.poll_frame() {
        PollFrame::Ready(f) => {
            assert_eq!(f.msg_type, 7);
            assert_eq!(f.payload, payload.to_vec());
        }
        _ => panic!("expected a frame"),
    }
    assert!(matches!(dec.poll_frame(), PollFrame::Pending));
    assert_eq!(dec.finish(), EofStatus::Clean);
}

#[test]
fn round_trip_body_deep_equals() {
    let payload = br#"{"success":true,"n":42}"#;
    let wire = encode_frame(0, payload);
    let mut dec = FrameDecoder::new();
    dec.feed(&wire);
    match poll_response(&mut dec) {
        PollResponse::Ready(resp) => {
            assert_eq!(resp.msg_type, 0);
            let expected: serde_json::Value =
                serde_json::from_str(r#"{"success":true,"n":42}"#).unwrap();
            assert_eq!(resp.body, expected);
        }
        _ => panic!("expected a response"),
    }
}

#[test]
fn decoder_reconstructs_length_from_tiny_chunks() {
    for len in [0usize, 1, 5, 64] {
        let payload = vec![b'7'; len];
        let wire = frame(3, &payload);
        let mut dec = FrameDecoder::new();
        for byte in &wire {
            assert!(matches!(dec.poll_frame(), PollFrame::Pending));
            dec.feed(std::slice::from_ref(byte));
        }
        match dec.poll_frame() {
            PollFrame::Ready(f) => {
                assert_eq!(f.payload.len(), len);
                assert_eq!(f.msg_type, 3);
            }
            _ => panic!("expected a frame after the last byte"),
        }
    }
}

#[test]
fn any_split_gives_same_response() {
    let payload = br#"{"rate":60}"#;
    let wire = encode_frame(2, payload);
    for cut in 0..=wire.len() {
        let mut dec = FrameDecoder::new();
        dec.feed(&wire[..cut]);
        dec.feed(&wire[cut..]);
        match dec.poll_frame() {
            PollFrame::Ready(f) => {
                assert_eq!(f.msg_type, 2);
                assert_eq!(f.payload, payload.to_vec());
            }
            _ => panic!("split at {cut} lost the frame"),
        }
        assert_eq!(dec.finish(), EofStatus::Clean);
    }
}

#[test]
fn magic_mismatch_is_desync() {
    let mut wire = frame(1, b"{}");
    wire[0] = b'x';
    let mut dec = FrameDecoder::new();
    dec.feed(&wire);
    assert!(matches!(dec.poll_frame(), PollFrame::Desync));
    // Nothing was consumed and the verdict does not change.
    assert!(matches!(dec.poll_frame(), PollFrame::Desync));
    assert_eq!(dec.finish(), EofStatus::Desync);
}

#[test]
fn magic_mismatch_detected_with_six_bytes_only() {
    let mut dec = FrameDecoder::new();
    dec.feed(b"i3-cpi");
    assert!(matches!(dec.poll_frame(), PollFrame::Desync));
    assert!(matches!(
        poll_response(&mut dec),
        PollResponse::Failed(ClientError::Desync)
    ));
}

#[test]
fn close_after_thirteen_bytes_is_incomplete() {
    let wire = frame(1, b"{}");
    let mut dec = FrameDecoder::new();
    dec.feed(&wire[..13]);
    // Less than a header: no decode, and certainly not a successful one.
    assert!(matches!(dec.poll_frame(), PollFrame::Pending));
    // The peer closes: an incomplete frame, not a clean end of stream.
    assert_eq!(dec.finish(), EofStatus::Incomplete);
}

#[test]
fn close_mid_payload_is_incomplete() {
    let wire = frame(1, br#"{"a":1}"#);
    let mut dec = FrameDecoder::new();
    dec.feed(&wire[..wire.len() - 2]);
    assert!(matches!(dec.poll_frame(), PollFrame::Pending));
    assert_eq!(dec.finish(), EofStatus::Incomplete);
}

#[test]
fn two_frames_back_to_back_decode_in_order() {
    let mut wire = encode_frame(4, br#"{"first":1}"#);
    wire.extend_from_slice(&encode_frame(5, br#"{"second":2}"#));
    let mut dec = FrameDecoder::new();
    dec.feed(&wire);
    match dec.poll_frame() {
        PollFrame::Ready(f) => {
            assert_eq!(f.msg_type, 4);
            assert_eq!(f.payload, br#"{"first":1}"#.to_vec());
        }
        _ => panic!("expected the first frame"),
    }
    match dec.poll_frame() {
        PollFrame::Ready(f) => {
            assert_eq!(f.msg_type, 5);
            assert_eq!(f.payload, br#"{"second":2}"#.to_vec());
        }
        _ => panic!("expected the second frame"),
    }
    assert!(matches!(dec.poll_frame(), PollFrame::Pending));
    assert_eq!(dec.finish(), EofStatus::Clean);
}

#[test]
fn garbage_payload_is_recoverable() {
    let mut wire = encode_frame(1, b"not json");
    wire.extend_from_slice(&encode_frame(1, b"true"));
    let mut dec = FrameDecoder::new();
    dec.feed(&wire);
    assert!(matches!(
        poll_response(&mut dec),
        PollResponse::Failed(ClientError::Payload(_))
    ));
    // The frame boundary was still identified: the next frame decodes.
    match poll_response(&mut dec) {
        PollResponse::Ready(resp) => {
            assert_eq!(resp.msg_type, 1);
            assert_eq!(resp.body, serde_json::Value::Bool(true));
        }
        _ => panic!("expected the second response"),
    }
}

#[test]
fn response_body_is_parsed_not_raw_bytes() {
    // The body comes back as a JSON document, not as the payload bytes.
    let wire = encode_frame(0, b"[1,2,3]");
    let mut dec = FrameDecoder::new();
    dec.feed(&wire);
    match poll_response(&mut dec) {
        PollResponse::Ready(resp) => {
            let expected: serde_json::Value = serde_json::from_str("[1,2,3]").unwrap();
            assert_eq!(resp.body, expected);
            assert!(resp.body.is_array());
        }
        _ => panic!("expected a response"),
    }
}

#[test]
fn empty_payload_round_trips() {
    let wire = encode_frame(8, b"");
    assert_eq!(wire.len(), 14);
    let mut dec = FrameDecoder::new();
    dec.feed(&wire);
    match dec.poll_frame() {
        PollFrame::Ready(f) => {
            assert_eq!(f.msg_type, 8);
            assert!(f.payload.is_empty());
        }
        _ => panic!("expected a frame"),
    }
}

#[test]
fn eof_error_maps_each_status() {
    assert!(eof_error(EofStatus::Clean).is_none());
    assert!(matches!(
        eof_error(EofStatus::Desync),
        Some(ClientError::Desync)
    ));
    assert!(matches!(
        eof_error(EofStatus::Incomplete),
        Some(ClientError::Incomplete)
    ));
}

#[test]
fn writer_resumes_across_short_writes() {
    let payload = br#"{"command":"exit"}"#;
    let mut w = FrameWriter::new(0, payload);
    assert_eq!(w.len(), 14 + payload.len());
    assert!(!w.is_done());
    let mut sent: Vec<u8> = Vec::new();
    // A stream that accepts at most three bytes per attempt.
    while !w.is_done() {
        let pending = w.pending();
        let n = pending.len().min(3);
        sent.extend_from_slice(&pending[..n]);
        w.advance(n);
    }
    assert_eq!(sent, encode_frame(0, payload));
    assert!(w.pending().is_empty());
}

#[test]
fn writer_pending_starts_as_whole_frame() {
    let w = FrameWriter::new(12, b"{}");
    assert_eq!(w.pending(), encode_frame(12, b"{}").as_slice());
    assert_eq!(w.len(), 16);
}
