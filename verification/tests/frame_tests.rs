use peervault_iroh::errors::PvError;
use peervault_iroh::frame::{
    check_payload_len, decode_frame, decode_len_prefix, encode_frame, encode_len_prefix,
    header_payload_len, MAX_MESSAGE_LEN,
};

#[test]
fn len_prefix_is_big_endian() {
    assert_eq!(encode_len_prefix(0x01020304), vec![1, 2, 3, 4]);
    assert_eq!(encode_len_prefix(0), vec![0, 0, 0, 0]);
    assert_eq!(encode_len_prefix(5), vec![0, 0, 0, 5]);
    assert_eq!(encode_len_prefix(u32::MAX), vec![0xff, 0xff, 0xff, 0xff]);
}

#[test]
fn len_prefix_round_trips() {
    for n in [0u32, 1, 5, 255, 256, 65536, MAX_MESSAGE_LEN, u32::MAX] {
        assert_eq!(decode_len_prefix(&encode_len_prefix(n)), n);
    }
}

#[test]
fn frame_round_trip_hello() {
    let payload = b"hello".to_vec();
    let frame = encode_frame(&payload);
    assert_eq!(frame, vec![0, 0, 0, 5, b'h', b'e', b'l', b'l', b'o']);
    let (back, used) = decode_frame(&frame).unwrap();
    assert_eq!(back, payload);
    assert_eq!(used, 9);
}

#[test]
fn frame_round_trip_empty_payload() {
    let payload = Vec::new();
    let frame = encode_frame(&payload);
    assert_eq!(frame, vec![0, 0, 0, 0]);
    let (back, used) = decode_frame(&frame).unwrap();
    assert_eq!(back, payload);
    assert_eq!(used, 4);
}

#[test]
fn frame_round_trip_larger_payload() {
    let payload: Vec<u8> = (0..100_000u32).map(|i| (i % 251) as u8).collect();
    let frame = encode_frame(&payload);
    assert_eq!(frame.len(), payload.len() + 4);
    let (back, used) = decode_frame(&frame).unwrap();
    assert_eq!(back, payload);
    assert_eq!(used, frame.len());
}

#[test]
fn frame_ignores_trailing_bytes() {
    let payload = b"ab".to_vec();
    let mut buf = encode_frame(&payload);
    buf.extend_from_slice(b"rest");
    let (back, used) = decode_frame(&buf).unwrap();
    assert_eq!(back, payload);
    assert_eq!(used, 6);
}

#[test]
fn consecutive_frames_come_back_whole_and_in_order() {
    let first = b"first message".to_vec();
    let second = b"second".to_vec();
    let mut wire = encode_frame(&first);
    wire.extend_from_slice(&encode_frame(&second));

    let (got_first, used) = decode_frame(&wire).unwrap();
    assert_eq!(got_first, first);
    let rest = wire[used..].to_vec();
    let (got_second, used_second) = decode_frame(&rest).unwrap();
    assert_eq!(got_second, second);
    assert_eq!(used_second, rest.len());
}

#[test]
fn oversize_declared_length_is_refused() {
    // A 4-byte header declaring one byte more than 64 MiB, with no
    // payload behind it: refused as too large, not as a short read.
    let buf = encode_len_prefix(MAX_MESSAGE_LEN + 1);
    assert_eq!(decode_frame(&buf), Err(PvError::MessageTooLarge));
    let huge = encode_len_prefix(u32::MAX);
    assert_eq!(decode_frame(&huge), Err(PvError::MessageTooLarge));
}

#[test]
fn limit_boundary_is_accepted_by_the_guard() {
    assert_eq!(check_payload_len(MAX_MESSAGE_LEN), Ok(MAX_MESSAGE_LEN as usize));
    assert_eq!(check_payload_len(MAX_MESSAGE_LEN + 1), Err(PvError::MessageTooLarge));
    assert_eq!(check_payload_len(0), Ok(0));
}

#[test]
fn header_guard_runs_before_any_payload_read() {
    assert_eq!(header_payload_len(&[0, 0, 0, 7]), Ok(7));
    // 0x04000001 == 64 MiB + 1
    assert_eq!(header_payload_len(&[4, 0, 0, 1]), Err(PvError::MessageTooLarge));
    // 0x04000000 == exactly 64 MiB
    assert_eq!(header_payload_len(&[4, 0, 0, 0]), Ok(MAX_MESSAGE_LEN as usize));
}

#[test]
fn short_prefix_is_a_read_failure() {
    assert_eq!(decode_frame(&vec![]), Err(PvError::ReadFailed));
    assert_eq!(decode_frame(&vec![0, 0, 0]), Err(PvError::ReadFailed));
}

#[test]
fn truncated_payload_is_a_read_failure() {
    let buf = vec![0, 0, 0, 5, b'h', b'e'];
    assert_eq!(decode_frame(&buf), Err(PvError::ReadFailed));
}
