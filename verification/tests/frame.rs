use async_socket::frame::body_buffer;
use async_socket::frame::decode_frame;
use async_socket::frame::decode_len;
use async_socket::frame::encode_frame;
use async_socket::frame::heartbeat;
use async_socket::frame::application_payloads;
use async_socket::frame::decode_stream;
use async_socket::frame::is_heartbeat;
use async_socket::frame::FrameError;
use async_socket::frame::MAX_FRAME_LEN;
use async_socket::frame::PREFIX_LEN;
use bytes::BytesMut;
use std::io::ErrorKind;

fn payload_of_len(len: usize) -> Vec<u8> {
    let mut v = Vec::with_capacity(len);
    for i in 0..len {
        v.push((i % 251) as u8);
    }
    v
}

fn round_trip(len: usize) {
    let payload = payload_of_len(len);
    let frame = encode_frame(BytesMut::from(&payload[..])).unwrap();
    assert_eq!(frame.len(), PREFIX_LEN + len);
    let (decoded, used) = decode_frame(&frame[..]).unwrap();
    assert_eq!(used, PREFIX_LEN + len);
    assert_eq!(&decoded[..], &payload[..]);
}

#[test]
fn round_trip_of_the_empty_payload() {
    round_trip(0);
}

#[test]
fn round_trip_of_one_byte() {
    round_trip(1);
}

#[test]
fn round_trip_of_4096_bytes() {
    round_trip(4096);
}

#[test]
fn round_trip_of_the_largest_payload() {
    round_trip(MAX_FRAME_LEN);
}

#[test]
fn the_limit_is_sixteen_mebibytes() {
    assert_eq!(MAX_FRAME_LEN, 16 * 1024 * 1024);
    assert_eq!(PREFIX_LEN, 4);
}

#[test]
fn a_payload_above_the_limit_is_not_encoded() {
    let too_long = vec![0u8; MAX_FRAME_LEN + 1];
    let r = encode_frame(BytesMut::from(&too_long[..]));
    assert_eq!(r.unwrap_err(), FrameError::TooLarge);
}

#[test]
fn the_frame_of_ping_is_its_length_and_its_bytes() {
    let frame = encode_frame(BytesMut::from(&b"ping"[..])).unwrap();
    assert_eq!(&frame[..], &[0u8, 0, 0, 4, b'p', b'i', b'n', b'g'][..]);
}

#[test]
fn the_frame_of_nothing_is_a_zero_prefix() {
    let frame = encode_frame(BytesMut::new()).unwrap();
    assert_eq!(&frame[..], &[0u8, 0, 0, 0][..]);
    let (payload, used) = decode_frame(&frame[..]).unwrap();
    assert_eq!(payload.len(), 0);
    assert_eq!(used, 4);
}

#[test]
fn the_prefix_is_big_endian() {
    let payload = vec![7u8; 0x0001_0203];
    let frame = encode_frame(BytesMut::from(&payload[..])).unwrap();
    assert_eq!(&frame[..4], &[0x00u8, 0x01, 0x02, 0x03][..]);
    assert_eq!(decode_len(&[0x00, 0x01, 0x02, 0x03]), Ok(0x0001_0203));
    assert_eq!(decode_len(&[0, 0, 1, 2]), Ok(258));
    assert_eq!(decode_len(&[0, 0, 0, 0]), Ok(0));
}

#[test]
fn a_prefix_at_the_limit_is_taken_and_one_above_is_refused() {
    assert_eq!(decode_len(&[0x01, 0x00, 0x00, 0x00]), Ok(MAX_FRAME_LEN));
    assert_eq!(decode_len(&[0x01, 0x00, 0x00, 0x01]), Err(FrameError::TooLarge));
    assert_eq!(decode_len(&[0xff, 0xff, 0xff, 0xff]), Err(FrameError::TooLarge));
}

#[test]
fn an_oversize_prefix_is_refused_before_the_payload_is_looked_at() {
    let input = [0x7fu8, 0xff, 0xff, 0xff, 1, 2, 3];
    assert_eq!(decode_frame(&input[..]).unwrap_err(), FrameError::TooLarge);
    let bare = [0x02u8, 0x00, 0x00, 0x00];
    assert_eq!(decode_frame(&bare[..]).unwrap_err(), FrameError::TooLarge);
}

#[test]
fn input_that_runs_out_is_truncated() {
    assert_eq!(decode_frame(&[][..]).unwrap_err(), FrameError::Truncated);
    assert_eq!(decode_frame(&[0u8, 0, 0][..]).unwrap_err(), FrameError::Truncated);
    assert_eq!(decode_frame(&[0u8, 0, 0, 2, 9][..]).unwrap_err(), FrameError::Truncated);
}

#[test]
fn decoding_leaves_what_follows_the_frame() {
    let input = [0u8, 0, 0, 2, 10, 11, 0, 0, 0, 1, 12];
    let (first, used) = decode_frame(&input[..]).unwrap();
    assert_eq!(&first[..], &[10u8, 11][..]);
    assert_eq!(used, 6);
    let (second, used) = decode_frame(&input[6..]).unwrap();
    assert_eq!(&second[..], &[12u8][..]);
    assert_eq!(used, 5);
}

#[test]
fn a_body_buffer_is_all_zero_and_as_long_as_asked() {
    let b = body_buffer(5).unwrap();
    assert_eq!(&b[..], &[0u8, 0, 0, 0, 0][..]);
    assert_eq!(body_buffer(0).unwrap().len(), 0);
    assert_eq!(body_buffer(MAX_FRAME_LEN).unwrap().len(), MAX_FRAME_LEN);
}

#[test]
fn no_body_buffer_is_made_above_the_limit() {
    assert_eq!(body_buffer(MAX_FRAME_LEN + 1).unwrap_err(), FrameError::TooLarge);
    assert_eq!(body_buffer(usize::MAX).unwrap_err(), FrameError::TooLarge);
}

#[test]
fn the_heartbeat_is_the_word_bit() {
    let h = heartbeat();
    assert_eq!(&h[..], b"bit");
    assert!(is_heartbeat(&h));
    assert!(is_heartbeat(&BytesMut::from("bit")));
    assert!(!is_heartbeat(&BytesMut::from("bi")));
    assert!(!is_heartbeat(&BytesMut::from("bits")));
    assert!(!is_heartbeat(&BytesMut::from("bat")));
    assert!(!is_heartbeat(&BytesMut::from("Bit")));
    assert!(!is_heartbeat(&BytesMut::new()));
}

fn wire(payloads: &[&[u8]]) -> Vec<u8> {
    let mut out = Vec::new();
    for p in payloads {
        let frame = encode_frame(BytesMut::from(*p)).unwrap();
        out.extend_from_slice(&frame[..]);
    }
    out
}

#[test]
fn heartbeats_between_data_frames_are_dropped_and_order_is_kept() {
    let stream = wire(&[b"bit", b"one", b"bit", b"bit", b"two", b"", b"three", b"bit"]);
    let inbound = application_payloads(&stream[..]);
    let got: Vec<Vec<u8>> = inbound.payloads.iter().map(|p| p.to_vec()).collect();
    assert_eq!(
        got,
        vec![b"one".to_vec(), b"two".to_vec(), b"".to_vec(), b"three".to_vec()]
    );
    assert_eq!(inbound.used, stream.len());
    assert_eq!(inbound.end, FrameError::Truncated);
}

#[test]
fn a_stream_reaches_the_inbound_channel_whole_and_in_wire_order() {
    let stream = wire(&[b"bit", b"one", b"bit", b"bit", b"two", b"", b"three", b"bit"]);
    let decoded = decode_stream(&stream[..]);
    let got: Vec<Vec<u8>> = decoded.payloads.iter().map(|p| p.to_vec()).collect();
    assert_eq!(
        got,
        vec![
            b"bit".to_vec(),
            b"one".to_vec(),
            b"bit".to_vec(),
            b"bit".to_vec(),
            b"two".to_vec(),
            b"".to_vec(),
            b"three".to_vec(),
            b"bit".to_vec()
        ]
    );
    assert_eq!(decoded.used, stream.len());
    assert_eq!(decoded.end, FrameError::Truncated);
}

#[test]
fn decoding_a_stream_stops_where_no_whole_frame_follows() {
    let mut stream = wire(&[b"bit", b"alpha"]);
    stream.extend_from_slice(&[0xff, 0xff, 0, 0, 1]);
    let decoded = decode_stream(&stream[..]);
    assert_eq!(decoded.payloads.len(), 2);
    assert_eq!(&decoded.payloads[0][..], b"bit");
    assert_eq!(&decoded.payloads[1][..], b"alpha");
    assert_eq!(decoded.used, 16);
    assert_eq!(decoded.end, FrameError::TooLarge);
    let nothing = decode_stream(&[0u8, 0][..]);
    assert!(nothing.payloads.is_empty());
    assert_eq!(nothing.used, 0);
    assert_eq!(nothing.end, FrameError::Truncated);
}

#[test]
fn a_stream_of_heartbeats_only_gives_nothing() {
    let stream = wire(&[b"bit", b"bit", b"bit"]);
    let inbound = application_payloads(&stream[..]);
    assert!(inbound.payloads.is_empty());
    assert_eq!(inbound.used, 21);
}

#[test]
fn a_stream_that_stops_in_a_frame_gives_the_whole_frames_before_it() {
    let mut stream = wire(&[b"alpha", b"beta"]);
    stream.extend_from_slice(&[0, 0, 0, 9, 1, 2]);
    let inbound = application_payloads(&stream[..]);
    assert_eq!(inbound.payloads.len(), 2);
    assert_eq!(&inbound.payloads[0][..], b"alpha");
    assert_eq!(&inbound.payloads[1][..], b"beta");
    assert_eq!(inbound.used, 17);
    assert_eq!(inbound.end, FrameError::Truncated);
}

#[test]
fn a_stream_with_an_oversize_prefix_stops_there() {
    let mut stream = wire(&[b"ok"]);
    stream.extend_from_slice(&[0xff, 0, 0, 0, 1, 2, 3, 4]);
    let inbound = application_payloads(&stream[..]);
    assert_eq!(inbound.payloads.len(), 1);
    assert_eq!(&inbound.payloads[0][..], b"ok");
    assert_eq!(inbound.used, 6);
    assert_eq!(inbound.end, FrameError::TooLarge);
}

#[test]
fn an_empty_stream_gives_nothing() {
    let inbound = application_payloads(&[][..]);
    assert!(inbound.payloads.is_empty());
    assert_eq!(inbound.used, 0);
    assert_eq!(inbound.end, FrameError::Truncated);
}

#[test]
fn frame_errors_have_their_kinds() {
    assert_eq!(FrameError::TooLarge.kind(), ErrorKind::InvalidData);
    assert_eq!(FrameError::Truncated.kind(), ErrorKind::UnexpectedEof);
}
