use shared::protocol::{
    decode_frame, encode_frame, frame_length, FrameError, PeerIncomingMessage, PeerOutgoingMessage, RequestJoin,
};
use shared::DEFAULT_PORT;

#[test]
fn frame_has_big_endian_length() {
    let f = encode_frame(&[7, 8, 9]).unwrap();
    assert_eq!(f, vec![0, 0, 0, 3, 7, 8, 9]);
    let long = vec![1u8; 300];
    let g = encode_frame(&long).unwrap();
    assert_eq!(&g[..4], &[0, 0, 1, 44]);
    assert_eq!(g.len(), 304);
    assert_eq!(encode_frame(&[]).unwrap(), vec![0, 0, 0, 0]);
}

#[test]
fn frame_roundtrip_with_rest() {
    let payload = b"hello".to_vec();
    let mut bytes = encode_frame(&payload).unwrap();
    bytes.extend_from_slice(&[99, 98]);
    assert_eq!(decode_frame(&bytes), Some(Ok((payload, 9))));
}

#[test]
fn frame_short_header_and_truncated() {
    assert_eq!(decode_frame(&[]), None);
    assert_eq!(decode_frame(&[0, 0, 1]), None);
    assert_eq!(decode_frame(&[0, 0, 0, 5, 1, 2]), Some(Err(FrameError::Truncated)));
    assert_eq!(frame_length(&[1, 2, 3, 4]), 0x01020304);
}

#[test]
fn messages_from_parts() {
    let m: PeerOutgoingMessage<u8> = RequestJoin { room: "lobby".to_string() }.into();
    assert_eq!(m, PeerOutgoingMessage::RequestJoin(RequestJoin { room: "lobby".to_string() }));
    let c: PeerIncomingMessage<u8> = 5u8.into();
    assert_eq!(c, PeerIncomingMessage::GraphChange(5));
    assert_eq!(DEFAULT_PORT, 23421);
}
