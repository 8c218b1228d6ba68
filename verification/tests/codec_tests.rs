use mirrorx_core::codec::{decode_packet, encode_packet};
use mirrorx_core::packet::{
    ConnectReply, ConnectRequest, EndPointMessage, EndPointMessagePacket, HandshakeReply,
    HandshakeRequest, HandshakeStatus, HeartBeatReply, HeartBeatRequest,
    KeyExchangeAndVerifyPasswordReply, KeyExchangeAndVerifyPasswordRequest, MediaFrame,
    StartMediaTransmissionReply, StartMediaTransmissionRequest,
};

fn round_trip(p: EndPointMessagePacket) {
    let bytes = encode_packet(&p).unwrap();
    let back = decode_packet(&bytes).unwrap();
    assert_eq!(back, p);
}

#[test]
fn round_trip_error_marker() {
    round_trip(EndPointMessagePacket::new(Some(7), EndPointMessage::Error));
}

#[test]
fn round_trip_handshake_request() {
    round_trip(EndPointMessagePacket::new(
        Some(0),
        EndPointMessage::HandshakeRequest(HandshakeRequest { token: b"token".to_vec() }),
    ));
}

#[test]
fn round_trip_handshake_reply_both_statuses() {
    round_trip(EndPointMessagePacket::new(
        Some(1),
        EndPointMessage::HandshakeReply(HandshakeReply { status: HandshakeStatus::Accepted }),
    ));
    round_trip(EndPointMessagePacket::new(
        Some(2),
        EndPointMessage::HandshakeReply(HandshakeReply { status: HandshakeStatus::Repeated }),
    ));
}

#[test]
fn round_trip_heartbeat() {
    round_trip(EndPointMessagePacket::new(
        Some(65535),
        EndPointMessage::HeartBeatRequest(HeartBeatRequest { time_stamp: 0xDEAD_BEEF }),
    ));
    round_trip(EndPointMessagePacket::new(
        None,
        EndPointMessage::HeartBeatReply(HeartBeatReply { time_stamp: 0 }),
    ));
}

#[test]
fn round_trip_media_messages() {
    round_trip(EndPointMessagePacket::new(
        Some(3),
        EndPointMessage::StartMediaTransmissionRequest(StartMediaTransmissionRequest {
            expect_fps: 60,
        }),
    ));
    round_trip(EndPointMessagePacket::new(
        Some(3),
        EndPointMessage::StartMediaTransmissionReply(StartMediaTransmissionReply {
            screen_width: 2560,
            screen_height: 1440,
        }),
    ));
    round_trip(EndPointMessagePacket::new(
        None,
        EndPointMessage::MediaFrame(MediaFrame { buffer: vec![0u8; 4096] }),
    ));
}

#[test]
fn round_trip_pairing_messages() {
    round_trip(EndPointMessagePacket::new(
        None,
        EndPointMessage::ConnectRequest(ConnectRequest { device_id: b"device-b".to_vec() }),
    ));
    round_trip(EndPointMessagePacket::new(
        None,
        EndPointMessage::ConnectReply(ConnectReply {
            pub_key_n: vec![1, 2, 3, 4],
            pub_key_e: vec![1, 0, 1],
        }),
    ));
    round_trip(EndPointMessagePacket::new(
        None,
        EndPointMessage::KeyExchangeAndVerifyPasswordRequest(KeyExchangeAndVerifyPasswordRequest {
            password_secret: vec![9; 64],
            exchange_pub_key: vec![8; 32],
            exchange_salt: vec![7; 32],
        }),
    ));
    round_trip(EndPointMessagePacket::new(
        None,
        EndPointMessage::KeyExchangeAndVerifyPasswordReply(KeyExchangeAndVerifyPasswordReply {
            success: true,
            exchange_pub_key: vec![6; 32],
            exchange_salt: vec![5; 32],
        }),
    ));
    round_trip(EndPointMessagePacket::new(
        None,
        EndPointMessage::KeyExchangeAndVerifyPasswordReply(KeyExchangeAndVerifyPasswordReply {
            success: false,
            exchange_pub_key: Vec::new(),
            exchange_salt: Vec::new(),
        }),
    ));
}

#[test]
fn round_trip_empty_fields() {
    round_trip(EndPointMessagePacket::new(
        None,
        EndPointMessage::HandshakeRequest(HandshakeRequest { token: Vec::new() }),
    ));
    round_trip(EndPointMessagePacket::new(
        Some(0),
        EndPointMessage::MediaFrame(MediaFrame { buffer: Vec::new() }),
    ));
}

#[test]
fn decode_rejects_empty_and_garbage() {
    assert!(decode_packet(&Vec::new()).is_err());
    assert!(decode_packet(&vec![2]).is_err());
    assert!(decode_packet(&vec![0, 255]).is_err());
    assert!(decode_packet(&vec![1, 0]).is_err());
}

#[test]
fn decode_rejects_trailing_bytes() {
    let p = EndPointMessagePacket::new(Some(1), EndPointMessage::Error);
    let mut bytes = encode_packet(&p).unwrap();
    bytes.push(0);
    assert!(decode_packet(&bytes).is_err());
}

#[test]
fn decode_rejects_truncated_field() {
    let p = EndPointMessagePacket::new(
        None,
        EndPointMessage::HandshakeRequest(HandshakeRequest { token: b"abcdef".to_vec() }),
    );
    let mut bytes = encode_packet(&p).unwrap();
    bytes.pop();
    assert!(decode_packet(&bytes).is_err());
}

#[test]
fn encoding_is_length_prefixed_little_endian() {
    let p = EndPointMessagePacket::new(
        None,
        EndPointMessage::HandshakeRequest(HandshakeRequest { token: b"ab".to_vec() }),
    );
    let bytes = encode_packet(&p).unwrap();
    // no call id, tag, 4-byte LE length, then the token bytes
    assert_eq!(bytes, vec![0, 1, 2, 0, 0, 0, b'a', b'b']);
}

#[test]
fn call_id_header_encodes_little_endian() {
    let p = EndPointMessagePacket::new(Some(0x1234), EndPointMessage::Error);
    let bytes = encode_packet(&p).unwrap();
    assert_eq!(bytes, vec![1, 0x34, 0x12, 0]);
}
