use mirrorx_core::error::CoreError;
use mirrorx_core::packet::{EndPointMessage, EndPointMessagePacket, HeartBeatRequest, MediaFrame};
use mirrorx_core::transport::{encode_frame, split_frame, OpeningCipher, SealingCipher};

fn test_key(fill: u8) -> Vec<u8> {
    vec![fill; 32]
}

#[test]
fn frame_round_trip() {
    let payload = b"hello frame".to_vec();
    let frame = encode_frame(&payload).unwrap();
    assert_eq!(frame.len(), payload.len() + 4);
    let (split, consumed) = split_frame(&frame).unwrap().unwrap();
    assert_eq!(split, payload);
    assert_eq!(consumed, frame.len());
}

#[test]
fn frame_split_waits_for_more_bytes() {
    assert!(split_frame(&vec![5, 0]).unwrap().is_none());
    // a complete header naming 5 bytes, with only 2 buffered
    assert!(split_frame(&vec![5, 0, 0, 0, 1, 2]).unwrap().is_none());
}

#[test]
fn frame_split_leaves_following_bytes() {
    let payload = vec![9, 8, 7];
    let mut buf = encode_frame(&payload).unwrap();
    buf.extend_from_slice(&[1, 1, 1, 1]);
    let (split, consumed) = split_frame(&buf).unwrap().unwrap();
    assert_eq!(split, payload);
    assert_eq!(consumed, 7);
}

#[test]
fn oversized_frame_is_fatal() {
    let too_big = vec![0u8; 16 * 1024 * 1024 + 1];
    assert_eq!(encode_frame(&too_big).unwrap_err(), CoreError::FrameTooLarge);
    // a length prefix naming 16 MiB + 1
    let header = vec![1, 0, 0, 1];
    assert_eq!(split_frame(&header).unwrap_err(), CoreError::FrameTooLarge);
}

#[test]
fn seal_then_open_reproduces_packet() {
    let mut sealing = SealingCipher::new(test_key(0x42), 100);
    let mut opening = OpeningCipher::new(test_key(0x42), 100);
    let packet = EndPointMessagePacket::new(
        Some(3),
        EndPointMessage::HeartBeatRequest(HeartBeatRequest { time_stamp: 777 }),
    );
    let frame = sealing.seal_packet(&packet).unwrap();
    let (cipher_payload, _) = split_frame(&frame).unwrap().unwrap();
    let back = opening.open_packet(&cipher_payload).unwrap();
    assert_eq!(back, packet);
}

#[test]
fn sealing_appends_sixteen_byte_tag() {
    let mut sealing = SealingCipher::new(test_key(1), 0);
    let packet = EndPointMessagePacket::new(None, EndPointMessage::Error);
    let plain = mirrorx_core::codec::encode_packet(&packet).unwrap();
    let frame = sealing.seal_packet(&packet).unwrap();
    assert_eq!(frame.len(), 4 + plain.len() + 16);
    // the ciphertext is not the plaintext handed through
    assert_ne!(&frame[4..4 + plain.len()], plain.as_slice());
}

#[test]
fn tampered_ciphertext_fails_closed() {
    let mut sealing = SealingCipher::new(test_key(9), 0);
    let mut opening = OpeningCipher::new(test_key(9), 0);
    let packet = EndPointMessagePacket::new(
        None,
        EndPointMessage::MediaFrame(MediaFrame { buffer: vec![1, 2, 3, 4, 5] }),
    );
    let frame = sealing.seal_packet(&packet).unwrap();
    let (mut cipher_payload, _) = split_frame(&frame).unwrap().unwrap();
    cipher_payload[0] ^= 0x01;
    assert_eq!(opening.open_packet(&cipher_payload).unwrap_err(), CoreError::Decrypt);
}

#[test]
fn wrong_key_fails_closed() {
    let mut sealing = SealingCipher::new(test_key(1), 0);
    let mut opening = OpeningCipher::new(test_key(2), 0);
    let packet = EndPointMessagePacket::new(None, EndPointMessage::Error);
    let frame = sealing.seal_packet(&packet).unwrap();
    let (cipher_payload, _) = split_frame(&frame).unwrap().unwrap();
    assert_eq!(opening.open_packet(&cipher_payload).unwrap_err(), CoreError::Decrypt);
}

#[test]
fn mismatched_nonce_offset_fails_closed() {
    let mut sealing = SealingCipher::new(test_key(1), 0);
    let mut opening = OpeningCipher::new(test_key(1), 50);
    let packet = EndPointMessagePacket::new(None, EndPointMessage::Error);
    let frame = sealing.seal_packet(&packet).unwrap();
    let (cipher_payload, _) = split_frame(&frame).unwrap().unwrap();
    assert_eq!(opening.open_packet(&cipher_payload).unwrap_err(), CoreError::Decrypt);
}

#[test]
fn frames_decrypt_only_in_order() {
    // the per-direction sequencers advance in lockstep, so frames arrive in
    // the order they were sealed
    let mut sealing = SealingCipher::new(test_key(4), 0);
    let mut opening = OpeningCipher::new(test_key(4), 0);
    let packets: Vec<EndPointMessagePacket> = (0..5)
        .map(|i| {
            EndPointMessagePacket::new(
                Some(i as u16),
                EndPointMessage::HeartBeatRequest(HeartBeatRequest { time_stamp: i }),
            )
        })
        .collect();
    for p in &packets {
        let frame = sealing.seal_packet(p).unwrap();
        let (cipher_payload, _) = split_frame(&frame).unwrap().unwrap();
        let back = opening.open_packet(&cipher_payload).unwrap();
        assert_eq!(&back, p);
    }
}
