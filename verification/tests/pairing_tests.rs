use mirrorx_core::endpoint::{Dispatch, EndPoint};
use mirrorx_core::error::CoreError;
use mirrorx_core::packet::{
    EndPointMessage, EndPointMessagePacket, StartMediaTransmissionReply,
    StartMediaTransmissionRequest,
};
use mirrorx_core::pairing::{
    connect_with_key, derive_session_keys, finish_verify, initiator_begin_exchange,
    initiator_complete_exchange, key_exchange_and_verify_password, make_verify_request, KeyVault,
};
use rsa::PublicKeyParts;
use mirrorx_core::transport::{split_frame, OpeningCipher, SealingCipher};

/// A small test keypair: pairing proper uses 4096 bits, which is too slow to
/// generate in a test; the protocol is bit-size agnostic.
fn test_keypair() -> (rsa::RsaPrivateKey, Vec<u8>, Vec<u8>) {
    let mut rng = rand::thread_rng();
    let key = rsa::RsaPrivateKey::new(&mut rng, 512).unwrap();
    let pub_key = rsa::RsaPublicKey::from(&key);
    (key.clone(), pub_key.n().to_bytes_le(), pub_key.e().to_bytes_le())
}

#[test]
fn vault_is_consume_once() {
    let (key, _, _) = test_keypair();
    let mut vault = KeyVault::new();
    assert!(vault.take().is_none());
    vault.set(key);
    assert!(vault.take().is_some());
    assert!(vault.take().is_none());
}

#[test]
fn connect_step_caches_key_and_returns_public_parts() {
    let (key, n, e) = test_keypair();
    let mut vault = KeyVault::new();
    let reply = connect_with_key(&mut vault, key, n.clone(), e.clone());
    assert_eq!(reply.pub_key_n, n);
    assert_eq!(reply.pub_key_e, e);
    assert!(vault.take().is_some());
}

#[test]
fn verify_without_local_password_is_refused() {
    let (key, n, e) = test_keypair();
    let mut vault = KeyVault::new();
    connect_with_key(&mut vault, key, n.clone(), e.clone());
    let (_, a_pub, a_salt) = initiator_begin_exchange().unwrap();
    let req = make_verify_request(&n, &e, &b"secret123".to_vec(), a_pub, a_salt).unwrap();
    let r = key_exchange_and_verify_password(&mut vault, &req, &None);
    assert_eq!(r.unwrap_err(), CoreError::PasswordNotSet);
    // the password check happens before the key is consumed
    assert!(vault.take().is_some());
}

#[test]
fn verify_without_cached_key_is_a_protocol_violation() {
    let (_, n, e) = test_keypair();
    let mut vault = KeyVault::new();
    let (_, a_pub, a_salt) = initiator_begin_exchange().unwrap();
    let req = make_verify_request(&n, &e, &b"secret123".to_vec(), a_pub, a_salt).unwrap();
    let r = key_exchange_and_verify_password(&mut vault, &req, &Some(b"secret123".to_vec()));
    assert_eq!(r.unwrap_err(), CoreError::MissingRegistration);
}

#[test]
fn wrong_password_yields_negative_reply_with_no_key_material() {
    let (key, n, e) = test_keypair();
    let mut vault = KeyVault::new();
    connect_with_key(&mut vault, key, n.clone(), e.clone());
    let (a_priv, a_pub, a_salt) = initiator_begin_exchange().unwrap();
    let req = make_verify_request(&n, &e, &b"wrong-password".to_vec(), a_pub, a_salt.clone()).unwrap();
    let (reply, keys) =
        key_exchange_and_verify_password(&mut vault, &req, &Some(b"secret123".to_vec())).unwrap();
    assert!(!reply.success);
    assert!(reply.exchange_pub_key.is_empty());
    assert!(reply.exchange_salt.is_empty());
    assert!(keys.is_none());
    // the initiator derives nothing from a negative reply either
    let a_keys = initiator_complete_exchange(a_priv, &a_salt, &reply).unwrap();
    assert!(a_keys.is_none());
    // the cached key was consumed: a retry needs a new connect step
    assert!(vault.take().is_none());
}

#[test]
fn matching_passwords_yield_symmetric_keys() {
    let (key, n, e) = test_keypair();
    let mut vault = KeyVault::new();
    connect_with_key(&mut vault, key, n.clone(), e.clone());
    let (a_priv, a_pub, a_salt) = initiator_begin_exchange().unwrap();
    let req = make_verify_request(&n, &e, &b"secret123".to_vec(), a_pub, a_salt.clone()).unwrap();
    let (reply, b_keys) =
        key_exchange_and_verify_password(&mut vault, &req, &Some(b"secret123".to_vec())).unwrap();
    assert!(reply.success);
    assert_eq!(reply.exchange_pub_key.len(), 32);
    assert_eq!(reply.exchange_salt.len(), 32);
    let b_keys = b_keys.unwrap();
    let a_keys = initiator_complete_exchange(a_priv, &a_salt, &reply).unwrap().unwrap();
    // each side's sealing key is the other side's opening key
    assert_eq!(a_keys.send_key, b_keys.recv_key);
    assert_eq!(a_keys.recv_key, b_keys.send_key);
    // the derivation produced two distinct 256-bit keys
    assert_eq!(a_keys.send_key.len(), 32);
    assert_eq!(a_keys.recv_key.len(), 32);
    assert_ne!(a_keys.send_key, a_keys.recv_key);
}

#[test]
fn end_to_end_pairing_then_media_call() {
    // device A pairs with device B, then issues a media-transmission call
    // over the freshly keyed transport
    let (key, n, e) = test_keypair();
    let mut vault = KeyVault::new();

    // connect step: B hands A its public key
    let connect_reply = connect_with_key(&mut vault, key, n, e);

    // verify step with password "secret123"
    let (a_priv, a_pub, a_salt) = initiator_begin_exchange().unwrap();
    let req = make_verify_request(
        &connect_reply.pub_key_n,
        &connect_reply.pub_key_e,
        &b"secret123".to_vec(),
        a_pub,
        a_salt.clone(),
    )
    .unwrap();
    let (reply, b_keys) =
        key_exchange_and_verify_password(&mut vault, &req, &Some(b"secret123".to_vec())).unwrap();
    assert!(reply.success);
    let b_keys = b_keys.unwrap();
    let a_keys = initiator_complete_exchange(a_priv, &a_salt, &reply).unwrap().unwrap();

    // both sides install their cipher pairs
    let mut a_ep = EndPoint::new("device-a".to_string(), "device-b".to_string());
    let mut a_sealing = SealingCipher::new(a_keys.send_key, 0);
    let mut a_opening = OpeningCipher::new(a_keys.recv_key, 0);
    let mut b_sealing = SealingCipher::new(b_keys.send_key, 0);
    let mut b_opening = OpeningCipher::new(b_keys.recv_key, 0);

    // A issues the call
    let call_id = a_ep
        .begin_call(
            EndPointMessage::StartMediaTransmissionRequest(StartMediaTransmissionRequest {
                expect_fps: 60,
            }),
            1,
        )
        .unwrap();
    let plain = a_ep.next_outbound().unwrap();
    let request_packet = mirrorx_core::codec::decode_packet(&plain).unwrap();
    let frame = a_sealing.seal_packet(&request_packet).unwrap();

    // B receives, decrypts and answers under the same call id
    let (cipher_payload, _) = split_frame(&frame).unwrap().unwrap();
    let received = b_opening.open_packet(&cipher_payload).unwrap();
    assert_eq!(received.call_id, Some(call_id));
    let answer = EndPointMessagePacket::new(
        received.call_id,
        EndPointMessage::StartMediaTransmissionReply(StartMediaTransmissionReply {
            screen_width: 1920,
            screen_height: 1080,
        }),
    );
    let frame_back = b_sealing.seal_packet(&answer).unwrap();

    // A decrypts the reply and routes it to the waiting caller
    let (cipher_payload_back, _) = split_frame(&frame_back).unwrap().unwrap();
    let reply_packet = a_opening.open_packet(&cipher_payload_back).unwrap();
    match a_ep.dispatch_packet(reply_packet) {
        Dispatch::Reply { call_id: routed_id, slot, message } => {
            assert_eq!(routed_id, call_id);
            assert_eq!(slot, 1);
            let typed = EndPoint::start_media_transmission_outcome(message).unwrap();
            assert_eq!(typed.screen_width, 1920);
            assert_eq!(typed.screen_height, 1080);
        }
        Dispatch::Unsolicited { .. } => panic!("reply did not reach its caller"),
    }
}

#[test]
fn derivation_is_deterministic_in_salts_and_secret() {
    let secret = vec![7u8; 32];
    let salt_a = vec![1u8; 32];
    let salt_b = vec![2u8; 32];
    let k1 = derive_session_keys(&secret, &salt_a, &salt_b).unwrap();
    let k2 = derive_session_keys(&secret, &salt_a, &salt_b).unwrap();
    assert_eq!(k1.send_key, k2.send_key);
    assert_eq!(k1.recv_key, k2.recv_key);
    // the derived keys are not the raw secret handed through
    assert_ne!(k1.send_key, secret);
    assert_ne!(k1.recv_key, secret);
    assert_ne!(k1.send_key, k1.recv_key);
}

#[test]
fn finish_verify_ties_success_to_the_comparison() {
    let (_, a_pub, a_salt) = initiator_begin_exchange().unwrap();
    // mismatch: the negative reply, no key material, no error
    let (reply, keys) = finish_verify(
        &b"wrong".to_vec(),
        &b"secret123".to_vec(),
        &a_pub,
        &a_salt,
    )
    .unwrap();
    assert!(!reply.success);
    assert!(reply.exchange_pub_key.is_empty());
    assert!(reply.exchange_salt.is_empty());
    assert!(keys.is_none());
    // match: a positive reply carrying fresh material and derived keys
    let (reply, keys) = finish_verify(
        &b"secret123".to_vec(),
        &b"secret123".to_vec(),
        &a_pub,
        &a_salt,
    )
    .unwrap();
    assert!(reply.success);
    assert_eq!(reply.exchange_pub_key.len(), 32);
    assert_eq!(reply.exchange_salt.len(), 32);
    let keys = keys.unwrap();
    assert_eq!(keys.send_key.len(), 32);
    assert_eq!(keys.recv_key.len(), 32);
}

#[test]
fn connect_reply_has_full_modulus_and_accepted_exponent() {
    // the real 4096-bit connect step is too slow for a test; the same
    // contract facts are checked here on the parts a small keypair yields
    let (_, n, e) = test_keypair();
    assert!(n.len() >= 11);
    assert!(*n.last().unwrap() != 0);
    // e is 65537, inside the range the request builder needs
    assert_eq!(e, vec![1, 0, 1]);
}
