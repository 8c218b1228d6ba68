//! The two-step pairing handshake: a connect step that hands out a fresh
//! password-verification public key, and a verify step that checks the
//! password byte-for-byte and, on a match, agrees on X25519 key material and
//! derives the two directional session keys via HKDF-SHA512.

use vstd::prelude::*;
use crate::error::CoreError;
use crate::packet::{ConnectReply, KeyExchangeAndVerifyPasswordReply, KeyExchangeAndVerifyPasswordRequest};

verus! {

/// Modulus size of the password-verification keypair.
pub const RSA_KEY_BITS: usize = 4096;

/// The private half of the password-verification keypair; opaque, carried
/// between the connect and verify steps.
#[verifier::external_type_specification]
#[verifier::external_body]
pub struct ExRsaPrivateKey(rsa::RsaPrivateKey);

/// An X25519 ephemeral private key; opaque, consumed by one agreement.
#[verifier::external_type_specification]
#[verifier::external_body]
pub struct ExEphemeralPrivateKey(ring::agreement::EphemeralPrivateKey);

/// What HKDF-SHA512 extract-and-expand yields for a salt and input keying
/// material, expanded to one 256-bit ChaCha20-Poly1305 key. Deterministic in
/// its arguments; stated only through the trusted item below.
pub uninterp spec fn hkdf_key(salt: Seq<u8>, secret: Seq<u8>) -> Seq<u8>;

/// Relies on rsa's `RsaPrivateKey::new`, `RsaPublicKey::from` and
/// `PublicKeyParts::{n, e}`: a fresh keypair from the thread's secure
/// generator, with its public modulus and exponent little-endian.
/// Generation retries until the modulus has exactly the requested number of
/// bits, so its encoding fills the full byte width with no high zero bytes,
/// and the public exponent is the fixed 65537, inside the range rsa itself
/// accepts.
#[verifier::external_body]
fn rsa_generate_with_parts(bits: usize) -> (r: Result<(rsa::RsaPrivateKey, Vec<u8>, Vec<u8>), CoreError>)
    requires
        bits >= 128,
        bits % 8 == 0,
    ensures
        r matches Ok(t) ==> t.1@.len() == bits / 8
            && rsa_modulus_len(t.1@) == bits / 8
            && rsa_exponent_ok(t.2@),
        r matches Err(e) ==> e == CoreError::Crypto,
{
    let mut rng = rand::thread_rng();
    let key = match rsa::RsaPrivateKey::new(&mut rng, bits) {
        Ok(k) => k,
        Err(_) => return Err(CoreError::Crypto),
    };
    let pub_key = rsa::RsaPublicKey::from(&key);
    let n = rsa::PublicKeyParts::n(&pub_key).to_bytes_le();
    let e = rsa::PublicKeyParts::e(&pub_key).to_bytes_le();
    Ok((key, n, e))
}

/// Significant length of a little-endian byte string: its length without
/// high-order zero bytes. For an RSA modulus this is the key size in bytes.
pub open spec fn rsa_modulus_len(n: Seq<u8>) -> int
    decreases n.len(),
{
    if n.len() == 0 {
        0
    } else if n.last() == 0 {
        rsa_modulus_len(n.drop_last())
    } else {
        n.len() as int
    }
}

/// The integer a little-endian byte string denotes.
pub open spec fn le_bytes_value(s: Seq<u8>) -> int
    decreases s.len(),
{
    if s.len() == 0 {
        0
    } else {
        s[0] + 0x100 * le_bytes_value(s.skip(1))
    }
}

/// The public exponents rsa accepts: at least 2 and at most 2^30.
pub open spec fn rsa_exponent_ok(e: Seq<u8>) -> bool {
    2 <= le_bytes_value(e) <= 0x4000_0000
}

/// Relies on rsa's `RsaPublicKey::new` and `PublicKey::encrypt` with
/// PKCS#1 v1.5 padding. The padding is drawn from the thread's secure
/// generator, so nothing is promised of the ciphertext bytes. A modulus
/// shorter than the 11-byte padding overhead would underflow inside the
/// padder, so such moduli are excluded here; with an acceptable exponent
/// and a message that fits the modulus minus the overhead, encryption
/// succeeds.
#[verifier::external_body]
fn rsa_encrypt(pub_key_n: &Vec<u8>, pub_key_e: &Vec<u8>, msg: &Vec<u8>) -> (r: Result<Vec<u8>, CoreError>)
    requires
        rsa_modulus_len(pub_key_n@) >= 11,
    ensures
        r matches Err(e) ==> e == CoreError::Crypto,
        rsa_exponent_ok(pub_key_e@) && msg@.len() + 11 <= rsa_modulus_len(pub_key_n@) ==> r is Ok,
{
    let n = rsa::BigUint::from_bytes_le(pub_key_n.as_slice());
    let e = rsa::BigUint::from_bytes_le(pub_key_e.as_slice());
    let pub_key = match rsa::RsaPublicKey::new(n, e) {
        Ok(k) => k,
        Err(_) => return Err(CoreError::Crypto),
    };
    let mut rng = rand::thread_rng();
    match rsa::PublicKey::encrypt(&pub_key, &mut rng, rsa::PaddingScheme::PKCS1v15Encrypt, msg.as_slice()) {
        Ok(c) => Ok(c),
        Err(_) => Err(CoreError::Crypto),
    }
}

/// Relies on rsa's `RsaPrivateKey::decrypt` with PKCS#1 v1.5 padding:
/// fails closed on malformed ciphertext or padding.
#[verifier::external_body]
fn rsa_decrypt(key: &rsa::RsaPrivateKey, ciphertext: &Vec<u8>) -> (r: Result<Vec<u8>, CoreError>)
    ensures
        r matches Err(e) ==> e == CoreError::Crypto,
{
    match key.decrypt(rsa::PaddingScheme::PKCS1v15Encrypt, ciphertext.as_slice()) {
        Ok(p) => Ok(p),
        Err(_) => Err(CoreError::Crypto),
    }
}

/// Relies on ring's `EphemeralPrivateKey::generate` and
/// `compute_public_key` for X25519: a fresh keypair; the public value is the
/// curve's 32-byte point encoding.
#[verifier::external_body]
fn x25519_generate() -> (r: Result<(ring::agreement::EphemeralPrivateKey, Vec<u8>), CoreError>)
    ensures
        r matches Ok(t) ==> t.1@.len() == 32,
        r matches Err(e) ==> e == CoreError::Crypto,
{
    let rng = ring::rand::SystemRandom::new();
    let priv_key = match ring::agreement::EphemeralPrivateKey::generate(&ring::agreement::X25519, &rng) {
        Ok(k) => k,
        Err(_) => return Err(CoreError::Crypto),
    };
    match priv_key.compute_public_key() {
        Ok(p) => {
            let bytes = p.as_ref().to_vec();
            Ok((priv_key, bytes))
        }
        Err(_) => Err(CoreError::Crypto),
    }
}

/// Relies on ring's `SystemRandom` via `SecureRandom::fill`: 32 fresh
/// random bytes; nothing is promised of their values.
#[verifier::external_body]
fn random_salt() -> (r: Result<Vec<u8>, CoreError>)
    ensures
        r matches Ok(s) ==> s@.len() == 32,
        r matches Err(e) ==> e == CoreError::Crypto,
{
    let rng = ring::rand::SystemRandom::new();
    let mut salt = vec![0u8; 32];
    match ring::rand::SecureRandom::fill(&rng, &mut salt) {
        Ok(()) => Ok(salt),
        Err(_) => Err(CoreError::Crypto),
    }
}

/// Relies on ring's `agree_ephemeral` for X25519: the 32-byte shared
/// secret of the consumed private key and the peer's public value; fails on
/// an invalid peer point.
#[verifier::external_body]
fn x25519_agree(my_priv: ring::agreement::EphemeralPrivateKey, their_pub: &Vec<u8>) -> (r: Result<Vec<u8>, CoreError>)
    ensures
        r matches Ok(s) ==> s@.len() == 32,
        r matches Err(e) ==> e == CoreError::Crypto,
{
    let peer = ring::agreement::UnparsedPublicKey::new(&ring::agreement::X25519, their_pub.as_slice());
    ring::agreement::agree_ephemeral(my_priv, &peer, CoreError::Crypto, |km: &[u8]| Ok(km.to_vec()))
}

/// Relies on ring's `hkdf::Salt::new(HKDF_SHA512, ..)`, `extract`,
/// `expand` and `Okm::fill`: deterministic in salt and keying material,
/// expanded to the ChaCha20-Poly1305 key length of 32 bytes. `expand` fails
/// only above 255 times the digest length and `fill` only on a length
/// mismatch, so at this fixed 32-byte output the derivation succeeds.
#[verifier::external_body]
fn hkdf_derive(salt: &Vec<u8>, secret: &Vec<u8>) -> (r: Result<Vec<u8>, CoreError>)
    ensures
        r is Ok,
        r matches Ok(k) ==> k@ == hkdf_key(salt@, secret@) && k@.len() == 32,
{
    let prk = ring::hkdf::Salt::new(ring::hkdf::HKDF_SHA512, salt.as_slice()).extract(secret.as_slice());
    let okm = match prk.expand(&[b""], &ring::aead::CHACHA20_POLY1305) {
        Ok(o) => o,
        Err(_) => return Err(CoreError::Crypto),
    };
    let mut key = vec![0u8; 32];
    match okm.fill(&mut key) {
        Ok(()) => Ok(key),
        Err(_) => Err(CoreError::Crypto),
    }
}

/// The per-peer cache slot for the password-verification private key:
/// written by the connect step, consumed exactly once by the verify step.
pub struct KeyVault {
    slot: Option<rsa::RsaPrivateKey>,
}

impl KeyVault {
    pub closed spec fn stored(&self) -> Option<rsa::RsaPrivateKey> {
        self.slot
    }

    pub open spec fn is_full(&self) -> bool {
        self.stored() is Some
    }

    pub fn new() -> (r: Self)
        ensures
            !r.is_full(),
    {
        Self { slot: None }
    }

    /// Cache a fresh private key, overwriting any stale one.
    pub fn set(&mut self, key: rsa::RsaPrivateKey)
        ensures
            final(self).stored() == Some(key),
    {
        self.slot = Some(key);
    }

    /// Take the cached key out; the slot is empty afterwards, so a second
    /// take yields nothing — the consume-once discipline.
    pub fn take(&mut self) -> (r: Option<rsa::RsaPrivateKey>)
        ensures
            !final(self).is_full(),
            r == old(self).stored(),
    {
        let mut taken: Option<rsa::RsaPrivateKey> = None;
        core::mem::swap(&mut taken, &mut self.slot);
        taken
    }
}

/// The two directional 256-bit AEAD keys a successful handshake yields.
#[derive(Clone, Debug)]
pub struct SessionKeys {
    pub send_key: Vec<u8>,
    pub recv_key: Vec<u8>,
}

/// The responder's derivation: the send key is keyed by the initiator's
/// salt, the recv key by the responder's own salt.
pub open spec fn responder_key_pair(secret: Seq<u8>, initiator_salt: Seq<u8>, responder_salt: Seq<u8>) -> (Seq<u8>, Seq<u8>) {
    (hkdf_key(initiator_salt, secret), hkdf_key(responder_salt, secret))
}

/// The initiator's mirrored derivation: the send key is keyed by the
/// responder's salt, the recv key by the initiator's own salt.
pub open spec fn initiator_key_pair(secret: Seq<u8>, initiator_salt: Seq<u8>, responder_salt: Seq<u8>) -> (Seq<u8>, Seq<u8>) {
    (hkdf_key(responder_salt, secret), hkdf_key(initiator_salt, secret))
}

/// Law (key symmetry): on one shared secret and one pair of salts, each
/// side's sealing key is the other side's opening key.
pub proof fn lemma_key_symmetry(secret: Seq<u8>, initiator_salt: Seq<u8>, responder_salt: Seq<u8>)
    ensures
        initiator_key_pair(secret, initiator_salt, responder_salt).0
            == responder_key_pair(secret, initiator_salt, responder_salt).1,
        initiator_key_pair(secret, initiator_salt, responder_salt).1
            == responder_key_pair(secret, initiator_salt, responder_salt).0,
{
}

/// Derive the responder's directional keys from an agreed secret.
pub fn derive_session_keys(secret: &Vec<u8>, initiator_salt: &Vec<u8>, responder_salt: &Vec<u8>) -> (r: Result<
    SessionKeys,
    CoreError,
>)
    ensures
        r is Ok,
        r matches Ok(k) ==> k.send_key@ == responder_key_pair(secret@, initiator_salt@, responder_salt@).0
            && k.recv_key@ == responder_key_pair(secret@, initiator_salt@, responder_salt@).1
            && k.send_key@.len() == 32 && k.recv_key@.len() == 32,
{
    let send_key = match hkdf_derive(initiator_salt, secret) {
        Ok(k) => k,
        Err(e) => {
            return Err(e);
        }
    };
    let recv_key = match hkdf_derive(responder_salt, secret) {
        Ok(k) => k,
        Err(e) => {
            return Err(e);
        }
    };
    Ok(SessionKeys { send_key, recv_key })
}

/// Derive the initiator's directional keys from an agreed secret.
pub fn derive_initiator_session_keys(secret: &Vec<u8>, initiator_salt: &Vec<u8>, responder_salt: &Vec<u8>) -> (r: Result<
    SessionKeys,
    CoreError,
>)
    ensures
        r is Ok,
        r matches Ok(k) ==> k.send_key@ == initiator_key_pair(secret@, initiator_salt@, responder_salt@).0
            && k.recv_key@ == initiator_key_pair(secret@, initiator_salt@, responder_salt@).1
            && k.send_key@.len() == 32 && k.recv_key@.len() == 32,
{
    let send_key = match hkdf_derive(responder_salt, secret) {
        Ok(k) => k,
        Err(e) => {
            return Err(e);
        }
    };
    let recv_key = match hkdf_derive(initiator_salt, secret) {
        Ok(k) => k,
        Err(e) => {
            return Err(e);
        }
    };
    Ok(SessionKeys { send_key, recv_key })
}

/// The significant byte length of a little-endian modulus encoding.
fn rsa_modulus_size(n: &Vec<u8>) -> (r: usize)
    ensures
        r as int == rsa_modulus_len(n@),
{
    proof {
        assert(n@.take(n@.len() as int) =~= n@);
    }
    let mut len: usize = n.len();
    while len > 0 && n[len - 1] == 0
        invariant
            len <= n@.len(),
            rsa_modulus_len(n@) == rsa_modulus_len(n@.take(len as int)),
        decreases len,
    {
        proof {
            assert(n@.take(len as int).last() == n@[len as int - 1]);
            assert(n@.take(len as int).drop_last() =~= n@.take(len as int - 1));
        }
        len = len - 1;
    }
    proof {
        if len > 0 {
            assert(n@.take(len as int).last() == n@[len as int - 1]);
        }
    }
    len
}

/// Byte-for-byte comparison of the decrypted password against the stored
/// one.
fn bytes_equal(a: &Vec<u8>, b: &Vec<u8>) -> (r: bool)
    ensures
        r == (a@ == b@),
{
    if a.len() != b.len() {
        assert(a@ != b@);
        return false;
    }
    let mut i: usize = 0;
    while i < a.len()
        invariant
            i <= a@.len(),
            a@.len() == b@.len(),
            forall|k: int| 0 <= k < i ==> a@[k] == b@[k],
        decreases a@.len() - i,
    {
        if a[i] != b[i] {
            assert(a@[i as int] != b@[i as int]);
            return false;
        }
        i = i + 1;
    }
    proof {
        assert(a@ =~= b@);
    }
    true
}

/// Respond to a pairing connect step: generate a fresh 4096-bit
/// password-verification keypair, cache the private half for the verify
/// step, and hand back the public modulus and exponent. The returned parts
/// have the full 512-byte modulus and an exponent in rsa's accepted range —
/// exactly what `make_verify_request` needs to owe success to the
/// initiator.
pub fn connect(vault: &mut KeyVault) -> (r: Result<ConnectReply, CoreError>)
    ensures
        r is Ok ==> final(vault).is_full(),
        r matches Ok(rep) ==> rep.pub_key_n@.len() == RSA_KEY_BITS as int / 8
            && rsa_modulus_len(rep.pub_key_n@) == RSA_KEY_BITS as int / 8
            && rsa_exponent_ok(rep.pub_key_e@),
        r matches Err(e) ==> e == CoreError::Crypto
            && final(vault).stored() == old(vault).stored(),
{
    let (key, pub_key_n, pub_key_e) = match rsa_generate_with_parts(RSA_KEY_BITS) {
        Ok(t) => t,
        Err(e) => {
            return Err(e);
        }
    };
    let reply = connect_with_key(vault, key, pub_key_n, pub_key_e);
    Ok(reply)
}

/// The connect step with a caller-supplied keypair: caches the private half
/// and returns the public parts it is given. `connect` is this with a fresh
/// 4096-bit keypair.
pub fn connect_with_key(vault: &mut KeyVault, key: rsa::RsaPrivateKey, pub_key_n: Vec<u8>, pub_key_e: Vec<u8>) -> (r: ConnectReply)
    ensures
        final(vault).stored() == Some(key),
        r.pub_key_n@ == pub_key_n@,
        r.pub_key_e@ == pub_key_e@,
{
    vault.set(key);
    ConnectReply { pub_key_n, pub_key_e }
}

/// Complete the verify step once the password secret has been decrypted:
/// compare it byte-for-byte against the stored password; on a mismatch
/// answer the well-formed negative reply with no key material, and on a
/// match generate fresh X25519 material and a fresh salt, agree with the
/// initiator's public value and derive the two directional keys. The reply
/// says success exactly when the decrypted bytes equal the stored password.
pub fn finish_verify(
    req_password: &Vec<u8>,
    local_password: &Vec<u8>,
    initiator_pub: &Vec<u8>,
    initiator_salt: &Vec<u8>,
) -> (r: Result<(KeyExchangeAndVerifyPasswordReply, Option<SessionKeys>), CoreError>)
    ensures
        r matches Ok(t) ==> (t.0.success <==> req_password@ == local_password@),
        req_password@ != local_password@ ==> (r matches Ok(t) && !t.0.success),
        r matches Ok(t) ==> (t.0.success <==> t.1 is Some)
            && (!t.0.success ==> t.0.exchange_pub_key@.len() == 0 && t.0.exchange_salt@.len() == 0)
            && (t.0.success ==> t.0.exchange_pub_key@.len() == 32 && t.0.exchange_salt@.len() == 32
                && (t.1 matches Some(k) && k.send_key@.len() == 32 && k.recv_key@.len() == 32
                    && (exists|secret: Seq<u8>|
                        k.send_key@ == #[trigger] hkdf_key(initiator_salt@, secret)
                            && k.recv_key@ == hkdf_key(t.0.exchange_salt@, secret)))),
        r matches Err(e) ==> e == CoreError::Crypto && req_password@ == local_password@,
{
    if !bytes_equal(req_password, local_password) {
        let reply = KeyExchangeAndVerifyPasswordReply {
            success: false,
            exchange_pub_key: Vec::new(),
            exchange_salt: Vec::new(),
        };
        return Ok((reply, None));
    }
    let (local_private_key, exchange_pub_key) = match x25519_generate() {
        Ok(t) => t,
        Err(e) => {
            return Err(e);
        }
    };
    let exchange_salt = match random_salt() {
        Ok(s) => s,
        Err(e) => {
            return Err(e);
        }
    };
    let secret = match x25519_agree(local_private_key, initiator_pub) {
        Ok(s) => s,
        Err(e) => {
            return Err(e);
        }
    };
    let keys = match derive_session_keys(&secret, initiator_salt, &exchange_salt) {
        Ok(k) => k,
        Err(e) => {
            return Err(e);
        }
    };
    let reply = KeyExchangeAndVerifyPasswordReply { success: true, exchange_pub_key, exchange_salt };
    proof {
        assert(keys.send_key@ == hkdf_key(initiator_salt@, secret@)
            && keys.recv_key@ == hkdf_key(reply.exchange_salt@, secret@));
        assert(exists|sec: Seq<u8>|
            keys.send_key@ == #[trigger] hkdf_key(initiator_salt@, sec)
                && keys.recv_key@ == hkdf_key(reply.exchange_salt@, sec));
    }
    Ok((reply, Some(keys)))
}

/// The responder's verify step. The locally configured password must be
/// present and the cached private key is consumed exactly once; the
/// decrypted secret is then judged by `finish_verify`, whose contract ties
/// the reply's success flag to the byte-for-byte comparison: a mismatch is
/// a well-formed negative reply carrying no key material, not an error,
/// and a match derives the send key from the initiator's salt and the recv
/// key from the fresh salt echoed in the reply.
pub fn key_exchange_and_verify_password(
    vault: &mut KeyVault,
    req: &KeyExchangeAndVerifyPasswordRequest,
    local_password: &Option<Vec<u8>>,
) -> (r: Result<(KeyExchangeAndVerifyPasswordReply, Option<SessionKeys>), CoreError>)
    ensures
        local_password is None ==> (r matches Err(e) && e == CoreError::PasswordNotSet
            && final(vault).stored() == old(vault).stored()),
        local_password is Some && !old(vault).is_full() ==> (r matches Err(e)
            && e == CoreError::MissingRegistration),
        local_password is Some ==> !final(vault).is_full(),
        r matches Err(e) ==> (e == CoreError::PasswordNotSet || e == CoreError::MissingRegistration
            || e == CoreError::Crypto),
        r matches Err(e) ==> (e == CoreError::PasswordNotSet ==> local_password is None),
        r matches Err(e) ==> (e == CoreError::MissingRegistration ==> local_password is Some
            && !old(vault).is_full()),
        r matches Ok(t) ==> local_password is Some && old(vault).is_full()
            && (t.0.success <==> t.1 is Some)
            && (!t.0.success ==> t.0.exchange_pub_key@.len() == 0 && t.0.exchange_salt@.len() == 0)
            && (t.0.success ==> t.0.exchange_pub_key@.len() == 32 && t.0.exchange_salt@.len() == 32
                && (t.1 matches Some(k) && k.send_key@.len() == 32 && k.recv_key@.len() == 32
                    && (exists|secret: Seq<u8>|
                        k.send_key@ == #[trigger] hkdf_key(req.exchange_salt@, secret)
                            && k.recv_key@ == hkdf_key(t.0.exchange_salt@, secret)))),
{
    let password = match local_password {
        Some(p) => p,
        None => {
            return Err(CoreError::PasswordNotSet);
        }
    };
    let priv_key = match vault.take() {
        Some(k) => k,
        None => {
            return Err(CoreError::MissingRegistration);
        }
    };
    let req_password = match rsa_decrypt(&priv_key, &req.password_secret) {
        Ok(p) => p,
        Err(e) => {
            return Err(e);
        }
    };
    finish_verify(&req_password, password, &req.exchange_pub_key, &req.exchange_salt)
}

/// The initiator's opening move of the verify step: a fresh X25519 keypair
/// and a fresh 32-byte salt.
pub fn initiator_begin_exchange() -> (r: Result<(ring::agreement::EphemeralPrivateKey, Vec<u8>, Vec<u8>), CoreError>)
    ensures
        r matches Ok(t) ==> t.1@.len() == 32 && t.2@.len() == 32,
        r matches Err(e) ==> e == CoreError::Crypto,
{
    let (priv_key, pub_key) = match x25519_generate() {
        Ok(t) => t,
        Err(e) => {
            return Err(e);
        }
    };
    let salt = match random_salt() {
        Ok(s) => s,
        Err(e) => {
            return Err(e);
        }
    };
    Ok((priv_key, pub_key, salt))
}

/// Build the initiator's verify request: the password encrypted under the
/// responder's public key, alongside the initiator's ephemeral public value
/// and salt.
pub fn make_verify_request(
    pub_key_n: &Vec<u8>,
    pub_key_e: &Vec<u8>,
    password: &Vec<u8>,
    exchange_pub_key: Vec<u8>,
    exchange_salt: Vec<u8>,
) -> (r: Result<KeyExchangeAndVerifyPasswordRequest, CoreError>)
    ensures
        r matches Ok(q) ==> q.exchange_pub_key@ == exchange_pub_key@
            && q.exchange_salt@ == exchange_salt@,
        r matches Err(e) ==> e == CoreError::Crypto,
        rsa_exponent_ok(pub_key_e@) && password@.len() + 11 <= rsa_modulus_len(pub_key_n@)
            ==> r is Ok,
{
    if rsa_modulus_size(pub_key_n) < 11 {
        return Err(CoreError::Crypto);
    }
    let password_secret = match rsa_encrypt(pub_key_n, pub_key_e, password) {
        Ok(c) => c,
        Err(e) => {
            return Err(e);
        }
    };
    Ok(KeyExchangeAndVerifyPasswordRequest { password_secret, exchange_pub_key, exchange_salt })
}

/// The initiator's closing move: a negative reply carries no key material
/// and yields none; a positive reply is completed by agreement with the
/// responder's ephemeral public value and the mirrored derivation.
pub fn initiator_complete_exchange(
    my_priv: ring::agreement::EphemeralPrivateKey,
    my_salt: &Vec<u8>,
    reply: &KeyExchangeAndVerifyPasswordReply,
) -> (r: Result<Option<SessionKeys>, CoreError>)
    ensures
        !reply.success ==> (r matches Ok(o) && o is None),
        reply.success ==> (r matches Ok(o) ==> o is Some),
        r matches Ok(o) ==> (o matches Some(k) ==> reply.success
            && k.send_key@.len() == 32 && k.recv_key@.len() == 32
            && (exists|secret: Seq<u8>|
                k.send_key@ == #[trigger] hkdf_key(reply.exchange_salt@, secret)
                    && k.recv_key@ == hkdf_key(my_salt@, secret))),
        r matches Err(e) ==> e == CoreError::Crypto && reply.success,
{
    if !reply.success {
        return Ok(None);
    }
    let secret = match x25519_agree(my_priv, &reply.exchange_pub_key) {
        Ok(s) => s,
        Err(e) => {
            return Err(e);
        }
    };
    let keys = match derive_initiator_session_keys(&secret, my_salt, &reply.exchange_salt) {
        Ok(k) => k,
        Err(e) => {
            return Err(e);
        }
    };
    proof {
        assert(keys.send_key@ == hkdf_key(reply.exchange_salt@, secret@)
            && keys.recv_key@ == hkdf_key(my_salt@, secret@));
        assert(exists|sec: Seq<u8>|
            keys.send_key@ == #[trigger] hkdf_key(reply.exchange_salt@, sec)
                && keys.recv_key@ == hkdf_key(my_salt@, sec));
    }
    Ok(Some(keys))
}

} // verus!
