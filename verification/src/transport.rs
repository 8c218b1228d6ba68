//! The secure transport: 4-byte little-endian length framing around AEAD
//! ciphertexts, one sealing context and one opening context per connection,
//! each bound to its own 256-bit key and nonce sequencer.

use vstd::prelude::*;
use crate::codec::{
    decode_packet, dec_packet, enc_packet, enc_u32, encode_packet, le32_val, packet_encodable,
    push_u32, take_u32,
};
use crate::error::CoreError;
use crate::nonce::{emitted_nonce, NonceValue, NONCE_SPACE};
use crate::packet::EndPointMessagePacket;

verus! {

/// Longest frame payload the transport accepts: 16 MiB.
pub const MAX_FRAME_LEN: usize = 16 * 1024 * 1024;

/// Bytes of AEAD authentication tag appended to each sealed payload.
pub const AEAD_TAG_LEN: usize = 16;

/// What ChaCha20-Poly1305 sealing produces for a key, nonce and plaintext:
/// the ciphertext with its 16-byte tag appended. Deterministic in its
/// arguments; stated only through the trusted items below.
pub uninterp spec fn aead_sealed(key: Seq<u8>, nonce: Seq<u8>, plain: Seq<u8>) -> Seq<u8>;

/// What ChaCha20-Poly1305 opening yields for a key, nonce and ciphertext:
/// the authenticated plaintext, or nothing when authentication fails.
pub uninterp spec fn aead_opened(key: Seq<u8>, nonce: Seq<u8>, cipher: Seq<u8>) -> Option<Seq<u8>>;

/// A correctly sealed, framed payload: the ciphertext carries its tag, fits
/// the frame cap, sits behind its length prefix, and opens back to the
/// plaintext under the same key and nonce.
pub open spec fn well_sealed(key: Seq<u8>, nonce: Seq<u8>, plain: Seq<u8>, frame: Seq<u8>) -> bool {
    let c = aead_sealed(key, nonce, plain);
    c.len() == plain.len() + AEAD_TAG_LEN
        && c.len() <= MAX_FRAME_LEN
        && frame == enc_u32(c.len() as u32) + c
        && aead_opened(key, nonce, c) == Some(plain)
}

/// Relies on ring's `LessSafeKey::seal_in_place_append_tag` with
/// `CHACHA20_POLY1305` and empty associated data: deterministic in key, nonce
/// and plaintext; appends the 16-byte tag; what it seals, `open_in_place`
/// under the same key and nonce authenticates back to the same plaintext;
/// and it fails only above the cipher's per-nonce input limit of
/// (2^32 - 1) * 64 bytes.
#[verifier::external_body]
fn aead_seal(key: &Vec<u8>, nonce: &Vec<u8>, plain: &Vec<u8>) -> (r: Result<Vec<u8>, CoreError>)
    requires
        key@.len() == 32,
        nonce@.len() == 12,
    ensures
        r matches Ok(c) ==> c@ == aead_sealed(key@, nonce@, plain@)
            && c@.len() == plain@.len() + AEAD_TAG_LEN
            && aead_opened(key@, nonce@, c@) == Some(plain@),
        r matches Err(e) ==> e == CoreError::Crypto,
        plain@.len() <= 274877906880 ==> r is Ok,
{
    let unbound = match ring::aead::UnboundKey::new(&ring::aead::CHACHA20_POLY1305, key.as_slice()) {
        Ok(k) => k,
        Err(_) => return Err(CoreError::Crypto),
    };
    let sealing = ring::aead::LessSafeKey::new(unbound);
    let n = match ring::aead::Nonce::try_assume_unique_for_key(nonce.as_slice()) {
        Ok(n) => n,
        Err(_) => return Err(CoreError::Crypto),
    };
    let mut buf = plain.clone();
    match sealing.seal_in_place_append_tag(n, ring::aead::Aad::empty(), &mut buf) {
        Ok(()) => Ok(buf),
        Err(_) => Err(CoreError::Crypto),
    }
}

/// Relies on ring's `LessSafeKey::open_in_place` with `CHACHA20_POLY1305`
/// and empty associated data: deterministic in key, nonce and ciphertext;
/// returns the plaintext exactly when the tag authenticates, and fails
/// closed otherwise.
#[verifier::external_body]
fn aead_open(key: &Vec<u8>, nonce: &Vec<u8>, cipher: &Vec<u8>) -> (r: Result<Vec<u8>, CoreError>)
    requires
        key@.len() == 32,
        nonce@.len() == 12,
    ensures
        r matches Ok(p) ==> aead_opened(key@, nonce@, cipher@) == Some(p@),
        r matches Err(e) ==> e == CoreError::Decrypt && aead_opened(key@, nonce@, cipher@) is None,
{
    let unbound = match ring::aead::UnboundKey::new(&ring::aead::CHACHA20_POLY1305, key.as_slice()) {
        Ok(k) => k,
        Err(_) => return Err(CoreError::Decrypt),
    };
    let opening = ring::aead::LessSafeKey::new(unbound);
    let n = match ring::aead::Nonce::try_assume_unique_for_key(nonce.as_slice()) {
        Ok(n) => n,
        Err(_) => return Err(CoreError::Decrypt),
    };
    let mut buf = cipher.clone();
    match opening.open_in_place(n, ring::aead::Aad::empty(), &mut buf) {
        Ok(p) => Ok(p.to_vec()),
        Err(_) => Err(CoreError::Decrypt),
    }
}

/// Law (transport round trip): sealing a packet's encoding and opening it
/// back — which the AEAD contract guarantees for the same key and nonce —
/// always decodes to the original packet. Tampered ciphertext never reaches
/// the decoder: opening fails closed instead.
pub proof fn lemma_transport_round_trip(key: Seq<u8>, nonce: Seq<u8>, p: crate::packet::PacketView)
    requires
        packet_encodable(p),
        aead_opened(key, nonce, aead_sealed(key, nonce, enc_packet(p))) == Some(enc_packet(p)),
    ensures
        (match aead_opened(key, nonce, aead_sealed(key, nonce, enc_packet(p))) {
            Some(pt) => dec_packet(pt) == Some(p),
            None => false,
        }),
{
    crate::codec::lemma_packet_round_trip(p);
}

// ---------------------------------------------------------------------------
// Length framing
// ---------------------------------------------------------------------------

/// Prefix a frame payload with its 4-byte little-endian length. Fails exactly
/// when the payload exceeds the maximum frame size.
pub fn encode_frame(payload: &Vec<u8>) -> (r: Result<Vec<u8>, CoreError>)
    ensures
        payload@.len() <= MAX_FRAME_LEN ==> (r matches Ok(f)
            && f@ == enc_u32(payload@.len() as u32) + payload@),
        payload@.len() > MAX_FRAME_LEN ==> (r matches Err(e) && e == CoreError::FrameTooLarge),
{
    if payload.len() > MAX_FRAME_LEN {
        return Err(CoreError::FrameTooLarge);
    }
    let mut out: Vec<u8> = Vec::new();
    push_u32(&mut out, payload.len() as u32);
    let ghost pre = out@;
    let mut i: usize = 0;
    while i < payload.len()
        invariant
            i <= payload@.len(),
            out@ == pre + payload@.subrange(0, i as int),
        decreases payload@.len() - i,
    {
        out.push(payload[i]);
        assert(out@ =~= pre + payload@.subrange(0, i as int + 1));
        i = i + 1;
    }
    assert(out@ =~= enc_u32(payload@.len() as u32) + payload@);
    Ok(out)
}

/// The length named by a buffered stream's first four bytes (meaningful when
/// at least four bytes are buffered).
pub open spec fn frame_len_of(s: Seq<u8>) -> int {
    le32_val(s[0], s[1], s[2], s[3])
}

/// Try to split one length-prefixed frame off the front of a read buffer.
/// `Ok(None)` asks for more bytes; an oversized length prefix is the fatal
/// framing error; otherwise the payload and the bytes consumed are returned.
pub fn split_frame(buf: &Vec<u8>) -> (r: Result<Option<(Vec<u8>, usize)>, CoreError>)
    ensures
        buf@.len() < 4 ==> (r matches Ok(o) && o is None),
        buf@.len() >= 4 && frame_len_of(buf@) > MAX_FRAME_LEN ==> (r matches Err(e)
            && e == CoreError::FrameTooLarge),
        buf@.len() >= 4 && frame_len_of(buf@) <= MAX_FRAME_LEN && buf@.len() < 4 + frame_len_of(buf@)
            ==> (r matches Ok(o) && o is None),
        buf@.len() >= 4 && frame_len_of(buf@) <= MAX_FRAME_LEN && buf@.len() >= 4 + frame_len_of(buf@)
            ==> (r matches Ok(o) && o matches Some(t)
                && t.0@ == buf@.subrange(4, 4 + frame_len_of(buf@))
                && t.1 == 4 + frame_len_of(buf@)),
{
    proof {
        assert(buf@.skip(0) =~= buf@);
    }
    let (n, p1) = match take_u32(buf, 0) {
        Some(t) => t,
        None => {
            return Ok(None);
        }
    };
    proof {
        assert(buf@.skip(p1 as int).len() == buf@.len() - p1);
        assert(p1 == 4);
        assert(0 <= le32_val(buf@[0], buf@[1], buf@[2], buf@[3]) < 0x1_0000_0000);
        assert(frame_len_of(buf@) == n as int);
    }
    if n as usize > MAX_FRAME_LEN {
        return Err(CoreError::FrameTooLarge);
    }
    if buf.len() - p1 < n as usize {
        return Ok(None);
    }
    let end = p1 + n as usize;
    let mut payload: Vec<u8> = Vec::new();
    let mut i: usize = p1;
    while i < end
        invariant
            p1 <= i <= end <= buf@.len(),
            payload@ == buf@.subrange(p1 as int, i as int),
        decreases end - i,
    {
        payload.push(buf[i]);
        assert(payload@ =~= buf@.subrange(p1 as int, i as int + 1));
        i = i + 1;
    }
    Ok(Some((payload, end)))
}

// ---------------------------------------------------------------------------
// Cipher contexts
// ---------------------------------------------------------------------------

/// The outbound half of a cipher pair: a 256-bit key and its own nonce
/// sequencer.
pub struct SealingCipher {
    key: Vec<u8>,
    nonce: NonceValue,
}

/// The inbound half of a cipher pair.
pub struct OpeningCipher {
    key: Vec<u8>,
    nonce: NonceValue,
}

impl SealingCipher {
    pub closed spec fn key(&self) -> Seq<u8> {
        self.key@
    }

    pub closed spec fn initial(&self) -> int {
        self.nonce.initial()
    }

    pub closed spec fn emitted(&self) -> int {
        self.nonce.emitted()
    }

    pub closed spec fn well_formed(&self) -> bool {
        self.key@.len() == 32 && self.nonce.well_formed()
    }

    pub fn new(key: Vec<u8>, initial_nonce: u64) -> (r: Self)
        requires
            key@.len() == 32,
        ensures
            r.well_formed(),
            r.key() == key@,
            r.initial() == initial_nonce as int,
            r.emitted() == 0,
    {
        Self { key, nonce: NonceValue::new(initial_nonce) }
    }

    /// Seal and frame one pre-serialized plaintext payload: the writer-side
    /// compute step. On success the frame holds the payload sealed under this
    /// direction's next nonce, and opening the sealed bytes with the same key
    /// and nonce gives the payload back.
    pub fn seal_payload(&mut self, plain: &Vec<u8>) -> (r: Result<Vec<u8>, CoreError>)
        requires
            old(self).well_formed(),
        ensures
            final(self).well_formed(),
            final(self).key() == old(self).key(),
            final(self).initial() == old(self).initial(),
            r matches Ok(f) ==> final(self).emitted() == old(self).emitted() + 1
                && well_sealed(
                    old(self).key(),
                    emitted_nonce(old(self).initial(), old(self).emitted() + 1),
                    plain@,
                    f@,
                ),
            r matches Err(e) ==> (e == CoreError::NonceExhausted || e == CoreError::Crypto
                || e == CoreError::FrameTooLarge),
            old(self).emitted() == NONCE_SPACE ==> (r matches Err(e)
                && e == CoreError::NonceExhausted)
                && final(self).emitted() == old(self).emitted(),
            old(self).emitted() < NONCE_SPACE ==> final(self).emitted() == old(self).emitted() + 1,
            old(self).emitted() < NONCE_SPACE && plain@.len() + AEAD_TAG_LEN <= MAX_FRAME_LEN
                ==> r is Ok,
    {
        let nb = match self.nonce.advance() {
            Ok(b) => b,
            Err(e) => {
                return Err(e);
            }
        };
        let sealed = match aead_seal(&self.key, &nb, plain) {
            Ok(c) => c,
            Err(e) => {
                return Err(e);
            }
        };
        encode_frame(&sealed)
    }

    /// Encode, seal and frame one outbound packet. On success the frame
    /// holds the sealed encoding under this direction's next nonce, and
    /// opening it with the same key and nonce gives the encoding back.
    pub fn seal_packet(&mut self, p: &EndPointMessagePacket) -> (r: Result<Vec<u8>, CoreError>)
        requires
            old(self).well_formed(),
        ensures
            final(self).well_formed(),
            final(self).key() == old(self).key(),
            final(self).initial() == old(self).initial(),
            r matches Ok(f) ==> packet_encodable(p@)
                && final(self).emitted() == old(self).emitted() + 1
                && well_sealed(
                    old(self).key(),
                    emitted_nonce(old(self).initial(), old(self).emitted() + 1),
                    enc_packet(p@),
                    f@,
                ),
            r matches Err(e) ==> (e == CoreError::Serialize || e == CoreError::NonceExhausted
                || e == CoreError::Crypto || e == CoreError::FrameTooLarge),
            old(self).emitted() == NONCE_SPACE && packet_encodable(p@) ==> (r matches Err(e)
                && e == CoreError::NonceExhausted)
                && final(self).emitted() == old(self).emitted(),
            !packet_encodable(p@) ==> final(self).emitted() == old(self).emitted(),
            old(self).emitted() < NONCE_SPACE && packet_encodable(p@)
                ==> final(self).emitted() == old(self).emitted() + 1,
            old(self).emitted() < NONCE_SPACE && packet_encodable(p@)
                && enc_packet(p@).len() + AEAD_TAG_LEN <= MAX_FRAME_LEN ==> r is Ok,
    {
        let plain = match encode_packet(p) {
            Ok(b) => b,
            Err(e) => {
                return Err(e);
            }
        };
        self.seal_payload(&plain)
    }
}

impl OpeningCipher {
    pub closed spec fn key(&self) -> Seq<u8> {
        self.key@
    }

    pub closed spec fn initial(&self) -> int {
        self.nonce.initial()
    }

    pub closed spec fn emitted(&self) -> int {
        self.nonce.emitted()
    }

    pub closed spec fn well_formed(&self) -> bool {
        self.key@.len() == 32 && self.nonce.well_formed()
    }

    pub fn new(key: Vec<u8>, initial_nonce: u64) -> (r: Self)
        requires
            key@.len() == 32,
        ensures
            r.well_formed(),
            r.key() == key@,
            r.initial() == initial_nonce as int,
            r.emitted() == 0,
    {
        Self { key, nonce: NonceValue::new(initial_nonce) }
    }

    /// Open and decode one inbound frame payload: the reader-side compute
    /// step. Authentication failure and decode failure are fatal to the
    /// connection and are reported as distinct kinds.
    pub fn open_packet(&mut self, cipher_payload: &Vec<u8>) -> (r: Result<EndPointMessagePacket, CoreError>)
        requires
            old(self).well_formed(),
        ensures
            final(self).well_formed(),
            final(self).key() == old(self).key(),
            final(self).initial() == old(self).initial(),
            old(self).emitted() < NONCE_SPACE ==> final(self).emitted() == old(self).emitted() + 1
                && (match aead_opened(
                    old(self).key(),
                    emitted_nonce(old(self).initial(), old(self).emitted() + 1),
                    cipher_payload@,
                ) {
                    Some(pt) => match dec_packet(pt) {
                        Some(pv) => r matches Ok(p) && p@ == pv,
                        None => r matches Err(e) && e == CoreError::Deserialize,
                    },
                    None => r matches Err(e) && e == CoreError::Decrypt,
                }),
            old(self).emitted() == NONCE_SPACE ==> (r matches Err(e) && e == CoreError::NonceExhausted)
                && final(self).emitted() == old(self).emitted(),
            r matches Err(e) ==> (e == CoreError::NonceExhausted || e == CoreError::Decrypt
                || e == CoreError::Deserialize),
    {
        let nb = match self.nonce.advance() {
            Ok(b) => b,
            Err(e) => {
                return Err(e);
            }
        };
        let plain = match aead_open(&self.key, &nb, cipher_payload) {
            Ok(p) => p,
            Err(e) => {
                return Err(e);
            }
        };
        decode_packet(&plain)
    }
}

} // verus!
