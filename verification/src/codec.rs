//! Wire encoding of message packets: a tag byte per payload kind, fixed-width
//! little-endian integers, and 32-bit-length-prefixed byte fields. A decoder
//! accepts exactly the byte strings the encoder produces.

use vstd::prelude::*;
use vstd::arithmetic::div_mod::lemma_fundamental_div_mod;
use crate::error::CoreError;
use crate::packet::{
    ConnectReply, ConnectRequest, EndPointMessage, EndPointMessagePacket, HandshakeReply,
    HandshakeRequest, HandshakeStatus, HeartBeatReply, HeartBeatRequest,
    KeyExchangeAndVerifyPasswordReply, KeyExchangeAndVerifyPasswordRequest, MediaFrame,
    MessageView, PacketView, StartMediaTransmissionReply, StartMediaTransmissionRequest,
};

verus! {

pub const TAG_ERROR: u8 = 0;
pub const TAG_HANDSHAKE_REQUEST: u8 = 1;
pub const TAG_HANDSHAKE_REPLY: u8 = 2;
pub const TAG_HEARTBEAT_REQUEST: u8 = 3;
pub const TAG_HEARTBEAT_REPLY: u8 = 4;
pub const TAG_START_MEDIA_REQUEST: u8 = 5;
pub const TAG_START_MEDIA_REPLY: u8 = 6;
pub const TAG_MEDIA_FRAME: u8 = 7;
pub const TAG_CONNECT_REQUEST: u8 = 8;
pub const TAG_CONNECT_REPLY: u8 = 9;
pub const TAG_KEY_EXCHANGE_REQUEST: u8 = 10;
pub const TAG_KEY_EXCHANGE_REPLY: u8 = 11;

/// Longest byte field the 32-bit length prefix can carry.
pub const MAX_FIELD_LEN: u64 = 0xFFFF_FFFF;

// ---------------------------------------------------------------------------
// Specification-level encoding
// ---------------------------------------------------------------------------

pub open spec fn enc_u16(v: u16) -> Seq<u8> {
    seq![(v % 0x100) as u8, ((v as int / 0x100) % 0x100) as u8]
}

pub open spec fn enc_u32(v: u32) -> Seq<u8> {
    seq![
        (v % 0x100) as u8,
        ((v as int / 0x100) % 0x100) as u8,
        ((v as int / 0x10000) % 0x100) as u8,
        ((v as int / 0x1000000) % 0x100) as u8,
    ]
}

pub open spec fn le16_val(b0: u8, b1: u8) -> int {
    b0 + 0x100 * b1
}

pub open spec fn le32_val(b0: u8, b1: u8, b2: u8, b3: u8) -> int {
    b0 + 0x100 * b1 + 0x10000 * b2 + 0x1000000 * b3
}

pub open spec fn bytes_encodable(b: Seq<u8>) -> bool {
    b.len() <= MAX_FIELD_LEN
}

pub open spec fn enc_bytes(b: Seq<u8>) -> Seq<u8> {
    enc_u32(b.len() as u32) + b
}

pub open spec fn enc_status(s: HandshakeStatus) -> u8 {
    match s {
        HandshakeStatus::Accepted => 0,
        HandshakeStatus::Repeated => 1,
    }
}

pub open spec fn enc_bool(b: bool) -> u8 {
    if b { 1 } else { 0 }
}

pub open spec fn enc_message(m: MessageView) -> Seq<u8> {
    match m {
        MessageView::Error => seq![TAG_ERROR],
        MessageView::HandshakeRequest { token } => seq![TAG_HANDSHAKE_REQUEST] + enc_bytes(token),
        MessageView::HandshakeReply { status } => seq![TAG_HANDSHAKE_REPLY, enc_status(status)],
        MessageView::HeartBeatRequest { time_stamp } => seq![TAG_HEARTBEAT_REQUEST] + enc_u32(time_stamp),
        MessageView::HeartBeatReply { time_stamp } => seq![TAG_HEARTBEAT_REPLY] + enc_u32(time_stamp),
        MessageView::StartMediaTransmissionRequest { expect_fps } => seq![TAG_START_MEDIA_REQUEST] + enc_u32(expect_fps),
        MessageView::StartMediaTransmissionReply { screen_width, screen_height } =>
            seq![TAG_START_MEDIA_REPLY] + enc_u32(screen_width) + enc_u32(screen_height),
        MessageView::MediaFrame { buffer } => seq![TAG_MEDIA_FRAME] + enc_bytes(buffer),
        MessageView::ConnectRequest { device_id } => seq![TAG_CONNECT_REQUEST] + enc_bytes(device_id),
        MessageView::ConnectReply { pub_key_n, pub_key_e } =>
            seq![TAG_CONNECT_REPLY] + enc_bytes(pub_key_n) + enc_bytes(pub_key_e),
        MessageView::KeyExchangeAndVerifyPasswordRequest { password_secret, exchange_pub_key, exchange_salt } =>
            seq![TAG_KEY_EXCHANGE_REQUEST] + enc_bytes(password_secret) + enc_bytes(exchange_pub_key)
                + enc_bytes(exchange_salt),
        MessageView::KeyExchangeAndVerifyPasswordReply { success, exchange_pub_key, exchange_salt } =>
            seq![TAG_KEY_EXCHANGE_REPLY, enc_bool(success)] + enc_bytes(exchange_pub_key)
                + enc_bytes(exchange_salt),
    }
}

pub open spec fn message_encodable(m: MessageView) -> bool {
    match m {
        MessageView::HandshakeRequest { token } => bytes_encodable(token),
        MessageView::MediaFrame { buffer } => bytes_encodable(buffer),
        MessageView::ConnectRequest { device_id } => bytes_encodable(device_id),
        MessageView::ConnectReply { pub_key_n, pub_key_e } =>
            bytes_encodable(pub_key_n) && bytes_encodable(pub_key_e),
        MessageView::KeyExchangeAndVerifyPasswordRequest { password_secret, exchange_pub_key, exchange_salt } =>
            bytes_encodable(password_secret) && bytes_encodable(exchange_pub_key)
                && bytes_encodable(exchange_salt),
        MessageView::KeyExchangeAndVerifyPasswordReply { success, exchange_pub_key, exchange_salt } =>
            bytes_encodable(exchange_pub_key) && bytes_encodable(exchange_salt),
        _ => true,
    }
}

pub open spec fn enc_packet(p: PacketView) -> Seq<u8> {
    (match p.call_id {
        None => seq![0u8],
        Some(id) => seq![1u8] + enc_u16(id),
    }) + enc_message(p.message)
}

pub open spec fn packet_encodable(p: PacketView) -> bool {
    message_encodable(p.message)
}

// ---------------------------------------------------------------------------
// Specification-level decoding (a total parser; the codec's reference)
// ---------------------------------------------------------------------------

pub open spec fn dec_u32(s: Seq<u8>) -> Option<(u32, Seq<u8>)> {
    if s.len() < 4 {
        None
    } else {
        Some((le32_val(s[0], s[1], s[2], s[3]) as u32, s.skip(4)))
    }
}

pub open spec fn dec_bytes(s: Seq<u8>) -> Option<(Seq<u8>, Seq<u8>)> {
    match dec_u32(s) {
        None => None,
        Some((n, rest)) => {
            if rest.len() < n {
                None
            } else {
                Some((rest.take(n as int), rest.skip(n as int)))
            }
        }
    }
}

pub open spec fn dec_status(b: u8) -> Option<HandshakeStatus> {
    if b == 0 {
        Some(HandshakeStatus::Accepted)
    } else if b == 1 {
        Some(HandshakeStatus::Repeated)
    } else {
        None
    }
}

pub open spec fn dec_bool(b: u8) -> Option<bool> {
    if b == 0 {
        Some(false)
    } else if b == 1 {
        Some(true)
    } else {
        None
    }
}

/// Decode a payload, demanding that `s` is consumed exactly.
pub open spec fn dec_message(s: Seq<u8>) -> Option<MessageView> {
    if s.len() < 1 {
        None
    } else {
        let tag = s[0];
        let r0 = s.skip(1);
        if tag == TAG_ERROR {
            if r0.len() == 0 { Some(MessageView::Error) } else { None }
        } else if tag == TAG_HANDSHAKE_REQUEST {
            match dec_bytes(r0) {
                Some((token, r1)) => if r1.len() == 0 { Some(MessageView::HandshakeRequest { token }) } else { None },
                None => None,
            }
        } else if tag == TAG_HANDSHAKE_REPLY {
            if r0.len() == 1 {
                match dec_status(r0[0]) {
                    Some(status) => Some(MessageView::HandshakeReply { status }),
                    None => None,
                }
            } else {
                None
            }
        } else if tag == TAG_HEARTBEAT_REQUEST {
            match dec_u32(r0) {
                Some((v, r1)) => if r1.len() == 0 { Some(MessageView::HeartBeatRequest { time_stamp: v }) } else { None },
                None => None,
            }
        } else if tag == TAG_HEARTBEAT_REPLY {
            match dec_u32(r0) {
                Some((v, r1)) => if r1.len() == 0 { Some(MessageView::HeartBeatReply { time_stamp: v }) } else { None },
                None => None,
            }
        } else if tag == TAG_START_MEDIA_REQUEST {
            match dec_u32(r0) {
                Some((v, r1)) => if r1.len() == 0 { Some(MessageView::StartMediaTransmissionRequest { expect_fps: v }) } else { None },
                None => None,
            }
        } else if tag == TAG_START_MEDIA_REPLY {
            match dec_u32(r0) {
                Some((w, r1)) => match dec_u32(r1) {
                    Some((h, r2)) => if r2.len() == 0 {
                        Some(MessageView::StartMediaTransmissionReply { screen_width: w, screen_height: h })
                    } else {
                        None
                    },
                    None => None,
                },
                None => None,
            }
        } else if tag == TAG_MEDIA_FRAME {
            match dec_bytes(r0) {
                Some((buffer, r1)) => if r1.len() == 0 { Some(MessageView::MediaFrame { buffer }) } else { None },
                None => None,
            }
        } else if tag == TAG_CONNECT_REQUEST {
            match dec_bytes(r0) {
                Some((device_id, r1)) => if r1.len() == 0 { Some(MessageView::ConnectRequest { device_id }) } else { None },
                None => None,
            }
        } else if tag == TAG_CONNECT_REPLY {
            match dec_bytes(r0) {
                Some((pub_key_n, r1)) => match dec_bytes(r1) {
                    Some((pub_key_e, r2)) => if r2.len() == 0 {
                        Some(MessageView::ConnectReply { pub_key_n, pub_key_e })
                    } else {
                        None
                    },
                    None => None,
                },
                None => None,
            }
        } else if tag == TAG_KEY_EXCHANGE_REQUEST {
            match dec_bytes(r0) {
                Some((password_secret, r1)) => match dec_bytes(r1) {
                    Some((exchange_pub_key, r2)) => match dec_bytes(r2) {
                        Some((exchange_salt, r3)) => if r3.len() == 0 {
                            Some(MessageView::KeyExchangeAndVerifyPasswordRequest {
                                password_secret,
                                exchange_pub_key,
                                exchange_salt,
                            })
                        } else {
                            None
                        },
                        None => None,
                    },
                    None => None,
                },
                None => None,
            }
        } else if tag == TAG_KEY_EXCHANGE_REPLY {
            if r0.len() < 1 {
                None
            } else {
                match dec_bool(r0[0]) {
                    Some(success) => match dec_bytes(r0.skip(1)) {
                        Some((exchange_pub_key, r1)) => match dec_bytes(r1) {
                            Some((exchange_salt, r2)) => if r2.len() == 0 {
                                Some(MessageView::KeyExchangeAndVerifyPasswordReply {
                                    success,
                                    exchange_pub_key,
                                    exchange_salt,
                                })
                            } else {
                                None
                            },
                            None => None,
                        },
                        None => None,
                    },
                    None => None,
                }
            }
        } else {
            None
        }
    }
}

pub open spec fn dec_packet(s: Seq<u8>) -> Option<PacketView> {
    if s.len() < 1 {
        None
    } else if s[0] == 0 {
        match dec_message(s.skip(1)) {
            Some(m) => Some(PacketView { call_id: None, message: m }),
            None => None,
        }
    } else if s[0] == 1 {
        if s.len() < 3 {
            None
        } else {
            match dec_message(s.skip(3)) {
                Some(m) => Some(PacketView { call_id: Some(le16_val(s[1], s[2]) as u16), message: m }),
                None => None,
            }
        }
    } else {
        None
    }
}

// ---------------------------------------------------------------------------
// Round-trip laws
// ---------------------------------------------------------------------------

proof fn lemma_dec_u32_enc(v: u32, rest: Seq<u8>)
    ensures
        dec_u32(enc_u32(v) + rest) == Some((v, rest)),
{
    let s = enc_u32(v) + rest;
    let x = v as int;
    lemma_fundamental_div_mod(x, 0x100);
    lemma_fundamental_div_mod(x / 0x100, 0x100);
    lemma_fundamental_div_mod(x / 0x10000, 0x100);
    assert(x / 0x100 / 0x100 == x / 0x10000) by (nonlinear_arith);
    assert(x / 0x10000 / 0x100 == x / 0x1000000) by (nonlinear_arith);
    assert(le32_val(s[0], s[1], s[2], s[3]) == x);
    assert(s.skip(4) =~= rest);
}

proof fn lemma_dec_bytes_enc(b: Seq<u8>, rest: Seq<u8>)
    requires
        bytes_encodable(b),
    ensures
        dec_bytes(enc_bytes(b) + rest) == Some((b, rest)),
{
    let s = enc_bytes(b) + rest;
    assert(s =~= enc_u32(b.len() as u32) + (b + rest));
    lemma_dec_u32_enc(b.len() as u32, b + rest);
    let tail = b + rest;
    assert(tail.len() >= b.len());
    assert(tail.take(b.len() as int) =~= b);
    assert(tail.skip(b.len() as int) =~= rest);
}

/// Law: decoding an encoded payload gives the payload back.
#[verifier::rlimit(80)]
pub proof fn lemma_message_round_trip(m: MessageView)
    requires
        message_encodable(m),
    ensures
        dec_message(enc_message(m)) == Some(m),
{
    let s = enc_message(m);
    let empty = Seq::<u8>::empty();
    match m {
        MessageView::Error => {
            assert(s.skip(1) =~= empty);
        }
        MessageView::HandshakeRequest { token } => {
            assert(s.skip(1) =~= enc_bytes(token) + empty);
            lemma_dec_bytes_enc(token, empty);
        }
        MessageView::HandshakeReply { status } => {
            assert(s.skip(1) =~= seq![enc_status(status)]);
        }
        MessageView::HeartBeatRequest { time_stamp } => {
            assert(s.skip(1) =~= enc_u32(time_stamp) + empty);
            lemma_dec_u32_enc(time_stamp, empty);
        }
        MessageView::HeartBeatReply { time_stamp } => {
            assert(s.skip(1) =~= enc_u32(time_stamp) + empty);
            lemma_dec_u32_enc(time_stamp, empty);
        }
        MessageView::StartMediaTransmissionRequest { expect_fps } => {
            assert(s.skip(1) =~= enc_u32(expect_fps) + empty);
            lemma_dec_u32_enc(expect_fps, empty);
        }
        MessageView::StartMediaTransmissionReply { screen_width, screen_height } => {
            assert(s.skip(1) =~= enc_u32(screen_width) + (enc_u32(screen_height) + empty));
            lemma_dec_u32_enc(screen_width, enc_u32(screen_height) + empty);
            lemma_dec_u32_enc(screen_height, empty);
        }
        MessageView::MediaFrame { buffer } => {
            assert(s.skip(1) =~= enc_bytes(buffer) + empty);
            lemma_dec_bytes_enc(buffer, empty);
        }
        MessageView::ConnectRequest { device_id } => {
            assert(s.skip(1) =~= enc_bytes(device_id) + empty);
            lemma_dec_bytes_enc(device_id, empty);
        }
        MessageView::ConnectReply { pub_key_n, pub_key_e } => {
            assert(s.skip(1) =~= enc_bytes(pub_key_n) + (enc_bytes(pub_key_e) + empty));
            lemma_dec_bytes_enc(pub_key_n, enc_bytes(pub_key_e) + empty);
            lemma_dec_bytes_enc(pub_key_e, empty);
        }
        MessageView::KeyExchangeAndVerifyPasswordRequest { password_secret, exchange_pub_key, exchange_salt } => {
            assert(s.skip(1) =~= enc_bytes(password_secret)
                + (enc_bytes(exchange_pub_key) + (enc_bytes(exchange_salt) + empty)));
            lemma_dec_bytes_enc(password_secret, enc_bytes(exchange_pub_key) + (enc_bytes(exchange_salt) + empty));
            lemma_dec_bytes_enc(exchange_pub_key, enc_bytes(exchange_salt) + empty);
            lemma_dec_bytes_enc(exchange_salt, empty);
        }
        MessageView::KeyExchangeAndVerifyPasswordReply { success, exchange_pub_key, exchange_salt } => {
            let r0 = s.skip(1);
            assert(r0[0] == enc_bool(success));
            assert(r0.skip(1) =~= enc_bytes(exchange_pub_key) + (enc_bytes(exchange_salt) + empty));
            lemma_dec_bytes_enc(exchange_pub_key, enc_bytes(exchange_salt) + empty);
            lemma_dec_bytes_enc(exchange_salt, empty);
        }
    }
}

/// Law: decoding an encoded packet gives the packet back — the codec half of
/// the transport round trip.
pub proof fn lemma_packet_round_trip(p: PacketView)
    requires
        packet_encodable(p),
    ensures
        dec_packet(enc_packet(p)) == Some(p),
{
    let s = enc_packet(p);
    lemma_message_round_trip(p.message);
    match p.call_id {
        None => {
            assert(s[0] == 0);
            assert(s.skip(1) =~= enc_message(p.message));
        }
        Some(id) => {
            assert(s[0] == 1);
            lemma_fundamental_div_mod(id as int, 0x100);
            assert(le16_val(s[1], s[2]) == id as int);
            assert(s.skip(3) =~= enc_message(p.message));
        }
    }
}

// ---------------------------------------------------------------------------
// Executable encoder
// ---------------------------------------------------------------------------

fn push_u16(out: &mut Vec<u8>, v: u16)
    ensures
        final(out)@ == old(out)@ + enc_u16(v),
{
    out.push((v % 0x100) as u8);
    out.push(((v / 0x100) % 0x100) as u8);
    assert(out@ =~= old(out)@ + enc_u16(v));
}

pub(crate) fn push_u32(out: &mut Vec<u8>, v: u32)
    ensures
        final(out)@ == old(out)@ + enc_u32(v),
{
    out.push((v % 0x100) as u8);
    out.push(((v / 0x100) % 0x100) as u8);
    out.push(((v / 0x10000) % 0x100) as u8);
    out.push(((v / 0x1000000) % 0x100) as u8);
    assert(out@ =~= old(out)@ + enc_u32(v));
}

fn push_bytes(out: &mut Vec<u8>, b: &Vec<u8>)
    requires
        bytes_encodable(b@),
    ensures
        final(out)@ == old(out)@ + enc_bytes(b@),
{
    push_u32(out, b.len() as u32);
    let ghost pre = out@;
    let mut i: usize = 0;
    while i < b.len()
        invariant
            i <= b@.len(),
            out@ == pre + b@.subrange(0, i as int),
        decreases b@.len() - i,
    {
        out.push(b[i]);
        assert(out@ =~= pre + b@.subrange(0, i as int + 1));
        i = i + 1;
    }
    assert(out@ =~= old(out)@ + enc_bytes(b@));
}

fn len_ok(b: &Vec<u8>) -> (r: bool)
    ensures
        r == bytes_encodable(b@),
{
    b.len() as u64 <= MAX_FIELD_LEN
}

/// Encode a packet. Fails exactly when some byte field is too long for the
/// 32-bit length prefix.
#[verifier::rlimit(80)]
pub fn encode_packet(p: &EndPointMessagePacket) -> (r: Result<Vec<u8>, CoreError>)
    ensures
        packet_encodable(p@) ==> (r matches Ok(b) && b@ == enc_packet(p@)),
        !packet_encodable(p@) ==> (r matches Err(e) && e == CoreError::Serialize),
{
    let mut out: Vec<u8> = Vec::new();
    match p.call_id {
        None => out.push(0),
        Some(id) => {
            out.push(1);
            push_u16(&mut out, id);
        }
    }
    let ghost header = out@;
    match &p.message {
        EndPointMessage::Error => {
            out.push(TAG_ERROR);
            assert(out@ =~= enc_packet(p@));
        }
        EndPointMessage::HandshakeRequest(m) => {
            if !len_ok(&m.token) {
                return Err(CoreError::Serialize);
            }
            out.push(TAG_HANDSHAKE_REQUEST);
            push_bytes(&mut out, &m.token);
            assert(out@ =~= enc_packet(p@));
        }
        EndPointMessage::HandshakeReply(m) => {
            out.push(TAG_HANDSHAKE_REPLY);
            match m.status {
                HandshakeStatus::Accepted => out.push(0),
                HandshakeStatus::Repeated => out.push(1),
            }
            assert(out@ =~= enc_packet(p@));
        }
        EndPointMessage::HeartBeatRequest(m) => {
            out.push(TAG_HEARTBEAT_REQUEST);
            push_u32(&mut out, m.time_stamp);
            assert(out@ =~= enc_packet(p@));
        }
        EndPointMessage::HeartBeatReply(m) => {
            out.push(TAG_HEARTBEAT_REPLY);
            push_u32(&mut out, m.time_stamp);
            assert(out@ =~= enc_packet(p@));
        }
        EndPointMessage::StartMediaTransmissionRequest(m) => {
            out.push(TAG_START_MEDIA_REQUEST);
            push_u32(&mut out, m.expect_fps);
            assert(out@ =~= enc_packet(p@));
        }
        EndPointMessage::StartMediaTransmissionReply(m) => {
            out.push(TAG_START_MEDIA_REPLY);
            push_u32(&mut out, m.screen_width);
            push_u32(&mut out, m.screen_height);
            assert(out@ =~= enc_packet(p@));
        }
        EndPointMessage::MediaFrame(m) => {
            if !len_ok(&m.buffer) {
                return Err(CoreError::Serialize);
            }
            out.push(TAG_MEDIA_FRAME);
            push_bytes(&mut out, &m.buffer);
            assert(out@ =~= enc_packet(p@));
        }
        EndPointMessage::ConnectRequest(m) => {
            if !len_ok(&m.device_id) {
                return Err(CoreError::Serialize);
            }
            out.push(TAG_CONNECT_REQUEST);
            push_bytes(&mut out, &m.device_id);
            assert(out@ =~= enc_packet(p@));
        }
        EndPointMessage::ConnectReply(m) => {
            if !len_ok(&m.pub_key_n) || !len_ok(&m.pub_key_e) {
                return Err(CoreError::Serialize);
            }
            out.push(TAG_CONNECT_REPLY);
            push_bytes(&mut out, &m.pub_key_n);
            push_bytes(&mut out, &m.pub_key_e);
            assert(out@ =~= enc_packet(p@));
        }
        EndPointMessage::KeyExchangeAndVerifyPasswordRequest(m) => {
            if !len_ok(&m.password_secret) || !len_ok(&m.exchange_pub_key) || !len_ok(&m.exchange_salt) {
                return Err(CoreError::Serialize);
            }
            out.push(TAG_KEY_EXCHANGE_REQUEST);
            push_bytes(&mut out, &m.password_secret);
            push_bytes(&mut out, &m.exchange_pub_key);
            push_bytes(&mut out, &m.exchange_salt);
            assert(out@ =~= enc_packet(p@));
        }
        EndPointMessage::KeyExchangeAndVerifyPasswordReply(m) => {
            if !len_ok(&m.exchange_pub_key) || !len_ok(&m.exchange_salt) {
                return Err(CoreError::Serialize);
            }
            out.push(TAG_KEY_EXCHANGE_REPLY);
            if m.success {
                out.push(1);
            } else {
                out.push(0);
            }
            push_bytes(&mut out, &m.exchange_pub_key);
            push_bytes(&mut out, &m.exchange_salt);
            assert(out@ =~= enc_packet(p@));
        }
    }
    Ok(out)
}

// ---------------------------------------------------------------------------
// Executable decoder
// ---------------------------------------------------------------------------

pub(crate) fn take_u32(buf: &Vec<u8>, pos: usize) -> (r: Option<(u32, usize)>)
    requires
        pos <= buf@.len(),
    ensures
        r matches Some(t) ==> pos <= t.1 <= buf@.len()
            && dec_u32(buf@.skip(pos as int)) == Some((t.0, buf@.skip(t.1 as int))),
        r is None ==> dec_u32(buf@.skip(pos as int)) is None,
{
    if buf.len() - pos < 4 {
        return None;
    }
    let b0 = buf[pos];
    let b1 = buf[pos + 1];
    let b2 = buf[pos + 2];
    let b3 = buf[pos + 3];
    let v: u32 = b0 as u32 + (b1 as u32) * 0x100 + (b2 as u32) * 0x10000 + (b3 as u32) * 0x1000000;
    proof {
        let s = buf@.skip(pos as int);
        assert(s[0] == b0 && s[1] == b1 && s[2] == b2 && s[3] == b3);
        assert(v as int == le32_val(s[0], s[1], s[2], s[3]));
        assert(s.skip(4) =~= buf@.skip(pos as int + 4));
    }
    Some((v, pos + 4))
}

fn take_bytes(buf: &Vec<u8>, pos: usize) -> (r: Option<(Vec<u8>, usize)>)
    requires
        pos <= buf@.len(),
    ensures
        r matches Some(t) ==> pos <= t.1 <= buf@.len()
            && dec_bytes(buf@.skip(pos as int)) == Some((t.0@, buf@.skip(t.1 as int))),
        r is None ==> dec_bytes(buf@.skip(pos as int)) is None,
{
    let (n, p1) = match take_u32(buf, pos) {
        Some(t) => t,
        None => {
            return None;
        }
    };
    if buf.len() - p1 < n as usize {
        proof {
            let s = buf@.skip(pos as int);
            assert(buf@.skip(p1 as int).len() < n);
        }
        return None;
    }
    let end = p1 + n as usize;
    let mut out: Vec<u8> = Vec::new();
    let mut i: usize = p1;
    while i < end
        invariant
            p1 <= i <= end <= buf@.len(),
            out@ == buf@.subrange(p1 as int, i as int),
        decreases end - i,
    {
        out.push(buf[i]);
        assert(out@ =~= buf@.subrange(p1 as int, i as int + 1));
        i = i + 1;
    }
    proof {
        let rest = buf@.skip(p1 as int);
        assert(rest.take(n as int) =~= buf@.subrange(p1 as int, end as int));
        assert(rest.skip(n as int) =~= buf@.skip(end as int));
    }
    Some((out, end))
}

/// Whether `pos` is exactly the end of the buffer.
fn at_end(buf: &Vec<u8>, pos: usize) -> (r: bool)
    requires
        pos <= buf@.len(),
    ensures
        r == (buf@.skip(pos as int).len() == 0),
{
    pos == buf.len()
}

#[verifier::rlimit(80)]
fn decode_message(buf: &Vec<u8>, pos: usize) -> (r: Result<EndPointMessage, CoreError>)
    requires
        pos <= buf@.len(),
    ensures
        r matches Ok(m) ==> dec_message(buf@.skip(pos as int)) == Some(m@),
        r matches Err(e) ==> dec_message(buf@.skip(pos as int)) is None && e == CoreError::Deserialize,
{
    let ghost s = buf@.skip(pos as int);
    if buf.len() == pos {
        return Err(CoreError::Deserialize);
    }
    let tag = buf[pos];
    let p0 = pos + 1;
    proof {
        assert(s[0] == tag);
        assert(s.skip(1) =~= buf@.skip(p0 as int));
    }
    if tag == TAG_ERROR {
        if at_end(buf, p0) {
            Ok(EndPointMessage::Error)
        } else {
            Err(CoreError::Deserialize)
        }
    } else if tag == TAG_HANDSHAKE_REQUEST {
        match take_bytes(buf, p0) {
            Some((token, p1)) => {
                if at_end(buf, p1) {
                    Ok(EndPointMessage::HandshakeRequest(HandshakeRequest { token }))
                } else {
                    Err(CoreError::Deserialize)
                }
            }
            None => Err(CoreError::Deserialize),
        }
    } else if tag == TAG_HANDSHAKE_REPLY {
        if buf.len() - p0 != 1 {
            return Err(CoreError::Deserialize);
        }
        let b = buf[p0];
        proof {
            assert(buf@.skip(p0 as int)[0] == b);
        }
        if b == 0 {
            Ok(EndPointMessage::HandshakeReply(HandshakeReply { status: HandshakeStatus::Accepted }))
        } else if b == 1 {
            Ok(EndPointMessage::HandshakeReply(HandshakeReply { status: HandshakeStatus::Repeated }))
        } else {
            Err(CoreError::Deserialize)
        }
    } else if tag == TAG_HEARTBEAT_REQUEST {
        match take_u32(buf, p0) {
            Some((v, p1)) => {
                if at_end(buf, p1) {
                    Ok(EndPointMessage::HeartBeatRequest(HeartBeatRequest { time_stamp: v }))
                } else {
                    Err(CoreError::Deserialize)
                }
            }
            None => Err(CoreError::Deserialize),
        }
    } else if tag == TAG_HEARTBEAT_REPLY {
        match take_u32(buf, p0) {
            Some((v, p1)) => {
                if at_end(buf, p1) {
                    Ok(EndPointMessage::HeartBeatReply(HeartBeatReply { time_stamp: v }))
                } else {
                    Err(CoreError::Deserialize)
                }
            }
            None => Err(CoreError::Deserialize),
        }
    } else if tag == TAG_START_MEDIA_REQUEST {
        match take_u32(buf, p0) {
            Some((v, p1)) => {
                if at_end(buf, p1) {
                    Ok(EndPointMessage::StartMediaTransmissionRequest(StartMediaTransmissionRequest {
                        expect_fps: v,
                    }))
                } else {
                    Err(CoreError::Deserialize)
                }
            }
            None => Err(CoreError::Deserialize),
        }
    } else if tag == TAG_START_MEDIA_REPLY {
        match take_u32(buf, p0) {
            Some((w, p1)) => match take_u32(buf, p1) {
                Some((h, p2)) => {
                    if at_end(buf, p2) {
                        Ok(EndPointMessage::StartMediaTransmissionReply(StartMediaTransmissionReply {
                            screen_width: w,
                            screen_height: h,
                        }))
                    } else {
                        Err(CoreError::Deserialize)
                    }
                }
                None => Err(CoreError::Deserialize),
            },
            None => Err(CoreError::Deserialize),
        }
    } else if tag == TAG_MEDIA_FRAME {
        match take_bytes(buf, p0) {
            Some((buffer, p1)) => {
                if at_end(buf, p1) {
                    Ok(EndPointMessage::MediaFrame(MediaFrame { buffer }))
                } else {
                    Err(CoreError::Deserialize)
                }
            }
            None => Err(CoreError::Deserialize),
        }
    } else if tag == TAG_CONNECT_REQUEST {
        match take_bytes(buf, p0) {
            Some((device_id, p1)) => {
                if at_end(buf, p1) {
                    Ok(EndPointMessage::ConnectRequest(ConnectRequest { device_id }))
                } else {
                    Err(CoreError::Deserialize)
                }
            }
            None => Err(CoreError::Deserialize),
        }
    } else if tag == TAG_CONNECT_REPLY {
        match take_bytes(buf, p0) {
            Some((pub_key_n, p1)) => match take_bytes(buf, p1) {
                Some((pub_key_e, p2)) => {
                    if at_end(buf, p2) {
                        Ok(EndPointMessage::ConnectReply(ConnectReply { pub_key_n, pub_key_e }))
                    } else {
                        Err(CoreError::Deserialize)
                    }
                }
                None => Err(CoreError::Deserialize),
            },
            None => Err(CoreError::Deserialize),
        }
    } else if tag == TAG_KEY_EXCHANGE_REQUEST {
        match take_bytes(buf, p0) {
            Some((password_secret, p1)) => match take_bytes(buf, p1) {
                Some((exchange_pub_key, p2)) => match take_bytes(buf, p2) {
                    Some((exchange_salt, p3)) => {
                        if at_end(buf, p3) {
                            Ok(EndPointMessage::KeyExchangeAndVerifyPasswordRequest(
                                KeyExchangeAndVerifyPasswordRequest {
                                    password_secret,
                                    exchange_pub_key,
                                    exchange_salt,
                                },
                            ))
                        } else {
                            Err(CoreError::Deserialize)
                        }
                    }
                    None => Err(CoreError::Deserialize),
                },
                None => Err(CoreError::Deserialize),
            },
            None => Err(CoreError::Deserialize),
        }
    } else if tag == TAG_KEY_EXCHANGE_REPLY {
        if buf.len() == p0 {
            return Err(CoreError::Deserialize);
        }
        let sb = buf[p0];
        let p1 = p0 + 1;
        proof {
            assert(buf@.skip(p0 as int)[0] == sb);
            assert(buf@.skip(p0 as int).skip(1) =~= buf@.skip(p1 as int));
        }
        if sb > 1 {
            return Err(CoreError::Deserialize);
        }
        let success = sb == 1;
        match take_bytes(buf, p1) {
            Some((exchange_pub_key, p2)) => match take_bytes(buf, p2) {
                Some((exchange_salt, p3)) => {
                    if at_end(buf, p3) {
                        Ok(EndPointMessage::KeyExchangeAndVerifyPasswordReply(
                            KeyExchangeAndVerifyPasswordReply { success, exchange_pub_key, exchange_salt },
                        ))
                    } else {
                        Err(CoreError::Deserialize)
                    }
                }
                None => Err(CoreError::Deserialize),
            },
            None => Err(CoreError::Deserialize),
        }
    } else {
        Err(CoreError::Deserialize)
    }
}

/// Decode a plaintext packet. Fails exactly on byte strings the encoder
/// cannot produce.
pub fn decode_packet(buf: &Vec<u8>) -> (r: Result<EndPointMessagePacket, CoreError>)
    ensures
        r matches Ok(p) ==> dec_packet(buf@) == Some(p@),
        r matches Err(e) ==> dec_packet(buf@) is None && e == CoreError::Deserialize,
{
    if buf.len() < 1 {
        return Err(CoreError::Deserialize);
    }
    let has_id = buf[0];
    if has_id == 0 {
        proof {
            assert(buf@.skip(0).skip(1) =~= buf@.skip(1));
        }
        match decode_message(buf, 1) {
            Ok(message) => Ok(EndPointMessagePacket { call_id: None, message }),
            Err(e) => Err(e),
        }
    } else if has_id == 1 {
        if buf.len() < 3 {
            return Err(CoreError::Deserialize);
        }
        let id: u16 = buf[1] as u16 + (buf[2] as u16) * 0x100;
        proof {
            assert(id as int == le16_val(buf@[1], buf@[2]));
        }
        match decode_message(buf, 3) {
            Ok(message) => Ok(EndPointMessagePacket { call_id: Some(id), message }),
            Err(e) => Err(e),
        }
    } else {
        Err(CoreError::Deserialize)
    }
}

} // verus!
