use vstd::prelude::*;

verus! {

/// Outcome of a handshake request as reported by the remote side.
#[derive(Clone, Copy, Debug, PartialEq, Eq, Structural)]
pub enum HandshakeStatus {
    Accepted,
    Repeated,
}

#[derive(Clone, Debug, PartialEq)]
pub struct HandshakeRequest {
    pub token: Vec<u8>,
}

#[derive(Clone, Copy, Debug, PartialEq, Eq, Structural)]
pub struct HandshakeReply {
    pub status: HandshakeStatus,
}

#[derive(Clone, Copy, Debug, PartialEq, Eq, Structural)]
pub struct HeartBeatRequest {
    pub time_stamp: u32,
}

#[derive(Clone, Copy, Debug, PartialEq, Eq, Structural)]
pub struct HeartBeatReply {
    pub time_stamp: u32,
}

#[derive(Clone, Copy, Debug, PartialEq, Eq, Structural)]
pub struct StartMediaTransmissionRequest {
    pub expect_fps: u32,
}

#[derive(Clone, Copy, Debug, PartialEq, Eq, Structural)]
pub struct StartMediaTransmissionReply {
    pub screen_width: u32,
    pub screen_height: u32,
}

#[derive(Clone, Debug, PartialEq)]
pub struct MediaFrame {
    pub buffer: Vec<u8>,
}

#[derive(Clone, Debug, PartialEq)]
pub struct ConnectRequest {
    pub device_id: Vec<u8>,
}

#[derive(Clone, Debug, PartialEq)]
pub struct ConnectReply {
    pub pub_key_n: Vec<u8>,
    pub pub_key_e: Vec<u8>,
}

#[derive(Clone, Debug, PartialEq)]
pub struct KeyExchangeAndVerifyPasswordRequest {
    pub password_secret: Vec<u8>,
    pub exchange_pub_key: Vec<u8>,
    pub exchange_salt: Vec<u8>,
}

#[derive(Clone, Debug, PartialEq)]
pub struct KeyExchangeAndVerifyPasswordReply {
    pub success: bool,
    pub exchange_pub_key: Vec<u8>,
    pub exchange_salt: Vec<u8>,
}

/// The closed set of message payload kinds this core carries.
#[derive(Clone, Debug, PartialEq)]
pub enum EndPointMessage {
    Error,
    HandshakeRequest(HandshakeRequest),
    HandshakeReply(HandshakeReply),
    HeartBeatRequest(HeartBeatRequest),
    HeartBeatReply(HeartBeatReply),
    StartMediaTransmissionRequest(StartMediaTransmissionRequest),
    StartMediaTransmissionReply(StartMediaTransmissionReply),
    MediaFrame(MediaFrame),
    ConnectRequest(ConnectRequest),
    ConnectReply(ConnectReply),
    KeyExchangeAndVerifyPasswordRequest(KeyExchangeAndVerifyPasswordRequest),
    KeyExchangeAndVerifyPasswordReply(KeyExchangeAndVerifyPasswordReply),
}

/// One plaintext frame: an optional call correlation id and a payload.
#[derive(Clone, Debug, PartialEq)]
pub struct EndPointMessagePacket {
    pub call_id: Option<u16>,
    pub message: EndPointMessage,
}

impl EndPointMessagePacket {
    pub fn new(call_id: Option<u16>, message: EndPointMessage) -> (r: Self)
        ensures
            r.call_id == call_id,
            r.message == message,
    {
        Self { call_id, message }
    }
}

/// Mathematical model of a message payload.
pub enum MessageView {
    Error,
    HandshakeRequest { token: Seq<u8> },
    HandshakeReply { status: HandshakeStatus },
    HeartBeatRequest { time_stamp: u32 },
    HeartBeatReply { time_stamp: u32 },
    StartMediaTransmissionRequest { expect_fps: u32 },
    StartMediaTransmissionReply { screen_width: u32, screen_height: u32 },
    MediaFrame { buffer: Seq<u8> },
    ConnectRequest { device_id: Seq<u8> },
    ConnectReply { pub_key_n: Seq<u8>, pub_key_e: Seq<u8> },
    KeyExchangeAndVerifyPasswordRequest {
        password_secret: Seq<u8>,
        exchange_pub_key: Seq<u8>,
        exchange_salt: Seq<u8>,
    },
    KeyExchangeAndVerifyPasswordReply {
        success: bool,
        exchange_pub_key: Seq<u8>,
        exchange_salt: Seq<u8>,
    },
}

/// Mathematical model of a packet.
pub struct PacketView {
    pub call_id: Option<u16>,
    pub message: MessageView,
}

impl View for EndPointMessage {
    type V = MessageView;

    open spec fn view(&self) -> MessageView {
        match self {
            EndPointMessage::Error => MessageView::Error,
            EndPointMessage::HandshakeRequest(m) => MessageView::HandshakeRequest { token: m.token@ },
            EndPointMessage::HandshakeReply(m) => MessageView::HandshakeReply { status: m.status },
            EndPointMessage::HeartBeatRequest(m) => MessageView::HeartBeatRequest { time_stamp: m.time_stamp },
            EndPointMessage::HeartBeatReply(m) => MessageView::HeartBeatReply { time_stamp: m.time_stamp },
            EndPointMessage::StartMediaTransmissionRequest(m) => MessageView::StartMediaTransmissionRequest { expect_fps: m.expect_fps },
            EndPointMessage::StartMediaTransmissionReply(m) => MessageView::StartMediaTransmissionReply {
                screen_width: m.screen_width,
                screen_height: m.screen_height,
            },
            EndPointMessage::MediaFrame(m) => MessageView::MediaFrame { buffer: m.buffer@ },
            EndPointMessage::ConnectRequest(m) => MessageView::ConnectRequest { device_id: m.device_id@ },
            EndPointMessage::ConnectReply(m) => MessageView::ConnectReply {
                pub_key_n: m.pub_key_n@,
                pub_key_e: m.pub_key_e@,
            },
            EndPointMessage::KeyExchangeAndVerifyPasswordRequest(m) => MessageView::KeyExchangeAndVerifyPasswordRequest {
                password_secret: m.password_secret@,
                exchange_pub_key: m.exchange_pub_key@,
                exchange_salt: m.exchange_salt@,
            },
            EndPointMessage::KeyExchangeAndVerifyPasswordReply(m) => MessageView::KeyExchangeAndVerifyPasswordReply {
                success: m.success,
                exchange_pub_key: m.exchange_pub_key@,
                exchange_salt: m.exchange_salt@,
            },
        }
    }
}

impl View for EndPointMessagePacket {
    type V = PacketView;

    open spec fn view(&self) -> PacketView {
        PacketView { call_id: self.call_id, message: self.message@ }
    }
}

} // verus!
