//! The session object: connection identity, the atomic call-id counter, the
//! concurrent reply-registration table, and the bounded outbound queue. The
//! reader and writer loops around it perform only I/O; every decision they
//! need — what to enqueue, where an inbound packet goes, what a reply means —
//! is taken here.

use vstd::prelude::*;
use crate::codec::{enc_packet, encode_packet};
use crate::error::CoreError;
use crate::packet::{
    EndPointMessage, EndPointMessagePacket, HandshakeRequest, HandshakeStatus, HeartBeatRequest,
    MediaFrame, MessageView, PacketView, StartMediaTransmissionReply,
};

verus! {

/// Capacity of the outbound queue feeding the writer loop.
pub const OUTBOUND_QUEUE_CAP: usize = 128;

/// The concurrent registration table: call id to reply-slot handle. The
/// handles are opaque tickets the surrounding application maps to actual
/// reply destinations.
#[verifier::external_body]
pub struct CallSlots {
    map: dashmap::DashMap<u16, u64>,
}

/// The entries the registration table holds.
pub uninterp spec fn slots_of(t: CallSlots) -> Map<u16, u64>;

/// A table with no registrations.
pub open spec fn no_slots() -> Map<u16, u64> {
    Map::empty()
}

/// Relies on dashmap's `DashMap::new`: the fresh map is empty.
#[verifier::external_body]
fn slots_new() -> (r: CallSlots)
    ensures
        slots_of(r) == no_slots(),
{
    CallSlots { map: dashmap::DashMap::new() }
}

/// Relies on dashmap's `DashMap::insert`: maps the key to the value and
/// returns what the key mapped to before, if anything.
#[verifier::external_body]
fn slots_insert(t: &mut CallSlots, id: u16, slot: u64) -> (r: Option<u64>)
    ensures
        slots_of(*final(t)) == slots_of(*old(t)).insert(id, slot),
        r matches Some(v) ==> slots_of(*old(t)).contains_key(id) && slots_of(*old(t))[id] == v,
        r is None ==> !slots_of(*old(t)).contains_key(id),
{
    t.map.insert(id, slot)
}

/// Relies on dashmap's `DashMap::remove`: removes the key's entry and
/// returns it, if present.
#[verifier::external_body]
fn slots_remove(t: &mut CallSlots, id: u16) -> (r: Option<u64>)
    ensures
        slots_of(*final(t)) == slots_of(*old(t)).remove(id),
        r matches Some(v) ==> slots_of(*old(t)).contains_key(id) && slots_of(*old(t))[id] == v,
        r is None ==> !slots_of(*old(t)).contains_key(id),
{
    t.map.remove(&id).map(|e| e.1)
}

/// Relies on dashmap's `DashMap::contains_key`.
#[verifier::external_body]
fn slots_contains(t: &CallSlots, id: u16) -> (r: bool)
    ensures
        r == slots_of(*t).contains_key(id),
{
    t.map.contains_key(&id)
}

/// The 16-bit call-id counter's successor: the counter wraps at 65536.
pub open spec fn wrap_inc(id: u16) -> u16 {
    if id == 0xFFFF { 0u16 } else { (id + 1) as u16 }
}

/// Where an inbound packet goes: to the caller registered under its id, or
/// to the unsolicited-message handler.
pub enum Dispatch {
    Reply { call_id: u16, slot: u64, message: EndPointMessage },
    Unsolicited { message: EndPointMessage },
}

/// One session's shared state. The reader loop, the writer loop and
/// concurrent callers all act through it.
pub struct EndPoint {
    local_device_id: String,
    remote_device_id: String,
    next_call_id: u16,
    slots: CallSlots,
    outbound: Vec<Vec<u8>>,
}

impl EndPoint {
    pub closed spec fn local_id(&self) -> Seq<char> {
        self.local_device_id@
    }

    pub closed spec fn remote_id(&self) -> Seq<char> {
        self.remote_device_id@
    }

    pub closed spec fn next_id(&self) -> u16 {
        self.next_call_id
    }

    /// The pending-call registrations.
    pub closed spec fn slots(&self) -> Map<u16, u64> {
        slots_of(self.slots)
    }

    /// The serialized plaintext payloads queued for the writer, oldest first.
    pub closed spec fn queue(&self) -> Seq<Seq<u8>> {
        self.outbound@.map_values(|v: Vec<u8>| v@)
    }

    pub open spec fn ids_unchanged(&self, other: &EndPoint) -> bool {
        self.local_id() == other.local_id() && self.remote_id() == other.remote_id()
    }

    pub fn new(local_device_id: String, remote_device_id: String) -> (r: Self)
        ensures
            r.local_id() == local_device_id@,
            r.remote_id() == remote_device_id@,
            r.next_id() == 0,
            r.slots() == Map::<u16, u64>::empty(),
            r.queue() == Seq::<Seq<u8>>::empty(),
    {
        let r = Self {
            local_device_id,
            remote_device_id,
            next_call_id: 0,
            slots: slots_new(),
            outbound: Vec::new(),
        };
        proof {
            assert(r.queue() =~= Seq::<Seq<u8>>::empty());
        }
        r
    }

    pub fn local_device_id(&self) -> (r: &String)
        ensures
            r@ == self.local_id(),
    {
        &self.local_device_id
    }

    pub fn remote_device_id(&self) -> (r: &String)
        ensures
            r@ == self.remote_id(),
    {
        &self.remote_device_id
    }

    /// Append one serialized payload to the outbound queue; the queue is
    /// bounded, and a full queue is an error surfaced to the caller, never a
    /// silent drop.
    fn enqueue(&mut self, payload: Vec<u8>) -> (r: Result<(), CoreError>)
        ensures
            final(self).ids_unchanged(old(self)),
            final(self).next_id() == old(self).next_id(),
            final(self).slots() == old(self).slots(),
            old(self).queue().len() < OUTBOUND_QUEUE_CAP ==> (r is Ok
                && final(self).queue() == old(self).queue().push(payload@)),
            old(self).queue().len() >= OUTBOUND_QUEUE_CAP ==> (r matches Err(e)
                && e == CoreError::QueueFull && final(self).queue() == old(self).queue()),
    {
        if self.outbound.len() >= OUTBOUND_QUEUE_CAP {
            return Err(CoreError::QueueFull);
        }
        let ghost pre = self.outbound@;
        self.outbound.push(payload);
        proof {
            assert(self.queue() =~= pre.map_values(|v: Vec<u8>| v@).push(payload@));
        }
        Ok(())
    }

    /// Hand the writer loop the oldest queued payload, preserving order.
    pub fn next_outbound(&mut self) -> (r: Option<Vec<u8>>)
        ensures
            final(self).ids_unchanged(old(self)),
            final(self).next_id() == old(self).next_id(),
            final(self).slots() == old(self).slots(),
            old(self).queue().len() == 0 ==> r is None && final(self).queue() == old(self).queue(),
            old(self).queue().len() > 0 ==> (r matches Some(b)
                && b@ == old(self).queue()[0]
                && final(self).queue() == old(self).queue().skip(1)),
    {
        if self.outbound.len() == 0 {
            return None;
        }
        let ghost pre = self.outbound@;
        let b = self.outbound.remove(0);
        proof {
            assert(self.queue() =~= pre.map_values(|v: Vec<u8>| v@).skip(1));
        }
        Some(b)
    }

    /// Start a call: allocate the next id, register the caller's reply slot,
    /// and queue the serialized `{id, message}` packet. The id counter always
    /// advances. A still-live registration under the allocated id — the
    /// 16-bit wrap-around collision — is detected and refused loudly rather
    /// than silently inherited. On a serialize or queue failure the fresh
    /// registration is removed again, as a failed send must leave no trace.
    pub fn begin_call(&mut self, message: EndPointMessage, slot: u64) -> (r: Result<u16, CoreError>)
        ensures
            final(self).ids_unchanged(old(self)),
            final(self).next_id() == wrap_inc(old(self).next_id()),
            r matches Ok(id) ==> id == old(self).next_id()
                && !old(self).slots().contains_key(id)
                && final(self).slots() == old(self).slots().insert(id, slot)
                && old(self).queue().len() < OUTBOUND_QUEUE_CAP
                && message_ok(message@)
                && final(self).queue() == old(self).queue().push(
                    enc_packet(PacketView { call_id: Some(id), message: message@ }),
                ),
            r matches Err(e) ==> final(self).slots() == old(self).slots()
                && final(self).queue() == old(self).queue(),
            old(self).slots().contains_key(old(self).next_id()) ==> (r matches Err(e)
                && e == CoreError::CallIdInUse),
            !old(self).slots().contains_key(old(self).next_id()) && !message_ok(message@)
                ==> (r matches Err(e) && e == CoreError::Serialize),
            !old(self).slots().contains_key(old(self).next_id()) && message_ok(message@)
                && old(self).queue().len() >= OUTBOUND_QUEUE_CAP
                ==> (r matches Err(e) && e == CoreError::QueueFull),
            !old(self).slots().contains_key(old(self).next_id()) && message_ok(message@)
                && old(self).queue().len() < OUTBOUND_QUEUE_CAP ==> r is Ok,
    {
        let call_id = self.next_call_id;
        self.next_call_id = if self.next_call_id == 0xFFFF { 0 } else { self.next_call_id + 1 };
        if slots_contains(&self.slots, call_id) {
            return Err(CoreError::CallIdInUse);
        }
        slots_insert(&mut self.slots, call_id, slot);
        let packet = EndPointMessagePacket { call_id: Some(call_id), message };
        let payload = match encode_packet(&packet) {
            Ok(b) => b,
            Err(e) => {
                slots_remove(&mut self.slots, call_id);
                proof {
                    assert(self.slots() =~= old(self).slots());
                }
                return Err(e);
            }
        };
        match self.enqueue(payload) {
            Ok(()) => Ok(call_id),
            Err(e) => {
                slots_remove(&mut self.slots, call_id);
                proof {
                    assert(self.slots() =~= old(self).slots());
                }
                Err(e)
            }
        }
    }

    /// Remove a call's registration — the timeout path, and the reason a
    /// reply arriving later finds nothing to match.
    pub fn remove_call(&mut self, call_id: u16) -> (r: Option<u64>)
        ensures
            final(self).ids_unchanged(old(self)),
            final(self).next_id() == old(self).next_id(),
            final(self).queue() == old(self).queue(),
            final(self).slots() == old(self).slots().remove(call_id),
            r matches Some(v) ==> old(self).slots().contains_key(call_id)
                && old(self).slots()[call_id] == v,
            r is None ==> !old(self).slots().contains_key(call_id),
    {
        slots_remove(&mut self.slots, call_id)
    }

    /// Fire-and-forget: queue `{no id, message}` without registering
    /// anything.
    pub fn send(&mut self, message: EndPointMessage) -> (r: Result<(), CoreError>)
        ensures
            final(self).ids_unchanged(old(self)),
            final(self).next_id() == old(self).next_id(),
            final(self).slots() == old(self).slots(),
            !message_ok(message@) ==> (r matches Err(e) && e == CoreError::Serialize
                && final(self).queue() == old(self).queue()),
            message_ok(message@) && old(self).queue().len() >= OUTBOUND_QUEUE_CAP
                ==> (r matches Err(e) && e == CoreError::QueueFull
                    && final(self).queue() == old(self).queue()),
            message_ok(message@) && old(self).queue().len() < OUTBOUND_QUEUE_CAP
                ==> (r is Ok && final(self).queue() == old(self).queue().push(
                    enc_packet(PacketView { call_id: None, message: message@ }),
                )),
    {
        let packet = EndPointMessagePacket { call_id: None, message };
        let payload = match encode_packet(&packet) {
            Ok(b) => b,
            Err(e) => {
                return Err(e);
            }
        };
        self.enqueue(payload)
    }

    /// Route one decoded inbound packet: a packet bearing a registered call
    /// id is delivered to that registration's slot, which is consumed; any
    /// other packet is handed to the unsolicited-message handler.
    pub fn dispatch_packet(&mut self, packet: EndPointMessagePacket) -> (r: Dispatch)
        ensures
            final(self).ids_unchanged(old(self)),
            final(self).next_id() == old(self).next_id(),
            final(self).queue() == old(self).queue(),
            (packet.call_id matches Some(id) && old(self).slots().contains_key(id)) ==> (
                r matches Dispatch::Reply { call_id, slot, message }
                    && packet.call_id == Some(call_id)
                    && slot == old(self).slots()[call_id]
                    && message == packet.message
                    && final(self).slots() == old(self).slots().remove(call_id)
            ),
            (match packet.call_id {
                Some(id) => !old(self).slots().contains_key(id),
                None => true,
            }) ==> (r matches Dispatch::Unsolicited { message }
                && message == packet.message
                && final(self).slots() == old(self).slots()),
    {
        match packet.call_id {
            Some(id) => {
                match slots_remove(&mut self.slots, id) {
                    Some(slot) => Dispatch::Reply { call_id: id, slot, message: packet.message },
                    None => {
                        proof {
                            assert(self.slots() =~= old(self).slots());
                        }
                        Dispatch::Unsolicited { message: packet.message }
                    }
                }
            }
            None => Dispatch::Unsolicited { message: packet.message },
        }
    }

    /// Build the handshake request a session opens with.
    pub fn handshake_request(token: Vec<u8>) -> (r: EndPointMessage)
        ensures
            r@ == (MessageView::HandshakeRequest { token: token@ }),
    {
        EndPointMessage::HandshakeRequest(HandshakeRequest { token })
    }

    /// What a handshake reply means: both statuses are well-formed outcomes;
    /// any other payload kind is a protocol mismatch.
    pub fn handshake_reply_outcome(reply: &EndPointMessage) -> (r: Result<HandshakeStatus, CoreError>)
        ensures
            (match reply@ {
                MessageView::HandshakeReply { status } => r == Ok::<HandshakeStatus, CoreError>(status),
                _ => r == Err::<HandshakeStatus, CoreError>(CoreError::ProtocolMismatch),
            }),
    {
        match reply {
            EndPointMessage::HandshakeReply(m) => Ok(m.status),
            _ => Err(CoreError::ProtocolMismatch),
        }
    }

    /// Build the periodic liveness probe carrying the caller's timestamp.
    pub fn heartbeat_request(time_stamp: u32) -> (r: EndPointMessage)
        ensures
            r@ == (MessageView::HeartBeatRequest { time_stamp }),
    {
        EndPointMessage::HeartBeatRequest(HeartBeatRequest { time_stamp })
    }

    /// A heartbeat succeeds on any heartbeat reply; any other payload kind
    /// is a protocol mismatch.
    pub fn heartbeat_reply_outcome(reply: &EndPointMessage) -> (r: Result<(), CoreError>)
        ensures
            (match reply@ {
                MessageView::HeartBeatReply { .. } => r is Ok,
                _ => r == Err::<(), CoreError>(CoreError::ProtocolMismatch),
            }),
    {
        match reply {
            EndPointMessage::HeartBeatReply(_) => Ok(()),
            _ => Err(CoreError::ProtocolMismatch),
        }
    }

    /// What a media-transmission reply means: the remote's explicit error
    /// marker is surfaced distinctly from a mismatched reply kind.
    pub fn start_media_transmission_outcome(reply: EndPointMessage) -> (r: Result<
        StartMediaTransmissionReply,
        CoreError,
    >)
        ensures
            (match reply@ {
                MessageView::StartMediaTransmissionReply { screen_width, screen_height } => (
                    r matches Ok(m) && m.screen_width == screen_width
                        && m.screen_height == screen_height
                ),
                MessageView::Error => r == Err::<StartMediaTransmissionReply, CoreError>(CoreError::RemoteError),
                _ => r == Err::<StartMediaTransmissionReply, CoreError>(CoreError::ProtocolMismatch),
            }),
    {
        match reply {
            EndPointMessage::StartMediaTransmissionReply(m) => Ok(m),
            EndPointMessage::Error => Err(CoreError::RemoteError),
            _ => Err(CoreError::ProtocolMismatch),
        }
    }

    /// Wrap a media frame for the fire-and-forget streaming path.
    pub fn media_frame_packet(frame: MediaFrame) -> (r: EndPointMessagePacket)
        ensures
            r.call_id is None,
            r.message@ == (MessageView::MediaFrame { buffer: frame.buffer@ }),
    {
        EndPointMessagePacket { call_id: None, message: EndPointMessage::MediaFrame(frame) }
    }
}

/// Whether a message fits the wire encoding (every byte field fits the
/// 32-bit length prefix).
pub open spec fn message_ok(m: MessageView) -> bool {
    crate::codec::message_encodable(m)
}

/// Law: pending registrations are independent — consuming call `i`'s entry
/// leaves call `j`'s entry, and its slot, untouched. Replies delivered in
/// any order therefore each reach their own caller's slot, never another's.
pub proof fn lemma_call_reply_matching(m: Map<u16, u64>, i: u16, j: u16)
    requires
        m.contains_key(i),
        m.contains_key(j),
        i != j,
    ensures
        m.remove(i).contains_key(j),
        m.remove(i)[j] == m[j],
{
}

/// Law: once a timed-out call's registration is removed, no registration
/// under its id remains, so a reply arriving afterwards is dispatched as
/// unsolicited and dropped without error.
pub proof fn lemma_timeout_removes_registration(m: Map<u16, u64>, id: u16)
    ensures
        !m.remove(id).contains_key(id),
{
}

} // verus!
