use mirrorx_core::codec::decode_packet;
use mirrorx_core::endpoint::{Dispatch, EndPoint, OUTBOUND_QUEUE_CAP};
use mirrorx_core::error::CoreError;
use mirrorx_core::packet::{
    EndPointMessage, EndPointMessagePacket, HandshakeReply, HandshakeStatus, HeartBeatReply,
    HeartBeatRequest, MediaFrame, StartMediaTransmissionReply,
};

fn heartbeat(n: u32) -> EndPointMessage {
    EndPointMessage::HeartBeatRequest(HeartBeatRequest { time_stamp: n })
}

fn heartbeat_reply(n: u32) -> EndPointMessage {
    EndPointMessage::HeartBeatReply(HeartBeatReply { time_stamp: n })
}

#[test]
fn device_ids_are_kept() {
    let ep = EndPoint::new("local-a".to_string(), "remote-b".to_string());
    assert_eq!(ep.local_device_id().as_str(), "local-a");
    assert_eq!(ep.remote_device_id().as_str(), "remote-b");
}

#[test]
fn call_ids_are_allocated_in_sequence() {
    let mut ep = EndPoint::new("a".to_string(), "b".to_string());
    for expected in 0..10u16 {
        let id = ep.begin_call(heartbeat(expected as u32), 1000 + expected as u64).unwrap();
        assert_eq!(id, expected);
    }
}

#[test]
fn begin_call_queues_the_serialized_packet() {
    let mut ep = EndPoint::new("a".to_string(), "b".to_string());
    let id = ep.begin_call(heartbeat(42), 7).unwrap();
    let payload = ep.next_outbound().unwrap();
    let packet = decode_packet(&payload).unwrap();
    assert_eq!(packet.call_id, Some(id));
    assert_eq!(packet.message, heartbeat(42));
    assert!(ep.next_outbound().is_none());
}

#[test]
fn outbound_queue_preserves_order() {
    let mut ep = EndPoint::new("a".to_string(), "b".to_string());
    for i in 0..5u32 {
        ep.send(EndPointMessage::MediaFrame(MediaFrame { buffer: vec![i as u8] })).unwrap();
    }
    for i in 0..5u32 {
        let payload = ep.next_outbound().unwrap();
        let packet = decode_packet(&payload).unwrap();
        assert_eq!(packet.call_id, None);
        assert_eq!(packet.message, EndPointMessage::MediaFrame(MediaFrame { buffer: vec![i as u8] }));
    }
}

#[test]
fn full_queue_is_an_error_not_a_drop() {
    let mut ep = EndPoint::new("a".to_string(), "b".to_string());
    for _ in 0..OUTBOUND_QUEUE_CAP {
        ep.send(heartbeat(0)).unwrap();
    }
    assert_eq!(ep.send(heartbeat(0)).unwrap_err(), CoreError::QueueFull);
    // a failed call leaves no registration behind
    assert_eq!(ep.begin_call(heartbeat(1), 5).unwrap_err(), CoreError::QueueFull);
    let reply = EndPointMessagePacket::new(Some(OUTBOUND_QUEUE_CAP as u16), heartbeat_reply(1));
    match ep.dispatch_packet(reply) {
        Dispatch::Unsolicited { .. } => {}
        Dispatch::Reply { .. } => panic!("registration should have been rolled back"),
    }
}

#[test]
fn replies_route_to_their_own_callers_in_any_order() {
    let mut ep = EndPoint::new("a".to_string(), "b".to_string());
    let n: u16 = 20;
    for i in 0..n {
        let id = ep.begin_call(heartbeat(i as u32), 5000 + i as u64).unwrap();
        assert_eq!(id, i);
        ep.next_outbound().unwrap();
    }
    // deliver replies in a shuffled order
    let mut order: Vec<u16> = (0..n).collect();
    order.reverse();
    order.swap(3, 11);
    order.swap(0, 17);
    for id in order {
        let reply = EndPointMessagePacket::new(Some(id), heartbeat_reply(id as u32));
        match ep.dispatch_packet(reply) {
            Dispatch::Reply { call_id, slot, message } => {
                assert_eq!(call_id, id);
                assert_eq!(slot, 5000 + id as u64);
                assert_eq!(message, heartbeat_reply(id as u32));
            }
            Dispatch::Unsolicited { .. } => panic!("reply for registered id {} not routed", id),
        }
    }
}

#[test]
fn timed_out_call_leaves_no_trace_and_late_reply_is_dropped() {
    let mut ep = EndPoint::new("a".to_string(), "b".to_string());
    let id = ep.begin_call(heartbeat(9), 77).unwrap();
    ep.next_outbound().unwrap();
    // the timeout path removes the registration
    assert_eq!(ep.remove_call(id), Some(77));
    // no trace remains
    assert_eq!(ep.remove_call(id), None);
    // a reply arriving afterwards is unsolicited, not an error
    let late = EndPointMessagePacket::new(Some(id), heartbeat_reply(9));
    match ep.dispatch_packet(late) {
        Dispatch::Unsolicited { message } => assert_eq!(message, heartbeat_reply(9)),
        Dispatch::Reply { .. } => panic!("late reply must not match a removed call"),
    }
}

#[test]
fn packets_without_id_are_unsolicited() {
    let mut ep = EndPoint::new("a".to_string(), "b".to_string());
    ep.begin_call(heartbeat(0), 1).unwrap();
    let push = EndPointMessagePacket::new(None, EndPointMessage::Error);
    match ep.dispatch_packet(push) {
        Dispatch::Unsolicited { message } => assert_eq!(message, EndPointMessage::Error),
        Dispatch::Reply { .. } => panic!("id-less packet routed to a caller"),
    }
}

#[test]
fn wrapped_call_id_collision_fails_loudly() {
    let mut ep = EndPoint::new("a".to_string(), "b".to_string());
    // id 0 is registered and its entry stays live
    assert_eq!(ep.begin_call(heartbeat(0), 1).unwrap(), 0);
    // advance the counter through the whole 16-bit space; queue-full
    // failures still advance it, and leave no registrations behind
    for _ in 1..65536u32 {
        let _ = ep.begin_call(heartbeat(1), 2);
    }
    // the counter has wrapped onto the still-pending id 0
    assert_eq!(ep.begin_call(heartbeat(2), 3).unwrap_err(), CoreError::CallIdInUse);
}

#[test]
fn reply_interpreters_distinguish_outcomes() {
    assert_eq!(
        EndPoint::handshake_reply_outcome(&EndPointMessage::HandshakeReply(HandshakeReply {
            status: HandshakeStatus::Accepted,
        })),
        Ok(HandshakeStatus::Accepted),
    );
    assert_eq!(
        EndPoint::handshake_reply_outcome(&EndPointMessage::HandshakeReply(HandshakeReply {
            status: HandshakeStatus::Repeated,
        })),
        Ok(HandshakeStatus::Repeated),
    );
    assert_eq!(
        EndPoint::handshake_reply_outcome(&EndPointMessage::Error),
        Err(CoreError::ProtocolMismatch),
    );
    assert_eq!(EndPoint::heartbeat_reply_outcome(&heartbeat_reply(5)), Ok(()));
    assert_eq!(
        EndPoint::heartbeat_reply_outcome(&heartbeat(5)),
        Err(CoreError::ProtocolMismatch),
    );
    let reply = StartMediaTransmissionReply { screen_width: 800, screen_height: 600 };
    assert_eq!(
        EndPoint::start_media_transmission_outcome(
            EndPointMessage::StartMediaTransmissionReply(reply),
        ),
        Ok(StartMediaTransmissionReply { screen_width: 800, screen_height: 600 }),
    );
    assert_eq!(
        EndPoint::start_media_transmission_outcome(EndPointMessage::Error),
        Err(CoreError::RemoteError),
    );
    assert_eq!(
        EndPoint::start_media_transmission_outcome(heartbeat_reply(0)),
        Err(CoreError::ProtocolMismatch),
    );
}

#[test]
fn media_frame_packets_carry_no_call_id() {
    let packet = EndPoint::media_frame_packet(MediaFrame { buffer: vec![1, 2, 3] });
    assert_eq!(packet.call_id, None);
    assert_eq!(
        packet.message,
        EndPointMessage::MediaFrame(MediaFrame { buffer: vec![1, 2, 3] }),
    );
}
