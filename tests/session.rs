use mqtt_core::control::{ControlMessage, DefaultControlService, DefaultPublishService, Subscribe};
use mqtt_core::error::ProtocolError;
use mqtt_core::packet::{Packet, Publish, SubscribeReturnCode};
use mqtt_core::session::{on_packet, route_item, DispatchItem, Route, SessionStep};
use mqtt_core::shared::{MqttShared, QoS};

fn publish(qos: QoS, packet_id: Option<u16>) -> Publish {
    Publish {
        dup: false,
        retain: false,
        qos,
        topic: "#".to_string(),
        packet_id,
        payload: Vec::new(),
    }
}

#[test]
fn qos1_publish_is_delivered_then_acked() {
    let mut s = MqttShared::new(16, 0);
    match on_packet::<()>(&mut s, Packet::Publish(publish(QoS::AtLeastOnce, Some(1))), 0) {
        SessionStep::Publish { publish, ack } => {
            assert_eq!(publish.topic, "#");
            assert!(matches!(ack, Some(Packet::PublishAck { packet_id: 1 })));
        }
        other => panic!("unexpected step {:?}", other),
    }
}

#[test]
fn qos0_publish_has_no_ack() {
    let mut s = MqttShared::new(16, 0);
    let step = on_packet::<()>(&mut s, Packet::Publish(publish(QoS::AtMostOnce, None)), 0);
    assert!(matches!(step, SessionStep::Publish { ack: None, .. }));
}

#[test]
fn qos2_publish_twice_is_delivered_once() {
    let mut s = MqttShared::new(16, 0);
    let first = on_packet::<()>(&mut s, Packet::Publish(publish(QoS::ExactlyOnce, Some(5))), 0);
    assert!(matches!(
        first,
        SessionStep::Publish { ack: Some(Packet::PublishReceived { packet_id: 5 }), .. }
    ));
    let again = on_packet::<()>(&mut s, Packet::Publish(publish(QoS::ExactlyOnce, Some(5))), 1);
    assert!(matches!(
        again,
        SessionStep::Respond(Some(Packet::PublishReceived { packet_id: 5 }))
    ));
    let rel = on_packet::<()>(&mut s, Packet::PublishRelease { packet_id: 5 }, 2);
    assert!(matches!(
        rel,
        SessionStep::Respond(Some(Packet::PublishComplete { packet_id: 5 }))
    ));
    assert!(s.awaiting.is_empty());
}

#[test]
fn qos2_over_limit_fails() {
    let mut s = MqttShared::new(16, 1);
    on_packet::<()>(&mut s, Packet::Publish(publish(QoS::ExactlyOnce, Some(1))), 0);
    let step = on_packet::<()>(&mut s, Packet::Publish(publish(QoS::ExactlyOnce, Some(2))), 0);
    assert!(matches!(step, SessionStep::Fail(ProtocolError::ReceiveMaxExceeded)));
}

#[test]
fn outbound_acks_advance_inflight() {
    let mut s = MqttShared::new(16, 0);
    let a = s.register(QoS::ExactlyOnce).unwrap();
    let rec = on_packet::<()>(&mut s, Packet::PublishReceived { packet_id: a }, 0);
    assert!(matches!(rec, SessionStep::Respond(Some(Packet::PublishRelease { packet_id }) ) if packet_id == a));
    let comp = on_packet::<()>(&mut s, Packet::PublishComplete { packet_id: a }, 0);
    assert!(matches!(comp, SessionStep::Respond(None)));
    let stray = on_packet::<()>(&mut s, Packet::PublishAck { packet_id: a }, 0);
    assert!(matches!(stray, SessionStep::Fail(ProtocolError::PacketIdMismatch)));
}

#[test]
fn control_packets_go_to_control_service() {
    let mut s = MqttShared::new(16, 0);
    assert!(matches!(
        on_packet::<()>(&mut s, Packet::PingRequest, 0),
        SessionStep::Control(ControlMessage::Ping)
    ));
    assert!(matches!(
        on_packet::<()>(&mut s, Packet::Disconnect, 0),
        SessionStep::Control(ControlMessage::Disconnect)
    ));
    let sub = Packet::Subscribe {
        packet_id: 2,
        topic_filters: vec![("topic1".to_string(), QoS::AtLeastOnce)],
    };
    match on_packet::<()>(&mut s, sub, 0) {
        SessionStep::Control(ControlMessage::Subscribe(sub)) => {
            assert_eq!(sub.packet_id, 2);
            assert_eq!(sub.codes, vec![SubscribeReturnCode::Failure]);
        }
        other => panic!("unexpected step {:?}", other),
    }
}

#[test]
fn unexpected_packet_fails_with_its_type() {
    let mut s = MqttShared::new(16, 0);
    let step = on_packet::<()>(&mut s, Packet::PingResponse, 0);
    assert!(matches!(step, SessionStep::Fail(ProtocolError::Unexpected(0xd0, _))));
    let step = on_packet::<()>(&mut s, Packet::Publish(publish(QoS::AtLeastOnce, None)), 0);
    assert!(matches!(step, SessionStep::Fail(ProtocolError::Unexpected(0x30, _))));
}

#[test]
fn default_control_acks_each_message() {
    let srv: DefaultControlService<(), ()> = DefaultControlService::new();
    let r = srv.call(ControlMessage::Ping).unwrap();
    assert!(matches!(r.packet, Some(Packet::PingResponse)));
    assert!(!r.disconnect);
    let r = srv.call(ControlMessage::Disconnect).unwrap();
    assert!(r.packet.is_none());
    assert!(r.disconnect);
    let sub = Subscribe::new(4, vec![("a".to_string(), QoS::ExactlyOnce), ("b".to_string(), QoS::AtMostOnce)]);
    match srv.call(ControlMessage::Subscribe(sub)).unwrap().packet {
        Some(Packet::SubscribeAck { packet_id, status }) => {
            assert_eq!(packet_id, 4);
            assert_eq!(status, vec![SubscribeReturnCode::Failure, SubscribeReturnCode::Failure]);
        }
        other => panic!("unexpected ack {:?}", other),
    }
    let r = srv.call(ControlMessage::Unsubscribe { packet_id: 9, topics: vec!["a".to_string()] }).unwrap();
    assert!(matches!(r.packet, Some(Packet::UnsubscribeAck { packet_id: 9 })));
    let r = srv.call(ControlMessage::Closed { is_error: true }).unwrap();
    assert!(r.packet.is_none());
    assert!(!r.disconnect);
}

#[test]
fn confirmed_subscription_is_granted() {
    let mut sub = Subscribe::new(2, vec![("topic1".to_string(), QoS::AtLeastOnce)]);
    sub.confirm(0, QoS::AtLeastOnce);
    let r = ControlMessage::Subscribe(sub).ack();
    match r.packet {
        Some(Packet::SubscribeAck { packet_id, status }) => {
            assert_eq!(packet_id, 2);
            assert_eq!(status, vec![SubscribeReturnCode::Success(QoS::AtLeastOnce)]);
        }
        other => panic!("unexpected ack {:?}", other),
    }
}

#[test]
fn default_publish_accepts() {
    let srv: DefaultPublishService<(), String> = DefaultPublishService::new();
    assert!(srv.call(publish(QoS::AtMostOnce, None)).is_ok());
}

#[test]
fn dispatch_items_are_routed() {
    assert!(matches!(route_item::<u8, u8>(DispatchItem::Item(3)), Route::Call(3)));
    assert!(matches!(
        route_item::<u8, u8>(DispatchItem::KeepAliveTimeout),
        Route::Fail(ProtocolError::KeepAliveTimeout)
    ));
    assert!(matches!(
        route_item::<u8, u8>(DispatchItem::EncoderError(1)),
        Route::Close { notice: ControlMessage::Closed { is_error: true }, error: ProtocolError::Encode(1) }
    ));
    assert!(matches!(
        route_item::<u8, u8>(DispatchItem::DecoderError(2)),
        Route::Close { notice: ControlMessage::Closed { is_error: true }, error: ProtocolError::Decode(2) }
    ));
    assert!(matches!(
        route_item::<u8, u8>(DispatchItem::IoError(3)),
        Route::Close { notice: ControlMessage::Closed { is_error: true }, error: ProtocolError::Io(3) }
    ));
    assert!(matches!(route_item::<u8, u8>(DispatchItem::WBackPressureEnabled), Route::Skip));
    assert!(matches!(route_item::<u8, u8>(DispatchItem::WBackPressureDisabled), Route::Skip));
}
