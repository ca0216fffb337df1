use mqtt_core::control::{ControlMessage, DefaultControlService};
use mqtt_core::dispatcher::Dispatcher;
use mqtt_core::packet::{Packet, Publish, SubscribeReturnCode};
use mqtt_core::session::{on_packet, SessionStep};
use mqtt_core::shared::{MqttShared, QoS, SendError};

fn qos1(id: u16) -> Packet {
    Packet::Publish(Publish {
        dup: false,
        retain: false,
        qos: QoS::AtLeastOnce,
        topic: "test".to_string(),
        packet_id: Some(id),
        payload: Vec::new(),
    })
}

fn ack_of(step: SessionStep<()>) -> Option<Packet> {
    match step {
        SessionStep::Publish { ack, .. } => ack,
        SessionStep::Respond(p) => p,
        SessionStep::Control(ControlMessage::Subscribe(mut sub)) => {
            sub.confirm(0, QoS::AtLeastOnce);
            ControlMessage::Subscribe(sub).ack().packet
        }
        SessionStep::Control(m) => {
            let srv: DefaultControlService<(), ()> = DefaultControlService::new();
            srv.call(m).unwrap().packet
        }
        SessionStep::Fail(e) => panic!("unexpected failure {:?}", e),
    }
}

#[test]
fn ack_order_under_slow_publish() {
    let mut shared = MqttShared::new(16, 0);
    let mut d: Dispatcher<Packet> = Dispatcher::new(16, 0, 3000, 1024, 256, 0);
    let pub1 = ack_of(on_packet::<()>(&mut shared, qos1(1), 0));
    let id1 = d.on_frame(0);
    let sub = Packet::Subscribe { packet_id: 2, topic_filters: vec![("topic1".to_string(), QoS::AtLeastOnce)] };
    let sub2 = ack_of(on_packet::<()>(&mut shared, sub, 0));
    let id2 = d.on_frame(0);
    let pub3 = ack_of(on_packet::<()>(&mut shared, qos1(3), 0));
    let id3 = d.on_frame(0);
    // subscribe answers at once, the publishes 100 ms later
    assert!(d.on_response(id2, sub2));
    assert!(d.take_ready().is_empty());
    assert!(d.on_response(id3, pub3));
    assert!(d.take_ready().is_empty());
    assert!(d.on_response(id1, pub1));
    let out = d.take_ready();
    assert_eq!(out.len(), 3);
    assert!(matches!(out[0], Packet::PublishAck { packet_id: 1 }));
    match &out[1] {
        Packet::SubscribeAck { packet_id, status } => {
            assert_eq!(*packet_id, 2);
            assert_eq!(status, &vec![SubscribeReturnCode::Success(QoS::AtLeastOnce)]);
        }
        other => panic!("unexpected packet {:?}", other),
    }
    assert!(matches!(out[2], Packet::PublishAck { packet_id: 3 }));
}

#[test]
fn three_concurrent_qos1_publishes() {
    let mut shared = MqttShared::new(16, 0);
    let a = shared.register(QoS::AtLeastOnce).unwrap();
    let b = shared.register(QoS::AtLeastOnce).unwrap();
    let c = shared.register(QoS::AtLeastOnce).unwrap();
    assert_eq!((a, b, c), (1, 2, 3));
    for id in [c, a, b] {
        let step = on_packet::<()>(&mut shared, Packet::PublishAck { packet_id: id }, 0);
        assert!(matches!(step, SessionStep::Respond(None)));
    }
    assert!(shared.outbound.is_empty());
}

#[test]
fn force_close_mid_publish_fails_sender() {
    let mut shared = MqttShared::new(16, 0);
    let a = shared.register(QoS::AtLeastOnce).unwrap();
    let failed = shared.force_close();
    assert_eq!(failed, vec![a]);
    assert_eq!(shared.register(QoS::AtLeastOnce), Err(SendError::Disconnected));
}
