use mqtt_core::error::ProtocolError;
use mqtt_core::shared::{AckState, Inbound, MqttShared, QoS, SendError};

#[test]
fn ids_are_allocated_forward_and_skip_busy() {
    let mut s = MqttShared::new(16, 0);
    assert_eq!(s.register(QoS::AtLeastOnce), Ok(1));
    assert_eq!(s.register(QoS::ExactlyOnce), Ok(2));
    assert_eq!(s.outbound[0].state, AckState::WaitAck);
    assert_eq!(s.outbound[1].state, AckState::WaitRec);
    // an inbound release holds id 3
    assert_eq!(s.on_publish_qos2::<()>(3, 0), Ok(Inbound::Deliver));
    assert_eq!(s.register(QoS::AtLeastOnce), Ok(4));
}

#[test]
fn ids_wrap_round_and_skip_zero() {
    let mut s = MqttShared::new(16, 0);
    s.cursor = u16::MAX;
    assert_eq!(s.register(QoS::AtLeastOnce), Ok(1));
    s.cursor = u16::MAX - 1;
    assert_eq!(s.register(QoS::AtLeastOnce), Ok(u16::MAX));
    assert_eq!(s.register(QoS::AtLeastOnce), Ok(2));
}

#[test]
fn ids_exhausted() {
    let mut s = MqttShared::new(70_000, 0);
    for id in 1..=u16::MAX {
        assert_eq!(s.register(QoS::AtLeastOnce), Ok(id));
    }
    assert_eq!(s.register(QoS::AtLeastOnce), Err(SendError::PacketIdsExhausted));
    assert_eq!(s.outbound.len(), 65535);
}

#[test]
fn closed_connection_refuses_publish() {
    let mut s = MqttShared::new(16, 0);
    let a = s.register(QoS::AtLeastOnce).unwrap();
    let b = s.register(QoS::ExactlyOnce).unwrap();
    assert_eq!(s.force_close(), vec![a, b]);
    assert!(s.outbound.is_empty());
    assert_eq!(s.register(QoS::AtLeastOnce), Err(SendError::Disconnected));
    // the waiter of `a` learns Disconnected, never a PUBACK
    assert_eq!(s.on_puback::<()>(a), Err(ProtocolError::PacketIdMismatch));
}

#[test]
fn puback_completes_only_matching_qos1() {
    let mut s = MqttShared::new(16, 0);
    let a = s.register(QoS::AtLeastOnce).unwrap();
    let b = s.register(QoS::ExactlyOnce).unwrap();
    assert_eq!(s.on_puback::<()>(b), Err(ProtocolError::PacketIdMismatch));
    assert_eq!(s.on_puback::<()>(a), Ok(()));
    assert_eq!(s.on_puback::<()>(a), Err(ProtocolError::PacketIdMismatch));
    assert!(!s.is_busy(a));
    assert!(s.is_busy(b));
}

#[test]
fn qos2_needs_pubrec_then_pubcomp() {
    let mut s = MqttShared::new(16, 0);
    let a = s.register(QoS::ExactlyOnce).unwrap();
    assert_eq!(s.on_pubcomp::<()>(a), Err(ProtocolError::PacketIdMismatch));
    assert_eq!(s.on_pubrec::<()>(a), Ok(()));
    assert_eq!(s.outbound[0].state, AckState::WaitComp);
    assert_eq!(s.on_pubrec::<()>(a), Err(ProtocolError::PacketIdMismatch));
    assert_eq!(s.on_pubcomp::<()>(a), Ok(()));
    assert!(s.outbound.is_empty());
}

#[test]
fn inbound_qos2_duplicate_and_limit() {
    let mut s = MqttShared::new(16, 2);
    assert_eq!(s.on_publish_qos2::<()>(7, 0), Ok(Inbound::Deliver));
    assert_eq!(s.on_publish_qos2::<()>(7, 5), Ok(Inbound::Duplicate));
    assert_eq!(s.on_publish_qos2::<()>(8, 5), Ok(Inbound::Deliver));
    assert_eq!(s.on_publish_qos2::<()>(9, 5), Err(ProtocolError::ReceiveMaxExceeded));
    assert!(s.on_pubrel(7));
    assert!(!s.on_pubrel(7));
    assert_eq!(s.on_publish_qos2::<()>(9, 6), Ok(Inbound::Deliver));
}

#[test]
fn unlimited_awaiting_release_when_zero() {
    let mut s = MqttShared::new(16, 0);
    for id in 1..=1000u16 {
        assert_eq!(s.on_publish_qos2::<()>(id, 0), Ok(Inbound::Deliver));
    }
}

#[test]
fn reap_drops_only_old_releases() {
    let mut s = MqttShared::new(16, 0);
    s.on_publish_qos2::<()>(1, 100).unwrap();
    s.on_publish_qos2::<()>(2, 900).unwrap();
    s.on_publish_qos2::<()>(3, 200).unwrap();
    assert!(s.reap(1_000, 0).is_empty());
    assert_eq!(s.reap(1_000, 800), vec![1]);
    assert_eq!(s.awaiting.len(), 2);
    assert_eq!(s.reap(1_000, 100), vec![3]);
    assert_eq!(s.awaiting[0].id, 2);
}

#[test]
fn graceful_close_keeps_inflight() {
    let mut s = MqttShared::new(16, 0);
    assert_eq!(s.send_at_most_once(), Ok(()));
    let a = s.register(QoS::AtLeastOnce).unwrap();
    s.close();
    assert_eq!(s.send_at_most_once(), Err(SendError::Disconnected));
    assert_eq!(s.register(QoS::AtLeastOnce), Err(SendError::Disconnected));
    assert_eq!(s.on_puback::<()>(a), Ok(()));
}

#[test]
fn pubrel_for_unknown_id_changes_nothing() {
    let mut s = MqttShared::new(16, 0);
    s.on_publish_qos2::<()>(4, 0).unwrap();
    let a = s.register(QoS::AtLeastOnce).unwrap();
    assert!(!s.on_pubrel(9));
    assert_eq!(s.awaiting.len(), 1);
    assert!(s.on_pubrel(4));
    assert!(s.awaiting.is_empty());
    assert!(s.is_busy(a));
}
