use mqtt_core::control::{DefaultControlService, DefaultPublishService};
use mqtt_core::error::{MqttError, ProtocolError};
use mqtt_core::packet::{check_frame_size, ConnectAckReason, Packet};
use mqtt_core::server::{
    connect_ack, expect_connect, handshake_deadline, handshake_expired, BufferParams, HandshakeAck,
    MqttServer, EXPECTED_CONNECT,
};
use mqtt_core::service::{FactoryBuilder, FactoryBuilder2};

type Server = MqttServer<(), (), &'static str, DefaultControlService<(), ()>, DefaultPublishService<(), ()>>;

#[test]
fn server_defaults() {
    let s: Server = MqttServer::new("handshake");
    assert_eq!(s.handshake, "handshake");
    assert_eq!(s.max_size, 0);
    assert_eq!(s.inflight, 16);
    assert_eq!(s.handshake_timeout, 0);
    assert_eq!(s.disconnect_timeout, 3000);
    assert_eq!(s.max_awaiting_rel, 0);
    assert_eq!(s.await_rel_timeout, 0);
}

#[test]
fn server_builders_set_one_field() {
    let s: Server = MqttServer::new("h");
    let s = s
        .handshake_timeout(500)
        .disconnect_timeout(100)
        .max_size(1024)
        .inflight(4)
        .max_awaiting_rel(8)
        .await_rel_timeout(60_000);
    assert_eq!(s.handshake_timeout, 500);
    assert_eq!(s.disconnect_timeout, 100);
    assert_eq!(s.max_size, 1024);
    assert_eq!(s.inflight, 4);
    assert_eq!(s.max_awaiting_rel, 8);
    assert_eq!(s.await_rel_timeout, 60_000);
    let s = s.control(7u8).publish(9u16);
    assert_eq!(s.control, 7u8);
    assert_eq!(s.publish, 9u16);
    assert_eq!(s.inflight, 4);
}

#[test]
fn factory_builders() {
    let b = FactoryBuilder::new(1u8);
    assert_eq!(b.disconnect_timeout, 3000);
    let f = b.disconnect_timeout(0).build("h");
    assert_eq!(f.disconnect_timeout, 0);
    assert_eq!(f.connect, 1u8);
    assert_eq!(f.handler, "h");
    let b = FactoryBuilder2::new(2u8);
    assert_eq!(b.disconnect_timeout, 3000);
    let f = b.disconnect_timeout(250).build("g");
    assert_eq!(f.disconnect_timeout, 250);
    assert_eq!(f.handler, "g");
}

#[test]
fn first_packet_must_be_connect() {
    let c = Packet::Connect { client_id: "user".to_string(), keep_alive: 60, clean_session: true };
    assert!(matches!(expect_connect::<(), ()>(Some(c)), Ok(Packet::Connect { .. })));
    assert!(matches!(expect_connect::<(), ()>(None), Err(MqttError::Disconnected)));
    assert!(matches!(
        expect_connect::<(), ()>(Some(Packet::PingRequest)),
        Err(MqttError::Protocol(ProtocolError::Unexpected(0xc0, EXPECTED_CONNECT)))
    ));
}

#[test]
fn accepted_handshake_writes_connack() {
    let ack = HandshakeAck::ack("session", true).keep_alive(10).buffer_params(100, 200, 50);
    let plan = connect_ack::<&str, (), ()>(ack);
    assert_eq!(plan.buffer, Some(BufferParams { read_hw: 100, write_hw: 200, lw: 50 }));
    assert!(matches!(
        plan.packet,
        Packet::ConnectAck { session_present: true, return_code: ConnectAckReason::ConnectionAccepted }
    ));
    assert_eq!(plan.outcome, Ok(("session", 10)));
}

#[test]
fn rejected_handshake_writes_connack_then_disconnects() {
    let ack: HandshakeAck<()> = HandshakeAck::bad_username_or_pwd();
    let plan = connect_ack::<(), (), ()>(ack);
    assert_eq!(plan.buffer, None);
    assert!(matches!(
        plan.packet,
        Packet::ConnectAck { session_present: false, return_code: ConnectAckReason::BadUserNameOrPassword }
    ));
    assert_eq!(plan.outcome, Err(MqttError::Disconnected));
    let ack: HandshakeAck<()> = HandshakeAck::not_authorized();
    assert_eq!(ack.return_code, ConnectAckReason::NotAuthorized);
    let ack: HandshakeAck<()> = HandshakeAck::identifier_rejected();
    assert_eq!(ack.return_code, ConnectAckReason::IdentifierRejected);
    let ack: HandshakeAck<()> = HandshakeAck::service_unavailable();
    assert_eq!(ack.return_code, ConnectAckReason::ServiceUnavailable);
}

#[test]
fn handshake_deadline_expiry() {
    assert!(!handshake_expired(0, 0, u64::MAX));
    assert!(!handshake_expired(500, 1_000, 1_499));
    assert!(handshake_expired(500, 1_000, 1_500));
    assert_eq!(handshake_deadline::<(), ()>(500, 1_000, 1_499), Ok(()));
    assert_eq!(handshake_deadline::<(), ()>(500, 1_000, 1_500), Err(MqttError::HandshakeTimeout));
    assert_eq!(handshake_deadline::<(), ()>(0, 1_000, u64::MAX), Ok(()));
}

#[test]
fn frame_size_limit() {
    assert_eq!(check_frame_size::<()>(0, u64::MAX), Ok(()));
    assert_eq!(check_frame_size::<()>(1024, 1024), Ok(()));
    assert_eq!(check_frame_size::<()>(1024, 1025), Err(ProtocolError::MaxSizeExceeded));
}

#[test]
fn connection_state_follows_server_settings() {
    let s: Server = MqttServer::new("h");
    let s = s.inflight(4).max_awaiting_rel(2).disconnect_timeout(250);
    let (d, shared) = s.start_connection::<u32>(30, BufferParams { read_hw: 100, write_hw: 200, lw: 50 }, 7);
    assert_eq!(d.inflight, 4);
    assert_eq!(d.keepalive, 30);
    assert_eq!(d.disconnect_timeout, 250);
    assert_eq!(d.write_hw, 200);
    assert_eq!(d.lw, 50);
    assert_eq!(d.last_frame_at, 7);
    assert_eq!(shared.inflight, 4);
    assert_eq!(shared.max_awaiting_rel, 2);
    assert!(shared.outbound.is_empty());
}

#[test]
fn unexpected_first_packet_text() {
    assert_eq!(EXPECTED_CONNECT, "MQTT-3.1.0-1: Expected CONNECT packet");
}
