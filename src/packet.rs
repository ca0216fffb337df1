//! MQTT 3.1.1 packets as the session layer sees them.
use vstd::prelude::*;
use crate::error::ProtocolError;
use crate::shared::QoS;

verus! {

/// Return code of a CONNACK.
#[derive(PartialEq, Eq, Structural, Clone, Copy, Debug)]
pub enum ConnectAckReason {
    ConnectionAccepted,
    UnacceptableProtocolVersion,
    IdentifierRejected,
    ServiceUnavailable,
    BadUserNameOrPassword,
    NotAuthorized,
}

/// Per-topic result in a SUBACK.
#[derive(PartialEq, Eq, Structural, Clone, Copy, Debug)]
pub enum SubscribeReturnCode {
    Success(QoS),
    Failure,
}

/// A PUBLISH packet.
#[derive(Clone, Debug)]
pub struct Publish {
    pub dup: bool,
    pub retain: bool,
    pub qos: QoS,
    pub topic: String,
    /// Present exactly for QoS1 and QoS2.
    pub packet_id: Option<u16>,
    pub payload: Vec<u8>,
}

/// A decoded MQTT 3.1.1 packet.
#[derive(Clone, Debug)]
pub enum Packet {
    Connect { client_id: String, keep_alive: u16, clean_session: bool },
    ConnectAck { session_present: bool, return_code: ConnectAckReason },
    Publish(Publish),
    PublishAck { packet_id: u16 },
    PublishReceived { packet_id: u16 },
    PublishRelease { packet_id: u16 },
    PublishComplete { packet_id: u16 },
    Subscribe { packet_id: u16, topic_filters: Vec<(String, QoS)> },
    SubscribeAck { packet_id: u16, status: Vec<SubscribeReturnCode> },
    Unsubscribe { packet_id: u16, topic_filters: Vec<String> },
    UnsubscribeAck { packet_id: u16 },
    PingRequest,
    PingResponse,
    Disconnect,
}

/// The fixed-header first byte of each packet type (type in the high
/// nibble, with the flags that MQTT 3.1.1 mandates for it).
pub open spec fn packet_type_spec(p: Packet) -> u8 {
    match p {
        Packet::Connect { .. } => 0x10,
        Packet::ConnectAck { .. } => 0x20,
        Packet::Publish(_) => 0x30,
        Packet::PublishAck { .. } => 0x40,
        Packet::PublishReceived { .. } => 0x50,
        Packet::PublishRelease { .. } => 0x62,
        Packet::PublishComplete { .. } => 0x70,
        Packet::Subscribe { .. } => 0x82,
        Packet::SubscribeAck { .. } => 0x90,
        Packet::Unsubscribe { .. } => 0xa2,
        Packet::UnsubscribeAck { .. } => 0xb0,
        Packet::PingRequest => 0xc0,
        Packet::PingResponse => 0xd0,
        Packet::Disconnect => 0xe0,
    }
}

impl Packet {
    /// The packet's type byte.
    pub fn packet_type(&self) -> (r: u8)
        ensures
            r == packet_type_spec(*self),
    {
        match self {
            Packet::Connect { .. } => 0x10,
            Packet::ConnectAck { .. } => 0x20,
            Packet::Publish(_) => 0x30,
            Packet::PublishAck { .. } => 0x40,
            Packet::PublishReceived { .. } => 0x50,
            Packet::PublishRelease { .. } => 0x62,
            Packet::PublishComplete { .. } => 0x70,
            Packet::Subscribe { .. } => 0x82,
            Packet::SubscribeAck { .. } => 0x90,
            Packet::Unsubscribe { .. } => 0xa2,
            Packet::UnsubscribeAck { .. } => 0xb0,
            Packet::PingRequest => 0xc0,
            Packet::PingResponse => 0xd0,
            Packet::Disconnect => 0xe0,
        }
    }
}

/// The codec's frame-size policy: a frame whose header claims more than
/// `max_size` bytes is refused; a `max_size` of 0 admits any size.
pub fn check_frame_size<E>(max_size: u32, claimed: u64) -> (r: Result<(), ProtocolError<E>>)
    ensures
        r is Ok <==> (max_size == 0 || claimed <= max_size),
        r is Err ==> r == Err::<(), ProtocolError<E>>(ProtocolError::MaxSizeExceeded),
{
    if max_size != 0 && claimed > max_size as u64 {
        Err(ProtocolError::MaxSizeExceeded)
    } else {
        Ok(())
    }
}

} // verus!
