//! The session layer: turns what the dispatcher yields into calls of the
//! publish and control services, and inbound acknowledgements into steps
//! of the packet-id bookkeeping.
use vstd::prelude::*;
use crate::control::{ControlMessage, Subscribe};
use crate::error::ProtocolError;
use crate::packet::{Packet, Publish};
use crate::shared::{Awaiting, Inbound, MqttShared, QoS};

verus! {

/// What the dispatcher hands to the service.
#[derive(Clone, Debug)]
pub enum DispatchItem<T, E> {
    /// A decoded frame.
    Item(T),
    KeepAliveTimeout,
    EncoderError(E),
    DecoderError(E),
    IoError(E),
    WBackPressureEnabled,
    WBackPressureDisabled,
}

/// How the server treats a dispatch item.
#[derive(Clone, Debug)]
pub enum Route<T, E> {
    /// Pass the frame on to the session.
    Call(T),
    /// End the connection with this error.
    Fail(ProtocolError<E>),
    /// Deliver `notice` to the control service, then end the connection
    /// with `error`.
    Close { notice: ControlMessage, error: ProtocolError<E> },
    /// Informational: answer with nothing.
    Skip,
}

pub open spec fn route_spec<T, E>(item: DispatchItem<T, E>) -> Route<T, E> {
    match item {
        DispatchItem::Item(t) => Route::Call(t),
        DispatchItem::KeepAliveTimeout => Route::Fail(ProtocolError::KeepAliveTimeout),
        DispatchItem::EncoderError(e) => Route::Close {
            notice: ControlMessage::Closed { is_error: true },
            error: ProtocolError::Encode(e),
        },
        DispatchItem::DecoderError(e) => Route::Close {
            notice: ControlMessage::Closed { is_error: true },
            error: ProtocolError::Decode(e),
        },
        DispatchItem::IoError(e) => Route::Close {
            notice: ControlMessage::Closed { is_error: true },
            error: ProtocolError::Io(e),
        },
        DispatchItem::WBackPressureEnabled => Route::Skip,
        DispatchItem::WBackPressureDisabled => Route::Skip,
    }
}

/// Frames go to the session; keep-alive expiry ends the connection with a
/// protocol error; a codec or transport failure first tells the control
/// service that the connection closed, then ends it with the matching
/// protocol error (the dispatcher delivers such a failure once); back-pressure
/// reports are answered with nothing.
pub fn route_item<T, E>(item: DispatchItem<T, E>) -> (r: Route<T, E>)
    ensures
        r == route_spec(item),
{
    match item {
        DispatchItem::Item(t) => Route::Call(t),
        DispatchItem::KeepAliveTimeout => Route::Fail(ProtocolError::KeepAliveTimeout),
        DispatchItem::EncoderError(e) => Route::Close {
            notice: ControlMessage::Closed { is_error: true },
            error: ProtocolError::Encode(e),
        },
        DispatchItem::DecoderError(e) => Route::Close {
            notice: ControlMessage::Closed { is_error: true },
            error: ProtocolError::Decode(e),
        },
        DispatchItem::IoError(e) => Route::Close {
            notice: ControlMessage::Closed { is_error: true },
            error: ProtocolError::Io(e),
        },
        DispatchItem::WBackPressureEnabled => Route::Skip,
        DispatchItem::WBackPressureDisabled => Route::Skip,
    }
}

/// Context of the error for a QoS1 or QoS2 PUBLISH without a packet id.
pub const MISSING_PACKET_ID: &'static str = "QoS1 and QoS2 PUBLISH need a packet id";

/// Context of the error for a packet that only a server sends.
pub const NOT_FROM_CLIENT: &'static str = "packet not sent by clients";

/// What the session does with an inbound packet.
#[derive(Clone, Debug)]
pub enum SessionStep<E> {
    /// Deliver to the publish service; when it succeeds, write `ack` if any.
    Publish { publish: Publish, ack: Option<Packet> },
    /// Write this packet, if any, without calling a service.
    Respond(Option<Packet>),
    /// Deliver to the control service and write its acknowledgement.
    Control(ControlMessage),
    /// End the connection with this error.
    Fail(ProtocolError<E>),
}

/// Handle one inbound packet at `now`.
pub fn on_packet<E>(shared: &mut MqttShared, packet: Packet, now: u64) -> (r: SessionStep<E>)
    requires
        old(shared).wf(),
    ensures
        final(shared).wf(),
        final(shared).outbound@.len() <= old(shared).outbound@.len(),
        match packet {
            Packet::Publish(p) => match (p.qos, p.packet_id) {
                (QoS::AtMostOnce, _) => r == SessionStep::<E>::Publish { publish: p, ack: None }
                    && *final(shared) == *old(shared),
                (QoS::AtLeastOnce, Some(id)) => r == SessionStep::<E>::Publish {
                    publish: p,
                    ack: Some(Packet::PublishAck { packet_id: id }),
                } && *final(shared) == *old(shared),
                (QoS::ExactlyOnce, Some(id)) => if old(shared).in_awaiting(id) {
                    r == SessionStep::<E>::Respond(Some(Packet::PublishReceived { packet_id: id }))
                        && *final(shared) == *old(shared)
                } else if old(shared).max_awaiting_rel > 0 && old(shared).awaiting@.len()
                    >= old(shared).max_awaiting_rel {
                    r == SessionStep::<E>::Fail(ProtocolError::ReceiveMaxExceeded) && *final(shared)
                        == *old(shared)
                } else {
                    r == SessionStep::<E>::Publish {
                        publish: p,
                        ack: Some(Packet::PublishReceived { packet_id: id }),
                    } && final(shared).in_awaiting(id)
                        && final(shared).awaiting@ == old(shared).awaiting@.push(Awaiting { id, since: now })
                        && final(shared).same_but_awaiting(old(shared))
                },
                (_, None) => r == SessionStep::<E>::Fail(ProtocolError::Unexpected(0x30, MISSING_PACKET_ID))
                    && *final(shared) == *old(shared),
            },
            Packet::PublishAck { packet_id } => if exists|i: int|
                0 <= i < old(shared).outbound@.len() && old(shared).outbound@[i].id == packet_id
                    && old(shared).outbound@[i].state == crate::shared::AckState::WaitAck {
                r == SessionStep::<E>::Respond(None) && !final(shared).in_outbound(packet_id)
                    && exists|i: int|
                    0 <= i < old(shared).outbound@.len() && old(shared).outbound@[i].id
                        == packet_id && final(shared).outbound@ == old(shared).outbound@.remove(i)
                    && final(shared).same_but_outbound(old(shared))
            } else {
                r == SessionStep::<E>::Fail(ProtocolError::PacketIdMismatch) && *final(shared)
                    == *old(shared)
            },
            Packet::PublishReceived { packet_id } => if exists|i: int|
                0 <= i < old(shared).outbound@.len() && old(shared).outbound@[i].id == packet_id
                    && old(shared).outbound@[i].state == crate::shared::AckState::WaitRec {
                r == SessionStep::<E>::Respond(Some(Packet::PublishRelease { packet_id }))
                    && exists|i: int|
                    0 <= i < old(shared).outbound@.len() && old(shared).outbound@[i].id
                        == packet_id && final(shared).outbound@ == old(shared).outbound@.update(
                        i,
                        crate::shared::Outbound {
                            id: packet_id,
                            state: crate::shared::AckState::WaitComp,
                        },
                    ) && final(shared).same_but_outbound(old(shared))
            } else {
                r == SessionStep::<E>::Fail(ProtocolError::PacketIdMismatch) && *final(shared)
                    == *old(shared)
            },
            Packet::PublishComplete { packet_id } => if exists|i: int|
                0 <= i < old(shared).outbound@.len() && old(shared).outbound@[i].id == packet_id
                    && old(shared).outbound@[i].state == crate::shared::AckState::WaitComp {
                r == SessionStep::<E>::Respond(None) && !final(shared).in_outbound(packet_id)
                    && exists|i: int|
                    0 <= i < old(shared).outbound@.len() && old(shared).outbound@[i].id
                        == packet_id && final(shared).outbound@ == old(shared).outbound@.remove(i)
                    && final(shared).same_but_outbound(old(shared))
            } else {
                r == SessionStep::<E>::Fail(ProtocolError::PacketIdMismatch) && *final(shared)
                    == *old(shared)
            },
            Packet::PublishRelease { packet_id } => r == SessionStep::<E>::Respond(
                Some(Packet::PublishComplete { packet_id }),
            ) && !final(shared).in_awaiting(packet_id) && final(shared).same_but_awaiting(old(shared))
                && (old(shared).in_awaiting(packet_id) ==> exists|i: int|
                0 <= i < old(shared).awaiting@.len() && old(shared).awaiting@[i].id == packet_id
                    && final(shared).awaiting@ == old(shared).awaiting@.remove(i))
                && (!old(shared).in_awaiting(packet_id) ==> *final(shared) == *old(shared)),
            Packet::Subscribe { packet_id, topic_filters } => (r matches SessionStep::Control(
                ControlMessage::Subscribe(s),
            ) && s.packet_id == packet_id && s.topics@ == topic_filters@ && s.codes@
                == crate::control::all_failures(topic_filters@.len())) && *final(shared) == *old(
                shared,
            ),
            Packet::Unsubscribe { packet_id, topic_filters } => r == SessionStep::<E>::Control(
                ControlMessage::Unsubscribe { packet_id, topics: topic_filters },
            ) && *final(shared) == *old(shared),
            Packet::PingRequest => r == SessionStep::<E>::Control(ControlMessage::Ping)
                && *final(shared) == *old(shared),
            Packet::Disconnect => r == SessionStep::<E>::Control(ControlMessage::Disconnect)
                && *final(shared) == *old(shared),
            _ => r == SessionStep::<E>::Fail(
                ProtocolError::Unexpected(crate::packet::packet_type_spec(packet), NOT_FROM_CLIENT),
            ) && *final(shared) == *old(shared),
        },
{
    let kind = packet.packet_type();
    match packet {
        Packet::Publish(p) => match (p.qos, p.packet_id) {
            (QoS::AtMostOnce, _) => SessionStep::Publish { publish: p, ack: None },
            (QoS::AtLeastOnce, Some(id)) => SessionStep::Publish {
                publish: p,
                ack: Some(Packet::PublishAck { packet_id: id }),
            },
            (QoS::ExactlyOnce, Some(id)) => match shared.on_publish_qos2::<E>(id, now) {
                Ok(Inbound::Deliver) => {
                    proof {
                        let last = shared.awaiting@.len() - 1;
                        assert(shared.awaiting@[last].id == id);
                    }
                    SessionStep::Publish {
                        publish: p,
                        ack: Some(Packet::PublishReceived { packet_id: id }),
                    }
                },
                Ok(Inbound::Duplicate) => SessionStep::Respond(
                    Some(Packet::PublishReceived { packet_id: id }),
                ),
                Err(e) => SessionStep::Fail(e),
            },
            (_, None) => SessionStep::Fail(ProtocolError::Unexpected(kind, MISSING_PACKET_ID)),
        },
        Packet::PublishAck { packet_id } => match shared.on_puback::<E>(packet_id) {
            Ok(()) => SessionStep::Respond(None),
            Err(e) => SessionStep::Fail(e),
        },
        Packet::PublishReceived { packet_id } => match shared.on_pubrec::<E>(packet_id) {
            Ok(()) => SessionStep::Respond(Some(Packet::PublishRelease { packet_id })),
            Err(e) => SessionStep::Fail(e),
        },
        Packet::PublishComplete { packet_id } => match shared.on_pubcomp::<E>(packet_id) {
            Ok(()) => SessionStep::Respond(None),
            Err(e) => SessionStep::Fail(e),
        },
        Packet::PublishRelease { packet_id } => {
            shared.on_pubrel(packet_id);
            SessionStep::Respond(Some(Packet::PublishComplete { packet_id }))
        },
        Packet::Subscribe { packet_id, topic_filters } => SessionStep::Control(
            ControlMessage::Subscribe(Subscribe::new(packet_id, topic_filters)),
        ),
        Packet::Unsubscribe { packet_id, topic_filters } => SessionStep::Control(
            ControlMessage::Unsubscribe { packet_id, topics: topic_filters },
        ),
        Packet::PingRequest => SessionStep::Control(ControlMessage::Ping),
        Packet::Disconnect => SessionStep::Control(ControlMessage::Disconnect),
        _ => SessionStep::Fail(ProtocolError::Unexpected(kind, NOT_FROM_CLIENT)),
    }
}

} // verus!
