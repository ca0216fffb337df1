//! Control messages handed to the control service, their acknowledgements,
//! and the default publish and control services.
use vstd::prelude::*;
use core::marker::PhantomData;
use crate::packet::{Packet, Publish, SubscribeReturnCode};
use crate::shared::QoS;

verus! {

/// A SUBSCRIBE awaiting the control service's verdict on each topic.
#[derive(Clone, Debug)]
pub struct Subscribe {
    pub packet_id: u16,
    pub topics: Vec<(String, QoS)>,
    /// One result per topic; each starts as `Failure`.
    pub codes: Vec<SubscribeReturnCode>,
}

pub open spec fn all_failures(n: nat) -> Seq<SubscribeReturnCode> {
    Seq::new(n, |i: int| SubscribeReturnCode::Failure)
}

impl Subscribe {
    /// A subscription request with every topic refused until confirmed.
    pub fn new(packet_id: u16, topics: Vec<(String, QoS)>) -> (r: Self)
        ensures
            r.packet_id == packet_id,
            r.topics@ == topics@,
            r.codes@ == all_failures(topics@.len()),
    {
        let mut codes: Vec<SubscribeReturnCode> = Vec::new();
        let mut i: usize = 0;
        while i < topics.len()
            invariant
                i <= topics@.len(),
                codes@ == all_failures(i as nat),
            decreases topics@.len() - i,
        {
            codes.push(SubscribeReturnCode::Failure);
            i = i + 1;
            proof {
                assert(codes@ =~= all_failures(i as nat));
            }
        }
        Subscribe { packet_id, topics, codes }
    }

    /// Grant topic `i` at `qos`.
    pub fn confirm(&mut self, i: usize, qos: QoS)
        requires
            i < old(self).codes@.len(),
        ensures
            final(self).codes@ == old(self).codes@.update(i as int, SubscribeReturnCode::Success(qos)),
            final(self).packet_id == old(self).packet_id,
            final(self).topics@ == old(self).topics@,
    {
        self.codes.set(i, SubscribeReturnCode::Success(qos));
    }
}

/// A control packet (or a connection event) for the control service.
#[derive(Clone, Debug)]
pub enum ControlMessage {
    Ping,
    Disconnect,
    Subscribe(Subscribe),
    Unsubscribe { packet_id: u16, topics: Vec<String> },
    /// The connection closed; `is_error` tells whether by a failure.
    Closed { is_error: bool },
}

/// The control service's answer: a packet to write, if any, and whether
/// the connection is to shut down.
#[derive(Clone, Debug)]
pub struct ControlResult {
    pub packet: Option<Packet>,
    pub disconnect: bool,
}

/// The acknowledgement that a control message calls for.
pub open spec fn ack_spec(m: ControlMessage) -> ControlResult {
    match m {
        ControlMessage::Ping => ControlResult { packet: Some(Packet::PingResponse), disconnect: false },
        ControlMessage::Disconnect => ControlResult { packet: None, disconnect: true },
        ControlMessage::Subscribe(s) => ControlResult {
            packet: Some(Packet::SubscribeAck { packet_id: s.packet_id, status: s.codes }),
            disconnect: false,
        },
        ControlMessage::Unsubscribe { packet_id, .. } => ControlResult {
            packet: Some(Packet::UnsubscribeAck { packet_id }),
            disconnect: false,
        },
        ControlMessage::Closed { .. } => ControlResult { packet: None, disconnect: false },
    }
}

impl ControlMessage {
    /// Acknowledge the message: PINGRESP for a ping, SUBACK with the
    /// per-topic results, UNSUBACK, and for DISCONNECT a shutdown with
    /// nothing written.
    pub fn ack(self) -> (r: ControlResult)
        ensures
            r == ack_spec(self),
    {
        match self {
            ControlMessage::Ping => ControlResult { packet: Some(Packet::PingResponse), disconnect: false },
            ControlMessage::Disconnect => ControlResult { packet: None, disconnect: true },
            ControlMessage::Subscribe(s) => ControlResult {
                packet: Some(Packet::SubscribeAck { packet_id: s.packet_id, status: s.codes }),
                disconnect: false,
            },
            ControlMessage::Unsubscribe { packet_id, .. } => ControlResult {
                packet: Some(Packet::UnsubscribeAck { packet_id }),
                disconnect: false,
            },
            ControlMessage::Closed { .. } => ControlResult { packet: None, disconnect: false },
        }
    }
}

/// Publish service used when none is configured: accepts and drops every
/// message.
pub struct DefaultPublishService<St, Er> {
    _t: PhantomData<(St, Er)>,
}

impl<St, Er> DefaultPublishService<St, Er> {
    pub fn new() -> (r: Self) {
        DefaultPublishService { _t: PhantomData }
    }

    /// Accept the message and drop it.
    pub fn call(&self, _msg: Publish) -> (r: Result<(), Er>)
        ensures
            r is Ok,
    {
        Ok(())
    }
}

/// Control service used when none is configured: acknowledges every
/// control message (refusing every subscription topic).
pub struct DefaultControlService<S, E>(PhantomData<(S, E)>);

impl<S, E> DefaultControlService<S, E> {
    pub fn new() -> (r: Self) {
        DefaultControlService(PhantomData)
    }

    /// The acknowledgement of `msg`.
    pub fn call(&self, msg: ControlMessage) -> (r: Result<ControlResult, E>)
        ensures
            r == Ok::<ControlResult, E>(ack_spec(msg)),
    {
        Ok(msg.ack())
    }
}

} // verus!
