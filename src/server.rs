//! MQTT 3.1.1 server configuration and the handshake's decisions.
use vstd::prelude::*;
use core::marker::PhantomData;
use crate::control::{DefaultControlService, DefaultPublishService};
use crate::dispatcher::{Dispatcher, Phase};
use crate::shared::MqttShared;
use crate::error::{MqttError, ProtocolError};
use crate::packet::{ConnectAckReason, Packet};

verus! {

/// Default keep-alive, in seconds, granted to an accepted connection.
pub const DEFAULT_KEEPALIVE: u16 = 30;

/// Default number of concurrent service calls per connection.
pub const DEFAULT_INFLIGHT: usize = 16;

/// Default read buffer high-watermark, in bytes.
pub const DEFAULT_READ_HW: u16 = 8192;

/// Default write buffer high-watermark, in bytes.
pub const DEFAULT_WRITE_HW: u16 = 8192;

/// Default buffer low-watermark, in bytes.
pub const DEFAULT_LW: u16 = 1024;

/// Buffer thresholds of a connection, in bytes.
#[derive(PartialEq, Eq, Structural, Clone, Copy, Debug)]
pub struct BufferParams {
    /// Reading pauses while more than this is decoded ahead.
    pub read_hw: u16,
    /// Write back-pressure starts above this.
    pub write_hw: u16,
    /// Write back-pressure ends at or below this.
    pub lw: u16,
}

/// The handshake service's verdict on a CONNECT.
pub struct HandshakeAck<St> {
    /// The session state when the connection is accepted.
    pub session: Option<St>,
    pub session_present: bool,
    /// The CONNACK code when the connection is refused.
    pub return_code: ConnectAckReason,
    /// Keep-alive in seconds; 0 disables it.
    pub keepalive: u16,
    pub read_hw: u16,
    pub write_hw: u16,
    pub lw: u16,
}

impl<St> HandshakeAck<St> {
    /// Accept the connection with session state `st`, with the default
    /// keep-alive and buffer thresholds.
    pub fn ack(st: St, session_present: bool) -> (r: Self)
        ensures
            r.session == Some(st),
            r.session_present == session_present,
            r.return_code == ConnectAckReason::ConnectionAccepted,
            r.keepalive == DEFAULT_KEEPALIVE,
            r.read_hw == DEFAULT_READ_HW,
            r.write_hw == DEFAULT_WRITE_HW,
            r.lw == DEFAULT_LW,
    {
        HandshakeAck {
            session: Some(st),
            session_present,
            return_code: ConnectAckReason::ConnectionAccepted,
            keepalive: DEFAULT_KEEPALIVE,
            read_hw: DEFAULT_READ_HW,
            write_hw: DEFAULT_WRITE_HW,
            lw: DEFAULT_LW,
        }
    }

    fn refuse(code: ConnectAckReason) -> (r: Self)
        ensures
            r.session is None,
            !r.session_present,
            r.return_code == code,
            r.keepalive == DEFAULT_KEEPALIVE,
    {
        HandshakeAck {
            session: None,
            session_present: false,
            return_code: code,
            keepalive: DEFAULT_KEEPALIVE,
            read_hw: DEFAULT_READ_HW,
            write_hw: DEFAULT_WRITE_HW,
            lw: DEFAULT_LW,
        }
    }

    /// Refuse: the client identifier is not allowed.
    pub fn identifier_rejected() -> (r: Self)
        ensures
            r.session is None,
            !r.session_present,
            r.return_code == ConnectAckReason::IdentifierRejected,
    {
        Self::refuse(ConnectAckReason::IdentifierRejected)
    }

    /// Refuse: bad user name or password.
    pub fn bad_username_or_pwd() -> (r: Self)
        ensures
            r.session is None,
            !r.session_present,
            r.return_code == ConnectAckReason::BadUserNameOrPassword,
    {
        Self::refuse(ConnectAckReason::BadUserNameOrPassword)
    }

    /// Refuse: the client is not authorized.
    pub fn not_authorized() -> (r: Self)
        ensures
            r.session is None,
            !r.session_present,
            r.return_code == ConnectAckReason::NotAuthorized,
    {
        Self::refuse(ConnectAckReason::NotAuthorized)
    }

    /// Refuse: the service is unavailable.
    pub fn service_unavailable() -> (r: Self)
        ensures
            r.session is None,
            !r.session_present,
            r.return_code == ConnectAckReason::ServiceUnavailable,
    {
        Self::refuse(ConnectAckReason::ServiceUnavailable)
    }

    /// Set the keep-alive in seconds; 0 disables it.
    pub fn keep_alive(self, secs: u16) -> (r: Self)
        ensures
            r.session == self.session,
            r.session_present == self.session_present,
            r.return_code == self.return_code,
            r.keepalive == secs,
            r.read_hw == self.read_hw,
            r.write_hw == self.write_hw,
            r.lw == self.lw,
    {
        let mut r = self;
        r.keepalive = secs;
        r
    }

    /// Set the connection's buffer thresholds.
    pub fn buffer_params(self, read_hw: u16, write_hw: u16, lw: u16) -> (r: Self)
        ensures
            r.session == self.session,
            r.session_present == self.session_present,
            r.return_code == self.return_code,
            r.keepalive == self.keepalive,
            r.read_hw == read_hw,
            r.write_hw == write_hw,
            r.lw == lw,
    {
        let mut r = self;
        r.read_hw = read_hw;
        r.write_hw = write_hw;
        r.lw = lw;
        r
    }
}

/// What the handshake does after the verdict, in field order: apply the
/// buffer thresholds (when accepted), write the CONNACK, then end with
/// `outcome`.
pub struct ConnectAckPlan<St, S, E> {
    pub buffer: Option<BufferParams>,
    pub packet: Packet,
    pub outcome: Result<(St, u16), MqttError<S, E>>,
}

/// The first packet of a connection must be CONNECT: end of stream is
/// `Disconnected`, any other packet is unexpected.
pub fn expect_connect<S, E>(first: Option<Packet>) -> (r: Result<Packet, MqttError<S, E>>)
    ensures
        match first {
            None => r == Err::<Packet, MqttError<S, E>>(MqttError::Disconnected),
            Some(p) => if p is Connect {
                r == Ok::<Packet, MqttError<S, E>>(p)
            } else {
                r == Err::<Packet, MqttError<S, E>>(
                    MqttError::Protocol(
                        ProtocolError::Unexpected(
                            crate::packet::packet_type_spec(p),
                            EXPECTED_CONNECT,
                        ),
                    ),
                )
            },
        },
{
    match first {
        None => Err(MqttError::Disconnected),
        Some(p) => {
            if let Packet::Connect { .. } = p {
                Ok(p)
            } else {
                let kind = p.packet_type();
                Err(MqttError::Protocol(ProtocolError::Unexpected(kind, EXPECTED_CONNECT)))
            }
        },
    }
}

/// Context of the error for a first packet that is not CONNECT.
pub const EXPECTED_CONNECT: &'static str = "MQTT-3.1.0-1: Expected CONNECT packet";

/// The plan for a verdict. Accepted: apply the ack's buffer thresholds,
/// write CONNACK(accepted, `session_present`), end with the session state
/// and keep-alive. Refused: write CONNACK(not present, the ack's code),
/// end with `Disconnected`.
pub fn connect_ack<St, S, E>(ack: HandshakeAck<St>) -> (r: ConnectAckPlan<St, S, E>)
    ensures
        match ack.session {
            Some(st) => r == (ConnectAckPlan {
                buffer: Some(BufferParams { read_hw: ack.read_hw, write_hw: ack.write_hw, lw: ack.lw }),
                packet: Packet::ConnectAck {
                    session_present: ack.session_present,
                    return_code: ConnectAckReason::ConnectionAccepted,
                },
                outcome: Ok::<(St, u16), MqttError<S, E>>((st, ack.keepalive)),
            }),
            None => r == (ConnectAckPlan {
                buffer: None,
                packet: Packet::ConnectAck { session_present: false, return_code: ack.return_code },
                outcome: Err::<(St, u16), MqttError<S, E>>(MqttError::Disconnected),
            }),
        },
{
    match ack.session {
        Some(st) => ConnectAckPlan {
            buffer: Some(BufferParams { read_hw: ack.read_hw, write_hw: ack.write_hw, lw: ack.lw }),
            packet: Packet::ConnectAck {
                session_present: ack.session_present,
                return_code: ConnectAckReason::ConnectionAccepted,
            },
            outcome: Ok((st, ack.keepalive)),
        },
        None => ConnectAckPlan {
            buffer: None,
            packet: Packet::ConnectAck { session_present: false, return_code: ack.return_code },
            outcome: Err(MqttError::Disconnected),
        },
    }
}

/// Whether a handshake begun at `started` has run past `timeout`
/// milliseconds at `now`; a timeout of 0 never expires.
pub fn handshake_expired(timeout: u16, started: u64, now: u64) -> (r: bool)
    ensures
        r == (timeout > 0 && now >= started && now - started >= timeout),
{
    timeout > 0 && now >= started && now - started >= timeout as u64
}

/// The handshake deadline: once expired, the handshake is abandoned (no
/// dispatcher starts, no handler is created) and the connection ends with
/// `HandshakeTimeout`; before that, or with a timeout of 0, it goes on.
pub fn handshake_deadline<S, E>(timeout: u16, started: u64, now: u64) -> (r: Result<(), MqttError<S, E>>)
    ensures
        r is Err <==> (timeout > 0 && now >= started && now - started >= timeout),
        r is Err ==> r == Err::<(), MqttError<S, E>>(MqttError::HandshakeTimeout),
{
    if handshake_expired(timeout, started, now) {
        Err(MqttError::HandshakeTimeout)
    } else {
        Ok(())
    }
}

/// MQTT 3.1.1 server: the handshake, control and publish services and the
/// connection settings.
pub struct MqttServer<Io, St, C, Cn, P> {
    pub handshake: C,
    pub control: Cn,
    pub publish: P,
    /// Largest inbound frame in bytes; 0 is unlimited.
    pub max_size: u32,
    /// Concurrent service calls per connection.
    pub inflight: usize,
    /// Milliseconds for CONNECT and CONNACK; 0 disables the deadline.
    pub handshake_timeout: u16,
    /// Milliseconds for the drain phase; 0 disables the deadline.
    pub disconnect_timeout: u16,
    /// Bound on inbound QoS2 publishes awaiting release; 0 is unlimited.
    pub max_awaiting_rel: usize,
    /// Milliseconds an inbound release may wait; 0 never expires.
    pub await_rel_timeout: u64,
    pub marker: PhantomData<(Io, St)>,
}

impl<Io, St, C, Cn, P> MqttServer<Io, St, C, Cn, P> {
    /// Every setting but the services is the same in `self` and `o`.
    pub open spec fn same_settings<Cn2, P2>(&self, o: &MqttServer<Io, St, C, Cn2, P2>) -> bool {
        &&& self.max_size == o.max_size
        &&& self.inflight == o.inflight
        &&& self.handshake_timeout == o.handshake_timeout
        &&& self.disconnect_timeout == o.disconnect_timeout
        &&& self.max_awaiting_rel == o.max_awaiting_rel
        &&& self.await_rel_timeout == o.await_rel_timeout
    }

    /// The state of a newly accepted connection at `now`, from this
    /// server's settings and the handshake's keep-alive (seconds) and
    /// buffer thresholds: its dispatcher, running with nothing pending, and
    /// its packet-id bookkeeping, open and empty, with outbound publishes
    /// bounded by the same in-flight setting.
    pub fn start_connection<R>(&self, keepalive: u16, buffer: BufferParams, now: u64) -> (r: (Dispatcher<R>, MqttShared))
        ensures
            r.0.wf(),
            r.0.phase == Phase::Running,
            r.0.slots@.len() == 0,
            r.0.inflight == self.inflight,
            r.0.keepalive == keepalive,
            r.0.disconnect_timeout == self.disconnect_timeout,
            r.0.write_hw == buffer.write_hw as usize,
            r.0.lw == buffer.lw as usize,
            r.0.last_frame_at == now,
            !r.0.keepalive_fired,
            !r.0.error_delivered,
            !r.0.back_pressure,
            r.1.wf(),
            r.1.inflight == self.inflight,
            r.1.max_awaiting_rel == self.max_awaiting_rel,
            r.1.outbound@.len() == 0,
            r.1.awaiting@.len() == 0,
            !r.1.closed,
    {
        let d = Dispatcher::new(
            self.inflight,
            keepalive,
            self.disconnect_timeout,
            buffer.write_hw as usize,
            buffer.lw as usize,
            now,
        );
        let s = MqttShared::new(self.inflight, self.max_awaiting_rel);
        (d, s)
    }

    /// Set the handshake timeout in milliseconds: CONNECT and CONNACK must
    /// both happen within it. 0 disables it.
    pub fn handshake_timeout(self, val: u16) -> (r: Self)
        ensures
            r.handshake_timeout == val,
            r.handshake == self.handshake,
            r.control == self.control,
            r.publish == self.publish,
            r.max_size == self.max_size,
            r.inflight == self.inflight,
            r.disconnect_timeout == self.disconnect_timeout,
            r.max_awaiting_rel == self.max_awaiting_rel,
            r.await_rel_timeout == self.await_rel_timeout,
    {
        let mut r = self;
        r.handshake_timeout = val;
        r
    }

    /// Set the disconnect timeout in milliseconds: a connection that has not
    /// drained within it is dropped. 0 disables it.
    pub fn disconnect_timeout(self, val: u16) -> (r: Self)
        ensures
            r.disconnect_timeout == val,
            r.handshake == self.handshake,
            r.control == self.control,
            r.publish == self.publish,
            r.max_size == self.max_size,
            r.inflight == self.inflight,
            r.handshake_timeout == self.handshake_timeout,
            r.max_awaiting_rel == self.max_awaiting_rel,
            r.await_rel_timeout == self.await_rel_timeout,
    {
        let mut r = self;
        r.disconnect_timeout = val;
        r
    }

    /// Set the largest inbound frame in bytes; 0 is unlimited.
    pub fn max_size(self, val: u32) -> (r: Self)
        ensures
            r.max_size == val,
            r.handshake == self.handshake,
            r.control == self.control,
            r.publish == self.publish,
            r.inflight == self.inflight,
            r.handshake_timeout == self.handshake_timeout,
            r.disconnect_timeout == self.disconnect_timeout,
            r.max_awaiting_rel == self.max_awaiting_rel,
            r.await_rel_timeout == self.await_rel_timeout,
    {
        let mut r = self;
        r.max_size = val;
        r
    }

    /// Set the number of concurrent service calls per connection.
    pub fn inflight(self, val: usize) -> (r: Self)
        ensures
            r.inflight == val,
            r.handshake == self.handshake,
            r.control == self.control,
            r.publish == self.publish,
            r.max_size == self.max_size,
            r.handshake_timeout == self.handshake_timeout,
            r.disconnect_timeout == self.disconnect_timeout,
            r.max_awaiting_rel == self.max_awaiting_rel,
            r.await_rel_timeout == self.await_rel_timeout,
    {
        let mut r = self;
        r.inflight = val;
        r
    }

    /// Set the bound on inbound QoS2 publishes awaiting release; 0 is
    /// unlimited.
    pub fn max_awaiting_rel(self, val: usize) -> (r: Self)
        ensures
            r.max_awaiting_rel == val,
            r.handshake == self.handshake,
            r.control == self.control,
            r.publish == self.publish,
            r.max_size == self.max_size,
            r.inflight == self.inflight,
            r.handshake_timeout == self.handshake_timeout,
            r.disconnect_timeout == self.disconnect_timeout,
            r.await_rel_timeout == self.await_rel_timeout,
    {
        let mut r = self;
        r.max_awaiting_rel = val;
        r
    }

    /// Set how many milliseconds an inbound release may wait; 0 never
    /// expires.
    pub fn await_rel_timeout(self, val: u64) -> (r: Self)
        ensures
            r.await_rel_timeout == val,
            r.handshake == self.handshake,
            r.control == self.control,
            r.publish == self.publish,
            r.max_size == self.max_size,
            r.inflight == self.inflight,
            r.handshake_timeout == self.handshake_timeout,
            r.disconnect_timeout == self.disconnect_timeout,
            r.max_awaiting_rel == self.max_awaiting_rel,
    {
        let mut r = self;
        r.await_rel_timeout = val;
        r
    }

    /// Replace the control service.
    pub fn control<Srv>(self, service: Srv) -> (r: MqttServer<Io, St, C, Srv, P>)
        ensures
            r.control == service,
            r.handshake == self.handshake,
            r.publish == self.publish,
            r.same_settings(&self),
    {
        MqttServer {
            handshake: self.handshake,
            control: service,
            publish: self.publish,
            max_size: self.max_size,
            inflight: self.inflight,
            handshake_timeout: self.handshake_timeout,
            disconnect_timeout: self.disconnect_timeout,
            max_awaiting_rel: self.max_awaiting_rel,
            await_rel_timeout: self.await_rel_timeout,
            marker: PhantomData,
        }
    }

    /// Replace the publish service.
    pub fn publish<Srv>(self, publish: Srv) -> (r: MqttServer<Io, St, C, Cn, Srv>)
        ensures
            r.publish == publish,
            r.handshake == self.handshake,
            r.control == self.control,
            r.same_settings(&self),
    {
        MqttServer {
            handshake: self.handshake,
            control: self.control,
            publish,
            max_size: self.max_size,
            inflight: self.inflight,
            handshake_timeout: self.handshake_timeout,
            disconnect_timeout: self.disconnect_timeout,
            max_awaiting_rel: self.max_awaiting_rel,
            await_rel_timeout: self.await_rel_timeout,
            marker: PhantomData,
        }
    }
}

impl<Io, St, C, E> MqttServer<Io, St, C, DefaultControlService<St, E>, DefaultPublishService<St, E>> {
    /// Server over the given handshake service, with the default services
    /// and settings.
    pub fn new(handshake: C) -> (r: Self)
        ensures
            r.handshake == handshake,
            r.max_size == 0,
            r.inflight == DEFAULT_INFLIGHT,
            r.handshake_timeout == 0,
            r.disconnect_timeout == crate::service::DEFAULT_DISCONNECT_TIMEOUT,
            r.max_awaiting_rel == 0,
            r.await_rel_timeout == 0,
    {
        MqttServer {
            handshake,
            control: DefaultControlService::new(),
            publish: DefaultPublishService::new(),
            max_size: 0,
            inflight: DEFAULT_INFLIGHT,
            handshake_timeout: 0,
            disconnect_timeout: crate::service::DEFAULT_DISCONNECT_TIMEOUT,
            max_awaiting_rel: 0,
            await_rel_timeout: 0,
            marker: PhantomData,
        }
    }
}

} // verus!
