//! Error taxonomy of a connection.
use vstd::prelude::*;

verus! {

/// Violations of the protocol. `E` describes a codec or transport failure.
#[derive(PartialEq, Eq, Clone, Debug)]
pub enum ProtocolError<E> {
    /// The decoder failed.
    Decode(E),
    /// The encoder failed.
    Encode(E),
    /// The transport failed.
    Io(E),
    /// A packet of this type came where the protocol forbids it; the text
    /// says what was expected there.
    Unexpected(u8, &'static str),
    /// No frame arrived within the keep-alive interval.
    KeepAliveTimeout,
    /// More inbound QoS2 publishes await release than allowed.
    ReceiveMaxExceeded,
    /// An acknowledgement named a packet id that is not waiting for it.
    PacketIdMismatch,
    /// A frame is larger than the configured maximum.
    MaxSizeExceeded,
}

/// Why a connection ended with an error. `S` is the user services' error.
#[derive(PartialEq, Eq, Clone, Debug)]
pub enum MqttError<S, E> {
    /// A user service failed.
    Service(S),
    /// The peer broke the protocol, or the codec or transport failed.
    Protocol(ProtocolError<E>),
    /// No CONNECT, or no answer to it, within the handshake timeout.
    HandshakeTimeout,
    /// The peer hung up.
    Disconnected,
}

} // verus!
