//! Verified core of an MQTT broker-side connection engine: builder
//! configuration, the head-of-line dispatcher, packet-id bookkeeping,
//! the QoS2 awaiting-release state and the default services.
pub mod control;
pub mod dispatcher;
pub mod error;
pub mod packet;
pub mod server;
pub mod service;
pub mod session;
pub mod shared;
