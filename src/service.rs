//! Builders for the framed connection pipeline.
use vstd::prelude::*;

verus! {

/// Default grace period, in milliseconds, for the drain phase of a connection.
pub const DEFAULT_DISCONNECT_TIMEOUT: u16 = 3000;

/// Builder for a framed connection service: a connect (handshake) stage
/// followed by the dispatcher, with its disconnect timeout.
pub struct FactoryBuilder<C> {
    pub connect: C,
    pub disconnect_timeout: u16,
}

impl<C> FactoryBuilder<C> {
    /// Builder over the given connect stage, with a 3 s disconnect timeout.
    pub fn new(connect: C) -> (r: Self)
        ensures
            r.connect == connect,
            r.disconnect_timeout == DEFAULT_DISCONNECT_TIMEOUT,
    {
        FactoryBuilder { connect, disconnect_timeout: DEFAULT_DISCONNECT_TIMEOUT }
    }

    /// Set the disconnect timeout in milliseconds; 0 disables it.
    pub fn disconnect_timeout(self, val: u16) -> (r: Self)
        ensures
            r.connect == self.connect,
            r.disconnect_timeout == val,
    {
        FactoryBuilder { connect: self.connect, disconnect_timeout: val }
    }

    /// The framed service: the connect stage, then `service` for each
    /// accepted connection, with this builder's disconnect timeout.
    pub fn build<T>(self, service: T) -> (r: FramedService<C, T>)
        ensures
            r.connect == self.connect,
            r.handler == service,
            r.disconnect_timeout == self.disconnect_timeout,
    {
        FramedService { connect: self.connect, handler: service, disconnect_timeout: self.disconnect_timeout }
    }
}

/// Builder for a framed connection service whose connections arrive with
/// their I/O state already set up, and possibly a handshake deadline.
pub struct FactoryBuilder2<C> {
    pub connect: C,
    pub disconnect_timeout: u16,
}

impl<C> FactoryBuilder2<C> {
    /// Builder over the given connect stage, with a 3 s disconnect timeout.
    pub fn new(connect: C) -> (r: Self)
        ensures
            r.connect == connect,
            r.disconnect_timeout == DEFAULT_DISCONNECT_TIMEOUT,
    {
        FactoryBuilder2 { connect, disconnect_timeout: DEFAULT_DISCONNECT_TIMEOUT }
    }

    /// Set the disconnect timeout in milliseconds; 0 disables it.
    pub fn disconnect_timeout(self, val: u16) -> (r: Self)
        ensures
            r.connect == self.connect,
            r.disconnect_timeout == val,
    {
        FactoryBuilder2 { connect: self.connect, disconnect_timeout: val }
    }

    /// The framed service: the connect stage, then `service` for each
    /// accepted connection, with this builder's disconnect timeout.
    pub fn build<T>(self, service: T) -> (r: FramedService<C, T>)
        ensures
            r.connect == self.connect,
            r.handler == service,
            r.disconnect_timeout == self.disconnect_timeout,
    {
        FramedService { connect: self.connect, handler: service, disconnect_timeout: self.disconnect_timeout }
    }
}

/// A configured pipeline: handshake, then the per-connection handler run
/// by the dispatcher.
pub struct FramedService<C, T> {
    pub connect: C,
    pub handler: T,
    pub disconnect_timeout: u16,
}

} // verus!
