//! The checked parameters of a connection, of either family.

use crate::serial::SerialConfig;
use crate::socket::Protocol;
use crate::socket::SocketConfig;
use crate::telemetry::Origin;
use crate::worker::TransportKind;
use vstd::prelude::*;

verus! {

/// The parameters with which a connection is opened.
#[derive(Debug, PartialEq, Eq)]
pub enum ConnectionParams {
    Serial(SerialConfig),
    Socket(SocketConfig),
}

/// The kind of transport that parameters call for.
pub open spec fn kind_of(params: ConnectionParams) -> TransportKind {
    match params {
        ConnectionParams::Serial(_) => TransportKind::Serial,
        ConnectionParams::Socket(config) => match config.protocol {
            Protocol::Tcp => TransportKind::Tcp,
            Protocol::Udp => TransportKind::Udp,
        },
    }
}

/// The origin that the records of a connection carry.
pub open spec fn origin_of(params: ConnectionParams) -> Origin {
    match params {
        ConnectionParams::Serial(_) => Origin::Serial,
        ConnectionParams::Socket(_) => Origin::Socket,
    }
}

/// The read timeout of a connection, in milliseconds.
pub open spec fn timeout_of(params: ConnectionParams) -> u64 {
    match params {
        ConnectionParams::Serial(config) => config.timeout_ms,
        ConnectionParams::Socket(config) => config.timeout_ms,
    }
}

impl ConnectionParams {
    /// The kind of transport to open.
    pub fn transport_kind(&self) -> (kind: TransportKind)
        ensures
            kind == kind_of(*self),
    {
        match self {
            ConnectionParams::Serial(_) => TransportKind::Serial,
            ConnectionParams::Socket(config) => match config.protocol {
                Protocol::Tcp => TransportKind::Tcp,
                Protocol::Udp => TransportKind::Udp,
            },
        }
    }

    /// The origin to stamp on the connection's records.
    pub fn origin(&self) -> (origin: Origin)
        ensures
            origin == origin_of(*self),
    {
        match self {
            ConnectionParams::Serial(_) => Origin::Serial,
            ConnectionParams::Socket(_) => Origin::Socket,
        }
    }

    /// The longest that one read on the transport may wait, in
    /// milliseconds.
    pub fn read_timeout_ms(&self) -> (millis: u64)
        ensures
            millis == timeout_of(*self),
    {
        match self {
            ConnectionParams::Serial(config) => config.timeout_ms,
            ConnectionParams::Socket(config) => config.timeout_ms,
        }
    }
}

} // verus!
