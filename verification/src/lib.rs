//! Connection lifecycle management for serial, TCP and UDP byte streams:
//! the keyed registry of workers, the per-connection polling state machine,
//! and the telemetry records that describe every byte sent and received.

pub mod channel;
pub mod clock;
pub mod error;
pub mod marks;
pub mod params;
pub mod payload;
pub mod ports;
pub mod registry;
pub mod serial;
pub mod session;
pub mod socket;
pub mod telemetry;
pub mod text;
pub mod trace;
pub mod worker;
