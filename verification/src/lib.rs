//! Device session and transport bridge.
//!
//! A verified model of the lifecycle of a physical connection between a host
//! application and a remote wearable device: probing a transport and deriving
//! a stable device address, pumping bytes between the transport and the
//! protocol dispatcher, reconciling local and remote disconnects, and
//! relaying install progress without coupling producer and consumer.
//!
//! All I/O (the serial port, the notification sink, the protocol
//! dispatcher, channels and task spawning) lives outside this crate. The
//! library owns every decision: which address a probe yields, what a
//! handshake outcome does to the registry, which teardown steps run and in
//! what order, what is forwarded from the inbound byte stream, and which
//! progress events reach the callback.

use vstd::prelude::*;

pub mod bridge;
pub mod classify;
pub mod info;
pub mod lookup;
pub mod probe;
pub mod progress;
pub mod pump;
pub mod registry;
pub mod session;
pub mod strutil;

verus! {

/// Why a bridge call failed.
#[derive(Debug, PartialEq, Eq)]
pub enum SessionError {
    /// No transport could be selected or opened.
    TransportUnavailable,
    /// The chosen transport rejected the open parameters.
    OpenFailed,
    /// The connect handshake failed; carries the dispatcher's cause.
    HandshakeFailed(String),
    /// The addressed device lacks the requested subsystem.
    SubsystemNotFound,
    /// No device is registered under the given address.
    DeviceNotFound,
    /// A bulk transfer aborted; carries the install system's cause.
    TransferFailed(String),
    /// A value could not be serialized at the boundary.
    SerializationFailed,
}

} // verus!
