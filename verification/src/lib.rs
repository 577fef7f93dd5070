//! A multiplexed peer-to-peer channel transport and peer registry.
//!
//! The library multiplexes independent logical channels, each with its own
//! reliability and ordering guarantee, over a single point-to-point
//! connection, and routes packets among many such connections keyed by
//! small integer peer identifiers.

use vstd::prelude::*;

pub mod client;
pub mod connection;
pub mod datagram;
pub mod server;
pub mod stream;
pub mod wire;

verus! {

/// Delivery-guarantee tag carried by every packet.
#[derive(Clone, Copy, PartialEq, Eq, Structural, Debug)]
pub enum TransferMode {
    /// In-order, exactly-once delivery over a per-channel stream.
    Reliable,
    /// Datagram delivery that drops packets arriving behind the newest seen.
    UnreliableOrdered,
    /// Plain datagram delivery with no ordering at all.
    Unreliable,
}

/// What a caller observes of an endpoint's connection lifecycle.
#[derive(Clone, Copy, PartialEq, Eq, Structural, Debug)]
pub enum ConnectionStatus {
    /// A connection attempt is still in flight.
    Connecting,
    /// The endpoint is up: listening, or joined to its host.
    Connected,
    /// The endpoint is down: closed, failed, or disconnected.
    Disconnected,
}

} // verus!
