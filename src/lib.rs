//! Sink side of the USB Power Delivery protocol: decoding of power data
//! objects and messages, and the negotiation engine that picks an offer and
//! requests it from the source.

pub mod header;
pub mod message;
pub mod pdo;
pub mod sink;
pub mod wire;

use vstd::prelude::*;

verus! {

/// A monotonic timestamp handed to the transceiver on each poll, in milliseconds.
#[derive(Clone, Copy, Debug, PartialEq, Eq, Structural)]
pub struct Instant(pub u64);

/// Power role of a port.
#[derive(Clone, Copy, Debug, PartialEq, Eq, Structural)]
pub enum PowerRole {
    Sink,
    Source,
}

} // verus!
