//! Verified core of a gateway protocol client: the handshake state machine,
//! the steady-state receive loop's decisions, failure classification
//! (resume versus full reconnect), the heartbeat worker's control loop, and
//! the codec that builds and reads the structured frames exchanged on the
//! wire. Transport I/O itself lives outside the library; the library is
//! handed decoded frames and returns the actions to perform.

use vstd::prelude::*;

pub mod codec;
pub mod handshake;
pub mod recovery;
pub mod session;
pub mod steady;
pub mod value;
pub mod worker;

verus! {

/// An intents bitmask selecting which event categories the gateway
/// should deliver on this connection.
#[derive(Clone, Copy, PartialEq, Eq, Structural, Debug)]
pub struct Intents(pub u64);

/// The gateway protocol version negotiated with the endpoint.
pub const GATEWAY_VERSION: u64 = 6;

/// What can go wrong on a live connection. Transport-level failures are
/// recoverable through resume or reconnect; protocol errors mean the peer
/// broke the expected sequencing and are surfaced to the caller.
#[derive(Debug)]
pub enum Error {
    /// The peer violated the handshake or resume sequencing.
    Protocol(&'static str),
    /// The transport failed or was closed, with the close code if one came.
    Closed(Option<u16>),
    /// Anything else: a malformed endpoint, a teardown race.
    Other(&'static str),
}

} // verus!
