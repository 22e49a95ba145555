//! The handshake state machine: from the first frame after connecting to a
//! completed session, including the single permitted re-identify after a
//! session invalidation. The transport loop feeds decoded frames in and
//! performs the returned action.

use vstd::prelude::*;

use crate::codec::{Event, GatewayEvent, ReadyEvent};

verus! {

/// Where the handshake stands.
#[derive(Clone, Copy, PartialEq, Eq, Structural, Debug)]
pub enum HandshakeState {
    /// Connected; the first frame must be a hello.
    AwaitHello,
    /// Identify sent; waiting for the ready dispatch. `retried` records
    /// whether the one permitted re-identify has already been spent.
    AwaitReady { retried: bool },
    /// The handshake produced a session.
    Complete,
    /// The handshake failed; the connection is unusable.
    Failed,
}

/// What the transport loop must do after feeding one frame in.
#[derive(Debug)]
pub enum HandshakeAction {
    /// Send the identify payload and start the heartbeat worker with this
    /// interval, handing it the write half.
    StartWorker(u64),
    /// Send the identify payload once more and read again.
    ReIdentify,
    /// The handshake is done: the ready dispatch's sequence and event.
    Finish(u64, ReadyEvent),
    /// A protocol error: surface it and stop.
    Fail,
}

/// The transition relation of the handshake: a hello must come first and
/// fixes the heartbeat interval; then a ready dispatch completes the
/// handshake; a first session invalidation buys exactly one re-identify,
/// a second one fails; every other frame is a protocol error.
pub open spec fn handshake_trans(state: HandshakeState, event: GatewayEvent) -> (
    HandshakeState,
    HandshakeAction,
) {
    match state {
        HandshakeState::AwaitHello => match event {
            GatewayEvent::Hello(interval) => (
                HandshakeState::AwaitReady { retried: false },
                HandshakeAction::StartWorker(interval),
            ),
            _ => (HandshakeState::Failed, HandshakeAction::Fail),
        },
        HandshakeState::AwaitReady { retried } => match event {
            GatewayEvent::Dispatch(seq, Event::Ready(re)) => (
                HandshakeState::Complete,
                HandshakeAction::Finish(seq, re),
            ),
            GatewayEvent::InvalidateSession => if retried {
                (HandshakeState::Failed, HandshakeAction::Fail)
            } else {
                (HandshakeState::AwaitReady { retried: true }, HandshakeAction::ReIdentify)
            },
            _ => (HandshakeState::Failed, HandshakeAction::Fail),
        },
        _ => (HandshakeState::Failed, HandshakeAction::Fail),
    }
}

/// Feed one decoded frame to the handshake.
pub fn handshake_step(state: HandshakeState, event: GatewayEvent) -> (r: (
    HandshakeState,
    HandshakeAction,
))
    requires
        state is AwaitHello || state is AwaitReady,
    ensures
        r == handshake_trans(state, event),
{
    match state {
        HandshakeState::AwaitHello => match event {
            GatewayEvent::Hello(interval) => (
                HandshakeState::AwaitReady { retried: false },
                HandshakeAction::StartWorker(interval),
            ),
            _ => (HandshakeState::Failed, HandshakeAction::Fail),
        },
        HandshakeState::AwaitReady { retried } => match event {
            GatewayEvent::Dispatch(seq, ev) => match ev {
                Event::Ready(re) => (HandshakeState::Complete, HandshakeAction::Finish(seq, re)),
                _ => (HandshakeState::Failed, HandshakeAction::Fail),
            },
            GatewayEvent::InvalidateSession => if retried {
                (HandshakeState::Failed, HandshakeAction::Fail)
            } else {
                (HandshakeState::AwaitReady { retried: true }, HandshakeAction::ReIdentify)
            },
            _ => (HandshakeState::Failed, HandshakeAction::Fail),
        },
        _ => (HandshakeState::Failed, HandshakeAction::Fail),
    }
}

/// A session invalidation while awaiting the ready dispatch triggers
/// exactly one re-identify, after which the machine still awaits one more
/// read; a second invalidation fails the handshake, so a third attempt is
/// never made.
pub proof fn lemma_single_reidentify(first: GatewayEvent, second: GatewayEvent)
    requires
        first is InvalidateSession,
        second is InvalidateSession,
    ensures
        handshake_trans(HandshakeState::AwaitReady { retried: false }, first) == (
            HandshakeState::AwaitReady { retried: true },
            HandshakeAction::ReIdentify,
        ),
        handshake_trans(
            handshake_trans(HandshakeState::AwaitReady { retried: false }, first).0,
            second,
        ) == (HandshakeState::Failed, HandshakeAction::Fail),
{
}

} // verus!
