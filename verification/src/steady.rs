//! The steady-state receive loop's decisions: what one inbound frame does
//! to the session and what the caller-driven loop must do next. The loop
//! itself — reading the socket, posting to the worker, returning to the
//! caller — runs outside the library and obeys the returned effects.

use vstd::prelude::*;

use crate::codec::{heartbeat_payload, Event, GatewayEvent};
use crate::session::SessionState;
use crate::value::{get_u64, Value};

verus! {

/// What the receive loop does after the session has absorbed one frame.
#[derive(Debug)]
pub enum StepOutcome {
    /// Surface this event to the caller.
    Deliver(Event),
    /// Housekeeping only; read the next frame.
    Continue,
    /// The peer asked for a full reconnect.
    StartReconnect,
}

/// What to post to the heartbeat worker, if anything.
#[derive(Debug)]
pub enum WorkerPost {
    /// Post this payload for immediate sending.
    Payload(Value),
    /// Post the session's identify payload for immediate sending.
    Identify,
}

/// The effects of absorbing one frame: a sequence to forward to the
/// worker, a payload to post to it, and how the loop goes on.
#[derive(Debug)]
pub struct StepEffects {
    pub notify_sequence: Option<u64>,
    pub post: Option<WorkerPost>,
    pub outcome: StepOutcome,
}

/// The sequence bookkeeping of a dispatch: the record advances to the
/// frame's sequence. A ready dispatch additionally re-establishes the
/// session identity; the sequence lemmas below speak of the sequence
/// alone.
pub open spec fn dispatch_update(s: SessionState, seq: u64) -> SessionState {
    SessionState { last_sequence: seq, ..s }
}

/// The session after a session invalidation: the session identity is gone,
/// everything else stays.
pub open spec fn invalidate_update(s: SessionState) -> SessionState {
    SessionState { session_id: None, ..s }
}

/// Absorb one steady-state frame. A dispatch advances the sequence, tells
/// the worker, and is delivered — and when it is a ready, it re-establishes
/// the session identity and resume endpoint, so that identity is present
/// exactly while a ready has been observed since the last invalidation; a
/// heartbeat request is echoed through the worker; an ack and a late hello
/// are ignored; a reconnect request starts recovery; a session
/// invalidation clears the session identity and re-identifies through the
/// worker.
pub fn steady_step(sess: &mut SessionState, event: GatewayEvent) -> (r: StepEffects)
    ensures
        match event {
            GatewayEvent::Hello(_) => *final(sess) == *old(sess) && r.notify_sequence is None
                && r.post is None && r.outcome is Continue,
            GatewayEvent::Dispatch(seq, ev) => final(sess).last_sequence == seq && (match ev {
                Event::Ready(re) => final(sess).session_id == Some(re.session_id)
                    && final(sess).resume_url == re.resume_url,
                _ => final(sess).session_id == old(sess).session_id && final(sess).resume_url
                    == old(sess).resume_url,
            }) && final(sess).token == old(sess).token && final(sess).gateway_url == old(
                sess,
            ).gateway_url && final(sess).identify == old(sess).identify && r.notify_sequence
                == Some(seq) && r.post is None && r.outcome == StepOutcome::Deliver(ev),
            GatewayEvent::Heartbeat(seq) => *final(sess) == *old(sess) && r.notify_sequence is None
                && (match r.post {
                Some(WorkerPost::Payload(p)) => get_u64(p, "op"@) == Some(1u64) && get_u64(
                    p,
                    "d"@,
                ) == Some(seq),
                _ => false,
            }) && r.outcome is Continue,
            GatewayEvent::HeartbeatAck => *final(sess) == *old(sess) && r.notify_sequence is None
                && r.post is None && r.outcome is Continue,
            GatewayEvent::Reconnect => *final(sess) == *old(sess) && r.notify_sequence is None
                && r.post is None && r.outcome is StartReconnect,
            GatewayEvent::InvalidateSession => *final(sess) == invalidate_update(*old(sess))
                && r.notify_sequence is None && r.post == Some(WorkerPost::Identify) && r.outcome
                is Continue,
        },
{
    match event {
        GatewayEvent::Hello(_interval) => StepEffects {
            notify_sequence: None,
            post: None,
            outcome: StepOutcome::Continue,
        },
        GatewayEvent::Dispatch(seq, ev) => {
            match &ev {
                Event::Ready(re) => {
                    sess.session_id = Some(re.session_id.clone());
                    sess.resume_url = re.resume_url.clone();
                },
                _ => {},
            }
            sess.last_sequence = seq;
            StepEffects {
                notify_sequence: Some(seq),
                post: None,
                outcome: StepOutcome::Deliver(ev),
            }
        },
        GatewayEvent::Heartbeat(seq) => StepEffects {
            notify_sequence: None,
            post: Some(WorkerPost::Payload(heartbeat_payload(Some(seq)))),
            outcome: StepOutcome::Continue,
        },
        GatewayEvent::HeartbeatAck => StepEffects {
            notify_sequence: None,
            post: None,
            outcome: StepOutcome::Continue,
        },
        GatewayEvent::Reconnect => StepEffects {
            notify_sequence: None,
            post: None,
            outcome: StepOutcome::StartReconnect,
        },
        GatewayEvent::InvalidateSession => {
            sess.session_id = None;
            StepEffects {
                notify_sequence: None,
                post: Some(WorkerPost::Identify),
                outcome: StepOutcome::Continue,
            }
        },
    }
}

/// The session after a run of dispatch frames, in arrival order.
pub open spec fn apply_dispatches(s: SessionState, seqs: Seq<u64>) -> SessionState
    decreases seqs.len(),
{
    if seqs.len() == 0 {
        s
    } else {
        apply_dispatches(dispatch_update(s, seqs[0]), seqs.drop_first())
    }
}

/// After any run of dispatch frames, the session's recorded sequence is
/// that of the most recently processed frame; by the worker's heartbeat
/// contract, every heartbeat built from it thereafter carries that value
/// until the next update.
pub proof fn lemma_last_sequence_tracks_dispatches(s: SessionState, seqs: Seq<u64>)
    requires
        seqs.len() > 0,
    ensures
        apply_dispatches(s, seqs).last_sequence == seqs.last(),
    decreases seqs.len(),
{
    if seqs.len() == 1 {
    } else {
        lemma_last_sequence_tracks_dispatches(dispatch_update(s, seqs[0]), seqs.drop_first());
        assert(seqs.drop_first().last() == seqs.last());
    }
}

} // verus!
