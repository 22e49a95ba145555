//! Failure classification and the two-tier recovery policy: resume on the
//! session's resume endpoint where it is allowed, full reconnect — twice on
//! the known endpoint, then once on a rediscovered one — where it is not.

use vstd::prelude::*;

use crate::codec::{resume_payload, Event, GatewayEvent};
use crate::session::SessionState;
use crate::steady::dispatch_update;
use crate::value::{get, get_str, get_u64, Value};

verus! {

/// How the transport failed underneath the receive loop.
#[derive(Debug)]
pub enum TransportFailure {
    /// A socket-level error with no close frame.
    Io,
    /// The peer closed the connection, with the close code if one came.
    Closed(Option<u16>),
}

/// Which recovery tier to try first.
#[derive(Clone, Copy, PartialEq, Eq, Structural, Debug)]
pub enum RecoveryDecision {
    AttemptResume,
    FullReconnect,
}

/// Whether this failure forbids resuming: the distinguished close code
/// 4006 means the session is gone on the peer's side.
pub open spec fn forbids_resume(f: TransportFailure) -> bool {
    match f {
        TransportFailure::Closed(Some(code)) => code == 4006,
        _ => false,
    }
}

/// The recovery tier for a failure: resume exactly when a session identity
/// is present and the failure does not forbid it.
pub open spec fn classify_spec(f: TransportFailure, has_session: bool) -> RecoveryDecision {
    if has_session && !forbids_resume(f) {
        RecoveryDecision::AttemptResume
    } else {
        RecoveryDecision::FullReconnect
    }
}

/// Classify a transport failure into the recovery tier to try first.
pub fn classify_failure(f: &TransportFailure, has_session: bool) -> (r: RecoveryDecision)
    ensures
        r == classify_spec(*f, has_session),
        r is AttemptResume <==> has_session && !forbids_resume(*f),
{
    let forbidden = match f {
        TransportFailure::Closed(Some(code)) => *code == 4006,
        _ => false,
    };
    if has_session && !forbidden {
        RecoveryDecision::AttemptResume
    } else {
        RecoveryDecision::FullReconnect
    }
}

/// A close with code 4006 never leads to a resume attempt, whether or not
/// a session identity is present.
pub proof fn lemma_close_4006_never_resumes(has_session: bool)
    ensures
        classify_spec(TransportFailure::Closed(Some(4006u16)), has_session)
            == RecoveryDecision::FullReconnect,
{
}

/// What the resume request for a session holds: op 6 carrying exactly the
/// sequence, token and session identity recorded in that session.
pub open spec fn resume_request_matches(r: Value, s: SessionState) -> bool {
    get_u64(r, "op"@) == Some(6u64) && match get(r, "d"@) {
        Some(d) => get_u64(d, "seq"@) == Some(s.last_sequence) && get_str(d, "token"@) == Some(
            s.token@,
        ) && match s.session_id {
            Some(sid) => get_str(d, "session_id"@) == Some(sid@),
            None => false,
        },
        None => false,
    }
}

/// Build the resume request from the session as it stands at this moment.
pub fn start_resume(sess: &SessionState) -> (r: Value)
    requires
        sess.session_id is Some,
    ensures
        resume_request_matches(r, *sess),
{
    match &sess.session_id {
        Some(sid) => resume_payload(sess.last_sequence, sess.token.as_str(), sid.as_str()),
        None => unreached(),
    }
}

/// The resume request snapshots the session at the moment it is built: a
/// dispatch absorbed afterwards advances the session, while the already
/// built request still carries the sequence recorded when resume began.
pub proof fn lemma_resume_request_is_snapshot(r: Value, s: SessionState, seq: u64)
    requires
        resume_request_matches(r, s),
    ensures
        match get(r, "d"@) {
            Some(d) => get_u64(d, "seq"@) == Some(s.last_sequence),
            None => false,
        },
        dispatch_update(s, seq).last_sequence == seq,
        seq != s.last_sequence ==> !resume_request_matches(r, dispatch_update(s, seq)),
{
}

/// What the transport loop must do with one frame read on the resume
/// socket.
#[derive(Debug)]
pub enum ResumeAction {
    /// A hello during resume only retunes the worker's timer; it is not a
    /// fresh handshake.
    ChangeInterval(u64),
    /// The peer invalidated the session mid-resume: send the identify
    /// payload on the resume socket and keep reading.
    ReIdentify,
    /// The first dispatch ends the resume; continue the session with this
    /// event, swapping the new halves in.
    Done(Event),
    /// Any other frame is a resume failure.
    Fail,
}

/// Absorb one frame read while resuming. A dispatch completes the resume:
/// the sequence advances, a ready dispatch replaces the session identity
/// (the peer opened a fresh session), and the event is handed back as the
/// first event of the continued session.
pub fn resume_step(sess: &mut SessionState, event: GatewayEvent) -> (r: ResumeAction)
    ensures
        match event {
            GatewayEvent::Hello(interval) => *final(sess) == *old(sess) && r
                == ResumeAction::ChangeInterval(interval),
            GatewayEvent::InvalidateSession => *final(sess) == *old(sess) && r
                is ReIdentify,
            GatewayEvent::Dispatch(seq, ev) => r == ResumeAction::Done(ev)
                && final(sess).last_sequence == seq && (match ev {
                Event::Ready(re) => final(sess).session_id == Some(re.session_id),
                _ => final(sess).session_id == old(sess).session_id,
            }) && final(sess).token == old(sess).token
                && final(sess).gateway_url == old(sess).gateway_url
                && final(sess).resume_url == old(sess).resume_url
                && final(sess).identify == old(sess).identify,
            _ => *final(sess) == *old(sess) && r is Fail,
        },
{
    match event {
        GatewayEvent::Hello(interval) => ResumeAction::ChangeInterval(interval),
        GatewayEvent::InvalidateSession => ResumeAction::ReIdentify,
        GatewayEvent::Dispatch(seq, ev) => {
            match &ev {
                Event::Ready(re) => {
                    sess.session_id = Some(re.session_id.clone());
                },
                _ => {},
            }
            sess.last_sequence = seq;
            ResumeAction::Done(ev)
        },
        _ => ResumeAction::Fail,
    }
}

/// One step of the reconnect schedule.
#[derive(Clone, Copy, PartialEq, Eq, Structural, Debug)]
pub enum ReconnectStep {
    /// Run a fresh handshake against the last known endpoint.
    RetryKnownEndpoint,
    /// Ask the external endpoint resolver for a fresh endpoint and run one
    /// handshake against it.
    RediscoverEndpoint,
    /// Every tier is exhausted: fail and leave the client unusable.
    GiveUp,
}

/// The reconnect schedule by attempt number: two tries on the known
/// endpoint, then one on a rediscovered endpoint, then nothing.
pub fn reconnect_plan(attempt: u64) -> (r: ReconnectStep)
    ensures
        attempt < 2 ==> r == ReconnectStep::RetryKnownEndpoint,
        attempt == 2 ==> r == ReconnectStep::RediscoverEndpoint,
        attempt > 2 ==> r == ReconnectStep::GiveUp,
{
    if attempt < 2 {
        ReconnectStep::RetryKnownEndpoint
    } else if attempt == 2 {
        ReconnectStep::RediscoverEndpoint
    } else {
        ReconnectStep::GiveUp
    }
}

} // verus!
