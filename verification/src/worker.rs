//! The heartbeat worker's decisions. The worker owns the socket's write
//! half from handshake to abort; an independently scheduled loop outside
//! the library drains its command queue each tick, performs the returned
//! actions in order, and writes a heartbeat whenever the timer is due.

use vstd::prelude::*;

use crate::codec::heartbeat_payload;
use crate::value::{get, get_u64, Value};

verus! {

/// A command posted to the worker's queue. Ordering is first-in first-out
/// per sender; the loop drains everything pending before checking its
/// timer.
#[derive(Debug)]
pub enum ControlMessage {
    /// Write this payload now.
    SendPayload(Value),
    /// Cache this sequence for the next heartbeat.
    SequenceUpdate(u64),
    /// Retune the heartbeat timer to this period.
    ChangeInterval(u64),
    /// Adopt a replacement write half that the poster is handing over.
    ReplaceWriteHalf,
    /// Send a close frame best-effort and stop.
    Abort,
}

/// What the worker's loop must do with one drained command.
#[derive(Debug)]
pub enum WorkerAction {
    /// Write this payload on the owned write half.
    Write(Value),
    /// Swap the owned write half for the replacement handed over.
    SwapWriteHalf,
    /// Retune the timer to this period.
    Retime(u64),
    /// Leave the loop; no further action follows.
    Exit,
    /// Nothing outward; state was updated.
    Nothing,
}

/// The worker's state: the latest sequence it was told of — absent until
/// the first update — its timer period, and whether it is still running.
#[derive(Debug)]
pub struct Worker {
    pub last_sequence: Option<u64>,
    pub interval: u64,
    pub alive: bool,
}

/// The worker's transition relation, one command at a time.
pub open spec fn worker_trans(w: Worker, msg: ControlMessage) -> (Worker, WorkerAction) {
    match msg {
        ControlMessage::SendPayload(p) => (w, WorkerAction::Write(p)),
        ControlMessage::SequenceUpdate(n) => (
            Worker { last_sequence: Some(n), ..w },
            WorkerAction::Nothing,
        ),
        ControlMessage::ChangeInterval(i) => (
            Worker { interval: i, ..w },
            WorkerAction::Retime(i),
        ),
        ControlMessage::ReplaceWriteHalf => (w, WorkerAction::SwapWriteHalf),
        ControlMessage::Abort => (Worker { alive: false, ..w }, WorkerAction::Exit),
    }
}

/// The worker's run over a queue of commands, in post order: the state it
/// ends in and the actions it performs. The run stops at the first abort;
/// commands after it produce no action at all.
pub open spec fn worker_run(w: Worker, msgs: Seq<ControlMessage>) -> (Worker, Seq<WorkerAction>)
    decreases msgs.len(),
{
    if msgs.len() == 0 {
        (w, Seq::empty())
    } else {
        let stepped = worker_trans(w, msgs[0]);
        if stepped.1 is Exit {
            (stepped.0, seq![stepped.1])
        } else {
            let rest = worker_run(stepped.0, msgs.drop_first());
            (rest.0, seq![stepped.1] + rest.1)
        }
    }
}

impl Worker {
    /// A worker as it starts, before any dispatch has been seen.
    pub fn new(interval: u64) -> (r: Worker)
        ensures
            r.interval == interval,
            r.last_sequence is None,
            r.alive,
    {
        Worker { last_sequence: None, interval, alive: true }
    }

    /// Apply one drained command and say what the loop must do with it.
    pub fn apply(&mut self, msg: ControlMessage) -> (r: WorkerAction)
        requires
            old(self).alive,
        ensures
            (*final(self), r) == worker_trans(*old(self), msg),
    {
        match msg {
            ControlMessage::SendPayload(p) => WorkerAction::Write(p),
            ControlMessage::SequenceUpdate(n) => {
                self.last_sequence = Some(n);
                WorkerAction::Nothing
            },
            ControlMessage::ChangeInterval(i) => {
                self.interval = i;
                WorkerAction::Retime(i)
            },
            ControlMessage::ReplaceWriteHalf => WorkerAction::SwapWriteHalf,
            ControlMessage::Abort => {
                self.alive = false;
                WorkerAction::Exit
            },
        }
    }

    /// The heartbeat written when the timer elapses: it carries exactly
    /// the latest sequence the worker was told of, or null before the
    /// first update.
    pub fn heartbeat_on_tick(&self) -> (r: Value)
        requires
            self.alive,
        ensures
            get_u64(r, "op"@) == Some(1u64),
            match self.last_sequence {
                Some(n) => get_u64(r, "d"@) == Some(n),
                None => get(r, "d"@) == Some(Value::Null),
            },
    {
        heartbeat_payload(self.last_sequence)
    }
}

/// The very first heartbeat, sent before any dispatch: its payload is
/// null.
pub fn first_heartbeat() -> (r: Value)
    ensures
        get_u64(r, "op"@) == Some(1u64),
        get(r, "d"@) == Some(Value::Null),
{
    heartbeat_payload(None)
}

/// Relies on rand::Rng::gen_range over `0..bound`: it panics on an empty
/// range and otherwise returns a uniformly sampled value of the range.
#[verifier::external_body]
fn sample_below(bound: u64) -> (r: u64)
    requires
        bound > 0,
    ensures
        r < bound,
{
    rand::Rng::gen_range(&mut rand::thread_rng(), 0..bound)
}

/// The delay before the very first heartbeat: a random fraction of the
/// interval, so that many sessions started together do not heartbeat in
/// lockstep.
pub fn initial_heartbeat_delay(interval: u64) -> (r: u64)
    ensures
        interval > 0 ==> r < interval,
        interval == 0 ==> r == 0,
{
    if interval > 0 {
        sample_below(interval)
    } else {
        0
    }
}

/// Whether the heartbeat timer has elapsed: a full period has passed since
/// it was last reset.
pub fn timer_due(last_reset: u64, interval: u64, now: u64) -> (r: bool)
    ensures
        r == (now >= last_reset + interval),
{
    if now < last_reset {
        false
    } else {
        now - last_reset >= interval
    }
}

/// Between sequence updates the worker's cached sequence does not move: a
/// run that drains no sequence update leaves it unchanged, so every
/// heartbeat built in that span carries the same value.
pub proof fn lemma_sequence_stable_without_update(w: Worker, msgs: Seq<ControlMessage>)
    requires
        forall|j: int| 0 <= j < msgs.len() ==> !(#[trigger] msgs[j] is SequenceUpdate),
    ensures
        worker_run(w, msgs).0.last_sequence == w.last_sequence,
    decreases msgs.len(),
{
    if msgs.len() > 0 {
        let stepped = worker_trans(w, msgs[0]);
        assert(stepped.0.last_sequence == w.last_sequence);
        if !(stepped.1 is Exit) {
            let tail = msgs.drop_first();
            assert(forall|j: int| 0 <= j < tail.len() ==> !(#[trigger] tail[j] is SequenceUpdate));
            lemma_sequence_stable_without_update(stepped.0, tail);
        }
    }
}

/// Draining an abort ends the worker's run then and there: the actions are
/// exactly those of the commands up to and including the abort, the last of
/// them is the exit, and the worker is no longer alive — no write is ever
/// produced for a command posted after the abort.
pub proof fn lemma_abort_stops_run(w: Worker, msgs: Seq<ControlMessage>, i: int)
    requires
        0 <= i < msgs.len(),
        msgs[i] is Abort,
        forall|j: int| 0 <= j < i ==> !(msgs[j] is Abort),
    ensures
        worker_run(w, msgs).1 == worker_run(w, msgs.take(i + 1)).1,
        worker_run(w, msgs).1.len() == i + 1,
        worker_run(w, msgs).1.last() is Exit,
        !worker_run(w, msgs).0.alive,
    decreases i,
{
    if i == 0 {
        assert(worker_trans(w, msgs[0]).1 is Exit);
        assert(msgs.take(1)[0] == msgs[0]);
        assert(worker_run(w, msgs).1 =~= worker_run(w, msgs.take(1)).1);
    } else {
        let stepped = worker_trans(w, msgs[0]);
        assert(!(stepped.1 is Exit));
        let tail = msgs.drop_first();
        assert(tail[i - 1] is Abort);
        assert(forall|j: int| 0 <= j < i - 1 ==> !(#[trigger] tail[j] is Abort));
        lemma_abort_stops_run(stepped.0, tail, i - 1);
        assert(msgs.take(i + 1)[0] == msgs[0]);
        assert(msgs.take(i + 1).drop_first() =~= tail.take(i));
        assert(worker_run(w, msgs).1 =~= worker_run(w, msgs.take(i + 1)).1);
    }
}

} // verus!
