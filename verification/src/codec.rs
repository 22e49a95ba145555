//! The protocol codec: decoding an inbound structured value into the closed
//! set of gateway events, and building every outbound command payload.
//! Stateless; every function is a pure mapping with an exact contract.

use vstd::prelude::*;

use crate::value::{get, get_str, get_u64, obj_add, obj_get, obj_new, obj_take4, Value};
use crate::Error;

verus! {

/// An inbound frame, one variant per accepted op code.
#[derive(Debug)]
pub enum GatewayEvent {
    Hello(u64),
    Dispatch(u64, Event),
    Heartbeat(u64),
    HeartbeatAck,
    Reconnect,
    InvalidateSession,
}

/// The domain-visible payload of a dispatch frame. The library routes these;
/// it interprets only the two markers the protocol itself depends on.
#[derive(Debug)]
pub enum Event {
    Ready(ReadyEvent),
    Resumed,
    Unknown(String, Value),
}

/// The initial-state event that completes a handshake.
#[derive(Debug)]
pub struct ReadyEvent {
    pub version: u64,
    pub session_id: String,
    pub resume_url: String,
}

/// What a well-formed ready payload decodes to.
pub open spec fn decode_ready(d: Value) -> Option<ReadyEvent> {
    match (get_u64(d, "v"@), get(d, "session_id"@), get(d, "resume_url"@)) {
        (Some(ver), Some(Value::Str(sid)), Some(Value::Str(ru))) => Some(
            ReadyEvent { version: ver, session_id: sid, resume_url: ru },
        ),
        _ => None,
    }
}

/// What a dispatch frame's sequence, type and payload fields decode to.
pub open spec fn decode_dispatch(s: Option<Value>, t: Option<Value>, d: Option<Value>) -> Option<
    GatewayEvent,
> {
    match (s, t, d) {
        (Some(Value::UInt(seq)), Some(Value::Str(ty)), Some(dv)) => if ty@ == "READY"@ {
            match decode_ready(dv) {
                Some(re) => Some(GatewayEvent::Dispatch(seq, Event::Ready(re))),
                None => None,
            }
        } else if ty@ == "RESUMED"@ {
            Some(GatewayEvent::Dispatch(seq, Event::Resumed))
        } else {
            Some(GatewayEvent::Dispatch(seq, Event::Unknown(ty, dv)))
        },
        _ => None,
    }
}

/// The event a frame decodes to: `None` is a protocol error. Op 10 carries
/// the heartbeat interval, op 0 a sequenced dispatch, op 1 a heartbeat
/// request echoing its sequence, op 11 a heartbeat ack, op 7 a reconnect
/// request, op 9 a session invalidation; any other op is rejected.
pub open spec fn decode_spec(v: Value) -> Option<GatewayEvent> {
    match get_u64(v, "op"@) {
        Some(op) => if op == 10 {
            match get(v, "d"@) {
                Some(Value::UInt(i)) => Some(GatewayEvent::Hello(i)),
                _ => None,
            }
        } else if op == 0 {
            decode_dispatch(get(v, "s"@), get(v, "t"@), get(v, "d"@))
        } else if op == 1 {
            match get(v, "d"@) {
                Some(Value::UInt(n)) => Some(GatewayEvent::Heartbeat(n)),
                _ => None,
            }
        } else if op == 11 {
            Some(GatewayEvent::HeartbeatAck)
        } else if op == 7 {
            Some(GatewayEvent::Reconnect)
        } else if op == 9 {
            Some(GatewayEvent::InvalidateSession)
        } else {
            None
        },
        None => None,
    }
}

/// Decode one inbound frame. Succeeds exactly on the frames `decode_spec`
/// accepts and returns exactly the event it maps them to; everything else
/// is a protocol error.
pub fn decode(v: Value) -> (r: Result<GatewayEvent, Error>)
    ensures
        r is Ok <==> decode_spec(v) is Some,
        r matches Ok(ev) ==> Some(ev) == decode_spec(v),
        r matches Err(e) ==> e is Protocol,
{
    proof {
        reveal_strlit("op");
        reveal_strlit("d");
        reveal_strlit("s");
        reveal_strlit("t");
        assert("op"@.len() == 2 && "d"@.len() == 1 && "s"@.len() == 1 && "t"@.len() == 1);
        assert("d"@[0] == 'd' && "s"@[0] == 's' && "t"@[0] == 't');
    }
    let (op_v, d_v, s_v, t_v) = obj_take4(v, "op", "d", "s", "t");
    let op: u64 = match op_v {
        Some(Value::UInt(n)) => n,
        _ => {
            return Err(Error::Protocol("frame carries no integer op code"));
        },
    };
    if op == 10 {
        match d_v {
            Some(Value::UInt(i)) => Ok(GatewayEvent::Hello(i)),
            _ => Err(Error::Protocol("hello frame carries no interval")),
        }
    } else if op == 0 {
        let seq: u64 = match s_v {
            Some(Value::UInt(n)) => n,
            _ => {
                return Err(Error::Protocol("dispatch frame carries no sequence"));
            },
        };
        let ty: String = match t_v {
            Some(Value::Str(s)) => s,
            _ => {
                return Err(Error::Protocol("dispatch frame carries no event type"));
            },
        };
        let d: Value = match d_v {
            Some(x) => x,
            None => {
                return Err(Error::Protocol("dispatch frame carries no payload"));
            },
        };
        let ready_tag = String::from_str("READY");
        let resumed_tag = String::from_str("RESUMED");
        if ty == ready_tag {
            match decode_ready_payload(d) {
                Ok(re) => Ok(GatewayEvent::Dispatch(seq, Event::Ready(re))),
                Err(e) => Err(e),
            }
        } else if ty == resumed_tag {
            Ok(GatewayEvent::Dispatch(seq, Event::Resumed))
        } else {
            Ok(GatewayEvent::Dispatch(seq, Event::Unknown(ty, d)))
        }
    } else if op == 1 {
        match d_v {
            Some(Value::UInt(n)) => Ok(GatewayEvent::Heartbeat(n)),
            _ => Err(Error::Protocol("heartbeat frame carries no sequence")),
        }
    } else if op == 11 {
        Ok(GatewayEvent::HeartbeatAck)
    } else if op == 7 {
        Ok(GatewayEvent::Reconnect)
    } else if op == 9 {
        Ok(GatewayEvent::InvalidateSession)
    } else {
        Err(Error::Protocol("unknown op code"))
    }
}

/// Decode the payload of a ready dispatch.
fn decode_ready_payload(d: Value) -> (r: Result<ReadyEvent, Error>)
    ensures
        r is Ok <==> decode_ready(d) is Some,
        r matches Ok(re) ==> Some(re) == decode_ready(d),
        r matches Err(e) ==> e is Protocol,
{
    proof {
        reveal_strlit("v");
        reveal_strlit("session_id");
        reveal_strlit("resume_url");
        reveal_strlit("t");
        assert("v"@.len() == 1 && "t"@.len() == 1 && "session_id"@.len() == 10
            && "resume_url"@.len() == 10);
        assert("v"@[0] == 'v' && "t"@[0] == 't');
        assert("session_id"@[0] == 's' && "resume_url"@[0] == 'r');
    }
    let (ver_v, sid_v, ru_v, _spare) = obj_take4(d, "v", "session_id", "resume_url", "t");
    let version: u64 = match ver_v {
        Some(Value::UInt(n)) => n,
        _ => {
            return Err(Error::Protocol("ready payload carries no version"));
        },
    };
    let session_id: String = match sid_v {
        Some(Value::Str(s)) => s,
        _ => {
            return Err(Error::Protocol("ready payload carries no session id"));
        },
    };
    let resume_url: String = match ru_v {
        Some(Value::Str(s)) => s,
        _ => {
            return Err(Error::Protocol("ready payload carries no resume endpoint"));
        },
    };
    Ok(ReadyEvent { version, session_id, resume_url })
}

/// Wrap a payload in the outbound frame envelope: an object binding `op`
/// to the op code and `d` to the payload, and nothing else.
pub fn frame(op: u64, d: Value) -> (r: Value)
    ensures
        get_u64(r, "op"@) == Some(op),
        get(r, "d"@) == Some(d),
        forall|k: Seq<char>| k != "op"@ && k != "d"@ ==> #[trigger] get(r, k) == None::<Value>,
{
    proof {
        reveal_strlit("op");
        reveal_strlit("d");
        assert("op"@.len() == 2 && "d"@.len() == 1);
    }
    let mut fields = obj_new();
    proof {
        assert(forall|k: Seq<char>| #[trigger] obj_get(fields@, k) == None::<Value>);
    }
    obj_add(&mut fields, "op", Value::UInt(op));
    obj_add(&mut fields, "d", d);
    Value::Obj(fields)
}

/// The periodic heartbeat frame: op 1 whose payload is the last known
/// sequence, or null before any dispatch has been seen.
pub fn heartbeat_payload(seq: Option<u64>) -> (r: Value)
    ensures
        get_u64(r, "op"@) == Some(1u64),
        match seq {
            Some(n) => get_u64(r, "d"@) == Some(n),
            None => get(r, "d"@) == Some(Value::Null),
        },
{
    let d = match seq {
        Some(n) => Value::UInt(n),
        None => Value::Null,
    };
    frame(1, d)
}

/// The resume request: op 6 whose payload carries the sequence, token and
/// session id handed in, and nothing else.
pub fn resume_payload(seq: u64, token: &str, session_id: &str) -> (r: Value)
    ensures
        get_u64(r, "op"@) == Some(6u64),
        match get(r, "d"@) {
            Some(d) => get_u64(d, "seq"@) == Some(seq) && get_str(d, "token"@) == Some(token@)
                && get_str(d, "session_id"@) == Some(session_id@),
            None => false,
        },
{
    proof {
        reveal_strlit("seq");
        reveal_strlit("token");
        reveal_strlit("session_id");
        assert("seq"@.len() == 3 && "token"@.len() == 5 && "session_id"@.len() == 10);
    }
    let mut d = obj_new();
    obj_add(&mut d, "seq", Value::UInt(seq));
    obj_add(&mut d, "token", Value::Str(String::from_str(token)));
    obj_add(&mut d, "session_id", Value::Str(String::from_str(session_id)));
    frame(6, Value::Obj(d))
}

/// How a reported game is being played.
#[derive(Clone, Copy, PartialEq, Eq, Structural, Debug)]
pub enum GameType {
    Playing,
    Streaming,
}

/// A game the client reports as playing.
#[derive(Debug)]
pub struct Game {
    pub name: String,
    pub kind: GameType,
    pub url: Option<String>,
}

impl Game {
    /// A plain playing report with no stream attached.
    pub fn playing(name: String) -> (r: Game)
        ensures
            r.name == name,
            r.kind == GameType::Playing,
            r.url is None,
    {
        Game { name, kind: GameType::Playing, url: None }
    }
}

/// The presence the client reports.
#[derive(Clone, Copy, PartialEq, Eq, Structural, Debug)]
pub enum OnlineStatus {
    Online,
    Idle,
    DoNotDisturb,
    Invisible,
    Offline,
}

/// The status actually sent: an offline report is coerced to invisible,
/// every other status passes through.
pub open spec fn coerce_status(s: OnlineStatus) -> OnlineStatus {
    match s {
        OnlineStatus::Offline => OnlineStatus::Invisible,
        other => other,
    }
}

/// The wire name of a status.
pub open spec fn status_chars(s: OnlineStatus) -> Seq<char> {
    match s {
        OnlineStatus::Online => "online"@,
        OnlineStatus::Idle => "idle"@,
        OnlineStatus::DoNotDisturb => "dnd"@,
        OnlineStatus::Invisible => "invisible"@,
        OnlineStatus::Offline => "offline"@,
    }
}

/// How the encoded game field relates to the requested game: a streaming
/// game with a stream address carries its address, any other game is a
/// plain playing report, and no game encodes to null.
pub open spec fn game_matches(gv: Option<Value>, game: Option<Game>) -> bool {
    match game {
        None => gv == Some(Value::Null),
        Some(g) => match gv {
            Some(v) => match (g.kind, g.url) {
                (GameType::Streaming, Some(u)) => get_str(v, "type"@) == Some("streaming"@)
                    && get_str(v, "url"@) == Some(u@) && get_str(v, "name"@) == Some(g.name@),
                _ => get_str(v, "type"@) == Some("playing"@) && get_str(v, "name"@) == Some(
                    g.name@,
                ),
            },
            None => false,
        },
    }
}

/// Encode the game field of a presence update.
fn game_value(game: Option<Game>) -> (r: Value)
    ensures
        game_matches(Some(r), game),
{
    proof {
        reveal_strlit("type");
        reveal_strlit("url");
        reveal_strlit("name");
        assert("type"@.len() == 4 && "url"@.len() == 3 && "name"@.len() == 4);
        assert("type"@[0] == 't' && "name"@[0] == 'n');
    }
    match game {
        None => Value::Null,
        Some(g) => {
            let Game { name, kind, url } = g;
            match (kind, url) {
                (GameType::Streaming, Some(u)) => {
                    let mut fields = obj_new();
                    obj_add(&mut fields, "type", Value::Str(String::from_str("streaming")));
                    obj_add(&mut fields, "url", Value::Str(u));
                    obj_add(&mut fields, "name", Value::Str(name));
                    Value::Obj(fields)
                },
                (_, _) => {
                    let mut fields = obj_new();
                    obj_add(&mut fields, "name", Value::Str(name));
                    obj_add(&mut fields, "type", Value::Str(String::from_str("playing")));
                    Value::Obj(fields)
                },
            }
        },
    }
}

/// The presence update frame: op 3 carrying the afk flag, a zero since
/// mark, the coerced status and the encoded game.
pub fn presence_payload(game: Option<Game>, status: OnlineStatus, afk: bool) -> (r: Value)
    ensures
        get_u64(r, "op"@) == Some(3u64),
        match get(r, "d"@) {
            Some(d) => get(d, "afk"@) == Some(Value::Bool(afk)) && get_u64(d, "since"@) == Some(
                0u64,
            ) && get_str(d, "status"@) == Some(status_chars(coerce_status(status)))
                && game_matches(get(d, "game"@), game),
            None => false,
        },
{
    proof {
        reveal_strlit("afk");
        reveal_strlit("since");
        reveal_strlit("status");
        reveal_strlit("game");
        assert("afk"@.len() == 3 && "since"@.len() == 5 && "status"@.len() == 6 && "game"@.len()
            == 4);
    }
    let coerced = match status {
        OnlineStatus::Offline => OnlineStatus::Invisible,
        other => other,
    };
    let status_name: String = match coerced {
        OnlineStatus::Online => String::from_str("online"),
        OnlineStatus::Idle => String::from_str("idle"),
        OnlineStatus::DoNotDisturb => String::from_str("dnd"),
        OnlineStatus::Invisible => String::from_str("invisible"),
        OnlineStatus::Offline => String::from_str("offline"),
    };
    let gv = game_value(game);
    let mut d = obj_new();
    obj_add(&mut d, "afk", Value::Bool(afk));
    obj_add(&mut d, "since", Value::UInt(0));
    obj_add(&mut d, "status", Value::Str(status_name));
    obj_add(&mut d, "game", gv);
    frame(3, Value::Obj(d))
}

/// The ids as an array value.
fn uint_array(xs: &Vec<u64>) -> (r: Vec<Value>)
    ensures
        r@.len() == xs@.len(),
        forall|i: int| 0 <= i < xs@.len() ==> r@[i] == Value::UInt(xs@[i]),
{
    let mut r: Vec<Value> = Vec::new();
    let mut i: usize = 0;
    while i < xs.len()
        invariant
            i <= xs@.len(),
            r@.len() == i,
            forall|j: int| 0 <= j < i ==> r@[j] == Value::UInt(xs@[j]),
        decreases xs@.len() - i,
    {
        r.push(Value::UInt(xs[i]));
        i = i + 1;
    }
    r
}

/// The bulk server sync frame: op 12 whose payload is the server id array.
pub fn server_sync_payload(servers: &Vec<u64>) -> (r: Value)
    ensures
        get_u64(r, "op"@) == Some(12u64),
        match get(r, "d"@) {
            Some(Value::Arr(items)) => items@.len() == servers@.len() && forall|i: int|
                0 <= i < servers@.len() ==> items@[i] == Value::UInt(servers@[i]),
            _ => false,
        },
{
    frame(12, Value::Arr(uint_array(servers)))
}

/// One call sync frame: op 13 naming a single channel.
pub fn call_sync_payload(channel: u64) -> (r: Value)
    ensures
        get_u64(r, "op"@) == Some(13u64),
        match get(r, "d"@) {
            Some(d) => get_u64(d, "channel_id"@) == Some(channel),
            None => false,
        },
{
    proof {
        reveal_strlit("channel_id");
        assert("channel_id"@.len() == 10);
    }
    let mut d = obj_new();
    obj_add(&mut d, "channel_id", Value::UInt(channel));
    frame(13, Value::Obj(d))
}

/// The call sync frames for a list of channels, one frame per channel in
/// the same order.
pub fn call_sync_payloads(channels: &Vec<u64>) -> (r: Vec<Value>)
    ensures
        r@.len() == channels@.len(),
        forall|i: int|
            0 <= i < channels@.len() ==> get_u64(#[trigger] r@[i], "op"@) == Some(13u64) && match get(
                r@[i],
                "d"@,
            ) {
                Some(d) => get_u64(d, "channel_id"@) == Some(channels@[i]),
                None => false,
            },
{
    let mut r: Vec<Value> = Vec::new();
    let mut i: usize = 0;
    while i < channels.len()
        invariant
            i <= channels@.len(),
            r@.len() == i,
            forall|j: int|
                0 <= j < i ==> get_u64(#[trigger] r@[j], "op"@) == Some(13u64) && match get(
                    r@[j],
                    "d"@,
                ) {
                    Some(d) => get_u64(d, "channel_id"@) == Some(channels@[j]),
                    None => false,
                },
        decreases channels@.len() - i,
    {
        r.push(call_sync_payload(channels[i]));
        i = i + 1;
    }
    r
}

/// The member download frame: op 8 asking for every member of the named
/// servers, with an empty query and no limit.
pub fn member_sync_payload(servers: &Vec<u64>) -> (r: Value)
    ensures
        get_u64(r, "op"@) == Some(8u64),
        match get(r, "d"@) {
            Some(d) => (match get(d, "guild_id"@) {
                Some(Value::Arr(items)) => items@.len() == servers@.len() && forall|i: int|
                    0 <= i < servers@.len() ==> items@[i] == Value::UInt(servers@[i]),
                _ => false,
            }) && get_str(d, "query"@) == Some(""@) && get_u64(d, "limit"@) == Some(0u64),
            None => false,
        },
{
    proof {
        reveal_strlit("guild_id");
        reveal_strlit("query");
        reveal_strlit("limit");
        assert("guild_id"@.len() == 8 && "query"@.len() == 5 && "limit"@.len() == 5);
        assert("query"@[0] == 'q' && "limit"@[0] == 'l');
    }
    let mut d = obj_new();
    obj_add(&mut d, "guild_id", Value::Arr(uint_array(servers)));
    obj_add(&mut d, "query", Value::Str(String::from_str("")));
    obj_add(&mut d, "limit", Value::UInt(0));
    frame(8, Value::Obj(d))
}

} // verus!
