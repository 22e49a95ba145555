use gateway_client::codec::{
    call_sync_payloads, decode, frame, heartbeat_payload, member_sync_payload, presence_payload,
    resume_payload, server_sync_payload, Event, Game, GameType, GatewayEvent, OnlineStatus,
};
use gateway_client::session::{build_gateway_url, ConnectionBuilder};
use gateway_client::value::Value;
use gateway_client::{Error, Intents};

fn get<'a>(v: &'a Value, key: &str) -> Option<&'a Value> {
    match v {
        Value::Obj(fields) => fields.iter().rev().find(|(k, _)| k == key).map(|(_, val)| val),
        _ => None,
    }
}

fn get_u64(v: &Value, key: &str) -> Option<u64> {
    match get(v, key) {
        Some(Value::UInt(n)) => Some(*n),
        _ => None,
    }
}

fn get_str<'a>(v: &'a Value, key: &str) -> Option<&'a str> {
    match get(v, key) {
        Some(Value::Str(s)) => Some(s.as_str()),
        _ => None,
    }
}

fn obj(fields: Vec<(&str, Value)>) -> Value {
    Value::Obj(fields.into_iter().map(|(k, v)| (String::from(k), v)).collect())
}

#[test]
fn decode_hello() {
    let v = obj(vec![("op", Value::UInt(10)), ("d", Value::UInt(45000))]);
    match decode(v) {
        Ok(GatewayEvent::Hello(interval)) => assert_eq!(interval, 45000),
        other => panic!("expected hello, got {:?}", other),
    }
}

#[test]
fn decode_ready_dispatch() {
    let d = obj(vec![
        ("v", Value::UInt(6)),
        ("session_id", Value::Str(String::from("abc"))),
        ("resume_url", Value::Str(String::from("wss://resume.example"))),
    ]);
    let v = obj(vec![
        ("op", Value::UInt(0)),
        ("s", Value::UInt(1)),
        ("t", Value::Str(String::from("READY"))),
        ("d", d),
    ]);
    match decode(v) {
        Ok(GatewayEvent::Dispatch(seq, Event::Ready(re))) => {
            assert_eq!(seq, 1);
            assert_eq!(re.version, 6);
            assert_eq!(re.session_id, "abc");
            assert_eq!(re.resume_url, "wss://resume.example");
        }
        other => panic!("expected ready dispatch, got {:?}", other),
    }
}

#[test]
fn decode_resumed_and_unknown_dispatch() {
    let v = obj(vec![
        ("op", Value::UInt(0)),
        ("s", Value::UInt(2)),
        ("t", Value::Str(String::from("RESUMED"))),
        ("d", Value::Null),
    ]);
    assert!(matches!(decode(v), Ok(GatewayEvent::Dispatch(2, Event::Resumed))));

    let v = obj(vec![
        ("op", Value::UInt(0)),
        ("s", Value::UInt(3)),
        ("t", Value::Str(String::from("MESSAGE_CREATE"))),
        ("d", obj(vec![("id", Value::UInt(9))])),
    ]);
    match decode(v) {
        Ok(GatewayEvent::Dispatch(3, Event::Unknown(ty, payload))) => {
            assert_eq!(ty, "MESSAGE_CREATE");
            assert_eq!(get_u64(&payload, "id"), Some(9));
        }
        other => panic!("expected unknown dispatch, got {:?}", other),
    }
}

#[test]
fn decode_housekeeping_frames() {
    let hb = obj(vec![("op", Value::UInt(1)), ("d", Value::UInt(12))]);
    assert!(matches!(decode(hb), Ok(GatewayEvent::Heartbeat(12))));
    let ack = obj(vec![("op", Value::UInt(11))]);
    assert!(matches!(decode(ack), Ok(GatewayEvent::HeartbeatAck)));
    let rc = obj(vec![("op", Value::UInt(7))]);
    assert!(matches!(decode(rc), Ok(GatewayEvent::Reconnect)));
    let inv = obj(vec![("op", Value::UInt(9))]);
    assert!(matches!(decode(inv), Ok(GatewayEvent::InvalidateSession)));
}

#[test]
fn decode_rejects_bad_frames() {
    let unknown_op = obj(vec![("op", Value::UInt(5)), ("d", Value::Null)]);
    assert!(matches!(decode(unknown_op), Err(Error::Protocol(_))));
    let no_op = obj(vec![("d", Value::UInt(45000))]);
    assert!(matches!(decode(no_op), Err(Error::Protocol(_))));
    let bad_hello = obj(vec![("op", Value::UInt(10)), ("d", Value::Null)]);
    assert!(matches!(decode(bad_hello), Err(Error::Protocol(_))));
    let ready_without_session = obj(vec![
        ("op", Value::UInt(0)),
        ("s", Value::UInt(1)),
        ("t", Value::Str(String::from("READY"))),
        ("d", obj(vec![("v", Value::UInt(6))])),
    ]);
    assert!(matches!(decode(ready_without_session), Err(Error::Protocol(_))));
    assert!(matches!(decode(Value::Null), Err(Error::Protocol(_))));
}

#[test]
fn frame_envelope() {
    let f = frame(42, Value::Str(String::from("x")));
    assert_eq!(get_u64(&f, "op"), Some(42));
    assert_eq!(get_str(&f, "d"), Some("x"));
}

#[test]
fn heartbeat_payload_shapes() {
    let before_first = heartbeat_payload(None);
    assert_eq!(get_u64(&before_first, "op"), Some(1));
    assert!(matches!(get(&before_first, "d"), Some(Value::Null)));
    let after = heartbeat_payload(Some(88));
    assert_eq!(get_u64(&after, "d"), Some(88));
}

#[test]
fn resume_payload_shape() {
    let p = resume_payload(1, "tok", "abc");
    assert_eq!(get_u64(&p, "op"), Some(6));
    let d = get(&p, "d").expect("resume payload has d");
    assert_eq!(get_u64(d, "seq"), Some(1));
    assert_eq!(get_str(d, "token"), Some("tok"));
    assert_eq!(get_str(d, "session_id"), Some("abc"));
}

#[test]
fn presence_coerces_offline_to_invisible() {
    let p = presence_payload(None, OnlineStatus::Offline, false);
    assert_eq!(get_u64(&p, "op"), Some(3));
    let d = get(&p, "d").expect("presence payload has d");
    assert_eq!(get_str(d, "status"), Some("invisible"));
    assert!(matches!(get(d, "afk"), Some(Value::Bool(false))));
    assert_eq!(get_u64(d, "since"), Some(0));
    assert!(matches!(get(d, "game"), Some(Value::Null)));
}

#[test]
fn presence_game_encodings() {
    let streaming = Game {
        name: String::from("show"),
        kind: GameType::Streaming,
        url: Some(String::from("https://stream.example")),
    };
    let p = presence_payload(Some(streaming), OnlineStatus::Online, true);
    let d = get(&p, "d").unwrap();
    assert_eq!(get_str(d, "status"), Some("online"));
    assert!(matches!(get(d, "afk"), Some(Value::Bool(true))));
    let g = get(d, "game").unwrap();
    assert_eq!(get_str(g, "type"), Some("streaming"));
    assert_eq!(get_str(g, "url"), Some("https://stream.example"));
    assert_eq!(get_str(g, "name"), Some("show"));

    let p = presence_payload(Some(Game::playing(String::from("chess"))), OnlineStatus::Idle, false);
    let d = get(&p, "d").unwrap();
    assert_eq!(get_str(d, "status"), Some("idle"));
    let g = get(d, "game").unwrap();
    assert_eq!(get_str(g, "type"), Some("playing"));
    assert_eq!(get_str(g, "name"), Some("chess"));

    let streaming_without_url =
        Game { name: String::from("show"), kind: GameType::Streaming, url: None };
    let p = presence_payload(Some(streaming_without_url), OnlineStatus::DoNotDisturb, false);
    let d = get(&p, "d").unwrap();
    assert_eq!(get_str(d, "status"), Some("dnd"));
    assert_eq!(get_str(get(d, "game").unwrap(), "type"), Some("playing"));
}

#[test]
fn sync_payload_shapes() {
    let servers = vec![3, 1, 2];
    let p = server_sync_payload(&servers);
    assert_eq!(get_u64(&p, "op"), Some(12));
    match get(&p, "d") {
        Some(Value::Arr(items)) => {
            let ids: Vec<u64> = items
                .iter()
                .map(|v| match v {
                    Value::UInt(n) => *n,
                    other => panic!("expected id, got {:?}", other),
                })
                .collect();
            assert_eq!(ids, servers);
        }
        other => panic!("expected array payload, got {:?}", other),
    }

    let m = member_sync_payload(&servers);
    assert_eq!(get_u64(&m, "op"), Some(8));
    let d = get(&m, "d").unwrap();
    assert!(matches!(get(d, "guild_id"), Some(Value::Arr(items)) if items.len() == 3));
    assert_eq!(get_str(d, "query"), Some(""));
    assert_eq!(get_u64(d, "limit"), Some(0));

    let calls = call_sync_payloads(&vec![7, 9]);
    assert_eq!(calls.len(), 2);
    assert_eq!(get_u64(&calls[0], "op"), Some(13));
    assert_eq!(get_u64(get(&calls[0], "d").unwrap(), "channel_id"), Some(7));
    assert_eq!(get_u64(get(&calls[1], "d").unwrap(), "channel_id"), Some(9));
}

#[test]
fn identify_payload_shape() {
    let mut b = ConnectionBuilder::new(
        String::from("wss://gateway.example"),
        String::from("example-token"),
    );
    b.with_shard(0, 4);
    b.with_intents(Intents(513));
    let id = b.build_identify();
    assert_eq!(get_u64(&id, "op"), Some(2));
    let d = get(&id, "d").unwrap();
    assert_eq!(get_str(d, "token"), Some("example-token"));
    assert_eq!(get_u64(d, "large_threshold"), Some(250));
    assert!(matches!(get(d, "compress"), Some(Value::Bool(true))));
    assert_eq!(get_u64(d, "v"), Some(6));
    let props = get(d, "properties").unwrap();
    assert_eq!(get_str(props, "$browser"), Some("Discord library for Rust"));
    assert_eq!(get_str(props, "$device"), Some("discord-rs"));
    match get(d, "shard") {
        Some(Value::Arr(pair)) => {
            assert!(matches!(pair[0], Value::UInt(0)));
            assert!(matches!(pair[1], Value::UInt(4)));
        }
        other => panic!("expected shard pair, got {:?}", other),
    }
    assert_eq!(get_u64(d, "intents"), Some(513));
}

#[test]
fn identify_payload_without_options() {
    let b = ConnectionBuilder::new(String::from("wss://gateway.example"), String::from("tok"));
    let id = b.build_identify();
    let d = get(&id, "d").unwrap();
    assert!(get(d, "shard").is_none());
    assert!(get(d, "intents").is_none());
}

#[test]
fn gateway_url_appends_version_query() {
    match build_gateway_url("wss://gateway.example") {
        Ok(u) => assert_eq!(u, "wss://gateway.example?v=6"),
        Err(e) => panic!("expected address, got {:?}", e),
    }
    assert!(matches!(build_gateway_url("no scheme at all"), Err(Error::Other(_))));
}
