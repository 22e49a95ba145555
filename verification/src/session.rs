//! One logical session: the builder that fixes the connect configuration
//! and identify payload, the mutable session record the receive loop keeps,
//! and the connect address derived from a gateway endpoint.

use vstd::prelude::*;

use crate::codec::{frame, ReadyEvent};
use crate::value::{get, get_str, get_u64, obj_add, obj_get, obj_new, Value};
use crate::{Error, Intents, GATEWAY_VERSION};

verus! {

/// What a well-formed identify frame for this configuration holds: op 2,
/// the token, the fixed client properties, the protocol version, the
/// shard pair and intents bitmask exactly when they were configured, and
/// nothing else at any level.
pub open spec fn identify_matches(
    v: Value,
    token: Seq<char>,
    shard: Option<(u8, u8)>,
    intents: Option<u64>,
) -> bool {
    get_u64(v, "op"@) == Some(2u64) && match get(v, "d"@) {
        Some(d) => get_str(d, "token"@) == Some(token) && get_u64(d, "large_threshold"@) == Some(
            250u64,
        ) && get(d, "compress"@) == Some(Value::Bool(true)) && get_u64(d, "v"@) == Some(
            GATEWAY_VERSION,
        ) && (match get(d, "properties"@) {
            Some(p) => get_str(p, "$os"@) == Some(""@) && get_str(p, "$browser"@) == Some(
                "Discord library for Rust"@,
            ) && get_str(p, "$device"@) == Some("discord-rs"@) && get_str(p, "$referring_domain"@)
                == Some(""@) && get_str(p, "$referrer"@) == Some(""@) && (forall|k: Seq<char>|
                k != "$os"@ && k != "$browser"@ && k != "$device"@ && k != "$referring_domain"@
                    && k != "$referrer"@ ==> #[trigger] get(p, k) == None::<Value>),
            None => false,
        }) && (match shard {
            Some((id, total)) => match get(d, "shard"@) {
                Some(Value::Arr(items)) => items@.len() == 2 && items@[0] == Value::UInt(
                    id as u64,
                ) && items@[1] == Value::UInt(total as u64),
                _ => false,
            },
            None => get(d, "shard"@) == None::<Value>,
        }) && (match intents {
            Some(bits) => get_u64(d, "intents"@) == Some(bits),
            None => get(d, "intents"@) == None::<Value>,
        }) && (forall|k: Seq<char>|
            k != "token"@ && k != "properties"@ && k != "large_threshold"@ && k != "compress"@
                && k != "v"@ && k != "shard"@ && k != "intents"@ ==> #[trigger] get(d, k)
                == None::<Value>),
        None => false,
    } && (forall|k: Seq<char>|
        k != "op"@ && k != "d"@ ==> #[trigger] get(v, k) == None::<Value>)
}

/// The connect configuration a client is built from.
#[derive(Clone, Debug)]
pub struct ConnectionBuilder {
    pub base_url: String,
    pub token: String,
    pub shard: Option<(u8, u8)>,
    pub intents: Option<Intents>,
}

impl ConnectionBuilder {
    /// A configuration with neither shard nor intents set.
    pub fn new(base_url: String, token: String) -> (r: ConnectionBuilder)
        ensures
            r.base_url == base_url,
            r.token == token,
            r.shard is None,
            r.intents is None,
    {
        ConnectionBuilder { base_url, token, shard: None, intents: None }
    }

    /// Connect to only a specific shard.
    ///
    /// The `shard_id` is indexed at 0 while `total_shards` is indexed at 1.
    pub fn with_shard(&mut self, shard_id: u8, total_shards: u8)
        ensures
            final(self).shard == Some((shard_id, total_shards)),
            final(self).base_url == old(self).base_url,
            final(self).token == old(self).token,
            final(self).intents == old(self).intents,
    {
        self.shard = Some((shard_id, total_shards));
    }

    /// Restrict the delivered events to an intents bitmask.
    pub fn with_intents(&mut self, intents: Intents)
        ensures
            final(self).intents == Some(intents),
            final(self).base_url == old(self).base_url,
            final(self).token == old(self).token,
            final(self).shard == old(self).shard,
    {
        self.intents = Some(intents);
    }

    /// The identify frame this configuration sends during a handshake. The
    /// host identifier among the client properties is ambient and is left
    /// empty here.
    pub fn build_identify(&self) -> (r: Value)
        ensures
            identify_matches(
                r,
                self.token@,
                self.shard,
                match self.intents {
                    Some(i) => Some(i.0),
                    None => None,
                },
            ),
    {
        proof {
            reveal_strlit("token");
            reveal_strlit("properties");
            reveal_strlit("large_threshold");
            reveal_strlit("compress");
            reveal_strlit("v");
            reveal_strlit("shard");
            reveal_strlit("intents");
            assert("token"@.len() == 5 && "properties"@.len() == 10 && "large_threshold"@.len()
                == 15 && "compress"@.len() == 8 && "v"@.len() == 1 && "shard"@.len() == 5
                && "intents"@.len() == 7);
            assert("token"@[0] == 't' && "shard"@[0] == 's');
            reveal_strlit("$os");
            reveal_strlit("$browser");
            reveal_strlit("$device");
            reveal_strlit("$referring_domain");
            reveal_strlit("$referrer");
            assert("$os"@.len() == 3 && "$browser"@.len() == 8 && "$device"@.len() == 7
                && "$referring_domain"@.len() == 17 && "$referrer"@.len() == 9);
        }
        let mut props = obj_new();
        proof {
            assert(forall|k: Seq<char>| #[trigger] obj_get(props@, k) == None::<Value>);
        }
        obj_add(&mut props, "$os", Value::Str(String::from_str("")));
        obj_add(&mut props, "$browser", Value::Str(String::from_str("Discord library for Rust")));
        obj_add(&mut props, "$device", Value::Str(String::from_str("discord-rs")));
        obj_add(&mut props, "$referring_domain", Value::Str(String::from_str("")));
        obj_add(&mut props, "$referrer", Value::Str(String::from_str("")));
        let mut d = obj_new();
        proof {
            assert(forall|k: Seq<char>| #[trigger] obj_get(d@, k) == None::<Value>);
        }
        obj_add(&mut d, "token", Value::Str(self.token.clone()));
        obj_add(&mut d, "properties", Value::Obj(props));
        obj_add(&mut d, "large_threshold", Value::UInt(250));
        obj_add(&mut d, "compress", Value::Bool(true));
        obj_add(&mut d, "v", Value::UInt(GATEWAY_VERSION));
        match self.shard {
            Some((id, total)) => {
                let mut pair: Vec<Value> = Vec::new();
                pair.push(Value::UInt(id as u64));
                pair.push(Value::UInt(total as u64));
                obj_add(&mut d, "shard", Value::Arr(pair));
            },
            None => {},
        }
        match self.intents {
            Some(i) => {
                obj_add(&mut d, "intents", Value::UInt(i.0));
            },
            None => {},
        }
        frame(2, Value::Obj(d))
    }
}

/// The record of one logical session, created by a handshake, advanced by
/// every dispatch, and discarded wholesale on a full reconnect.
#[derive(Debug)]
pub struct SessionState {
    pub token: String,
    pub gateway_url: String,
    pub resume_url: String,
    pub session_id: Option<String>,
    pub last_sequence: u64,
    pub identify: Value,
}

impl SessionState {
    /// The session a completed handshake yields: the ready event's session
    /// id and resume endpoint, and the sequence of the ready dispatch.
    pub fn after_handshake(
        token: String,
        gateway_url: String,
        identify: Value,
        sequence: u64,
        ready: &ReadyEvent,
    ) -> (r: SessionState)
        ensures
            r.token == token,
            r.gateway_url == gateway_url,
            r.identify == identify,
            r.last_sequence == sequence,
            r.session_id == Some(ready.session_id),
            r.resume_url == ready.resume_url,
    {
        SessionState {
            token,
            gateway_url,
            resume_url: ready.resume_url.clone(),
            session_id: Some(ready.session_id.clone()),
            last_sequence: sequence,
            identify,
        }
    }
}

/// Whether url::Url::parse accepts a string; the outcome depends on the
/// characters alone.
pub uninterp spec fn url_parse_ok(s: Seq<char>) -> bool;

/// Relies on url::Url::parse: a pure function of its input, so whether it
/// returns Ok is a predicate of the characters.
#[verifier::external_body]
fn check_gateway_url(s: &str) -> (r: bool)
    ensures
        r == url_parse_ok(s@),
{
    url::Url::parse(s).is_ok()
}

/// The connect address: the endpoint with the protocol version appended as
/// its query, accepted exactly when it parses as an absolute address.
pub fn build_gateway_url(base: &str) -> (r: Result<String, Error>)
    ensures
        r is Ok <==> url_parse_ok(base@ + "?v=6"@),
        r matches Ok(u) ==> u@ == base@ + "?v=6"@,
        r matches Err(e) ==> e is Other,
{
    let mut u = String::from_str(base);
    u.append("?v=6");
    if check_gateway_url(u.as_str()) {
        Ok(u)
    } else {
        Err(Error::Other("invalid gateway endpoint"))
    }
}

} // verus!
