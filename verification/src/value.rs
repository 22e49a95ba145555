//! The structured value type that every gateway frame is made of, together
//! with the spec-level accessors that the frame contracts are stated over.
//! The transport outside the library converts between this type and the
//! wire encoding; the library only builds and reads values of it.

use vstd::prelude::*;

verus! {

/// A JSON-like structured value: the closed set of shapes a gateway frame
/// payload can take.
#[derive(Debug)]
pub enum Value {
    Null,
    Bool(bool),
    UInt(u64),
    Str(String),
    Arr(Vec<Value>),
    Obj(Vec<(String, Value)>),
}

/// The value bound to `key` in an object's field list; a later binding
/// shadows an earlier one of the same key.
pub open spec fn obj_get(fields: Seq<(String, Value)>, key: Seq<char>) -> Option<Value>
    decreases fields.len(),
{
    if fields.len() == 0 {
        None
    } else if fields.last().0@ == key {
        Some(fields.last().1)
    } else {
        obj_get(fields.drop_last(), key)
    }
}

/// The value bound to `key` when `v` is an object; `None` otherwise.
pub open spec fn get(v: Value, key: Seq<char>) -> Option<Value> {
    match v {
        Value::Obj(fields) => obj_get(fields@, key),
        _ => None,
    }
}

/// The unsigned integer bound to `key` in `v`, if any.
pub open spec fn get_u64(v: Value, key: Seq<char>) -> Option<u64> {
    match get(v, key) {
        Some(Value::UInt(n)) => Some(n),
        _ => None,
    }
}

/// The characters of the string bound to `key` in `v`, if any.
pub open spec fn get_str(v: Value, key: Seq<char>) -> Option<Seq<char>> {
    match get(v, key) {
        Some(Value::Str(s)) => Some(s@),
        _ => None,
    }
}

/// An empty field list for building an object.
pub fn obj_new() -> (r: Vec<(String, Value)>)
    ensures
        r@.len() == 0,
{
    Vec::new()
}

/// Bind `key` to `val` at the end of the field list, shadowing any earlier
/// binding of the same key.
pub fn obj_add(fields: &mut Vec<(String, Value)>, key: &str, val: Value)
    ensures
        forall|k: Seq<char>|
            #[trigger] obj_get(final(fields)@, k) == (if k == key@ {
                Some(val)
            } else {
                obj_get(old(fields)@, k)
            }),
{
    let k = String::from_str(key);
    fields.push((k, val));
    proof {
        assert(fields@.drop_last() =~= old(fields)@);
        assert forall|kk: Seq<char>|
            #[trigger] obj_get(fields@, kk) == (if kk == key@ {
                Some(val)
            } else {
                obj_get(old(fields)@, kk)
            }) by {
            assert(fields@.last().0@ == key@);
        }
    }
}

/// Take the bindings of four pairwise distinct keys out of `v`, consuming it.
pub fn obj_take4(v: Value, k1: &str, k2: &str, k3: &str, k4: &str) -> (r: (
    Option<Value>,
    Option<Value>,
    Option<Value>,
    Option<Value>,
))
    requires
        k1@ != k2@,
        k1@ != k3@,
        k1@ != k4@,
        k2@ != k3@,
        k2@ != k4@,
        k3@ != k4@,
    ensures
        r.0 == get(v, k1@),
        r.1 == get(v, k2@),
        r.2 == get(v, k3@),
        r.3 == get(v, k4@),
{
    let ghost gv = v;
    match v {
        Value::Obj(mut fields) => {
            let ghost orig = fields@;
            let s1 = String::from_str(k1);
            let s2 = String::from_str(k2);
            let s3 = String::from_str(k3);
            let s4 = String::from_str(k4);
            let mut r1: Option<Value> = None;
            let mut r2: Option<Value> = None;
            let mut r3: Option<Value> = None;
            let mut r4: Option<Value> = None;
            while fields.len() > 0
                invariant
                    s1@ == k1@,
                    s2@ == k2@,
                    s3@ == k3@,
                    s4@ == k4@,
                    k1@ != k2@,
                    k1@ != k3@,
                    k1@ != k4@,
                    k2@ != k3@,
                    k2@ != k4@,
                    k3@ != k4@,
                    match r1 {
                        Some(x) => obj_get(orig, k1@) == Some(x),
                        None => obj_get(orig, k1@) == obj_get(fields@, k1@),
                    },
                    match r2 {
                        Some(x) => obj_get(orig, k2@) == Some(x),
                        None => obj_get(orig, k2@) == obj_get(fields@, k2@),
                    },
                    match r3 {
                        Some(x) => obj_get(orig, k3@) == Some(x),
                        None => obj_get(orig, k3@) == obj_get(fields@, k3@),
                    },
                    match r4 {
                        Some(x) => obj_get(orig, k4@) == Some(x),
                        None => obj_get(orig, k4@) == obj_get(fields@, k4@),
                    },
                decreases fields.len(),
            {
                let ghost pre = fields@;
                let popped = fields.pop();
                match popped {
                    Some((key, value)) => {
                        proof {
                            assert(pre.drop_last() =~= fields@);
                            assert(pre.last() == (key, value));
                        }
                        if key == s1 {
                            if r1.is_none() {
                                r1 = Some(value);
                            }
                        } else if key == s2 {
                            if r2.is_none() {
                                r2 = Some(value);
                            }
                        } else if key == s3 {
                            if r3.is_none() {
                                r3 = Some(value);
                            }
                        } else if key == s4 {
                            if r4.is_none() {
                                r4 = Some(value);
                            }
                        }
                    },
                    None => {},
                }
            }
            (r1, r2, r3, r4)
        },
        _ => (None, None, None, None),
    }
}

} // verus!
