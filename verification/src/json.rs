//! A structural model of JSON values.
//!
//! The sync logic never reads numbers, so a number is carried as its decimal
//! text. Object members keep their order; a lookup returns the value of the
//! first member whose key matches, as `Value::get` does on a JSON object.

use vstd::prelude::*;
use vstd::string::*;

verus! {

/// A JSON value. `Arr` and `Obj` hold their members in order.
#[derive(Debug, PartialEq, Eq)]
pub enum JsonValue {
    Null,
    Bool(bool),
    /// A number, carried as its decimal text.
    Num(String),
    Text(String),
    Arr(Vec<JsonValue>),
    Obj(Vec<(String, JsonValue)>),
}

/// The value of the first member of `fields` whose key reads as `key`.
pub open spec fn json_lookup(fields: Seq<(String, JsonValue)>, key: Seq<char>) -> Option<JsonValue>
    decreases fields.len(),
{
    if fields.len() == 0 {
        None
    } else if fields[0].0@ == key {
        Some(fields[0].1)
    } else {
        json_lookup(fields.drop_first(), key)
    }
}

/// The member of `v` named `key`, when `v` is an object that has one.
pub open spec fn json_field(v: JsonValue, key: Seq<char>) -> Option<JsonValue> {
    match v {
        JsonValue::Obj(fields) => json_lookup(fields@, key),
        _ => None,
    }
}

/// The text of the member of `v` named `key`, when `v` is an object and that
/// member is a string.
pub open spec fn json_str_field(v: JsonValue, key: Seq<char>) -> Option<Seq<char>> {
    match json_field(v, key) {
        Some(JsonValue::Text(t)) => Some(t@),
        _ => None,
    }
}

/// Looks `key` up in `v` and returns its text, exactly when `v` is an object
/// whose member `key` is a string.
#[verifier::loop_isolation(false)]
pub fn get_str_field(v: &JsonValue, key: &str) -> (r: Option<String>)
    ensures
        match r {
            Some(s) => json_str_field(*v, key@) == Some(s@),
            None => json_str_field(*v, key@) is None,
        },
{
    match v {
        JsonValue::Obj(fields) => {
            let key_string = String::from_str(key);
            let n: usize = fields.len();
            let mut i: usize = 0;
            proof {
                assert(fields@.skip(0) =~= fields@);
            }
            while i < n
                invariant
                    n == fields@.len(),
                    i <= n,
                    key_string@ == key@,
                    json_lookup(fields@, key@) == json_lookup(fields@.skip(i as int), key@),
                decreases n - i,
            {
                proof {
                    assert(fields@.skip(i as int)[0] == fields@[i as int]);
                }
                if fields[i].0 == key_string {
                    proof {
                        assert(json_lookup(fields@.skip(i as int), key@) == Some(
                            fields@[i as int].1,
                        ));
                    }
                    match &fields[i].1 {
                        JsonValue::Text(t) => {
                            return Some(t.clone());
                        },
                        _ => {
                            return None;
                        },
                    }
                }
                proof {
                    assert(fields@.skip(i as int).drop_first() =~= fields@.skip(i as int + 1));
                }
                i += 1;
            }
            proof {
                assert(fields@.skip(n as int) =~= Seq::<(String, JsonValue)>::empty());
            }
            None
        },
        _ => None,
    }
}

} // verus!
