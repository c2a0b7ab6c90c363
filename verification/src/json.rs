//! The JSON values that contract events carry, held as plain data so the
//! indexer's decoders can be verified. Numbers follow `serde_json`: a
//! non-negative integer is `PosInt`, a negative one `NegInt`, anything else
//! `Float`, kept as its decimal text.
use vstd::prelude::*;

use crate::text::{chars_eq, chars_of, chars_of_string};

verus! {

/// A JSON number.
pub enum JsonNumber {
    PosInt(u64),
    NegInt(i64),
    Float(String),
}

/// A JSON value.
pub enum JsonValue {
    Null,
    Bool(bool),
    Number(JsonNumber),
    String(String),
    Array(Vec<JsonValue>),
    Object(Vec<(String, JsonValue)>),
}

/// Mathematical form of a JSON number.
pub enum Num {
    PosInt(nat),
    NegInt(int),
    Float(Seq<char>),
}

/// Mathematical form of a JSON value.
pub enum Json {
    Null,
    Bool(bool),
    Number(Num),
    Str(Seq<char>),
    Array(Seq<Json>),
    Object(Seq<(Seq<char>, Json)>),
}

impl JsonNumber {
    pub open spec fn view(&self) -> Num {
        match self {
            JsonNumber::PosInt(n) => Num::PosInt(*n as nat),
            JsonNumber::NegInt(n) => Num::NegInt(*n as int),
            JsonNumber::Float(s) => Num::Float(s@),
        }
    }
}

impl JsonValue {
    pub open spec fn view(&self) -> Json
        decreases self,
    {
        match self {
            JsonValue::Null => Json::Null,
            JsonValue::Bool(b) => Json::Bool(*b),
            JsonValue::Number(n) => Json::Number(n.view()),
            JsonValue::String(s) => Json::Str(s@),
            JsonValue::Array(items) => Json::Array(
                Seq::new(
                    items@.len(),
                    |i: int|
                        if 0 <= i < items@.len() {
                            items@[i].view()
                        } else {
                            Json::Null
                        },
                ),
            ),
            JsonValue::Object(entries) => Json::Object(
                Seq::new(
                    entries@.len(),
                    |i: int|
                        if 0 <= i < entries@.len() {
                            (entries@[i].0@, entries@[i].1.view())
                        } else {
                            (Seq::empty(), Json::Null)
                        },
                ),
            ),
        }
    }
}


/// `Value::as_u64`: a non-negative integer that fits in `u64`.
pub open spec fn json_u64(j: Json) -> Option<u64> {
    match j {
        Json::Number(Num::PosInt(n)) => if n <= u64::MAX { Some(n as u64) } else { None },
        _ => None,
    }
}

/// `Value::as_i64`: an integer that fits in `i64`.
pub open spec fn json_i64(j: Json) -> Option<i64> {
    match j {
        Json::Number(Num::PosInt(n)) => if n <= i64::MAX { Some(n as i64) } else { None },
        Json::Number(Num::NegInt(n)) => if i64::MIN <= n <= i64::MAX {
            Some(n as i64)
        } else {
            None
        },
        _ => None,
    }
}

/// `Value::as_str`.
pub open spec fn json_str(j: Json) -> Option<Seq<char>> {
    match j {
        Json::Str(s) => Some(s),
        _ => None,
    }
}

/// `value.as_array()?.get(i)`.
pub open spec fn json_index(j: Json, i: int) -> Option<Json> {
    match j {
        Json::Array(items) => if 0 <= i < items.len() { Some(items[i]) } else { None },
        _ => None,
    }
}

/// The value stored under `key` in a list of object entries (the first one).
pub open spec fn entries_get(entries: Seq<(Seq<char>, Json)>, key: Seq<char>) -> Option<Json>
    decreases entries.len(),
{
    if entries.len() == 0 {
        None
    } else if entries[0].0 == key {
        Some(entries[0].1)
    } else {
        entries_get(entries.drop_first(), key)
    }
}

/// `value.get(key)` on an object; `None` on anything else.
pub open spec fn json_field(j: Json, key: Seq<char>) -> Option<Json> {
    match j {
        Json::Object(entries) => entries_get(entries, key),
        _ => None,
    }
}

impl JsonNumber {
    /// A copy of this number.
    pub fn duplicate(&self) -> (r: JsonNumber)
        ensures
            r.view() == self.view(),
    {
        match self {
            JsonNumber::PosInt(n) => JsonNumber::PosInt(*n),
            JsonNumber::NegInt(n) => JsonNumber::NegInt(*n),
            JsonNumber::Float(s) => JsonNumber::Float(s.clone()),
        }
    }
}

impl JsonValue {
    /// A copy of this value.
    #[verifier::loop_isolation(false)]
    pub fn duplicate(&self) -> (r: JsonValue)
        ensures
            r@ == self@,
        decreases self,
    {
        match self {
            JsonValue::Null => JsonValue::Null,
            JsonValue::Bool(b) => JsonValue::Bool(*b),
            JsonValue::Number(n) => JsonValue::Number(n.duplicate()),
            JsonValue::String(s) => JsonValue::String(s.clone()),
            JsonValue::Array(items) => {
                let mut out: Vec<JsonValue> = Vec::new();
                let mut i: usize = 0;
                while i < items.len()
                    invariant
                        i <= items.len(),
                        out@.len() == i,
                        forall|k: int| 0 <= k < i ==> (#[trigger] out@[k])@ == items@[k]@,
                    decreases items.len() - i,
                {
                    assert(decreases_to!(self => items@[i as int]));
                    let d = items[i].duplicate();
                    out.push(d);
                    i = i + 1;
                }
                let r = JsonValue::Array(out);
                assert(r@->Array_0 =~= self@->Array_0);
                r
            },
            JsonValue::Object(entries) => {
                let mut out: Vec<(String, JsonValue)> = Vec::new();
                let mut i: usize = 0;
                while i < entries.len()
                    invariant
                        i <= entries.len(),
                        out@.len() == i,
                        forall|k: int|
                            0 <= k < i ==> (#[trigger] out@[k]).0@ == entries@[k].0@ && out@[k].1@
                                == entries@[k].1@,
                    decreases entries.len() - i,
                {
                    assert(decreases_to!(self => entries@[i as int].1));
                    let d = entries[i].1.duplicate();
                    out.push((entries[i].0.clone(), d));
                    i = i + 1;
                }
                let r = JsonValue::Object(out);
                assert(r@->Object_0 =~= self@->Object_0);
                r
            },
        }
    }

    /// `Value::as_u64`.
    pub fn as_u64(&self) -> (r: Option<u64>)
        ensures
            r == json_u64(self@),
    {
        match self {
            JsonValue::Number(JsonNumber::PosInt(n)) => Some(*n),
            _ => None,
        }
    }

    /// `Value::as_i64`.
    pub fn as_i64(&self) -> (r: Option<i64>)
        ensures
            r == json_i64(self@),
    {
        match self {
            JsonValue::Number(JsonNumber::PosInt(n)) => {
                if *n <= 0x7fff_ffff_ffff_ffffu64 {
                    Some(*n as i64)
                } else {
                    None
                }
            },
            JsonValue::Number(JsonNumber::NegInt(n)) => Some(*n),
            _ => None,
        }
    }

    /// `Value::as_str`, as an owned string.
    pub fn as_string(&self) -> (r: Option<String>)
        ensures
            r matches Some(s) ==> json_str(self@) == Some(s@),
            r is None ==> json_str(self@) is None,
    {
        match self {
            JsonValue::String(s) => Some(s.clone()),
            _ => None,
        }
    }

    /// `value.as_array()?.get(i)`.
    pub fn index(&self, i: usize) -> (r: Option<&JsonValue>)
        ensures
            r matches Some(v) ==> json_index(self@, i as int) == Some(v@),
            r is None ==> json_index(self@, i as int) is None,
    {
        match self {
            JsonValue::Array(items) => {
                if i < items.len() {
                    Some(&items[i])
                } else {
                    None
                }
            },
            _ => None,
        }
    }

    /// `value.get(key)` on an object.
    #[verifier::loop_isolation(false)]
    pub fn field(&self, key: &str) -> (r: Option<&JsonValue>)
        ensures
            r matches Some(v) ==> json_field(self@, key@) == Some(v@),
            r is None ==> json_field(self@, key@) is None,
    {
        match self {
            JsonValue::Object(entries) => {
                let key_chars = chars_of(key);
                let ghost es = self@->Object_0;
                assert(es.subrange(0, es.len() as int) =~= es);
                let mut i: usize = 0;
                while i < entries.len()
                    invariant
                        i <= entries.len(),
                        entries_get(es, key@) == entries_get(es.subrange(i as int, es.len() as int), key@),
                    decreases entries.len() - i,
                {
                    let ghost rest = es.subrange(i as int, es.len() as int);
                    assert(rest[0] == es[i as int]);
                    assert(rest.drop_first() =~= es.subrange(i + 1, es.len() as int));
                    assert(es[i as int] == (entries@[i as int].0@, entries@[i as int].1@));
                    let name = chars_of_string(&entries[i].0);
                    if chars_eq(&name, &key_chars) {
                        return Some(&entries[i].1);
                    }
                    i = i + 1;
                }
                None
            },
            _ => None,
        }
    }
}


/// The characters of each key and value.
pub open spec fn string_pairs(v: Seq<(String, String)>) -> Seq<(Seq<char>, Seq<char>)> {
    Seq::new(v.len(), |i: int| (v[i].0@, v[i].1@))
}

/// The bytes `serde_json::to_vec` writes for the JSON object that maps each
/// key of `entries` to its string value.
pub uninterp spec fn json_object_of_strings(entries: Seq<(Seq<char>, Seq<char>)>) -> Seq<u8>;

/// `serde_json::to_vec` of the object mapping each key to its string value.
/// Serialising string keys and string values cannot fail.
#[verifier::external_body]
pub(crate) fn json_object_bytes(entries: &Vec<(String, String)>) -> (r: Vec<u8>)
    ensures
        r@ == json_object_of_strings(string_pairs(entries@)),
{
    let map: serde_json::Map<String, serde_json::Value> = entries
        .iter()
        .map(|(k, v)| (k.clone(), serde_json::Value::String(v.clone())))
        .collect();
    serde_json::to_vec(&map).unwrap()
}

} // verus!
