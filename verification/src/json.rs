//! Structural JSON model. The wire payload is parsed by `serde_json` behind
//! a trusted boundary; everything that reads or builds a document works on
//! the library's own `JsonValue` and is verified.

use vstd::prelude::*;
use crate::text::str_eq;

verus! {

/// One JSON document node. `Int` holds every number that fits an `i64`;
/// any other number (floating point, large unsigned) parses to
/// `Unsupported`, which no handler reads.
#[derive(Debug)]
pub enum JsonValue {
    Null,
    Bool(bool),
    Int(i64),
    Str(String),
    Arr(Vec<JsonValue>),
    Obj(Vec<(String, JsonValue)>),
    Unsupported,
}

/// The value under the first entry of `entries` whose key reads `key`.
pub open spec fn obj_lookup(entries: Seq<(String, JsonValue)>, key: Seq<char>) -> Option<
    JsonValue,
>
    decreases entries.len(),
{
    if entries.len() == 0 {
        None
    } else if entries[0].0@ == key {
        Some(entries[0].1)
    } else {
        obj_lookup(entries.drop_first(), key)
    }
}

/// The value of field `key` when `v` is an object that has it.
pub open spec fn get_field(v: JsonValue, key: Seq<char>) -> Option<JsonValue> {
    match v {
        JsonValue::Obj(entries) => obj_lookup(entries@, key),
        _ => None,
    }
}

/// The integer under field `key`, when there is one.
pub open spec fn int_field(v: JsonValue, key: Seq<char>) -> Option<i64> {
    match get_field(v, key) {
        Some(JsonValue::Int(i)) => Some(i),
        _ => None,
    }
}

/// The characters of the string under field `key`, when there is one.
pub open spec fn str_field(v: JsonValue, key: Seq<char>) -> Option<Seq<char>> {
    match get_field(v, key) {
        Some(JsonValue::Str(s)) => Some(s@),
        _ => None,
    }
}

/// A key that no entry carries looks up to nothing.
pub proof fn lemma_obj_lookup_none(entries: Seq<(String, JsonValue)>, key: Seq<char>)
    requires
        forall|j: int| 0 <= j < entries.len() ==> (#[trigger] entries[j].0)@ != key,
    ensures
        obj_lookup(entries, key) is None,
    decreases entries.len(),
{
    if entries.len() > 0 {
        lemma_obj_lookup_none(entries.drop_first(), key);
    }
}

/// A key first carried by entry `i` looks up to that entry's value.
pub proof fn lemma_obj_lookup_found(entries: Seq<(String, JsonValue)>, key: Seq<char>, i: int)
    requires
        0 <= i < entries.len(),
        entries[i].0@ == key,
        forall|j: int| 0 <= j < i ==> (#[trigger] entries[j].0)@ != key,
    ensures
        obj_lookup(entries, key) == Some(entries[i].1),
    decreases i,
{
    if i > 0 {
        lemma_obj_lookup_found(entries.drop_first(), key, i - 1);
    }
}

/// Looks field `key` up in `v`, matching the first entry with that key when
/// `v` is an object.
pub fn obj_get<'a>(v: &'a JsonValue, key: &str) -> (r: Option<&'a JsonValue>)
    ensures
        match r {
            Some(x) => get_field(*v, key@) == Some(*x),
            None => get_field(*v, key@) is None,
        },
{
    match v {
        JsonValue::Obj(entries) => {
            let n: usize = entries.len();
            let mut i: usize = 0;
            while i < n
                invariant
                    *v is Obj,
                    v->Obj_0 == *entries,
                    n == entries@.len(),
                    i <= n,
                    forall|j: int| 0 <= j < i ==> (#[trigger] entries@[j].0)@ != key@,
                decreases n - i,
            {
                if str_eq(entries[i].0.as_str(), key) {
                    proof {
                        lemma_obj_lookup_found(entries@, key@, i as int);
                    }
                    return Some(&entries[i].1);
                }
                i = i + 1;
            }
            proof {
                lemma_obj_lookup_none(entries@, key@);
            }
            None
        },
        _ => None,
    }
}


/// `serde_json`'s document type, carried opaquely through the trusted
/// conversions below.
#[verifier::external_type_specification]
#[verifier::external_body]
pub struct ExSerdeValue(serde_json::Value);

/// Recursive arm of `parse_json`: maps each `serde_json::Value` variant
/// onto the matching `JsonValue` variant, field for field. Relies on
/// `serde_json::Number::as_i64`: a number outside `i64` becomes
/// `Unsupported`.
#[verifier::external_body]
fn from_serde(v: serde_json::Value) -> JsonValue {
    match v {
        serde_json::Value::Null => JsonValue::Null,
        serde_json::Value::Bool(b) => JsonValue::Bool(b),
        serde_json::Value::Number(n) => match n.as_i64() {
            Some(i) => JsonValue::Int(i),
            None => JsonValue::Unsupported,
        },
        serde_json::Value::String(s) => JsonValue::Str(s),
        serde_json::Value::Array(a) => JsonValue::Arr(a.into_iter().map(from_serde).collect()),
        serde_json::Value::Object(m) => JsonValue::Obj(
            m.into_iter().map(|(k, x)| (k, from_serde(x))).collect(),
        ),
    }
}

/// The parse of a byte string as one JSON document, as `serde_json` and
/// `from_serde` decide it: `None` exactly for bytes that are not a
/// well-formed document. A pure function of the bytes alone; it carries no
/// definition.
pub uninterp spec fn json_of(bytes: Seq<u8>) -> Option<JsonValue>;

/// Parses one JSON document. Relies on `serde_json::from_slice::<Value>`:
/// it returns `Ok` exactly for a well-formed JSON document, reads nothing
/// but `bytes`, and its result is a pure function of them, named `json_of`
/// above; the tree is converted by `from_serde`, variant for variant.
#[verifier::external_body]
pub fn parse_json(bytes: &[u8]) -> (r: Option<JsonValue>)
    ensures
        r == json_of(bytes@),
{
    match serde_json::from_slice::<serde_json::Value>(bytes) {
        Ok(v) => Some(from_serde(v)),
        Err(_) => None,
    }
}

/// Recursive arm of `json_to_bytes`: maps each `JsonValue` variant onto
/// the matching `serde_json::Value` variant, field for field
/// (`Unsupported` renders as null).
#[verifier::external_body]
fn to_serde(v: &JsonValue) -> serde_json::Value {
    match v {
        JsonValue::Null => serde_json::Value::Null,
        JsonValue::Bool(b) => serde_json::Value::Bool(*b),
        JsonValue::Int(i) => serde_json::Value::Number(serde_json::Number::from(*i)),
        JsonValue::Str(s) => serde_json::Value::String(s.clone()),
        JsonValue::Arr(a) => serde_json::Value::Array(a.iter().map(to_serde).collect()),
        JsonValue::Obj(o) => serde_json::Value::Object(
            o.iter().map(|(k, x)| (k.clone(), to_serde(x))).collect(),
        ),
        JsonValue::Unsupported => serde_json::Value::Null,
    }
}

/// Encodes the document as bytes. Relies on `serde_json::to_vec`, which
/// cannot fail on a `Value` (every map key is a string).
#[verifier::external_body]
pub fn json_to_bytes(v: &JsonValue) -> Vec<u8> {
    serde_json::to_vec(&to_serde(v)).unwrap_or_default()
}

} // verus!
