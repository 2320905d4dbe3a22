//! A JSON document as plain values, decoded by serde_json at the boundary,
//! and verified lookups into it.
use crate::text::owned;
use vstd::prelude::*;

verus! {

#[verifier::external_type_specification]
#[verifier::external_body]
pub struct ExJsonValue(serde_json::Value);

/// A JSON number: its value when it is a non-negative integer that fits in a
/// `u64`, and its decimal text.
#[derive(Debug)]
pub struct JsonNumber {
    pub unsigned: Option<u64>,
    pub text: String,
}

/// A decoded JSON value. An object keeps its members in the order the
/// decoder hands them out.
#[derive(Debug)]
pub enum Json {
    Null,
    Bool(bool),
    Number(JsonNumber),
    Text(String),
    Array(Vec<Json>),
    Object(Vec<(String, Json)>),
}

/// The value that serde_json decodes from a text, or `None` where the text
/// is not one JSON document.
pub uninterp spec fn decoded_json(text: Seq<char>) -> Option<Json>;

/// The value that serde_json decodes from bytes, or `None` where they are
/// not one JSON document in UTF-8.
pub uninterp spec fn decoded_json_bytes(bytes: Seq<u8>) -> Option<Json>;

/// Turns a serde_json value into the library's own, one node for one node.
#[verifier::external_body]
fn from_value(v: &serde_json::Value) -> Json {
    match v {
        serde_json::Value::Null => Json::Null,
        serde_json::Value::Bool(b) => Json::Bool(*b),
        serde_json::Value::Number(n) => Json::Number(
            JsonNumber { unsigned: n.as_u64(), text: n.to_string() },
        ),
        serde_json::Value::String(s) => Json::Text(s.clone()),
        serde_json::Value::Array(items) => Json::Array(items.iter().map(from_value).collect()),
        serde_json::Value::Object(members) => Json::Object(
            members.iter().map(|(k, m)| (k.clone(), from_value(m))).collect(),
        ),
    }
}

/// Relies on `serde_json::from_str::<Value>`: the decoded value depends on
/// the text alone.
#[verifier::external_body]
pub fn decode_json(text: &str) -> (r: Option<Json>)
    ensures
        r == decoded_json(text@),
{
    serde_json::from_str::<serde_json::Value>(text).ok().map(|v| from_value(&v))
}

/// Relies on `serde_json::from_slice::<Value>`: the decoded value depends on
/// the bytes alone.
#[verifier::external_body]
pub fn decode_json_bytes(bytes: &[u8]) -> (r: Option<Json>)
    ensures
        r == decoded_json_bytes(bytes@),
{
    serde_json::from_slice::<serde_json::Value>(bytes).ok().map(|v| from_value(&v))
}

/// The first member of `fields`, from index `i` on, whose key is `key`.
pub open spec fn lookup_from(fields: Seq<(String, Json)>, key: Seq<char>, i: int) -> Option<Json>
    decreases fields.len() - i,
{
    if i < 0 || i >= fields.len() {
        None
    } else if fields[i].0@ == key {
        Some(fields[i].1)
    } else {
        lookup_from(fields, key, i + 1)
    }
}

/// The value behind an optional reference.
pub open spec fn deref_opt(o: Option<&Json>) -> Option<Json> {
    match o {
        Some(v) => Some(*v),
        None => None,
    }
}

/// The member `key` of an object; `None` for a value that is no object.
pub open spec fn member(j: Json, key: Seq<char>) -> Option<Json> {
    match j {
        Json::Object(fields) => lookup_from(fields@, key, 0),
        _ => None,
    }
}

/// The member `key` of an optional value.
pub open spec fn member_of(j: Option<Json>, key: Seq<char>) -> Option<Json> {
    match j {
        Some(v) => member(v, key),
        None => None,
    }
}

/// The characters of a JSON string.
pub open spec fn text_of(j: Option<Json>) -> Option<Seq<char>> {
    match j {
        Some(Json::Text(s)) => Some(s@),
        _ => None,
    }
}

/// A non-negative integer that fits in a `u64`.
pub open spec fn unsigned_of(j: Option<Json>) -> Option<u64> {
    match j {
        Some(Json::Number(n)) => n.unsigned,
        _ => None,
    }
}

/// The member `key` of `j`, if `j` is an object that has one.
pub fn get<'a>(j: &'a Json, key: &str) -> (r: Option<&'a Json>)
    ensures
        deref_opt(r) == member(*j, key@),
{
    match j {
        Json::Object(fields) => {
            let n = fields.len();
            let mut i: usize = 0;
            while i < n
                invariant
                    0 <= i <= n,
                    n == fields@.len(),
                    member(*j, key@) == lookup_from(fields@, key@, 0),
                    lookup_from(fields@, key@, 0) == lookup_from(fields@, key@, i as int),
                decreases n - i,
            {
                let entry = &fields[i];
                if crate::text::str_eq(entry.0.as_str(), key) {
                    assert(*entry == fields@[i as int]);
                    assert(lookup_from(fields@, key@, i as int) == Some(fields@[i as int].1));
                    return Some(&entry.1);
                }
                i = i + 1;
            }
            None
        },
        _ => None,
    }
}

/// The member `key` of an optional value.
pub fn get_in<'a>(j: Option<&'a Json>, key: &str) -> (r: Option<&'a Json>)
    ensures
        deref_opt(r) == member_of(deref_opt(j), key@),
{
    match j {
        Some(v) => get(v, key),
        None => None,
    }
}

/// The characters of a JSON string, copied out.
pub fn as_text(j: Option<&Json>) -> (r: Option<String>)
    ensures
        r matches Some(s) ==> text_of(deref_opt(j)) == Some(s@),
        r is None ==> text_of(deref_opt(j)) is None,
{
    match j {
        Some(Json::Text(s)) => Some(owned(s.as_str())),
        _ => None,
    }
}

/// A non-negative integer value.
pub fn as_unsigned(j: Option<&Json>) -> (r: Option<u64>)
    ensures
        r == unsigned_of(deref_opt(j)),
{
    match j {
        Some(Json::Number(n)) => n.unsigned,
        _ => None,
    }
}

} // verus!
