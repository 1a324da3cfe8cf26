//! JSON payloads as `serde_json` holds them, a mathematical model of their
//! contents, and the optional lookups that event formatting relies on.

use serde_json::Value;
use vstd::prelude::*;

verus! {

/// `serde_json::Value`, opaque to the verifier. What a value holds is known
/// only through [`json_of`].
#[verifier::external_type_specification]
#[verifier::external_body]
pub struct ExValue(serde_json::Value);

/// The contents of a JSON value.
pub enum Json {
    Null,
    Bool(bool),
    /// A number. `unsigned` is its value where it is a non-negative integer
    /// that fits in 64 bits, and `None` for every other number.
    Number { unsigned: Option<u64> },
    Text(Seq<char>),
    Array(Seq<Json>),
    Object(Map<Seq<char>, Json>),
}

/// The contents of the given `serde_json::Value`.
pub uninterp spec fn json_of(value: Value) -> Json;

/// The contents of each value of a sequence, in order.
pub open spec fn each_json_of(values: Seq<Value>) -> Seq<Json> {
    Seq::new(values.len(), |i: int| json_of(values[i]))
}

/// The characters of an optional string slice.
pub open spec fn text_view(text: Option<&str>) -> Option<Seq<char>> {
    match text {
        Some(t) => Some(t@),
        None => None,
    }
}

/// An optional length as a natural number.
pub open spec fn count_view(count: Option<usize>) -> Option<nat> {
    match count {
        Some(n) => Some(n as nat),
        None => None,
    }
}

impl Json {
    /// The member stored under `key`, if this is an object that has one.
    pub open spec fn member(self, key: Seq<char>) -> Option<Json> {
        match self {
            Json::Object(members) => if members.contains_key(key) {
                Some(members[key])
            } else {
                None
            },
            _ => None,
        }
    }

    /// The characters of a JSON string; `None` for any other value.
    pub open spec fn text(self) -> Option<Seq<char>> {
        match self {
            Json::Text(t) => Some(t),
            _ => None,
        }
    }

    /// The value of a number that is a non-negative 64-bit integer; `None`
    /// for any other value.
    pub open spec fn unsigned(self) -> Option<u64> {
        match self {
            Json::Number { unsigned } => unsigned,
            _ => None,
        }
    }

    /// The elements of a JSON array; `None` for any other value.
    pub open spec fn items(self) -> Option<Seq<Json>> {
        match self {
            Json::Array(items) => Some(items),
            _ => None,
        }
    }

    /// The string stored under `key`: `None` where this is no object, has no
    /// such member, or the member is no string.
    pub open spec fn text_at(self, key: Seq<char>) -> Option<Seq<char>> {
        match self.member(key) {
            Some(m) => m.text(),
            None => None,
        }
    }

    /// The unsigned number stored under `key`, with the same fallbacks as
    /// [`Json::text_at`].
    pub open spec fn number_at(self, key: Seq<char>) -> Option<u64> {
        match self.member(key) {
            Some(m) => m.unsigned(),
            None => None,
        }
    }

    /// The length of the array stored under `key`, with the same fallbacks
    /// as [`Json::text_at`].
    pub open spec fn count_at(self, key: Seq<char>) -> Option<nat> {
        match self.member(key) {
            Some(m) => match m.items() {
                Some(items) => Some(items.len()),
                None => None,
            },
            None => None,
        }
    }

    /// The string stored under `inner` inside the member `outer`.
    pub open spec fn text_in(self, outer: Seq<char>, inner: Seq<char>) -> Option<Seq<char>> {
        match self.member(outer) {
            Some(m) => m.text_at(inner),
            None => None,
        }
    }

    /// The unsigned number stored under `inner` inside the member `outer`.
    pub open spec fn number_in(self, outer: Seq<char>, inner: Seq<char>) -> Option<u64> {
        match self.member(outer) {
            Some(m) => m.number_at(inner),
            None => None,
        }
    }
}

/// `serde_json::Value::get` with a string key: the member that an object
/// stores under `key`; `None` where the value is no object or the object has
/// no such member.
#[verifier::external_body]
fn value_get<'a>(value: &'a Value, key: &str) -> (found: Option<&'a Value>)
    ensures
        match found {
            Some(m) => json_of(*value).member(key@) == Some(json_of(*m)),
            None => json_of(*value).member(key@) is None,
        },
{
    value.get(key)
}

/// `serde_json::Value::as_str`: the text of a JSON string, `None` for any
/// other value.
#[verifier::external_body]
fn value_as_str(value: &Value) -> (text: Option<&str>)
    ensures
        text_view(text) == json_of(*value).text(),
{
    value.as_str()
}

/// `serde_json::Value::as_u64`: the value of a number that is stored as a
/// non-negative 64-bit integer, `None` for any other number and any other
/// value.
#[verifier::external_body]
fn value_as_u64(value: &Value) -> (number: Option<u64>)
    ensures
        number == json_of(*value).unsigned(),
{
    value.as_u64()
}

/// `serde_json::Value::as_array`: the vector that a JSON array holds, `None`
/// for any other value.
#[verifier::external_body]
fn value_as_array(value: &Value) -> (items: Option<&Vec<Value>>)
    ensures
        match items {
            Some(v) => json_of(*value).items() == Some(each_json_of(v@)),
            None => json_of(*value).items() is None,
        },
{
    value.as_array()
}

/// Looks up the string stored under `key`.
pub fn text_at<'a>(payload: &'a Value, key: &str) -> (text: Option<&'a str>)
    ensures
        text_view(text) == json_of(*payload).text_at(key@),
{
    match value_get(payload, key) {
        Some(m) => value_as_str(m),
        None => None,
    }
}

/// Looks up the unsigned number stored under `key`.
pub fn number_at(payload: &Value, key: &str) -> (number: Option<u64>)
    ensures
        number == json_of(*payload).number_at(key@),
{
    match value_get(payload, key) {
        Some(m) => value_as_u64(m),
        None => None,
    }
}

/// Looks up the array stored under `key` and counts its elements.
pub fn count_at(payload: &Value, key: &str) -> (count: Option<usize>)
    ensures
        count_view(count) == json_of(*payload).count_at(key@),
{
    match value_get(payload, key) {
        Some(m) => match value_as_array(m) {
            Some(items) => Some(items.len()),
            None => None,
        },
        None => None,
    }
}

/// Looks up the string stored under `inner` inside the member `outer`.
pub fn text_in<'a>(payload: &'a Value, outer: &str, inner: &str) -> (text: Option<&'a str>)
    ensures
        text_view(text) == json_of(*payload).text_in(outer@, inner@),
{
    match value_get(payload, outer) {
        Some(m) => text_at(m, inner),
        None => None,
    }
}

/// Looks up the unsigned number stored under `inner` inside the member
/// `outer`.
pub fn number_in(payload: &Value, outer: &str, inner: &str) -> (number: Option<u64>)
    ensures
        number == json_of(*payload).number_in(outer@, inner@),
{
    match value_get(payload, outer) {
        Some(m) => number_at(m, inner),
        None => None,
    }
}

} // verus!
