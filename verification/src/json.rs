//! JSON documents as `serde_json` holds them, and the few operations on them
//! that the notification payloads and the identity response need.
//!
//! Nothing in this file is proved: every function here makes one call into
//! `serde_json`, and its contract states what that call is documented to do.

use serde_json::Value;
use vstd::prelude::*;

verus! {

/// The mathematical content of a JSON document.
pub enum Json {
    Null,
    Bool(bool),
    /// A number that is held as an integer.
    Int(int),
    /// Any other number; its value is not modelled.
    Real,
    Str(Seq<char>),
    Array(Seq<Json>),
    Object(Map<Seq<char>, Json>),
}

/// `serde_json::Value`, carried through verified code as an opaque value.
#[verifier::external_type_specification]
#[verifier::external_body]
pub struct ExValue(serde_json::Value);

/// `serde_json::Error`, which verified code only tells from success.
#[verifier::external_type_specification]
#[verifier::external_body]
pub struct ExError(serde_json::Error);

/// The document that a `serde_json::Value` holds.
pub uninterp spec fn json_view(value: serde_json::Value) -> Json;

/// What `serde_json::from_str::<Value>` makes of a text: the document it
/// yields, or `None` where it reports an error.
pub uninterp spec fn parsed_json(text: Seq<char>) -> Option<Json>;

/// The members of `doc` if it is an object; no members otherwise.
pub open spec fn json_fields(doc: Json) -> Map<Seq<char>, Json> {
    match doc {
        Json::Object(fields) => fields,
        _ => Map::empty(),
    }
}

/// The member of `doc` under `key`, if `doc` is an object that has one.
pub open spec fn json_member(doc: Json, key: Seq<char>) -> Option<Json> {
    if json_fields(doc).contains_key(key) {
        Some(json_fields(doc)[key])
    } else {
        None
    }
}

/// `Value::Null`: the JSON `null`.
#[verifier::external_body]
pub(crate) fn json_null() -> (value: Value)
    ensures
        json_view(value) == Json::Null,
{
    Value::Null
}

/// `Value::from(&str)`: the JSON string with the characters of `text`.
#[verifier::external_body]
pub(crate) fn json_string(text: &str) -> (value: Value)
    ensures
        json_view(value) == Json::Str(text@),
{
    Value::from(text)
}

/// `Value::from(i32)`: the JSON number equal to `number`.
#[verifier::external_body]
pub(crate) fn json_int(number: i32) -> (value: Value)
    ensures
        json_view(value) == Json::Int(number as int),
{
    Value::from(number)
}

/// `value[key] = item` (`IndexMut<&str>` of `Value`): stores `item` under
/// `key`, replacing what stood there. A `null` target counts as an object
/// without members. On any other target the call panics, hence the `requires`.
#[verifier::external_body]
pub(crate) fn json_set(object: &mut Value, key: &str, item: Value)
    requires
        json_view(*old(object)) is Object || json_view(*old(object)) is Null,
    ensures
        json_view(*final(object)) == Json::Object(
            json_fields(json_view(*old(object))).insert(key@, json_view(item)),
        ),
{
    object[key] = item;
}

/// `serde_json::from_str::<Value>`: parses `text` as one JSON document.
#[verifier::external_body]
pub(crate) fn parse_json(text: &str) -> (parsed: Result<Value, serde_json::Error>)
    ensures
        match parsed {
            Ok(value) => parsed_json(text@) == Some(json_view(value)),
            Err(_) => parsed_json(text@) is None,
        },
{
    serde_json::from_str::<Value>(text)
}

/// `Value::get(&str)`: the member under `key` when `value` is an object that
/// has one, `None` for a missing key and for every value that is no object.
#[verifier::external_body]
pub(crate) fn json_get<'a>(value: &'a Value, key: &str) -> (member: Option<&'a Value>)
    ensures
        match member {
            Some(found) => json_member(json_view(*value), key@) == Some(json_view(*found)),
            None => json_member(json_view(*value), key@) is None,
        },
{
    value.get(key)
}

/// `Value::as_str`: the characters of a JSON string, `None` for anything else.
#[verifier::external_body]
pub(crate) fn json_as_str<'a>(value: &'a Value) -> (text: Option<&'a str>)
    ensures
        match text {
            Some(chars) => json_view(*value) == Json::Str(chars@),
            None => !(json_view(*value) is Str),
        },
{
    value.as_str()
}

/// `Value::as_i64`: the number when it is an integer that fits `i64`, `None`
/// for larger integers, other numbers and everything that is no number.
#[verifier::external_body]
pub(crate) fn json_as_i64(value: &Value) -> (number: Option<i64>)
    ensures
        match number {
            Some(n) => json_view(*value) == Json::Int(n as int),
            None => !(json_view(*value) matches Json::Int(n) && i64::MIN <= n <= i64::MAX),
        },
{
    value.as_i64()
}

} // verus!
