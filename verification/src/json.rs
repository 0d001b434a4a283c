//! JSON values, read and written by `serde_json`.
//!
//! A JSON value is opaque here. What `serde_json` returns for a value is
//! given a name, and the contracts of this crate are stated over those
//! names; the few facts that relate the names are the ones that
//! `serde_json` shows for its objects and strings.

use vstd::prelude::*;
use vstd::string::StringExecFns;
use serde_json::Value;

verus! {

#[verifier::external_type_specification]
#[verifier::external_body]
pub struct ExJsonValue(Value);

#[verifier::external_type_specification]
#[verifier::external_body]
pub struct ExJsonError(serde_json::Error);

/// The value that `serde_json` reads from a text, or `None` where the text is
/// no JSON text.
pub uninterp spec fn json_parsed(text: Seq<char>) -> Option<Value>;

/// The text that `serde_json` writes for a value.
pub uninterp spec fn json_text(value: Value) -> Seq<char>;

/// The value is an object.
pub uninterp spec fn json_is_object(value: Value) -> bool;

/// The member of an object under a key; `None` for a value that is no object
/// and for an object without the key.
pub uninterp spec fn json_member(value: Value, key: Seq<char>) -> Option<Value>;

/// The string that a value holds; `None` for a value that is no string.
pub uninterp spec fn json_string(value: Value) -> Option<Seq<char>>;

/// The integer that a value holds; `None` for a value that is no number, and
/// for a number that is no integer or does not fit in 64 bits with a sign.
pub uninterp spec fn json_integer(value: Value) -> Option<i64>;

/// The JSON string that holds a text.
pub uninterp spec fn json_of_string(text: Seq<char>) -> Value;

/// An object with the member under `key` set to `member`; a value that is no
/// object stays as it is.
pub uninterp spec fn json_with_member(value: Value, key: Seq<char>, member: Value) -> Value;

/// The object without members.
pub open spec fn json_empty_object() -> Value {
    json_parsed("{}"@).unwrap()
}

/// The value `null`.
pub open spec fn json_null() -> Value {
    json_parsed("null"@).unwrap()
}

/// The JSON text of a string: the string in double quotes, with the
/// characters escaped that JSON asks to escape.
pub open spec fn json_string_text(text: Seq<char>) -> Seq<char> {
    json_text(json_of_string(text))
}

/// `serde_json::from_str` for a `Value`. Trusted: the result is the value
/// that the text denotes, and `None` where it denotes none.
#[verifier::external_body]
pub(crate) fn parse(text: &str) -> (parsed: Option<Value>)
    ensures
        parsed == json_parsed(text@),
{
    serde_json::from_str::<Value>(text).ok()
}

/// `serde_json::to_string` of a `Value`. Trusted: the result is `Ok` and
/// holds the text of the value. Writing a `Value` hands only nulls, booleans,
/// numbers, strings, sequences and maps with string keys to the serializer,
/// which fails only where its writer does; the writer is a `Vec<u8>`, which
/// takes every write.
#[verifier::external_body]
pub(crate) fn value_text(value: &Value) -> (written: Result<String, serde_json::Error>)
    ensures
        written is Ok,
        written matches Ok(text) ==> text@ == json_text(*value),
{
    serde_json::to_string(value)
}

/// `Value::get` with a string index, and a copy of what it finds. Trusted:
/// the result is the member under `key`; only an object has members.
#[verifier::external_body]
pub(crate) fn member(value: &Value, key: &str) -> (found: Option<Value>)
    ensures
        found == json_member(*value, key@),
        found is Some ==> json_is_object(*value),
{
    value.get(key).cloned()
}

/// `Value::as_str`, and a copy of what it finds. Trusted: the result is the
/// string that the value holds.
#[verifier::external_body]
pub(crate) fn as_text(value: &Value) -> (text: Option<String>)
    ensures
        match text {
            Some(text) => json_string(*value) == Some(text@),
            None => json_string(*value) is None,
        },
{
    value.as_str().map(|text| text.to_owned())
}

/// `Value::as_i64`. Trusted: the result is the integer that the value holds.
#[verifier::external_body]
pub(crate) fn as_integer(value: &Value) -> (number: Option<i64>)
    ensures
        number == json_integer(*value),
{
    value.as_i64()
}

/// `Value::String`. Trusted: the result is the JSON string that holds the
/// text, and `Value::as_str` gives the text back.
#[verifier::external_body]
pub(crate) fn string_value(text: String) -> (value: Value)
    ensures
        value == json_of_string(text@),
        json_string(value) == Some(text@),
{
    Value::String(text)
}

/// `Value::Object` of `serde_json::Map::new`. Trusted: the result is the
/// value that `serde_json` reads from the text `{}`; it is an object and has
/// no members.
#[verifier::external_body]
pub(crate) fn empty_object() -> (value: Value)
    ensures
        json_parsed("{}"@) == Some(value),
        json_is_object(value),
        forall|key: Seq<char>| #[trigger] json_member(value, key) is None,
{
    Value::Object(serde_json::Map::new())
}

/// `Value::Null`. Trusted: the result is the value that `serde_json` reads
/// from the text `null`.
#[verifier::external_body]
pub(crate) fn null_value() -> (value: Value)
    ensures
        json_parsed("null"@) == Some(value),
{
    Value::Null
}

/// `serde_json::Map::insert` on the map of an object; a value that is no
/// object is left alone. Trusted: the value becomes the one that is named
/// for it, and is an object exactly where it was one; no member under
/// another key changes; and on an object the member under `key` is `member`
/// afterwards.
#[verifier::external_body]
pub(crate) fn set_member(value: &mut Value, key: String, member: Value)
    ensures
        *final(value) == json_with_member(*old(value), key@, member),
        json_is_object(*final(value)) == json_is_object(*old(value)),
        forall|other: Seq<char>|
            other != key@ ==> #[trigger] json_member(*final(value), other) == json_member(
                *old(value),
                other,
            ),
        json_is_object(*old(value)) ==> json_member(*final(value), key@) == Some(member),
{
    if let Value::Object(object) = value {
        object.insert(key, member);
    }
}

/// What `serde_json::Error` displays. Trusted; nothing is claimed of the text.
#[verifier::external_body]
pub(crate) fn error_text(error: &serde_json::Error) -> (text: String) {
    error.to_string()
}

/// Writes the JSON text of a string with `serde_json`.
pub fn string_text(text: &str) -> (written: Result<String, serde_json::Error>)
    ensures
        written matches Ok(json) && json@ == json_string_text(text@),
{
    let value = string_value(String::from_str(text));
    value_text(&value)
}

} // verus!
