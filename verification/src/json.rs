//! The JSON library that this crate relies on, and what is taken on trust
//! about it.
//!
//! A parsed document is an opaque value of that library. `JsonModel` says,
//! in mathematical terms, what such a value holds; the readers below are
//! trusted to read it as the model says.

use vstd::prelude::*;

verus! {

/// `serde_json::Value`: a parsed JSON document. The verifier sees nothing
/// inside one; `json_content` stands for what it holds.
#[verifier::external_type_specification]
#[verifier::external_body]
pub struct ExValue(serde_json::Value);

/// What a JSON document holds.
pub enum JsonModel {
    Null,
    Bool(bool),
    /// A number that is an integer of 64 bits with a sign.
    Integer(i64),
    /// Any other number.
    Number,
    Text(Seq<char>),
    Array(Seq<JsonModel>),
    /// The members by their keys.
    Object(Map<Seq<char>, JsonModel>),
}

/// The member of an object under a key; `None` for a missing key and for
/// what is no object.
pub open spec fn member_of(value: JsonModel, key: Seq<char>) -> Option<JsonModel> {
    match value {
        JsonModel::Object(members) => if members.contains_key(key) {
            Some(members[key])
        } else {
            None
        },
        _ => None,
    }
}

/// What a `serde_json::Value` holds.
pub uninterp spec fn json_content(value: serde_json::Value) -> JsonModel;

/// What the document that `serde_json::from_slice` reads from `body` holds,
/// or `None` where it reports an error.
pub uninterp spec fn json_parsed(body: Seq<u8>) -> Option<JsonModel>;

/// The JSON string literal, quotes and escapes included, that
/// `serde_json::to_string` writes for `text`, or `None` where it reports an
/// error.
pub uninterp spec fn json_quoted(text: Seq<char>) -> Option<Seq<char>>;

/// Calls `serde_json::from_slice` for a `serde_json::Value`. Trusted: what
/// the result holds depends on the bytes alone; a parse error becomes `None`.
#[verifier::external_body]
pub(crate) fn parse(body: &[u8]) -> (r: Option<serde_json::Value>)
    ensures
        r matches Some(v) ==> json_parsed(body@) == Some(json_content(v)),
        r is None ==> json_parsed(body@) is None,
{
    serde_json::from_slice::<serde_json::Value>(body).ok()
}

/// Calls `serde_json::Value::is_object`. Trusted: it holds of objects and of
/// nothing else.
#[verifier::external_body]
pub(crate) fn is_object(value: &serde_json::Value) -> (r: bool)
    ensures
        r == (json_content(*value) is Object),
{
    value.is_object()
}

/// Calls `serde_json::Value::get` with a string key. Trusted: it gives the
/// member of an object under that key, and `None` for a missing key and for
/// what is no object.
#[verifier::external_body]
pub(crate) fn member<'a>(value: &'a serde_json::Value, key: &str) -> (r: Option<
    &'a serde_json::Value,
>)
    ensures
        r matches Some(m) ==> member_of(json_content(*value), key@) == Some(json_content(*m)),
        r is None ==> member_of(json_content(*value), key@) is None,
{
    value.get(key)
}

/// Calls `serde_json::Value::as_str`. Trusted: it gives the text of a
/// string, and `None` for anything else.
#[verifier::external_body]
pub(crate) fn text<'a>(value: &'a serde_json::Value) -> (r: Option<&'a str>)
    ensures
        r matches Some(t) ==> json_content(*value) == JsonModel::Text(t@),
        r is None ==> !(json_content(*value) is Text),
{
    value.as_str()
}

/// Calls `serde_json::Value::as_i64`. Trusted: it gives a number that is an
/// integer of 64 bits with a sign, and `None` for anything else.
#[verifier::external_body]
pub(crate) fn integer(value: &serde_json::Value) -> (r: Option<i64>)
    ensures
        r matches Some(n) ==> json_content(*value) == JsonModel::Integer(n),
        r is None ==> !(json_content(*value) is Integer),
{
    value.as_i64()
}

/// Calls `serde_json::to_string` on a string slice. Trusted: the result
/// depends on the text alone; an error becomes `None`.
#[verifier::external_body]
pub(crate) fn quote(s: &str) -> (r: Option<String>)
    ensures
        r matches Some(t) ==> json_quoted(s@) == Some(t@),
        r is None ==> json_quoted(s@) is None,
{
    serde_json::to_string(s).ok()
}

} // verus!
