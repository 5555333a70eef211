//! JSON values as the `serde_json` crate parses them, and their mathematical
//! model.
//!
//! Parsing is left to `serde_json`. What this crate's logic reads of a parsed
//! value (object members, strings, `null`) goes through the functions below,
//! whose contracts are stated over [`Json`], the model of a value.

use vstd::prelude::*;

verus! {

/// `serde_json::Value`, a parsed JSON value: opaque, and read through the
/// functions of this module alone.
#[verifier::external_type_specification]
#[verifier::external_body]
pub struct ExJsonValue(serde_json::Value);

/// `serde_json::Error`, the error of parsing or decoding JSON: an opaque value
/// that is carried through.
#[verifier::external_type_specification]
#[verifier::external_body]
pub struct ExJsonError(serde_json::Error);

/// The mathematical model of a JSON value.
pub enum Json {
    /// `null`.
    Null,
    /// `true` or `false`.
    Bool(bool),
    /// A number; its value is not modelled.
    Number,
    /// A string, as its characters.
    Text(Seq<char>),
    /// An array, as its elements in order.
    Array(Seq<Json>),
    /// An object, as the map from its keys to their values.
    Object(Map<Seq<char>, Json>),
}

impl Json {
    /// The member `key` of an object; `None` for a value that is no object or
    /// an object without that key.
    pub open spec fn member(self, key: Seq<char>) -> Option<Json> {
        match self {
            Json::Object(members) => if members.contains_key(key) {
                Some(members[key])
            } else {
                None
            },
            _ => None,
        }
    }

    /// The characters of a string; `None` for any other value.
    pub open spec fn text(self) -> Option<Seq<char>> {
        match self {
            Json::Text(chars) => Some(chars),
            _ => None,
        }
    }
}

/// The model of a parsed value.
pub uninterp spec fn json_model(value: serde_json::Value) -> Json;

/// The value that `text` parses to as one JSON document, or `None` where the
/// parser rejects it.
pub uninterp spec fn parse_json(text: Seq<char>) -> Option<Json>;

/// The message that a parse error displays.
pub uninterp spec fn json_error_text(error: serde_json::Error) -> Seq<char>;

/// `serde_json::from_str` at the type `serde_json::Value`: parses `text` as
/// one JSON document. The contract names the outcome [`parse_json`] of the
/// text: the call succeeds exactly where that is `Some`, and then returns a
/// value with that model.
#[verifier::external_body]
pub(crate) fn parse_value(text: &str) -> (parsed: Result<serde_json::Value, serde_json::Error>)
    ensures
        parsed is Ok <==> parse_json(text@) is Some,
        parsed is Ok ==> parse_json(text@) == Some(json_model(parsed->Ok_0)),
{
    serde_json::from_str::<serde_json::Value>(text)
}

/// `serde_json::Value::get` with a string key: the member `key` of an object,
/// and `None` for a value that is no object or has no such key.
#[verifier::external_body]
pub(crate) fn member<'a>(value: &'a serde_json::Value, key: &str) -> (found: Option<
    &'a serde_json::Value,
>)
    ensures
        found is Some <==> json_model(*value).member(key@) is Some,
        found is Some ==> json_model(*value).member(key@) == Some(json_model(*found->Some_0)),
{
    value.get(key)
}

/// `serde_json::Value::as_str`: the contents of a string value, and `None`
/// for any other value.
#[verifier::external_body]
pub(crate) fn as_text<'a>(value: &'a serde_json::Value) -> (text: Option<&'a str>)
    ensures
        text is Some <==> json_model(*value).text() is Some,
        text is Some ==> json_model(*value).text() == Some(text->Some_0@),
{
    value.as_str()
}

/// `serde_json::Value::is_null`: whether the value is `null`.
#[verifier::external_body]
pub(crate) fn is_null(value: &serde_json::Value) -> (null: bool)
    ensures
        null == (json_model(*value) is Null),
{
    value.is_null()
}

/// `Display` of `serde_json::Error`: the error's message, named
/// [`json_error_text`].
#[verifier::external_body]
pub(crate) fn error_text(error: &serde_json::Error) -> (text: String)
    ensures
        text@ == json_error_text(*error),
{
    error.to_string()
}

} // verus!
