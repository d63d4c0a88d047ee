//! Text in and out: the boundary to the JSON serializer.
//!
//! Everything in this module is trusted. Each item names the outside function
//! it stands for and says what is claimed of it without proof.

use crate::json::{names_distinct, Json, JsonNumber, JsonView};
use serde_json::Value;
use vstd::prelude::*;

verus! {

/// `serde_json::Value`, carried only between the conversions below.
#[verifier::external_type_specification]
#[verifier::external_body]
pub struct ExValue(serde_json::Value);

/// `serde_json::Number`, carried only between the conversions below.
#[verifier::external_type_specification]
#[verifier::external_body]
pub struct ExNumber(serde_json::Number);

/// `jsonrpc_core::Request`: a request or a batch of requests that the peer
/// sent. The engine hands it on to the server handler unread.
#[verifier::external_type_specification]
#[verifier::external_body]
pub struct ExRequest(jsonrpc_core::Request);

/// `jsonrpc_core::Response`: a reply that the server handler produced. The
/// engine writes it out unread.
#[verifier::external_type_specification]
#[verifier::external_body]
pub struct ExResponse(jsonrpc_core::Response);

/// The text that `serde_json::to_string` gives for the `serde_json::Value`
/// that holds what `value` holds; `None` where it reports an error, and where
/// a number in `value` is held as a text that `serde_json::from_str` does not
/// read as a number. It is asked only of values in which no object has two
/// members of one name. Nothing more is known of it here.
pub uninterp spec fn text_of(value: JsonView) -> Option<Seq<char>>;

/// The text of a value: the text that the serializer gives for it, and none
/// for a value in which an object has two members of one name.
pub open spec fn written(value: JsonView) -> Option<Seq<char>> {
    if names_distinct(value) {
        text_of(value)
    } else {
        None
    }
}

/// The value that `serde_json::from_str` reads from a text as a
/// `serde_json::Value`, or `None` where it reports an error. Nothing more is
/// known of it here.
pub uninterp spec fn json_of_text(text: Seq<char>) -> Option<JsonView>;

/// Builds the `serde_json::Value` of a number. An integer goes through
/// `Value::from`, a number held as text through `serde_json::from_str`; where
/// that reports an error there is no value. Nothing is claimed of the result.
#[verifier::external_body]
fn number_value(number: &JsonNumber) -> Option<serde_json::Value> {
    match number {
        JsonNumber::PosInt(n) => Some(Value::from(*n)),
        JsonNumber::NegInt(n) => Some(Value::from(*n)),
        JsonNumber::Real(t) => serde_json::from_str::<serde_json::Number>(t).ok().map(Value::Number),
    }
}

/// Builds the `serde_json::Value` that holds what `json` holds, variant for
/// variant, the members of an object in their order; there is no value where
/// there is none for a number in it. It is called only from [`to_text`], on
/// values in which no object has two members of one name, so the map of an
/// object takes every member. Nothing is claimed of the result.
#[verifier::external_body]
fn value_of(json: &Json) -> Option<serde_json::Value> {
    match json {
        Json::Null => Some(Value::Null),
        Json::Bool(b) => Some(Value::Bool(*b)),
        Json::Number(n) => number_value(n),
        Json::String(s) => Some(Value::String(s.clone())),
        Json::Array(items) => items.iter().map(value_of).collect::<Option<_>>().map(Value::Array),
        Json::Object(members) => members
            .iter()
            .map(|m| value_of(&m.1).map(|v| (m.0.clone(), v)))
            .collect::<Option<_>>()
            .map(Value::Object),
    }
}

/// Reads a `serde_json::Number` through `as_u64`, `as_i64` and `to_string`, in
/// that order. Nothing is claimed of the result.
#[verifier::external_body]
fn number_of(number: &serde_json::Number) -> JsonNumber {
    match (number.as_u64(), number.as_i64()) {
        (Some(n), _) => JsonNumber::PosInt(n),
        (None, Some(n)) => JsonNumber::NegInt(n),
        (None, None) => JsonNumber::Real(number.to_string()),
    }
}

/// Reads a `serde_json::Value` into a [`Json`], variant for variant, the
/// members of an object in the order in which the map hands them out. Nothing
/// is claimed of the result.
#[verifier::external_body]
fn json_of(value: &serde_json::Value) -> Json {
    match value {
        Value::Null => Json::Null,
        Value::Bool(b) => Json::Bool(*b),
        Value::Number(n) => Json::Number(number_of(n)),
        Value::String(s) => Json::String(s.clone()),
        Value::Array(items) => Json::Array(items.iter().map(json_of).collect()),
        Value::Object(map) => Json::Object(
            map.iter().map(|(k, v)| (k.clone(), json_of(v))).collect(),
        ),
    }
}

/// Calls `serde_json::to_string` on the `serde_json::Value` that the
/// conversion above builds from `json`. No object in `json` may have two
/// members of one name, so that the value holds every member. The claim is
/// that the outcome depends on what `json` holds and on nothing else; the
/// contract gives it the name [`text_of`].
#[verifier::external_body]
pub(crate) fn to_text(json: &Json) -> (text: Option<String>)
    requires
        names_distinct(json@),
    ensures
        text is Some ==> text_of(json@) == Some(text->0@),
        text is None ==> text_of(json@) is None,
{
    value_of(json).and_then(|value| serde_json::to_string(&value).ok())
}

/// Calls `serde_json::from_str` for a `serde_json::Value` and reads the value
/// with the conversion above. The claim is that the outcome depends on the
/// text and on nothing else; the contract gives it the name
/// [`json_of_text`].
#[verifier::external_body]
pub(crate) fn from_text(text: &str) -> (json: Option<Json>)
    ensures
        json is Some ==> json_of_text(text@) == Some(json->0@),
        json is None ==> json_of_text(text@) is None,
{
    match serde_json::from_str::<Value>(text) {
        Ok(value) => Some(json_of(&value)),
        Err(_) => None,
    }
}

/// Calls `serde_json::from_str` for a `jsonrpc_core::Request`. The claim is
/// that it succeeds exactly on the texts that `serde_json::from_str` reads as
/// a `serde_json::Value`: the request is read from such a value, a value that
/// is no batch is read as a single call, and a call that is neither a method
/// call nor a notification is read as an invalid call, not refused. Nothing
/// is claimed of the request itself.
#[verifier::external_body]
pub(crate) fn request_from_text(text: &str) -> (request: Option<jsonrpc_core::Request>)
    ensures
        request is Some <==> json_of_text(text@) is Some,
{
    serde_json::from_str::<jsonrpc_core::Request>(text).ok()
}

/// Calls `serde_json::to_string` on a reply of the server handler. Nothing is
/// claimed of the text.
#[verifier::external_body]
pub(crate) fn response_to_text(response: &jsonrpc_core::Response) -> (text: Option<String>) {
    serde_json::to_string(response).ok()
}

impl Json {
    /// Reads a value from a JSON text: the value that [`json_of_text`] names,
    /// or `None` where the text is no JSON.
    pub fn parse(text: &str) -> (json: Option<Json>)
        ensures
            json is Some ==> json_of_text(text@) == Some(json->0@),
            json is None ==> json_of_text(text@) is None,
    {
        from_text(text)
    }

    /// Writes the value as a JSON text: the text that [`written`] gives.
    /// There is none for a value in which an object has two members of one
    /// name, and none where the serializer gives none.
    pub fn to_text(&self) -> (text: Option<String>)
        ensures
            text is Some ==> written(self@) == Some(text->0@),
            text is None ==> written(self@) is None,
    {
        if self.has_distinct_names() {
            to_text(self)
        } else {
            None
        }
    }
}

} // verus!
