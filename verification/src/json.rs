//! Reading JSON documents with `serde_json`.
//!
//! Nothing in this file is proved: it says what the library takes
//! `serde_json` to do.  A document is opaque to the verifier; what it holds
//! is spoken of through [`json_of`], and the contracts below say, over that
//! name, what each function that is called gives.

use vstd::prelude::*;

verus! {

/// A parsed JSON document or a part of one.
#[verifier::external_type_specification]
#[verifier::external_body]
pub struct ExJsonValue(serde_json::Value);

/// Why a text is not a JSON document.
#[verifier::external_type_specification]
#[verifier::external_body]
pub struct ExJsonError(serde_json::Error);

/// What a JSON value holds.  Of a number only the fact that it is one is
/// kept.
pub enum Json {
    Null,
    Bool(bool),
    Number,
    Text(Seq<char>),
    Array(Seq<Json>),
    Object(Map<Seq<char>, Json>),
}

/// What a value of `serde_json` holds.
pub uninterp spec fn json_of(value: serde_json::Value) -> Json;

/// What `serde_json::from_str` reads from a text: the document that the
/// text holds, or `None` where it reports an error.
pub uninterp spec fn parsed_json(text: Seq<char>) -> Option<Json>;

/// What a list of values holds.
pub open spec fn jsons_of(values: Seq<serde_json::Value>) -> Seq<Json> {
    Seq::new(values.len(), |i: int| json_of(values[i]))
}

/// The member of the given name of an object that has one.
pub open spec fn member_in(json: Json, key: Seq<char>) -> Option<Json> {
    match json {
        Json::Object(members) => if members.contains_key(key) {
            Some(members[key])
        } else {
            None
        },
        _ => None,
    }
}

/// The elements of an array.
pub open spec fn items_in(json: Json) -> Option<Seq<Json>> {
    match json {
        Json::Array(items) => Some(items),
        _ => None,
    }
}

/// The text of a string.
pub open spec fn text_in(json: Json) -> Option<Seq<char>> {
    match json {
        Json::Text(text) => Some(text),
        _ => None,
    }
}

/// Parses a text with `serde_json::from_str`, which reads one JSON document
/// that takes up the whole text.  The contract names what is read: the same
/// text gives the same document, or an error each time.
#[verifier::external_body]
pub(crate) fn parse_json(text: &str) -> (parsed: Result<serde_json::Value, serde_json::Error>)
    ensures
        match parsed {
            Ok(document) => parsed_json(text@) == Some(json_of(document)),
            Err(_) => parsed_json(text@) is None,
        },
{
    serde_json::from_str::<serde_json::Value>(text)
}

/// Looks a key up with `Value::get`, which gives the member of that name
/// where the value is an object that has one, and nothing else.
#[verifier::external_body]
pub(crate) fn json_member<'a>(value: &'a serde_json::Value, key: &str) -> (member: Option<
    &'a serde_json::Value,
>)
    ensures
        match member {
            Some(found) => member_in(json_of(*value), key@) == Some(json_of(*found)),
            None => member_in(json_of(*value), key@) is None,
        },
{
    value.get(key)
}

/// Reads an array with `Value::as_array`, which gives the elements where the
/// value is an array, and nothing else.
#[verifier::external_body]
pub(crate) fn json_items<'a>(value: &'a serde_json::Value) -> (items: Option<
    &'a Vec<serde_json::Value>,
>)
    ensures
        match items {
            Some(found) => items_in(json_of(*value)) == Some(jsons_of(found@)),
            None => items_in(json_of(*value)) is None,
        },
{
    value.as_array()
}

/// Reads a string with `Value::as_str`, which gives the text where the value
/// is a string, and nothing else.
#[verifier::external_body]
pub(crate) fn json_text(value: &serde_json::Value) -> (text: Option<String>)
    ensures
        match text {
            Some(s) => text_in(json_of(*value)) == Some(s@),
            None => text_in(json_of(*value)) is None,
        },
{
    match value.as_str() {
        Some(s) => Some(s.to_owned()),
        None => None,
    }
}

} // verus!
