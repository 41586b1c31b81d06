//! JSON documents, read with `serde_json`.
//!
//! Verus does not look inside a `serde_json::Value`. This module gives such
//! a value a mathematical model and states, without proof, how the few
//! operations of `serde_json` that the updater calls relate to that model.
//! Everything built on them is verified.

use vstd::prelude::*;
use vstd::string::*;

verus! {

/// Makes `serde_json::Value` known to the verifier, as a type whose inside
/// it does not see.
#[verifier::external_type_specification]
#[verifier::external_body]
pub struct ExValue(serde_json::Value);

/// Makes `serde_json::Error` known to the verifier, as a type whose inside
/// it does not see.
#[verifier::external_type_specification]
#[verifier::external_body]
pub struct ExError(serde_json::Error);

/// What the updater reads of a JSON value: the text of a string, the items
/// of an array and the members of an object. Nulls, booleans and numbers
/// are not told apart.
pub enum JsonModel {
    Text(Seq<char>),
    Array(Seq<JsonModel>),
    Object(Map<Seq<char>, JsonModel>),
    Other,
}

/// The model of a value.
pub uninterp spec fn json_model(value: serde_json::Value) -> JsonModel;

/// The model of the value that a text denotes as a JSON document, or `None`
/// for a text that `serde_json` does not accept as one.
pub uninterp spec fn json_parsed(text: Seq<char>) -> Option<JsonModel>;

/// The models of a vector of values, item by item.
pub open spec fn json_models(items: Seq<serde_json::Value>) -> Seq<JsonModel> {
    items.map_values(|item: serde_json::Value| json_model(item))
}

/// Calls `serde_json::from_str` for a `serde_json::Value`. Trusted: the
/// call returns a value exactly for the texts that `json_parsed` knows as
/// documents, and the value it returns is the one `json_parsed` speaks of.
/// This says that the same text always parses alike, and no more.
#[verifier::external_body]
pub(crate) fn parse_document(text: &str) -> (r: Result<serde_json::Value, serde_json::Error>)
    ensures
        match r {
            Ok(value) => json_parsed(text@) == Some(json_model(value)),
            Err(_) => json_parsed(text@) is None,
        },
{
    serde_json::from_str::<serde_json::Value>(text)
}

/// Calls `serde_json::Value::get` with a string key. Trusted: the call
/// returns the member of that name where the value is an object that has
/// one, and `None` for an object without it and for any other value.
#[verifier::external_body]
pub(crate) fn member_of<'a>(value: &'a serde_json::Value, key: &str) -> (r: Option<
    &'a serde_json::Value,
>)
    ensures
        match r {
            Some(member) => json_model(*value) matches JsonModel::Object(members)
                && members.dom().contains(key@) && members[key@] == json_model(*member),
            None => !(json_model(*value) matches JsonModel::Object(members)
                && members.dom().contains(key@)),
        },
{
    value.get(key)
}

/// `serde_json::Value::as_str`. Trusted: it returns the text of a string
/// value and `None` for any other value.
pub assume_specification<'a>[ serde_json::Value::as_str ](value: &'a serde_json::Value) -> (r:
    Option<&'a str>)
    ensures
        match r {
            Some(text) => json_model(*value) == JsonModel::Text(text@),
            None => !(json_model(*value) is Text),
        },
;

/// `serde_json::Value::as_array`. Trusted: it returns the items of an array
/// value, in order, and `None` for any other value.
pub assume_specification<'a>[ serde_json::Value::as_array ](value: &'a serde_json::Value) -> (r:
    Option<&'a Vec<serde_json::Value>>)
    ensures
        match r {
            Some(items) => json_model(*value) == JsonModel::Array(json_models(items@)),
            None => !(json_model(*value) is Array),
        },
;

/// The member `key` of an object; `None` for an object without it and for
/// a value that is no object.
pub open spec fn member(doc: JsonModel, key: Seq<char>) -> Option<JsonModel> {
    match doc {
        JsonModel::Object(members) => if members.dom().contains(key) {
            Some(members[key])
        } else {
            None
        },
        _ => None,
    }
}

/// The text of the member `key` of an object, where that member is a
/// string.
pub open spec fn text_member(doc: JsonModel, key: Seq<char>) -> Option<Seq<char>> {
    match member(doc, key) {
        Some(JsonModel::Text(text)) => Some(text),
        _ => None,
    }
}

/// Reads the member `key` of `value` as text.
pub fn text_at(value: &serde_json::Value, key: &str) -> (r: Option<String>)
    ensures
        match r {
            Some(text) => text_member(json_model(*value), key@) == Some(text@),
            None => text_member(json_model(*value), key@) is None,
        },
{
    match member_of(value, key) {
        Some(found) => match found.as_str() {
            Some(text) => Some(String::from_str(text)),
            None => None,
        },
        None => None,
    }
}

} // verus!
