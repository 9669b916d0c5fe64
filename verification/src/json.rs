//! The JSON documents that SearXNG answers with, as `serde_json` holds them.
//!
//! A `serde_json::Value` is opaque to the verifier. What a value holds is
//! named by `json_model`, a plain mathematical tree; the accessors of
//! `serde_json` that the search logic calls are wrapped below, and their
//! contracts say, over that tree, what the `serde_json` source shows they do.
use vstd::prelude::*;

verus! {

/// The JSON value type of `serde_json`.
#[verifier::external_type_specification]
#[verifier::external_body]
pub struct ExJsonValue(serde_json::Value);

/// A JSON value as a mathematical tree.
///
/// `Number` holds the digits of the number as `serde_json` writes them; an
/// `Object` maps each key to its member (the default `serde_json` map keeps one
/// member per key, ordered by key).
pub enum JsonModel {
    Null,
    Bool(bool),
    Number(Seq<char>),
    Str(Seq<char>),
    Array(Seq<JsonModel>),
    Object(Map<Seq<char>, JsonModel>),
}

/// What a `serde_json::Value` holds.
pub uninterp spec fn json_model(v: serde_json::Value) -> JsonModel;

/// The compact JSON text that `serde_json` writes for a value (its `Display`).
pub uninterp spec fn json_text(m: JsonModel) -> Seq<char>;

/// The member of an object under `key`; `None` for a missing key and for a
/// value that is no object.
pub open spec fn member(m: JsonModel, key: Seq<char>) -> Option<JsonModel> {
    match m {
        JsonModel::Object(fields) => if fields.contains_key(key) {
            Some(fields[key])
        } else {
            None
        },
        _ => None,
    }
}

/// The text of a string value, `None` for any other value.
pub open spec fn str_of(m: JsonModel) -> Option<Seq<char>> {
    match m {
        JsonModel::Str(s) => Some(s),
        _ => None,
    }
}

/// The items of an array value, `None` for any other value.
pub open spec fn items_of(m: JsonModel) -> Option<Seq<JsonModel>> {
    match m {
        JsonModel::Array(xs) => Some(xs),
        _ => None,
    }
}

/// The models of a sequence of values.
pub open spec fn models(vs: Seq<serde_json::Value>) -> Seq<JsonModel> {
    vs.map_values(|v: serde_json::Value| json_model(v))
}

/// `serde_json::Value::get` with a string key: the member of an object under
/// that key, and `None` for a missing key or a value that is no object (the
/// source matches `Value::Object(map)` and calls `map.get(key)`).
#[verifier::external_body]
pub(crate) fn json_get<'a>(v: &'a serde_json::Value, key: &str) -> (r: Option<&'a serde_json::Value>)
    ensures
        match r {
            Some(m) => member(json_model(*v), key@) == Some(json_model(*m)),
            None => member(json_model(*v), key@) is None,
        },
{
    v.get(key)
}

/// `serde_json::Value::as_str`: the text of a string value, `None` otherwise.
#[verifier::external_body]
pub(crate) fn json_as_str(v: &serde_json::Value) -> (r: Option<&str>)
    ensures
        match r {
            Some(s) => str_of(json_model(*v)) == Some(s@),
            None => str_of(json_model(*v)) is None,
        },
{
    v.as_str()
}

/// `serde_json::Value::as_array`: the items of an array value, `None` otherwise.
#[verifier::external_body]
pub(crate) fn json_as_array(v: &serde_json::Value) -> (r: Option<&Vec<serde_json::Value>>)
    ensures
        match r {
            Some(a) => items_of(json_model(*v)) == Some(models(a@)),
            None => items_of(json_model(*v)) is None,
        },
{
    v.as_array()
}

/// `Display` of `serde_json::Value` (compact form), through `to_string`.
#[verifier::external_body]
pub(crate) fn json_display(v: &serde_json::Value) -> (s: String)
    ensures
        s@ == json_text(json_model(*v)),
{
    v.to_string()
}

} // verus!
