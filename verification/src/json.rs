//! JSON values, through `serde_json`, and the reads the bot makes of them.
use vstd::prelude::*;
use serde_json::Error as JsonError;

verus! {

/// `serde_json::Value`.
#[verifier::external_type_specification]
#[verifier::external_body]
pub struct ExJsonValue(serde_json::Value);

/// `JsonError`.
#[verifier::external_type_specification]
#[verifier::external_body]
pub struct ExJsonError(JsonError);

/// What a JSON value holds. Numbers are kept opaque: the bot never reads
/// one.
pub enum JsonModel {
    Null,
    Bool(bool),
    Number,
    Text(Seq<char>),
    List(Seq<JsonModel>),
    Dict(Map<Seq<char>, JsonModel>),
}

/// What a `serde_json::Value` holds.
pub uninterp spec fn json_model(v: serde_json::Value) -> JsonModel;

/// The value that `serde_json::from_str::<Value>` reads from `text`, or
/// `None` where it reports an error.
pub uninterp spec fn json_parsed(text: Seq<char>) -> Option<JsonModel>;

pub open spec fn parsed_model(v: Result<serde_json::Value, JsonError>) -> Option<JsonModel> {
    match v {
        Ok(v) => Some(json_model(v)),
        Err(_) => None,
    }
}

/// `value[key]`: the field of an object, and `Null` for a missing key or a
/// value that is not an object.
pub open spec fn field_of(m: JsonModel, key: Seq<char>) -> JsonModel {
    match m {
        JsonModel::Dict(d) => if d.contains_key(key) { d[key] } else { JsonModel::Null },
        _ => JsonModel::Null,
    }
}

/// `value[i]`: the item of an array, and `Null` out of bounds or for a
/// value that is not an array.
pub open spec fn item_of(m: JsonModel, i: int) -> JsonModel {
    match m {
        JsonModel::List(s) => if 0 <= i < s.len() { s[i] } else { JsonModel::Null },
        _ => JsonModel::Null,
    }
}

/// `value.as_str()`.
pub open spec fn text_of(m: JsonModel) -> Option<Seq<char>> {
    match m {
        JsonModel::Text(s) => Some(s),
        _ => None,
    }
}

/// `serde_json::from_str::<serde_json::Value>`. The value is named, not
/// stated; nothing is claimed of the error beyond when it comes.
#[verifier::external_body]
pub(crate) fn parse_json(text: &str) -> (res: Result<serde_json::Value, JsonError>)
    ensures
        parsed_model(res) == json_parsed(text@),
{
    serde_json::from_str::<serde_json::Value>(text)
}

/// `Index<&str> for serde_json::Value`, as the source shows it: the field,
/// or `Null` where there is none.
#[verifier::external_body]
pub(crate) fn json_field<'a>(v: &'a serde_json::Value, key: &str) -> (res: &'a serde_json::Value)
    ensures
        json_model(*res) == field_of(json_model(*v), key@),
{
    &v[key]
}

/// `Index<usize> for serde_json::Value`, as the source shows it: the item,
/// or `Null` where there is none.
#[verifier::external_body]
pub(crate) fn json_item(v: &serde_json::Value, i: usize) -> (res: &serde_json::Value)
    ensures
        json_model(*res) == item_of(json_model(*v), i as int),
{
    &v[i]
}

/// `serde_json::Value::as_array`, of which only the length is kept: the
/// number of items of an array, `None` for any other value.
#[verifier::external_body]
pub(crate) fn json_array_len(v: &serde_json::Value) -> (res: Option<usize>)
    ensures
        res is Some == json_model(*v) is List,
        res matches Some(n) ==> json_model(*v) matches JsonModel::List(s) && n == s.len(),
{
    v.as_array().map(|a| a.len())
}

/// `serde_json::Value::as_str`, copied into a `String`.
#[verifier::external_body]
pub(crate) fn json_text(v: &serde_json::Value) -> (res: Option<String>)
    ensures
        res is Some == text_of(json_model(*v)) is Some,
        res matches Some(s) ==> s@ == text_of(json_model(*v)).unwrap(),
{
    v.as_str().map(|s| s.to_string())
}

} // verus!
