use vstd::prelude::*;

use serde_json::Value;

use crate::json::{Json, JsonView};

verus! {

#[verifier::external_type_specification]
#[verifier::external_body]
pub struct ExValue(serde_json::Value);

/// What `serde_json::from_str` reads from `text`: the document, as this library holds it,
/// or the text of the error it reports.
pub uninterp spec fn parsed_json(text: Seq<char>) -> Result<JsonView, Seq<char>>;

/// The text that `serde_json` writes for the document `doc`.
pub uninterp spec fn json_text(doc: JsonView) -> Seq<char>;

/// `value` as this library holds it, member for member; a number that is not an integer
/// keeps the text `serde_json` writes for it.
#[verifier::external_body]
fn json_from_value(value: &Value) -> Json {
    match value {
        Value::Null => Json::Null,
        Value::Bool(b) => Json::Bool(*b),
        Value::Number(n) => match n.as_i128() {
            Some(i) => Json::Int(i),
            None => Json::Float(n.to_string()),
        },
        Value::String(s) => Json::Str(s.clone()),
        Value::Array(items) => Json::Array(items.iter().map(json_from_value).collect()),
        Value::Object(members) => Json::Object(
            members.iter().map(|(k, v)| (k.clone(), json_from_value(v))).collect(),
        ),
    }
}

/// `doc` as a `serde_json` value, member for member; an integer that `serde_json` cannot
/// hold, or a number whose text it does not read, becomes `null`.
#[verifier::external_body]
fn value_from_json(doc: &Json) -> Value {
    match doc {
        Json::Null => Value::Null,
        Json::Float(t) => t.parse().map_or(Value::Null, Value::Number),
        Json::Bool(b) => Value::Bool(*b),
        Json::Int(i) => serde_json::Number::from_i128(*i).map_or(Value::Null, Value::Number),
        Json::Str(s) => Value::String(s.clone()),
        Json::Array(items) => Value::Array(items.iter().map(value_from_json).collect()),
        Json::Object(members) => Value::Object(
            members.iter().map(|(k, v)| (k.clone(), value_from_json(v))).collect(),
        ),
    }
}

/// Reads `text` with `serde_json::from_str` into a `serde_json::Value`. Claimed: the
/// document read, or the text of the error, is `parsed_json` of `text`, a function of the
/// text alone.
#[verifier::external_body]
pub(crate) fn parse_json(text: &str) -> (r: Result<Json, String>)
    ensures
        match r {
            Ok(doc) => parsed_json(text@) == Ok::<JsonView, Seq<char>>(doc.deep_view()),
            Err(error) => parsed_json(text@) == Err::<JsonView, Seq<char>>(error@),
        },
{
    match serde_json::from_str::<Value>(text) {
        Ok(value) => Ok(json_from_value(&value)),
        Err(error) => Err(error.to_string()),
    }
}

/// Writes `doc` with `serde_json`'s `Display` of a `serde_json::Value`. Claimed: the text is
/// `json_text` of the document, a function of the document alone.
#[verifier::external_body]
pub(crate) fn write_json(doc: &Json) -> (r: String)
    ensures
        r@ == json_text(doc.deep_view()),
{
    value_from_json(doc).to_string()
}

} // verus!
