//! Trusted boundary to the outside document parsers. Both remote API
//! bodies (JSON) and the token file (YAML) are turned into the crate's
//! own document model here; everything that reads the model is verified.
use vstd::prelude::*;
use crate::json::Json;

verus! {

#[verifier::external_type_specification]
#[verifier::external_body]
pub struct ExValue(serde_json::Value);

/// The document that `parse_json` yields on a given text, `None` exactly
/// when the text is rejected. Left uninterpreted: stating the JSON
/// grammar here would only restate the parser.
pub uninterp spec fn spec_parse_json(text: Seq<char>) -> Option<Json>;

/// The document that `parse_yaml` yields on a given text, `None` exactly
/// when the text is rejected.
pub uninterp spec fn spec_parse_yaml(text: Seq<char>) -> Option<Json>;

/// Relies on the public variants of `serde_json::Value`: each variant is
/// moved one-for-one into the crate's own document model, a number as the
/// decimal text that `serde_json::Number`'s `Display` renders.
#[verifier::external_body]
fn value_to_json(v: serde_json::Value) -> Json {
    match v {
        serde_json::Value::Null => Json::Null,
        serde_json::Value::Bool(b) => Json::Bool(b),
        serde_json::Value::Number(n) => Json::Num(n.to_string()),
        serde_json::Value::String(s) => Json::Str(s),
        serde_json::Value::Array(a) => Json::Arr(a.into_iter().map(value_to_json).collect()),
        serde_json::Value::Object(m) => {
            Json::Obj(m.into_iter().map(|e| (e.0, value_to_json(e.1))).collect())
        },
    }
}

/// Relies on `serde_json::from_str`: it succeeds exactly on well-formed
/// JSON text, and its result is a function of the text alone.
#[verifier::external_body]
pub fn parse_json(text: &str) -> (r: Option<Json>)
    ensures
        r == spec_parse_json(text@),
{
    match serde_json::from_str::<serde_json::Value>(text) {
        Ok(v) => Some(value_to_json(v)),
        Err(_) => None,
    }
}

/// Relies on `serde_yaml::from_str`: it succeeds exactly on well-formed
/// YAML text whose values fit a JSON document, and its result is a
/// function of the text alone.
#[verifier::external_body]
pub fn parse_yaml(text: &str) -> (r: Option<Json>)
    ensures
        r == spec_parse_yaml(text@),
{
    match serde_yaml::from_str::<serde_json::Value>(text) {
        Ok(v) => Some(value_to_json(v)),
        Err(_) => None,
    }
}

} // verus!
