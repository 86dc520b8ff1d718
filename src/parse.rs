//! Reading JSON text, through serde_json.

use vstd::prelude::*;
use crate::error::AzureError;
use crate::json::JsonValue;

verus! {

#[verifier::external_type_specification]
#[verifier::external_body]
pub struct ExSerdeValue(serde_json::Value);

/// The tree that serde_json reads from a text, when the text is JSON.
pub uninterp spec fn parsed_json(text: Seq<char>) -> Option<JsonValue>;

/// Relies on serde_json's value tree: carries each node over as it is, a
/// number as serde_json's `Number` displays it, an object's members in the
/// order serde_json's `Map` yields them.
#[verifier::external_body]
fn tree_of(v: serde_json::Value) -> JsonValue {
    match v {
        serde_json::Value::Null => JsonValue::Null,
        serde_json::Value::Bool(b) => JsonValue::Bool(b),
        serde_json::Value::Number(n) => JsonValue::Number(n.to_string()),
        serde_json::Value::String(s) => JsonValue::Str(s),
        serde_json::Value::Array(a) => JsonValue::Array(a.into_iter().map(tree_of).collect()),
        serde_json::Value::Object(m) => JsonValue::Object(m.into_iter().map(|(k, v)| (k, tree_of(v))).collect()),
    }
}

/// Relies on serde_json::from_str into serde_json::Value: the tree, or the
/// reason the text is not JSON, depends on the text alone.
#[verifier::external_body]
fn parse_json_text(text: &str) -> (r: Result<JsonValue, String>)
    ensures
        match r {
            Ok(j) => parsed_json(text@) == Some(j),
            Err(_) => parsed_json(text@) is None,
        },
{
    match serde_json::from_str::<serde_json::Value>(text) {
        Ok(v) => Ok(tree_of(v)),
        Err(e) => Err(e.to_string()),
    }
}

/// Parses the output of the tool as JSON; text that is not JSON is a
/// decoding failure that carries the parser's diagnostic.
pub fn parse_output(text: &str) -> (r: Result<JsonValue, AzureError>)
    ensures
        match r {
            Ok(j) => parsed_json(text@) == Some(j),
            Err(e) => parsed_json(text@) is None && e is JsonParse,
        },
{
    match parse_json_text(text) {
        Ok(j) => Ok(j),
        Err(m) => Err(AzureError::JsonParse(m)),
    }
}

} // verus!
