//! The boundary to serde_json: JSON text is parsed and rendered by the
//! outside crate, and only the resulting tree is reasoned about.
//!
//! Both directions are deterministic functions of their argument, so each
//! gets a name (`parsed_json`, `rendered_json`) that the verified pipeline
//! functions speak of; nothing else is assumed of the outside parser.

use vstd::prelude::*;

use serde_json::Value;

use crate::envelope::{decode_envelope, spec_decode_envelope, RpcError};
use crate::value::JsonValue;

verus! {

#[verifier::external_type_specification]
#[verifier::external_body]
pub struct ExValue(serde_json::Value);

/// What serde_json's parser makes of a text, carried over into the
/// library's tree: `None` exactly when the text is not valid JSON.
pub uninterp spec fn parsed_json(s: Seq<char>) -> Option<JsonValue>;

/// The text serde_json's serializer renders a tree as.
pub uninterp spec fn rendered_json(v: JsonValue) -> Seq<char>;

/// Relies on serde_json::Value: each JSON node maps to the like-shaped
/// variant of the library's tree; a number outside `u64` and `i64` keeps
/// its decimal text.  Serves `parse_json` below.
#[verifier::external_body]
fn value_to_jval(v: &Value) -> JsonValue {
    match v {
        Value::Null => JsonValue::Null,
        Value::Bool(b) => JsonValue::Bool(*b),
        Value::Number(n) => match (n.as_u64(), n.as_i64()) {
            (Some(u), _) => JsonValue::UInt(u),
            (None, Some(i)) => JsonValue::Int(i),
            _ => JsonValue::Float(n.to_string()),
        },
        Value::String(s) => JsonValue::Str(s.clone()),
        Value::Array(a) => JsonValue::Arr(a.iter().map(value_to_jval).collect()),
        Value::Object(m) => JsonValue::Obj(
            m.iter().map(|(k, x)| (k.clone(), value_to_jval(x))).collect(),
        ),
    }
}

/// Relies on serde_json::Value construction: the mapping back; decimal
/// text re-enters through serde_json's own number parser, and a `Float`
/// whose text that parser rejects renders as JSON null.  Serves
/// `render_json` below.
#[verifier::external_body]
fn jval_to_value(v: &JsonValue) -> Value {
    match v {
        JsonValue::Null => Value::Null,
        JsonValue::Bool(b) => Value::Bool(*b),
        JsonValue::UInt(u) => Value::from(*u),
        JsonValue::Int(i) => Value::from(*i),
        JsonValue::Float(s) => match s.parse::<serde_json::Number>() {
            Ok(n) => Value::Number(n),
            Err(_) => Value::Null,
        },
        JsonValue::Str(s) => Value::String(s.clone()),
        JsonValue::Arr(a) => Value::Array(a.iter().map(jval_to_value).collect()),
        JsonValue::Obj(fs) => Value::Object(
            fs.iter().map(|(k, x)| (k.clone(), jval_to_value(x))).collect(),
        ),
    }
}

/// Relies on serde_json::from_str: parses JSON text, deterministically in
/// the text alone.
#[verifier::external_body]
fn parse_json(s: &str) -> (r: Option<JsonValue>)
    ensures
        r == parsed_json(s@),
{
    match serde_json::from_str::<Value>(s) {
        Ok(v) => Some(value_to_jval(&v)),
        Err(_) => None,
    }
}

/// Relies on serde_json's serializer through `Value::to_string`,
/// deterministic in the tree alone.
#[verifier::external_body]
fn render_json(v: &JsonValue) -> (r: String)
    ensures
        r@ == rendered_json(*v),
{
    jval_to_value(v).to_string()
}

/// Parse a response body and split its envelope: the node's error verbatim
/// when one is reported, a decode failure when the text is not JSON, else
/// the raw `result` payload.
pub fn parse_response(body: &str) -> (r: Result<JsonValue, RpcError>)
    ensures
        r == (match parsed_json(body@) {
            Some(v) => spec_decode_envelope(v),
            None => Err::<JsonValue, RpcError>(RpcError::Decode),
        }),
{
    match parse_json(body) {
        Some(v) => decode_envelope(v),
        None => Err(RpcError::Decode),
    }
}

/// Render any tree as JSON text.
pub fn render_text(v: &JsonValue) -> (r: String)
    ensures
        r@ == rendered_json(*v),
{
    render_json(v)
}

} // verus!
