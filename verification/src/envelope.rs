//! The JSON-RPC envelope: requests with positional parameters, and the
//! `result`/`error`/`id` response wrapper.
//!
//! A response either carries a non-null `error` object, which becomes a
//! node-reported error verbatim, or its `result` field is handed on for
//! typed decoding.  The four error kinds callers must tell apart are all
//! here; none is ever recovered from locally.

use vstd::prelude::*;

use crate::value::{
    field_i64, field_str, get_i64, get_str, jv_get, jv_obj_get, obj_get, str_eq, JsonValue,
};

verus! {

/// Everything a binding call can fail with.
#[derive(Debug, PartialEq)]
pub enum RpcError {
    /// The transport could not complete the round trip.
    Transport(String),
    /// The node answered with a non-null `error` field; code and message are
    /// passed on verbatim.
    Node { code: i64, message: String },
    /// The `result` payload did not match the shape the binding expects.
    Decode,
    /// A locally checkable argument constraint failed; no request was sent.
    Validation(String),
}

/// A request: the node's method name and the ordered positional arguments.
///
/// An absent optional argument stands as an explicit `Null` in its slot.
#[derive(Debug, PartialEq)]
pub struct RpcRequest {
    pub method: String,
    pub params: Vec<JsonValue>,
}

/// Wrap a request into the wire body `{"method": .., "params": .., "id": ..}`.
pub fn request_body(req: RpcRequest, id: u64) -> (r: JsonValue)
    ensures
        (r matches JsonValue::Obj(fs) && fs@.len() == 3 && fs@[0].0@ == "method"@ && (fs@[0].1
            matches JsonValue::Str(m) && m@ == req.method@) && fs@[1].0@ == "params"@ && (fs@[1].1
            matches JsonValue::Arr(ps) && ps@ == req.params@) && fs@[2].0@ == "id"@ && fs@[2].1
            == JsonValue::UInt(id)),
{
    let mut fs: Vec<(String, JsonValue)> = Vec::new();
    fs.push(("method".to_owned(), JsonValue::Str(req.method)));
    fs.push(("params".to_owned(), JsonValue::Arr(req.params)));
    fs.push(("id".to_owned(), JsonValue::UInt(id)));
    JsonValue::Obj(fs)
}

/// What a non-null `error` object decodes to.
pub open spec fn spec_node_error(e: JsonValue) -> Result<JsonValue, RpcError> {
    match (field_i64(e, "code"@), field_str(e, "message"@)) {
        (Some(c), Some(m)) => Err(RpcError::Node { code: c, message: m }),
        _ => Err(RpcError::Decode),
    }
}

/// The `result` field of an envelope whose `error` is absent or null.
pub open spec fn spec_result_of(v: JsonValue) -> Result<JsonValue, RpcError> {
    match jv_get(v, "result"@) {
        Some(r) => Ok(r),
        None => Ok(JsonValue::Null),
    }
}

/// What an envelope decodes to: the node-reported error when one is
/// present, else the raw `result` value.
pub open spec fn spec_decode_envelope(v: JsonValue) -> Result<JsonValue, RpcError> {
    if !(v is Obj) {
        Err(RpcError::Decode)
    } else {
        match jv_get(v, "error"@) {
            None => spec_result_of(v),
            Some(JsonValue::Null) => spec_result_of(v),
            Some(e) => spec_node_error(e),
        }
    }
}

/// Remove and return the first field named `name`, consuming the list.
#[verifier::loop_isolation(false)]
pub(crate) fn obj_take(fields: Vec<(String, JsonValue)>, name: &str) -> (r: Option<JsonValue>)
    ensures
        r == obj_get(fields@, name@),
{
    let ghost orig = fields@;
    let mut fs = fields;
    let n = fs.len();
    proof {
        assert(orig.subrange(0, n as int) =~= orig);
    }
    let mut i: usize = 0;
    while i < n
        invariant
            fs@ == orig,
            n == orig.len(),
            i <= n,
            obj_get(orig, name@) == obj_get(orig.subrange(i as int, n as int), name@),
        decreases n - i,
    {
        let ghost pre = orig.subrange(i as int, n as int);
        if str_eq(fs[i].0.as_str(), name) {
            proof {
                assert(pre[0] == orig[i as int]);
                assert(obj_get(pre, name@) == Some(pre[0].1));
            }
            let pair = fs.remove(i);
            return Some(pair.1);
        }
        proof {
            assert(pre[0] == orig[i as int]);
            assert(pre.subrange(1, pre.len() as int) =~= orig.subrange(i + 1, n as int));
        }
        i += 1;
    }
    proof {
        assert(orig.subrange(n as int, n as int) =~= Seq::<(String, JsonValue)>::empty());
    }
    None
}

/// Split an envelope: the node-reported error when there is one, else
/// the raw `result` payload.
pub fn decode_envelope(v: JsonValue) -> (r: Result<JsonValue, RpcError>)
    ensures
        r == spec_decode_envelope(v),
{
    match &v {
        JsonValue::Obj(_) => {},
        _ => {
            return Err(RpcError::Decode);
        },
    }
    let node_err: Option<RpcError> = match jv_obj_get(&v, "error") {
        None => None,
        Some(e) => match e {
            JsonValue::Null => None,
            _ => match (get_i64(e, "code"), get_str(e, "message")) {
                (Some(c), Some(m)) => Some(RpcError::Node { code: c, message: m }),
                _ => Some(RpcError::Decode),
            },
        },
    };
    if let Some(err) = node_err {
        return Err(err);
    }
    match v {
        JsonValue::Obj(fields) => match obj_take(fields, "result") {
            Some(res) => Ok(res),
            None => Ok(JsonValue::Null),
        },
        _ => Err(RpcError::Decode),
    }
}

} // verus!
