//! Bindings for the masternode methods.

use vstd::prelude::*;

use crate::envelope::RpcRequest;
use crate::value::JsonValue;

verus! {

pub fn get_gov_request(name: &str) -> (r: RpcRequest)
    ensures
        r.method@ == "getgov"@,
        r.params@.len() == 1,
        (r.params@[0] matches JsonValue::Str(s) && s@ == name@),
{
    let mut params: Vec<JsonValue> = Vec::new();
    params.push(JsonValue::Str(name.to_owned()));
    RpcRequest { method: "getgov".to_owned(), params }
}

} // verus!
