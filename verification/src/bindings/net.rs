//! Bindings for the networking methods.

use vstd::prelude::*;

use crate::envelope::RpcRequest;
use crate::value::JsonValue;

verus! {

pub fn get_connection_count_request() -> (r: RpcRequest)
    ensures
        r.method@ == "getconnectioncount"@,
        r.params@.len() == 0,
{
    RpcRequest { method: "getconnectioncount".to_owned(), params: Vec::new() }
}

pub fn get_net_totals_request() -> (r: RpcRequest)
    ensures
        r.method@ == "getnettotals"@,
        r.params@.len() == 0,
{
    RpcRequest { method: "getnettotals".to_owned(), params: Vec::new() }
}

pub fn get_network_info_request() -> (r: RpcRequest)
    ensures
        r.method@ == "getnetworkinfo"@,
        r.params@.len() == 0,
{
    RpcRequest { method: "getnetworkinfo".to_owned(), params: Vec::new() }
}

pub fn get_peer_info_request() -> (r: RpcRequest)
    ensures
        r.method@ == "getpeerinfo"@,
        r.params@.len() == 0,
{
    RpcRequest { method: "getpeerinfo".to_owned(), params: Vec::new() }
}

pub fn set_network_active_request(state: bool) -> (r: RpcRequest)
    ensures
        r.method@ == "setnetworkactive"@,
        r.params@.len() == 1,
        r.params@[0] == JsonValue::Bool(state),
{
    let mut params: Vec<JsonValue> = Vec::new();
    params.push(JsonValue::Bool(state));
    RpcRequest { method: "setnetworkactive".to_owned(), params }
}

} // verus!
