//! Bindings for the node-introspection methods.

use vstd::prelude::*;

use crate::envelope::RpcRequest;

verus! {

pub fn get_rpc_info_request() -> (r: RpcRequest)
    ensures
        r.method@ == "getrpcinfo"@,
        r.params@.len() == 0,
{
    RpcRequest { method: "getrpcinfo".to_owned(), params: Vec::new() }
}

pub fn uptime_request() -> (r: RpcRequest)
    ensures
        r.method@ == "uptime"@,
        r.params@.len() == 0,
{
    RpcRequest { method: "uptime".to_owned(), params: Vec::new() }
}

} // verus!
