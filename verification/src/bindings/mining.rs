//! Bindings for the mining methods.

use vstd::prelude::*;

use crate::envelope::{decode_envelope, spec_decode_envelope, RpcError, RpcRequest};
use crate::mining::{mining_info_fields, mining_info_shaped, MiningInfo};
use crate::value::JsonValue;

verus! {

pub fn estimate_smart_fee_request(confirmation_target: u64) -> (r: RpcRequest)
    ensures
        r.method@ == "estimatesmartfee"@,
        r.params@.len() == 1,
        r.params@[0] == JsonValue::UInt(confirmation_target),
{
    let mut params: Vec<JsonValue> = Vec::new();
    params.push(JsonValue::UInt(confirmation_target));
    RpcRequest { method: "estimatesmartfee".to_owned(), params }
}

pub fn get_mining_info_request() -> (r: RpcRequest)
    ensures
        r.method@ == "getmininginfo"@,
        r.params@.len() == 0,
{
    RpcRequest { method: "getmininginfo".to_owned(), params: Vec::new() }
}

/// Decode the reply to a mining-info fetch.
pub fn get_mining_info_response(envelope: JsonValue) -> (r: Result<MiningInfo, RpcError>)
    ensures
        (match spec_decode_envelope(envelope) {
            Err(e) => r == Err::<MiningInfo, RpcError>(e),
            Ok(res) => match r {
                Ok(d) => mining_info_shaped(res) && mining_info_fields(d, res),
                Err(e) => e == RpcError::Decode && !mining_info_shaped(res),
            },
        }),
{
    match decode_envelope(envelope) {
        Err(e) => Err(e),
        Ok(res) => match MiningInfo::from_json(&res) {
            Some(d) => Ok(d),
            None => Err(RpcError::Decode),
        },
    }
}

pub fn get_network_hash_per_second_request() -> (r: RpcRequest)
    ensures
        r.method@ == "getnetworkhashps"@,
        r.params@.len() == 0,
{
    RpcRequest { method: "getnetworkhashps".to_owned(), params: Vec::new() }
}

} // verus!
