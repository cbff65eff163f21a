//! Bindings for the SPV and anchor methods whose argument types are plain
//! values.

use vstd::prelude::*;

use crate::envelope::RpcRequest;
use crate::value::{jv_of_opt_str, opt_str_json, JsonValue};

verus! {

pub fn create_anchor_request(reward_address: &str) -> (r: RpcRequest)
    ensures
        r.method@ == "spv_createanchor"@,
        r.params@.len() == 1,
        (r.params@[0] matches JsonValue::Str(s) && s@ == reward_address@),
{
    let mut params: Vec<JsonValue> = Vec::new();
    params.push(JsonValue::Str(reward_address.to_owned()));
    RpcRequest { method: "spv_createanchor".to_owned(), params }
}

pub fn decode_htlc_script_request(redeem_script: &str) -> (r: RpcRequest)
    ensures
        r.method@ == "spv_decodehtlcscript"@,
        r.params@.len() == 1,
        (r.params@[0] matches JsonValue::Str(s) && s@ == redeem_script@),
{
    let mut params: Vec<JsonValue> = Vec::new();
    params.push(JsonValue::Str(redeem_script.to_owned()));
    RpcRequest { method: "spv_decodehtlcscript".to_owned(), params }
}

pub fn get_address_pub_key_request(address: &str) -> (r: RpcRequest)
    ensures
        r.method@ == "spv_getaddresspubkey"@,
        r.params@.len() == 1,
        (r.params@[0] matches JsonValue::Str(s) && s@ == address@),
{
    let mut params: Vec<JsonValue> = Vec::new();
    params.push(JsonValue::Str(address.to_owned()));
    RpcRequest { method: "spv_getaddresspubkey".to_owned(), params }
}

pub fn get_htlc_seed_request(address: &str) -> (r: RpcRequest)
    ensures
        r.method@ == "spv_gethtlcseed"@,
        r.params@.len() == 1,
        (r.params@[0] matches JsonValue::Str(s) && s@ == address@),
{
    let mut params: Vec<JsonValue> = Vec::new();
    params.push(JsonValue::Str(address.to_owned()));
    RpcRequest { method: "spv_gethtlcseed".to_owned(), params }
}

pub fn get_new_address_request() -> (r: RpcRequest)
    ensures
        r.method@ == "spv_getnewaddress"@,
        r.params@.len() == 0,
{
    RpcRequest { method: "spv_getnewaddress".to_owned(), params: Vec::new() }
}

pub fn list_anchor_auths_request() -> (r: RpcRequest)
    ensures
        r.method@ == "spv_listanchorauths"@,
        r.params@.len() == 0,
{
    RpcRequest { method: "spv_listanchorauths".to_owned(), params: Vec::new() }
}

pub fn list_anchor_reward_confirms_request() -> (r: RpcRequest)
    ensures
        r.method@ == "spv_listanchorrewardconfirms"@,
        r.params@.len() == 0,
{
    RpcRequest { method: "spv_listanchorrewardconfirms".to_owned(), params: Vec::new() }
}

pub fn list_anchor_rewards_request() -> (r: RpcRequest)
    ensures
        r.method@ == "spv_listanchorrewards"@,
        r.params@.len() == 0,
{
    RpcRequest { method: "spv_listanchorrewards".to_owned(), params: Vec::new() }
}

pub fn list_anchors_request() -> (r: RpcRequest)
    ensures
        r.method@ == "spv_listanchors"@,
        r.params@.len() == 0,
{
    RpcRequest { method: "spv_listanchors".to_owned(), params: Vec::new() }
}

pub fn list_anchors_pending_request() -> (r: RpcRequest)
    ensures
        r.method@ == "spv_listanchorspending"@,
        r.params@.len() == 0,
{
    RpcRequest { method: "spv_listanchorspending".to_owned(), params: Vec::new() }
}

pub fn list_anchors_unrewarded_request() -> (r: RpcRequest)
    ensures
        r.method@ == "spv_listanchorsunrewarded"@,
        r.params@.len() == 0,
{
    RpcRequest { method: "spv_listanchorsunrewarded".to_owned(), params: Vec::new() }
}

pub fn list_htlc_outputs_request(script_address: &Option<String>) -> (r: RpcRequest)
    ensures
        r.method@ == "spv_listhtlcoutputs"@,
        r.params@.len() == 1,
        opt_str_json(r.params@[0], *script_address),
{
    let mut params: Vec<JsonValue> = Vec::new();
    params.push(jv_of_opt_str(script_address));
    RpcRequest { method: "spv_listhtlcoutputs".to_owned(), params }
}

pub fn list_received_by_address_request(address: &Option<String>) -> (r: RpcRequest)
    ensures
        r.method@ == "spv_listreceivedbyaddress"@,
        r.params@.len() == 1,
        opt_str_json(r.params@[0], *address),
{
    let mut params: Vec<JsonValue> = Vec::new();
    params.push(jv_of_opt_str(address));
    RpcRequest { method: "spv_listreceivedbyaddress".to_owned(), params }
}

pub fn refund_htlc_request(script_address: &str, destination_address: &str) -> (r: RpcRequest)
    ensures
        r.method@ == "spv_refundhtlc"@,
        r.params@.len() == 2,
        (r.params@[0] matches JsonValue::Str(s) && s@ == script_address@),
        (r.params@[1] matches JsonValue::Str(s) && s@ == destination_address@),
{
    let mut params: Vec<JsonValue> = Vec::new();
    params.push(JsonValue::Str(script_address.to_owned()));
    params.push(JsonValue::Str(destination_address.to_owned()));
    RpcRequest { method: "spv_refundhtlc".to_owned(), params }
}

pub fn refund_htlc_all_request(destination_address: &str) -> (r: RpcRequest)
    ensures
        r.method@ == "spv_refundhtlcall"@,
        r.params@.len() == 1,
        (r.params@[0] matches JsonValue::Str(s) && s@ == destination_address@),
{
    let mut params: Vec<JsonValue> = Vec::new();
    params.push(JsonValue::Str(destination_address.to_owned()));
    RpcRequest { method: "spv_refundhtlcall".to_owned(), params }
}

pub fn set_last_height_request(height: u64) -> (r: RpcRequest)
    ensures
        r.method@ == "spv_setlastheight"@,
        r.params@.len() == 1,
        r.params@[0] == JsonValue::UInt(height),
{
    let mut params: Vec<JsonValue> = Vec::new();
    params.push(JsonValue::UInt(height));
    RpcRequest { method: "spv_setlastheight".to_owned(), params }
}

} // verus!
