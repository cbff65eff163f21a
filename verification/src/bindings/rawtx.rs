//! Bindings for the raw-transaction methods whose argument types are
//! plain values.

use vstd::prelude::*;

use crate::envelope::RpcRequest;
use crate::value::{jv_of_opt_u64, opt_u64_json, JsonValue};

verus! {

pub fn get_raw_transaction_request(txid: &str) -> (r: RpcRequest)
    ensures
        r.method@ == "getrawtransaction"@,
        r.params@.len() == 1,
        (r.params@[0] matches JsonValue::Str(s) && s@ == txid@),
{
    let mut params: Vec<JsonValue> = Vec::new();
    params.push(JsonValue::Str(txid.to_owned()));
    RpcRequest { method: "getrawtransaction".to_owned(), params }
}

pub fn decode_raw_transaction_request(hexstring: &str, iswitness: bool) -> (r: RpcRequest)
    ensures
        r.method@ == "decoderawtransaction"@,
        r.params@.len() == 2,
        (r.params@[0] matches JsonValue::Str(s) && s@ == hexstring@),
        r.params@[1] == JsonValue::Bool(iswitness),
{
    let mut params: Vec<JsonValue> = Vec::new();
    params.push(JsonValue::Str(hexstring.to_owned()));
    params.push(JsonValue::Bool(iswitness));
    RpcRequest { method: "decoderawtransaction".to_owned(), params }
}

pub fn send_raw_transaction_request(signed_tx: &str, max_fee_rate: &Option<u64>) -> (r: RpcRequest)
    ensures
        r.method@ == "sendrawtransaction"@,
        r.params@.len() == 2,
        (r.params@[0] matches JsonValue::Str(s) && s@ == signed_tx@),
        opt_u64_json(r.params@[1], *max_fee_rate),
{
    let mut params: Vec<JsonValue> = Vec::new();
    params.push(JsonValue::Str(signed_tx.to_owned()));
    params.push(jv_of_opt_u64(max_fee_rate));
    RpcRequest { method: "sendrawtransaction".to_owned(), params }
}

pub fn sign_raw_transaction_with_key_request(raw_tx: &str) -> (r: RpcRequest)
    ensures
        r.method@ == "signrawtransactionwithkey"@,
        r.params@.len() == 1,
        (r.params@[0] matches JsonValue::Str(s) && s@ == raw_tx@),
{
    let mut params: Vec<JsonValue> = Vec::new();
    params.push(JsonValue::Str(raw_tx.to_owned()));
    RpcRequest { method: "signrawtransactionwithkey".to_owned(), params }
}

pub fn test_mempool_accept_request(signed_tx: &str, max_fee_rate: &Option<u64>) -> (r: RpcRequest)
    ensures
        r.method@ == "testmempoolaccept"@,
        r.params@.len() == 2,
        (r.params@[0] matches JsonValue::Str(s) && s@ == signed_tx@),
        opt_u64_json(r.params@[1], *max_fee_rate),
{
    let mut params: Vec<JsonValue> = Vec::new();
    params.push(JsonValue::Str(signed_tx.to_owned()));
    params.push(jv_of_opt_u64(max_fee_rate));
    RpcRequest { method: "testmempoolaccept".to_owned(), params }
}

} // verus!
