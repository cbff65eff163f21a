//! Bindings for the chain-state methods.

use vstd::prelude::*;

use crate::blockchain::{
    blockchain_info_fields, blockchain_info_shaped, get_block_result_shaped, block_full_fields,
    block_full_shaped, block_ids_fields, block_ids_shaped, BlockchainInfo, GetBlockResult,
};
use crate::envelope::{decode_envelope, spec_decode_envelope, RpcError, RpcRequest};
use crate::value::{
    field_u32, jv_of_opt_str_vec, jv_of_opt_u64, jv_str_of, jv_u64_of,
    opt_strvec_json, opt_u64_json, JsonValue,
};

verus! {

pub fn get_best_block_hash_request() -> (r: RpcRequest)
    ensures
        r.method@ == "getbestblockhash"@,
        r.params@.len() == 0,
{
    RpcRequest { method: "getbestblockhash".to_owned(), params: Vec::new() }
}

/// Build a block fetch.  A verbosity above 2 is rejected locally, before
/// any request is sent.
pub fn get_block_request(hash: &str, verbosity: u8) -> (r: Result<RpcRequest, RpcError>)
    ensures
        verbosity > 2 <==> (r matches Err(e) && e matches RpcError::Validation(m) && m@
            == "Only verbosity up to 2 is supported"@),
        verbosity <= 2 ==> r is Ok,
        r matches Ok(req) ==> {
            &&& req.method@ == "getblock"@
            &&& req.params@.len() == 2
            &&& (req.params@[0] matches JsonValue::Str(s) && s@ == hash@)
            &&& req.params@[1] == JsonValue::UInt(verbosity as u64)
        },
{
    if verbosity > 2 {
        return Err(RpcError::Validation("Only verbosity up to 2 is supported".to_owned()));
    }
    let mut params: Vec<JsonValue> = Vec::new();
    params.push(JsonValue::Str(hash.to_owned()));
    params.push(JsonValue::UInt(verbosity as u64));
    Ok(RpcRequest { method: "getblock".to_owned(), params })
}

/// Decode the reply to a block fetch, trying the most structured shape
/// first.
pub fn get_block_response(envelope: JsonValue) -> (r: Result<GetBlockResult, RpcError>)
    ensures
        (match spec_decode_envelope(envelope) {
            Err(e) => r == Err::<GetBlockResult, RpcError>(e),
            Ok(res) => match r {
                Ok(d) => {
                    &&& get_block_result_shaped(res)
                    &&& (block_full_shaped(res) ==> d is Full)
                    &&& (match d {
                        GetBlockResult::Full(b) => block_full_fields(b, res),
                        GetBlockResult::TxHash(b) => (block_ids_fields(b, res)
                            && !block_full_shaped(res)),
                        GetBlockResult::Hex(s) => (jv_str_of(res) == Some(s) && !block_full_shaped(
                            res,
                        ) && !block_ids_shaped(res)),
                    })
                },
                Err(e) => e == RpcError::Decode && !get_block_result_shaped(res),
            },
        }),
{
    match decode_envelope(envelope) {
        Err(e) => Err(e),
        Ok(res) => match GetBlockResult::from_json(&res) {
            Some(d) => Ok(d),
            None => Err(RpcError::Decode),
        },
    }
}

pub fn get_block_count_request() -> (r: RpcRequest)
    ensures
        r.method@ == "getblockcount"@,
        r.params@.len() == 0,
{
    RpcRequest { method: "getblockcount".to_owned(), params: Vec::new() }
}

/// Decode the reply to a block-count fetch: a bare integer.
pub fn get_block_count_response(envelope: JsonValue) -> (r: Result<u64, RpcError>)
    ensures
        (match spec_decode_envelope(envelope) {
            Err(e) => r == Err::<u64, RpcError>(e),
            Ok(res) => match r {
                Ok(h) => jv_u64_of(res) == Some(h),
                Err(e) => e == RpcError::Decode && jv_u64_of(res) is None,
            },
        }),
{
    match decode_envelope(envelope) {
        Err(e) => Err(e),
        Ok(res) => match crate::value::jv_as_u64(&res) {
            Some(h) => Ok(h),
            None => Err(RpcError::Decode),
        },
    }
}

pub fn get_block_hash_request(height: u32) -> (r: RpcRequest)
    ensures
        r.method@ == "getblockhash"@,
        r.params@.len() == 1,
        r.params@[0] == JsonValue::UInt(height as u64),
{
    let mut params: Vec<JsonValue> = Vec::new();
    params.push(JsonValue::UInt(height as u64));
    RpcRequest { method: "getblockhash".to_owned(), params }
}

pub fn get_block_header_request(hash: &str) -> (r: RpcRequest)
    ensures
        r.method@ == "getblockheader"@,
        r.params@.len() == 1,
        (r.params@[0] matches JsonValue::Str(s) && s@ == hash@),
{
    let mut params: Vec<JsonValue> = Vec::new();
    params.push(JsonValue::Str(hash.to_owned()));
    RpcRequest { method: "getblockheader".to_owned(), params }
}

pub fn get_block_stats_request(height: u32, stats: &Option<Vec<String>>) -> (r: RpcRequest)
    ensures
        r.method@ == "getblockstats"@,
        r.params@.len() == 2,
        r.params@[0] == JsonValue::UInt(height as u64),
        opt_strvec_json(
            r.params@[1],
            match *stats {
                None => None,
                Some(ss) => Some(ss.deep_view()),
            },
        ),
{
    let mut params: Vec<JsonValue> = Vec::new();
    params.push(JsonValue::UInt(height as u64));
    params.push(jv_of_opt_str_vec(stats));
    RpcRequest { method: "getblockstats".to_owned(), params }
}

pub fn get_blockchain_info_request() -> (r: RpcRequest)
    ensures
        r.method@ == "getblockchaininfo"@,
        r.params@.len() == 0,
{
    RpcRequest { method: "getblockchaininfo".to_owned(), params: Vec::new() }
}

/// Decode the reply to a blockchain-info fetch.
pub fn get_blockchain_info_response(envelope: JsonValue) -> (r: Result<BlockchainInfo, RpcError>)
    ensures
        (match spec_decode_envelope(envelope) {
            Err(e) => r == Err::<BlockchainInfo, RpcError>(e),
            Ok(res) => match r {
                Ok(d) => blockchain_info_shaped(res) && blockchain_info_fields(d, res),
                Err(e) => e == RpcError::Decode && !blockchain_info_shaped(res),
            },
        }),
{
    match decode_envelope(envelope) {
        Err(e) => Err(e),
        Ok(res) => match BlockchainInfo::from_json(&res) {
            Some(d) => Ok(d),
            None => Err(RpcError::Decode),
        },
    }
}

/// The current chain height: the `blocks` field of the blockchain-info
/// payload, unwrapped as a plain integer.
pub fn chain_height_response(envelope: JsonValue) -> (r: Result<u32, RpcError>)
    ensures
        (match spec_decode_envelope(envelope) {
            Err(e) => r == Err::<u32, RpcError>(e),
            Ok(res) => match r {
                Ok(h) => blockchain_info_shaped(res) && field_u32(res, "blocks"@) == Some(h),
                Err(e) => e == RpcError::Decode && !blockchain_info_shaped(res),
            },
        }),
{
    match decode_envelope(envelope) {
        Err(e) => Err(e),
        Ok(res) => match BlockchainInfo::from_json(&res) {
            Some(d) => Ok(d.blocks),
            None => Err(RpcError::Decode),
        },
    }
}

pub fn get_chain_tips_request() -> (r: RpcRequest)
    ensures
        r.method@ == "getchaintips"@,
        r.params@.len() == 0,
{
    RpcRequest { method: "getchaintips".to_owned(), params: Vec::new() }
}

pub fn get_chain_tx_stats_request(n_blocks: &Option<u64>, block_hash: &Option<String>) -> (r:
    RpcRequest)
    ensures
        r.method@ == "getchaintxstats"@,
        r.params@.len() == 2,
        opt_u64_json(r.params@[0], *n_blocks),
        crate::value::opt_str_json(r.params@[1], *block_hash),
{
    let mut params: Vec<JsonValue> = Vec::new();
    params.push(jv_of_opt_u64(n_blocks));
    params.push(crate::value::jv_of_opt_str(block_hash));
    RpcRequest { method: "getchaintxstats".to_owned(), params }
}

pub fn get_difficulty_request() -> (r: RpcRequest)
    ensures
        r.method@ == "getdifficulty"@,
        r.params@.len() == 0,
{
    RpcRequest { method: "getdifficulty".to_owned(), params: Vec::new() }
}

pub fn get_mempool_ancestors_request(tx_id: &str) -> (r: RpcRequest)
    ensures
        r.method@ == "getmempoolancestors"@,
        r.params@.len() == 1,
        (r.params@[0] matches JsonValue::Str(s) && s@ == tx_id@),
{
    let mut params: Vec<JsonValue> = Vec::new();
    params.push(JsonValue::Str(tx_id.to_owned()));
    RpcRequest { method: "getmempoolancestors".to_owned(), params }
}

pub fn get_mempool_descendants_request(tx_id: &str) -> (r: RpcRequest)
    ensures
        r.method@ == "getmempooldescendants"@,
        r.params@.len() == 1,
        (r.params@[0] matches JsonValue::Str(s) && s@ == tx_id@),
{
    let mut params: Vec<JsonValue> = Vec::new();
    params.push(JsonValue::Str(tx_id.to_owned()));
    RpcRequest { method: "getmempooldescendants".to_owned(), params }
}

pub fn get_mempool_entry_request(tx_id: &str) -> (r: RpcRequest)
    ensures
        r.method@ == "getmempoolentry"@,
        r.params@.len() == 1,
        (r.params@[0] matches JsonValue::Str(s) && s@ == tx_id@),
{
    let mut params: Vec<JsonValue> = Vec::new();
    params.push(JsonValue::Str(tx_id.to_owned()));
    RpcRequest { method: "getmempoolentry".to_owned(), params }
}

pub fn get_mempool_info_request() -> (r: RpcRequest)
    ensures
        r.method@ == "getmempoolinfo"@,
        r.params@.len() == 0,
{
    RpcRequest { method: "getmempoolinfo".to_owned(), params: Vec::new() }
}

pub fn get_raw_mempool_request() -> (r: RpcRequest)
    ensures
        r.method@ == "getrawmempool"@,
        r.params@.len() == 0,
{
    RpcRequest { method: "getrawmempool".to_owned(), params: Vec::new() }
}

/// Build a transaction-output fetch; an omitted mempool flag defaults to
/// true before encoding.
pub fn get_tx_out_request(tx_id: &str, index: u64, include_mempool: &Option<bool>) -> (r:
    RpcRequest)
    ensures
        r.method@ == "gettxout"@,
        r.params@.len() == 3,
        (r.params@[0] matches JsonValue::Str(s) && s@ == tx_id@),
        r.params@[1] == JsonValue::UInt(index),
        r.params@[2] == JsonValue::Bool(
            match *include_mempool {
                None => true,
                Some(b) => b,
            },
        ),
{
    let flag = match include_mempool {
        None => true,
        Some(b) => *b,
    };
    let mut params: Vec<JsonValue> = Vec::new();
    params.push(JsonValue::Str(tx_id.to_owned()));
    params.push(JsonValue::UInt(index));
    params.push(JsonValue::Bool(flag));
    RpcRequest { method: "gettxout".to_owned(), params }
}

pub fn get_tx_out_set_info_request() -> (r: RpcRequest)
    ensures
        r.method@ == "gettxoutsetinfo"@,
        r.params@.len() == 0,
{
    RpcRequest { method: "gettxoutsetinfo".to_owned(), params: Vec::new() }
}

pub fn wait_for_block_request(blockhash: &str) -> (r: RpcRequest)
    ensures
        r.method@ == "waitforblock"@,
        r.params@.len() == 1,
        (r.params@[0] matches JsonValue::Str(s) && s@ == blockhash@),
{
    let mut params: Vec<JsonValue> = Vec::new();
    params.push(JsonValue::Str(blockhash.to_owned()));
    RpcRequest { method: "waitforblock".to_owned(), params }
}

pub fn wait_for_block_height_request(height: u64) -> (r: RpcRequest)
    ensures
        r.method@ == "waitforblockheight"@,
        r.params@.len() == 1,
        r.params@[0] == JsonValue::UInt(height),
{
    let mut params: Vec<JsonValue> = Vec::new();
    params.push(JsonValue::UInt(height));
    RpcRequest { method: "waitforblockheight".to_owned(), params }
}

pub fn wait_for_new_block_request() -> (r: RpcRequest)
    ensures
        r.method@ == "waitfornewblock"@,
        r.params@.len() == 0,
{
    RpcRequest { method: "waitfornewblock".to_owned(), params: Vec::new() }
}

} // verus!
