//! Bindings for the liquidity-pool methods.

use vstd::prelude::*;

use crate::common::{jv_of_opt_utxo, opt_utxo_json, UTXO};
use crate::envelope::{decode_envelope, spec_decode_envelope, RpcError, RpcRequest};
use crate::poolpair::{
    create_pool_pair_metadata_json, pool_liquidity_options_json, pool_pair_pagination_json,
    pool_pairs_result_fields, pool_pairs_result_shaped, pool_share_options_json,
    pool_swap_metadata_json, update_pool_pair_metadata_json, AddPoolLiquiditySource,
    CreatePoolPairMetadata, PoolLiquidityOptions, PoolPairPagination, PoolPairsResult,
    PoolShareOptions, PoolSwapMetadata, UpdatePoolPairMetadata,
};
use crate::value::{is_strvec_map, jv_of_opt_bool, opt_bool_json, JsonValue};

verus! {

pub fn add_pool_liquidity_request(
    from: &AddPoolLiquiditySource,
    share_address: &str,
    options: &PoolLiquidityOptions,
) -> (r: RpcRequest)
    ensures
        r.method@ == "addpoolliquidity"@,
        r.params@.len() == 3,
        is_strvec_map(r.params@[0], from.0@),
        (r.params@[1] matches JsonValue::Str(s) && s@ == share_address@),
        pool_liquidity_options_json(*options, r.params@[2]),
{
    let mut params: Vec<JsonValue> = Vec::new();
    params.push(from.to_json());
    params.push(JsonValue::Str(share_address.to_owned()));
    params.push(options.to_json());
    RpcRequest { method: "addpoolliquidity".to_owned(), params }
}

pub fn composite_swap_request(metadata: &PoolSwapMetadata, utxos: &Option<UTXO>) -> (r: RpcRequest)
    ensures
        r.method@ == "compositeswap"@,
        r.params@.len() == 2,
        pool_swap_metadata_json(*metadata, r.params@[0]),
        opt_utxo_json(r.params@[1], *utxos),
{
    let mut params: Vec<JsonValue> = Vec::new();
    params.push(metadata.to_json());
    params.push(jv_of_opt_utxo(utxos));
    RpcRequest { method: "compositeswap".to_owned(), params }
}

pub fn create_pool_pair_request(metadata: &CreatePoolPairMetadata, utxos: &Option<UTXO>) -> (r:
    RpcRequest)
    ensures
        r.method@ == "createpoolpair"@,
        r.params@.len() == 2,
        create_pool_pair_metadata_json(*metadata, r.params@[0]),
        opt_utxo_json(r.params@[1], *utxos),
{
    let mut params: Vec<JsonValue> = Vec::new();
    params.push(metadata.to_json());
    params.push(jv_of_opt_utxo(utxos));
    RpcRequest { method: "createpoolpair".to_owned(), params }
}

pub fn get_pool_pair_request(symbol: &str, verbose: &Option<bool>) -> (r: RpcRequest)
    ensures
        r.method@ == "getpoolpair"@,
        r.params@.len() == 2,
        (r.params@[0] matches JsonValue::Str(s) && s@ == symbol@),
        opt_bool_json(r.params@[1], *verbose),
{
    let mut params: Vec<JsonValue> = Vec::new();
    params.push(JsonValue::Str(symbol.to_owned()));
    params.push(jv_of_opt_bool(verbose));
    RpcRequest { method: "getpoolpair".to_owned(), params }
}

/// Decode the reply to a pool-pair fetch or listing.
pub fn get_pool_pair_response(envelope: JsonValue) -> (r: Result<PoolPairsResult, RpcError>)
    ensures
        (match spec_decode_envelope(envelope) {
            Err(e) => r == Err::<PoolPairsResult, RpcError>(e),
            Ok(res) => match r {
                Ok(d) => pool_pairs_result_shaped(res) && pool_pairs_result_fields(d.0@, res),
                Err(e) => e == RpcError::Decode && !pool_pairs_result_shaped(res),
            },
        }),
{
    match decode_envelope(envelope) {
        Err(e) => Err(e),
        Ok(res) => match PoolPairsResult::from_json(&res) {
            Some(d) => Ok(d),
            None => Err(RpcError::Decode),
        },
    }
}

pub fn list_pool_pairs_request(pagination: &Option<PoolPairPagination>, verbose: &Option<bool>) -> (
    r: RpcRequest)
    ensures
        r.method@ == "listpoolpairs"@,
        r.params@.len() == 2,
        (match *pagination {
            None => (r.params@[0] matches JsonValue::Obj(fs) && fs@.len() == 0),
            Some(p) => pool_pair_pagination_json(p, r.params@[0]),
        }),
        opt_bool_json(r.params@[1], *verbose),
{
    let pag = match pagination {
        None => JsonValue::Obj(Vec::new()),
        Some(p) => p.to_json(),
    };
    let mut params: Vec<JsonValue> = Vec::new();
    params.push(pag);
    params.push(jv_of_opt_bool(verbose));
    RpcRequest { method: "listpoolpairs".to_owned(), params }
}

pub fn list_pool_shares_request(
    pagination: &PoolPairPagination,
    verbose: &Option<bool>,
    options: &PoolShareOptions,
) -> (r: RpcRequest)
    ensures
        r.method@ == "listpoolshares"@,
        r.params@.len() == 3,
        pool_pair_pagination_json(*pagination, r.params@[0]),
        opt_bool_json(r.params@[1], *verbose),
        pool_share_options_json(*options, r.params@[2]),
{
    let mut params: Vec<JsonValue> = Vec::new();
    params.push(pagination.to_json());
    params.push(jv_of_opt_bool(verbose));
    params.push(options.to_json());
    RpcRequest { method: "listpoolshares".to_owned(), params }
}

pub fn pool_swap_request(metadata: &PoolSwapMetadata, utxos: &Option<UTXO>) -> (r: RpcRequest)
    ensures
        r.method@ == "poolswap"@,
        r.params@.len() == 2,
        pool_swap_metadata_json(*metadata, r.params@[0]),
        opt_utxo_json(r.params@[1], *utxos),
{
    let mut params: Vec<JsonValue> = Vec::new();
    params.push(metadata.to_json());
    params.push(jv_of_opt_utxo(utxos));
    RpcRequest { method: "poolswap".to_owned(), params }
}

pub fn remove_pool_liquidity_request(
    address: &str,
    pool_account: &str,
    options: &PoolLiquidityOptions,
) -> (r: RpcRequest)
    ensures
        r.method@ == "removepoolliquidity"@,
        r.params@.len() == 3,
        (r.params@[0] matches JsonValue::Str(s) && s@ == address@),
        (r.params@[1] matches JsonValue::Str(s) && s@ == pool_account@),
        pool_liquidity_options_json(*options, r.params@[2]),
{
    let mut params: Vec<JsonValue> = Vec::new();
    params.push(JsonValue::Str(address.to_owned()));
    params.push(JsonValue::Str(pool_account.to_owned()));
    params.push(options.to_json());
    RpcRequest { method: "removepoolliquidity".to_owned(), params }
}

pub fn test_pool_swap_request(metadata: &PoolSwapMetadata) -> (r: RpcRequest)
    ensures
        r.method@ == "testpoolswap"@,
        r.params@.len() == 1,
        pool_swap_metadata_json(*metadata, r.params@[0]),
{
    let mut params: Vec<JsonValue> = Vec::new();
    params.push(metadata.to_json());
    RpcRequest { method: "testpoolswap".to_owned(), params }
}

pub fn update_pool_pair_request(metadata: &UpdatePoolPairMetadata, utxos: &Option<UTXO>) -> (r:
    RpcRequest)
    ensures
        r.method@ == "updatepoolpair"@,
        r.params@.len() == 2,
        update_pool_pair_metadata_json(*metadata, r.params@[0]),
        opt_utxo_json(r.params@[1], *utxos),
{
    let mut params: Vec<JsonValue> = Vec::new();
    params.push(metadata.to_json());
    params.push(jv_of_opt_utxo(utxos));
    RpcRequest { method: "updatepoolpair".to_owned(), params }
}

} // verus!
