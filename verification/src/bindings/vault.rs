//! Bindings for the vault and auction methods.

use vstd::prelude::*;

use crate::common::{jv_of_opt_utxo, opt_utxo_json, UTXO};
use crate::envelope::{decode_envelope, spec_decode_envelope, RpcError, RpcRequest};
use crate::value::{jv_of_opt_str, jv_of_opt_u64, opt_str_json, opt_u64_json, JsonValue};
use crate::vault::{
    auction_pagination_json, close_vault_json, create_vault_json, deposit_vault_json,
    list_auction_history_pagination_json, list_vault_options_json, place_auction_bid_json,
    token_percentage_split_json, update_vault_json, vault_active_fields, vault_active_shaped,
    vault_liquidation_fields, vault_pagination_json, vault_result_shaped, withdraw_vault_json,
    AuctionPagination, CloseVault, CreateVault, DepositVault, ListAuctionHistoryPagination,
    ListVaultOptions, PlaceAuctionBid, TokenPercentageSplit, UpdateVault, VaultPagination,
    VaultResult, WithdrawVault,
};

verus! {

pub fn close_vault_request(close_vault: &CloseVault, utxos: &Option<UTXO>) -> (r: RpcRequest)
    ensures
        r.method@ == "closevault"@,
        r.params@.len() == 2,
        close_vault_json(*close_vault, r.params@[0]),
        opt_utxo_json(r.params@[1], *utxos),
{
    let mut params: Vec<JsonValue> = Vec::new();
    params.push(close_vault.to_json());
    params.push(jv_of_opt_utxo(utxos));
    RpcRequest { method: "closevault".to_owned(), params }
}

pub fn create_vault_request(vault: &CreateVault, utxos: &Option<UTXO>) -> (r: RpcRequest)
    ensures
        r.method@ == "createvault"@,
        r.params@.len() == 2,
        create_vault_json(*vault, r.params@[0]),
        opt_utxo_json(r.params@[1], *utxos),
{
    let mut params: Vec<JsonValue> = Vec::new();
    params.push(vault.to_json());
    params.push(jv_of_opt_utxo(utxos));
    RpcRequest { method: "createvault".to_owned(), params }
}

pub fn deposit_to_vault_request(deposit_vault: &DepositVault, utxos: &Option<UTXO>) -> (r:
    RpcRequest)
    ensures
        r.method@ == "deposittovault"@,
        r.params@.len() == 2,
        deposit_vault_json(*deposit_vault, r.params@[0]),
        opt_utxo_json(r.params@[1], *utxos),
{
    let mut params: Vec<JsonValue> = Vec::new();
    params.push(deposit_vault.to_json());
    params.push(jv_of_opt_utxo(utxos));
    RpcRequest { method: "deposittovault".to_owned(), params }
}

pub fn estimate_collateral_request(target_ratio: u64, token_split: &TokenPercentageSplit) -> (r:
    RpcRequest)
    ensures
        r.method@ == "estimatecollateral"@,
        r.params@.len() == 2,
        r.params@[0] == JsonValue::UInt(target_ratio),
        token_percentage_split_json(*token_split, r.params@[1]),
{
    let mut params: Vec<JsonValue> = Vec::new();
    params.push(JsonValue::UInt(target_ratio));
    params.push(token_split.to_json());
    RpcRequest { method: "estimatecollateral".to_owned(), params }
}

pub fn estimate_loan_request(
    vault_id: &str,
    token_split: &TokenPercentageSplit,
    target_ratio: &Option<u64>,
) -> (r: RpcRequest)
    ensures
        r.method@ == "estimateloan"@,
        r.params@.len() == 3,
        (r.params@[0] matches JsonValue::Str(s) && s@ == vault_id@),
        token_percentage_split_json(*token_split, r.params@[1]),
        opt_u64_json(r.params@[2], *target_ratio),
{
    let mut params: Vec<JsonValue> = Vec::new();
    params.push(JsonValue::Str(vault_id.to_owned()));
    params.push(token_split.to_json());
    params.push(jv_of_opt_u64(target_ratio));
    RpcRequest { method: "estimateloan".to_owned(), params }
}

pub fn estimate_vault_request() -> (r: RpcRequest)
    ensures
        r.method@ == "estimatevault"@,
        r.params@.len() == 0,
{
    RpcRequest { method: "estimatevault".to_owned(), params: Vec::new() }
}

/// Build a vault fetch; an omitted verbose flag defaults to false before
/// encoding.
pub fn get_vault_request(vault_id: &str, verbose: &Option<bool>) -> (r: RpcRequest)
    ensures
        r.method@ == "getvault"@,
        r.params@.len() == 2,
        (r.params@[0] matches JsonValue::Str(s) && s@ == vault_id@),
        r.params@[1] == JsonValue::Bool(
            match *verbose {
                None => false,
                Some(b) => b,
            },
        ),
{
    let flag = match verbose {
        None => false,
        Some(b) => *b,
    };
    let mut params: Vec<JsonValue> = Vec::new();
    params.push(JsonValue::Str(vault_id.to_owned()));
    params.push(JsonValue::Bool(flag));
    RpcRequest { method: "getvault".to_owned(), params }
}

/// Decode the reply to a vault fetch, trying the active shape before the
/// liquidation shape.
pub fn get_vault_response(envelope: JsonValue) -> (r: Result<VaultResult, RpcError>)
    ensures
        (match spec_decode_envelope(envelope) {
            Err(e) => r == Err::<VaultResult, RpcError>(e),
            Ok(res) => match r {
                Ok(d) => {
                    &&& vault_result_shaped(res)
                    &&& (vault_active_shaped(res) ==> d is VaultActive)
                    &&& (match d {
                        VaultResult::VaultActive(a) => vault_active_fields(a, res),
                        VaultResult::VaultLiquidation(l) => (vault_liquidation_fields(l, res)
                            && !vault_active_shaped(res)),
                    })
                },
                Err(e) => e == RpcError::Decode && !vault_result_shaped(res),
            },
        }),
{
    match decode_envelope(envelope) {
        Err(e) => Err(e),
        Ok(res) => match VaultResult::from_json(&res) {
            Some(d) => Ok(d),
            None => Err(RpcError::Decode),
        },
    }
}

pub fn list_auction_history_request(
    owner: &Option<String>,
    pagination: &Option<ListAuctionHistoryPagination>,
) -> (r: RpcRequest)
    ensures
        r.method@ == "listauctionhistory"@,
        r.params@.len() == 2,
        opt_str_json(r.params@[0], *owner),
        (match *pagination {
            None => r.params@[1] is Null,
            Some(p) => list_auction_history_pagination_json(p, r.params@[1]),
        }),
{
    let pag = match pagination {
        None => JsonValue::Null,
        Some(p) => p.to_json(),
    };
    let mut params: Vec<JsonValue> = Vec::new();
    params.push(jv_of_opt_str(owner));
    params.push(pag);
    RpcRequest { method: "listauctionhistory".to_owned(), params }
}

pub fn list_auctions_request(pagination: &Option<AuctionPagination>) -> (r: RpcRequest)
    ensures
        r.method@ == "listauctions"@,
        r.params@.len() == 1,
        (match *pagination {
            None => (r.params@[0] matches JsonValue::Obj(fs) && fs@.len() == 0),
            Some(p) => auction_pagination_json(p, r.params@[0]),
        }),
{
    let pag = match pagination {
        None => JsonValue::Obj(Vec::new()),
        Some(p) => p.to_json(),
    };
    let mut params: Vec<JsonValue> = Vec::new();
    params.push(pag);
    RpcRequest { method: "listauctions".to_owned(), params }
}

pub fn list_vaults_request(options: &ListVaultOptions, pagination: &VaultPagination) -> (r:
    RpcRequest)
    ensures
        r.method@ == "listvaults"@,
        r.params@.len() == 2,
        list_vault_options_json(*options, r.params@[0]),
        vault_pagination_json(*pagination, r.params@[1]),
{
    let mut params: Vec<JsonValue> = Vec::new();
    params.push(options.to_json());
    params.push(pagination.to_json());
    RpcRequest { method: "listvaults".to_owned(), params }
}

pub fn place_auction_bid_request(place_auction_bid: &PlaceAuctionBid, utxos: &Option<UTXO>) -> (r:
    RpcRequest)
    ensures
        r.method@ == "placeauctionbid"@,
        r.params@.len() == 2,
        place_auction_bid_json(*place_auction_bid, r.params@[0]),
        opt_utxo_json(r.params@[1], *utxos),
{
    let mut params: Vec<JsonValue> = Vec::new();
    params.push(place_auction_bid.to_json());
    params.push(jv_of_opt_utxo(utxos));
    RpcRequest { method: "placeauctionbid".to_owned(), params }
}

pub fn update_vault_request(vault_id: &str, vault: &UpdateVault, utxos: &Option<UTXO>) -> (r:
    RpcRequest)
    ensures
        r.method@ == "updatevault"@,
        r.params@.len() == 3,
        (r.params@[0] matches JsonValue::Str(s) && s@ == vault_id@),
        update_vault_json(*vault, r.params@[1]),
        opt_utxo_json(r.params@[2], *utxos),
{
    let mut params: Vec<JsonValue> = Vec::new();
    params.push(JsonValue::Str(vault_id.to_owned()));
    params.push(vault.to_json());
    params.push(jv_of_opt_utxo(utxos));
    RpcRequest { method: "updatevault".to_owned(), params }
}

pub fn withdraw_from_vault_request(withdraw_vault: &WithdrawVault, utxos: &Option<UTXO>) -> (r:
    RpcRequest)
    ensures
        r.method@ == "withdrawfromvault"@,
        r.params@.len() == 2,
        withdraw_vault_json(*withdraw_vault, r.params@[0]),
        opt_utxo_json(r.params@[1], *utxos),
{
    let mut params: Vec<JsonValue> = Vec::new();
    params.push(withdraw_vault.to_json());
    params.push(jv_of_opt_utxo(utxos));
    RpcRequest { method: "withdrawfromvault".to_owned(), params }
}

} // verus!
