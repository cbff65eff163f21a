//! Bindings for the account methods.

use vstd::prelude::*;

use crate::account::{
    account_history_count_options_json,
    account_history_fields, account_history_options_json, account_history_shaped,
    accounts_result_arr_fields, accounts_result_arr_shaped, accounts_results_from_json,
    balance_transfer_account_options_json, burn_history_options_json, future_swap_json,
    get_account_pagination_json, get_token_balances_options_json, list_accounts_pagination_json,
    send_tokens_options_json, transfer_domain_arr_json, transfer_domains_to_json, AccountHistory,
    AccountHistoryCountOptions, AccountHistoryOptions, AccountsResult, AccountsResultOwner,
    AddressBalances, BalanceTransferAccountOptions, BalanceTransferPayload, BurnHistoryOptions,
    FutureSwap, GetAccountPagination, GetTokenBalancesOptions, ListAccountsPagination,
    SendTokensOptions, TransferDomain,
};
use crate::common::{jv_of_opt_utxo, opt_utxo_json, UTXO};
use crate::envelope::{decode_envelope, spec_decode_envelope, RpcError, RpcRequest};
use crate::value::{
    is_str_map, is_strvec_map, jv_of_opt_bool, jv_of_opt_str, opt_bool_json, opt_str_json,
    JsonValue,
};

verus! {

pub fn account_to_account_request(
    from: &str,
    payload: &BalanceTransferPayload,
    options: &BalanceTransferAccountOptions,
) -> (r: RpcRequest)
    ensures
        r.method@ == "accounttoaccount"@,
        r.params@.len() == 3,
        (r.params@[0] matches JsonValue::Str(s) && s@ == from@),
        is_str_map(r.params@[1], payload.0@),
        balance_transfer_account_options_json(*options, r.params@[2]),
{
    let mut params: Vec<JsonValue> = Vec::new();
    params.push(JsonValue::Str(from.to_owned()));
    params.push(payload.to_json());
    params.push(options.to_json());
    RpcRequest { method: "accounttoaccount".to_owned(), params }
}

pub fn account_to_utxos_request(
    from: &str,
    payload: &BalanceTransferPayload,
    options: &BalanceTransferAccountOptions,
) -> (r: RpcRequest)
    ensures
        r.method@ == "accounttoutxos"@,
        r.params@.len() == 3,
        (r.params@[0] matches JsonValue::Str(s) && s@ == from@),
        is_str_map(r.params@[1], payload.0@),
        balance_transfer_account_options_json(*options, r.params@[2]),
{
    let mut params: Vec<JsonValue> = Vec::new();
    params.push(JsonValue::Str(from.to_owned()));
    params.push(payload.to_json());
    params.push(options.to_json());
    RpcRequest { method: "accounttoutxos".to_owned(), params }
}

pub fn future_swap_request(future: &FutureSwap, utxos: &Option<UTXO>) -> (r: RpcRequest)
    ensures
        r.method@ == "futureswap"@,
        r.params@.len() == 2,
        future_swap_json(*future, r.params@[0]),
        opt_utxo_json(r.params@[1], *utxos),
{
    let mut params: Vec<JsonValue> = Vec::new();
    params.push(future.to_json());
    params.push(jv_of_opt_utxo(utxos));
    RpcRequest { method: "futureswap".to_owned(), params }
}

pub fn get_account_request(
    owner: &str,
    pagination: &Option<GetAccountPagination>,
    indexed_amounts: &Option<bool>,
) -> (r: RpcRequest)
    ensures
        r.method@ == "getaccount"@,
        r.params@.len() == 3,
        (r.params@[0] matches JsonValue::Str(s) && s@ == owner@),
        (match *pagination {
            None => (r.params@[1] matches JsonValue::Obj(fs) && fs@.len() == 0),
            Some(p) => get_account_pagination_json(p, r.params@[1]),
        }),
        opt_bool_json(r.params@[2], *indexed_amounts),
{
    let pag = match pagination {
        None => JsonValue::Obj(Vec::new()),
        Some(p) => p.to_json(),
    };
    let mut params: Vec<JsonValue> = Vec::new();
    params.push(JsonValue::Str(owner.to_owned()));
    params.push(pag);
    params.push(jv_of_opt_bool(indexed_amounts));
    RpcRequest { method: "getaccount".to_owned(), params }
}

pub fn get_account_history_request(owner: &str, block_height: u32, txn: u32) -> (r: RpcRequest)
    ensures
        r.method@ == "getaccounthistory"@,
        r.params@.len() == 3,
        (r.params@[0] matches JsonValue::Str(s) && s@ == owner@),
        r.params@[1] == JsonValue::UInt(block_height as u64),
        r.params@[2] == JsonValue::UInt(txn as u64),
{
    let mut params: Vec<JsonValue> = Vec::new();
    params.push(JsonValue::Str(owner.to_owned()));
    params.push(JsonValue::UInt(block_height as u64));
    params.push(JsonValue::UInt(txn as u64));
    RpcRequest { method: "getaccounthistory".to_owned(), params }
}

/// Decode the reply to an account-history fetch.
pub fn get_account_history_response(envelope: JsonValue) -> (r: Result<AccountHistory, RpcError>)
    ensures
        (match spec_decode_envelope(envelope) {
            Err(e) => r == Err::<AccountHistory, RpcError>(e),
            Ok(res) => match r {
                Ok(d) => account_history_shaped(res) && account_history_fields(d, res),
                Err(e) => e == RpcError::Decode && !account_history_shaped(res),
            },
        }),
{
    match decode_envelope(envelope) {
        Err(e) => Err(e),
        Ok(res) => match AccountHistory::from_json(&res) {
            Some(d) => Ok(d),
            None => Err(RpcError::Decode),
        },
    }
}

pub fn get_burn_info_request() -> (r: RpcRequest)
    ensures
        r.method@ == "getburninfo"@,
        r.params@.len() == 0,
{
    RpcRequest { method: "getburninfo".to_owned(), params: Vec::new() }
}

pub fn get_pending_dusd_swaps_request(address: &str) -> (r: RpcRequest)
    ensures
        r.method@ == "getpendingdusdswaps"@,
        r.params@.len() == 1,
        (r.params@[0] matches JsonValue::Str(s) && s@ == address@),
{
    let mut params: Vec<JsonValue> = Vec::new();
    params.push(JsonValue::Str(address.to_owned()));
    RpcRequest { method: "getpendingdusdswaps".to_owned(), params }
}

pub fn get_pending_future_swaps_request(address: &str) -> (r: RpcRequest)
    ensures
        r.method@ == "getpendingfutureswaps"@,
        r.params@.len() == 1,
        (r.params@[0] matches JsonValue::Str(s) && s@ == address@),
{
    let mut params: Vec<JsonValue> = Vec::new();
    params.push(JsonValue::Str(address.to_owned()));
    RpcRequest { method: "getpendingfutureswaps".to_owned(), params }
}

pub fn get_token_balances_request(
    pagination: &Option<GetAccountPagination>,
    indexed_amounts: &Option<bool>,
    options: &Option<GetTokenBalancesOptions>,
) -> (r: RpcRequest)
    ensures
        r.method@ == "gettokenbalances"@,
        r.params@.len() == 3,
        (match *pagination {
            None => r.params@[0] is Null,
            Some(p) => get_account_pagination_json(p, r.params@[0]),
        }),
        opt_bool_json(r.params@[1], *indexed_amounts),
        (match *options {
            None => r.params@[2] is Null,
            Some(o) => get_token_balances_options_json(o, r.params@[2]),
        }),
{
    let pag = match pagination {
        None => JsonValue::Null,
        Some(p) => p.to_json(),
    };
    let opts = match options {
        None => JsonValue::Null,
        Some(o) => o.to_json(),
    };
    let mut params: Vec<JsonValue> = Vec::new();
    params.push(pag);
    params.push(jv_of_opt_bool(indexed_amounts));
    params.push(opts);
    RpcRequest { method: "gettokenbalances".to_owned(), params }
}

pub fn history_count_request(owner: &Option<String>, options: &AccountHistoryCountOptions) -> (r:
    RpcRequest)
    ensures
        r.method@ == "historycount"@,
        r.params@.len() == 2,
        opt_str_json(r.params@[0], *owner),
        account_history_count_options_json(*options, r.params@[1]),
{
    let mut params: Vec<JsonValue> = Vec::new();
    params.push(jv_of_opt_str(owner));
    params.push(options.to_json());
    RpcRequest { method: "historycount".to_owned(), params }
}

pub fn list_account_history_request(
    owner: &Option<String>,
    options: &AccountHistoryOptions,
) -> (r: RpcRequest)
    ensures
        r.method@ == "listaccounthistory"@,
        r.params@.len() == 2,
        opt_str_json(r.params@[0], *owner),
        account_history_options_json(*options, r.params@[1]),
{
    let mut params: Vec<JsonValue> = Vec::new();
    params.push(jv_of_opt_str(owner));
    params.push(options.to_json());
    RpcRequest { method: "listaccounthistory".to_owned(), params }
}

pub fn list_accounts_request(
    pagination: &Option<ListAccountsPagination>,
    verbose: &Option<bool>,
    indexed_amounts: &Option<bool>,
    is_mine_only: &Option<bool>,
) -> (r: RpcRequest)
    ensures
        r.method@ == "listaccounts"@,
        r.params@.len() == 4,
        (match *pagination {
            None => r.params@[0] is Null,
            Some(p) => list_accounts_pagination_json(p, r.params@[0]),
        }),
        opt_bool_json(r.params@[1], *verbose),
        opt_bool_json(r.params@[2], *indexed_amounts),
        opt_bool_json(r.params@[3], *is_mine_only),
{
    let pag = match pagination {
        None => JsonValue::Null,
        Some(p) => p.to_json(),
    };
    let mut params: Vec<JsonValue> = Vec::new();
    params.push(pag);
    params.push(jv_of_opt_bool(verbose));
    params.push(jv_of_opt_bool(indexed_amounts));
    params.push(jv_of_opt_bool(is_mine_only));
    RpcRequest { method: "listaccounts".to_owned(), params }
}

/// Decode the reply to an account listing.
pub fn list_accounts_response(envelope: JsonValue) -> (r: Result<
    Vec<AccountsResult<AccountsResultOwner, String>>,
    RpcError,
>)
    ensures
        (match spec_decode_envelope(envelope) {
            Err(e) => r == Err::<Vec<AccountsResult<AccountsResultOwner, String>>, RpcError>(e),
            Ok(res) => match r {
                Ok(ds) => accounts_result_arr_shaped(res) && accounts_result_arr_fields(ds@, res),
                Err(e) => e == RpcError::Decode && !accounts_result_arr_shaped(res),
            },
        }),
{
    match decode_envelope(envelope) {
        Err(e) => Err(e),
        Ok(res) => match accounts_results_from_json(&res) {
            Some(ds) => Ok(ds),
            None => Err(RpcError::Decode),
        },
    }
}

pub fn list_burn_history_request(options: &BurnHistoryOptions) -> (r: RpcRequest)
    ensures
        r.method@ == "listburnhistory"@,
        r.params@.len() == 1,
        burn_history_options_json(*options, r.params@[0]),
{
    let mut params: Vec<JsonValue> = Vec::new();
    params.push(options.to_json());
    RpcRequest { method: "listburnhistory".to_owned(), params }
}

pub fn list_community_balances_request() -> (r: RpcRequest)
    ensures
        r.method@ == "listcommunitybalances"@,
        r.params@.len() == 0,
{
    RpcRequest { method: "listcommunitybalances".to_owned(), params: Vec::new() }
}

pub fn list_pending_dusd_swaps_request() -> (r: RpcRequest)
    ensures
        r.method@ == "listpendingdusdswaps"@,
        r.params@.len() == 0,
{
    RpcRequest { method: "listpendingdusdswaps".to_owned(), params: Vec::new() }
}

pub fn list_pending_future_swaps_request() -> (r: RpcRequest)
    ensures
        r.method@ == "listpendingfutureswaps"@,
        r.params@.len() == 0,
{
    RpcRequest { method: "listpendingfutureswaps".to_owned(), params: Vec::new() }
}

pub fn send_tokens_to_address_request(
    from: &AddressBalances,
    to: &AddressBalances,
    options: &SendTokensOptions,
) -> (r: RpcRequest)
    ensures
        r.method@ == "sendtokenstoaddress"@,
        r.params@.len() == 3,
        is_strvec_map(r.params@[0], from.0@),
        is_strvec_map(r.params@[1], to.0@),
        send_tokens_options_json(*options, r.params@[2]),
{
    let mut params: Vec<JsonValue> = Vec::new();
    params.push(from.to_json());
    params.push(to.to_json());
    params.push(options.to_json());
    RpcRequest { method: "sendtokenstoaddress".to_owned(), params }
}

pub fn transfer_domain_request(payload: &Vec<TransferDomain>) -> (r: RpcRequest)
    ensures
        r.method@ == "transferdomain"@,
        r.params@.len() == 1,
        transfer_domain_arr_json(payload@, r.params@[0]),
{
    let mut params: Vec<JsonValue> = Vec::new();
    params.push(transfer_domains_to_json(payload));
    RpcRequest { method: "transferdomain".to_owned(), params }
}

pub fn utxos_to_account_request(payload: &BalanceTransferPayload, utxos: &Option<UTXO>) -> (r:
    RpcRequest)
    ensures
        r.method@ == "utxostoaccount"@,
        r.params@.len() == 2,
        is_str_map(r.params@[0], payload.0@),
        opt_utxo_json(r.params@[1], *utxos),
{
    let mut params: Vec<JsonValue> = Vec::new();
    params.push(payload.to_json());
    params.push(jv_of_opt_utxo(utxos));
    RpcRequest { method: "utxostoaccount".to_owned(), params }
}

pub fn withdraw_future_swap_request(future: &FutureSwap, utxos: &Option<UTXO>) -> (r: RpcRequest)
    ensures
        r.method@ == "withdrawfutureswap"@,
        r.params@.len() == 2,
        future_swap_json(*future, r.params@[0]),
        opt_utxo_json(r.params@[1], *utxos),
{
    let mut params: Vec<JsonValue> = Vec::new();
    params.push(future.to_json());
    params.push(jv_of_opt_utxo(utxos));
    RpcRequest { method: "withdrawfutureswap".to_owned(), params }
}

} // verus!
