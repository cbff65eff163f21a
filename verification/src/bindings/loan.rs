//! Bindings for the loan methods.

use vstd::prelude::*;

use crate::common::{jv_of_opt_utxo, opt_utxo_json, UTXO};
use crate::envelope::{decode_envelope, spec_decode_envelope, RpcError, RpcRequest};
use crate::loan::{
    create_loan_scheme_json, destroy_loan_scheme_json, get_loan_info_result_fields,
    get_loan_info_result_shaped, set_collateral_token_json, set_loan_token_json,
    update_loan_scheme_json, update_loan_token_json, CreateLoanScheme, DestroyLoanScheme,
    GetLoanInfoResult, SetCollateralToken, SetLoanToken, UpdateLoanScheme, UpdateLoanToken,
};
use crate::value::{jv_of_opt_str, opt_str_json, JsonValue};

verus! {

pub fn create_loan_scheme_request(scheme: &CreateLoanScheme, utxos: &Option<UTXO>) -> (r:
    RpcRequest)
    ensures
        r.method@ == "createloanscheme"@,
        r.params@.len() == 2,
        create_loan_scheme_json(*scheme, r.params@[0]),
        opt_utxo_json(r.params@[1], *utxos),
{
    let mut params: Vec<JsonValue> = Vec::new();
    params.push(scheme.to_json());
    params.push(jv_of_opt_utxo(utxos));
    RpcRequest { method: "createloanscheme".to_owned(), params }
}

pub fn destroy_loan_scheme_request(scheme: &DestroyLoanScheme, utxos: &Option<UTXO>) -> (r:
    RpcRequest)
    ensures
        r.method@ == "destroyloanscheme"@,
        r.params@.len() == 2,
        destroy_loan_scheme_json(*scheme, r.params@[0]),
        opt_utxo_json(r.params@[1], *utxos),
{
    let mut params: Vec<JsonValue> = Vec::new();
    params.push(scheme.to_json());
    params.push(jv_of_opt_utxo(utxos));
    RpcRequest { method: "destroyloanscheme".to_owned(), params }
}

pub fn get_collateral_token_request(token: &str) -> (r: RpcRequest)
    ensures
        r.method@ == "getcollateraltoken"@,
        r.params@.len() == 1,
        (r.params@[0] matches JsonValue::Str(s) && s@ == token@),
{
    let mut params: Vec<JsonValue> = Vec::new();
    params.push(JsonValue::Str(token.to_owned()));
    RpcRequest { method: "getcollateraltoken".to_owned(), params }
}

pub fn get_interest_request(id: &str, token: &Option<String>) -> (r: RpcRequest)
    ensures
        r.method@ == "getinterest"@,
        r.params@.len() == 2,
        (r.params@[0] matches JsonValue::Str(s) && s@ == id@),
        opt_str_json(r.params@[1], *token),
{
    let mut params: Vec<JsonValue> = Vec::new();
    params.push(JsonValue::Str(id.to_owned()));
    params.push(jv_of_opt_str(token));
    RpcRequest { method: "getinterest".to_owned(), params }
}

pub fn get_loan_info_request() -> (r: RpcRequest)
    ensures
        r.method@ == "getloaninfo"@,
        r.params@.len() == 0,
{
    RpcRequest { method: "getloaninfo".to_owned(), params: Vec::new() }
}

/// Decode the reply to a loan-info fetch.
pub fn get_loan_info_response(envelope: JsonValue) -> (r: Result<GetLoanInfoResult, RpcError>)
    ensures
        (match spec_decode_envelope(envelope) {
            Err(e) => r == Err::<GetLoanInfoResult, RpcError>(e),
            Ok(res) => match r {
                Ok(d) => get_loan_info_result_shaped(res) && get_loan_info_result_fields(d, res),
                Err(e) => e == RpcError::Decode && !get_loan_info_result_shaped(res),
            },
        }),
{
    match decode_envelope(envelope) {
        Err(e) => Err(e),
        Ok(res) => match GetLoanInfoResult::from_json(&res) {
            Some(d) => Ok(d),
            None => Err(RpcError::Decode),
        },
    }
}

pub fn get_loan_scheme_request(id: &str) -> (r: RpcRequest)
    ensures
        r.method@ == "getloanscheme"@,
        r.params@.len() == 1,
        (r.params@[0] matches JsonValue::Str(s) && s@ == id@),
{
    let mut params: Vec<JsonValue> = Vec::new();
    params.push(JsonValue::Str(id.to_owned()));
    RpcRequest { method: "getloanscheme".to_owned(), params }
}

pub fn get_loan_token_request(token: &str) -> (r: RpcRequest)
    ensures
        r.method@ == "getloantoken"@,
        r.params@.len() == 1,
        (r.params@[0] matches JsonValue::Str(s) && s@ == token@),
{
    let mut params: Vec<JsonValue> = Vec::new();
    params.push(JsonValue::Str(token.to_owned()));
    RpcRequest { method: "getloantoken".to_owned(), params }
}

pub fn list_collateral_tokens_request() -> (r: RpcRequest)
    ensures
        r.method@ == "listcollateraltokens"@,
        r.params@.len() == 0,
{
    RpcRequest { method: "listcollateraltokens".to_owned(), params: Vec::new() }
}

pub fn list_loan_schemes_request() -> (r: RpcRequest)
    ensures
        r.method@ == "listloanschemes"@,
        r.params@.len() == 0,
{
    RpcRequest { method: "listloanschemes".to_owned(), params: Vec::new() }
}

pub fn list_loan_tokens_request() -> (r: RpcRequest)
    ensures
        r.method@ == "listloantokens"@,
        r.params@.len() == 0,
{
    RpcRequest { method: "listloantokens".to_owned(), params: Vec::new() }
}

pub fn payback_loan_request(utxos: &Option<UTXO>) -> (r: RpcRequest)
    ensures
        r.method@ == "paybackloan"@,
        r.params@.len() == 1,
        opt_utxo_json(r.params@[0], *utxos),
{
    let mut params: Vec<JsonValue> = Vec::new();
    params.push(jv_of_opt_utxo(utxos));
    RpcRequest { method: "paybackloan".to_owned(), params }
}

pub fn payback_with_collateral_request(vault_id: &str) -> (r: RpcRequest)
    ensures
        r.method@ == "paybackwithcollateral"@,
        r.params@.len() == 1,
        (r.params@[0] matches JsonValue::Str(s) && s@ == vault_id@),
{
    let mut params: Vec<JsonValue> = Vec::new();
    params.push(JsonValue::Str(vault_id.to_owned()));
    RpcRequest { method: "paybackwithcollateral".to_owned(), params }
}

pub fn set_collateral_token_request(
    collateral_token: &SetCollateralToken,
    utxos: &Option<UTXO>,
) -> (r: RpcRequest)
    ensures
        r.method@ == "setcollateraltoken"@,
        r.params@.len() == 2,
        set_collateral_token_json(*collateral_token, r.params@[0]),
        opt_utxo_json(r.params@[1], *utxos),
{
    let mut params: Vec<JsonValue> = Vec::new();
    params.push(collateral_token.to_json());
    params.push(jv_of_opt_utxo(utxos));
    RpcRequest { method: "setcollateraltoken".to_owned(), params }
}

pub fn set_default_loan_scheme_request(id: &str, utxos: &Option<UTXO>) -> (r: RpcRequest)
    ensures
        r.method@ == "setdefaultloanscheme"@,
        r.params@.len() == 2,
        (r.params@[0] matches JsonValue::Str(s) && s@ == id@),
        opt_utxo_json(r.params@[1], *utxos),
{
    let mut params: Vec<JsonValue> = Vec::new();
    params.push(JsonValue::Str(id.to_owned()));
    params.push(jv_of_opt_utxo(utxos));
    RpcRequest { method: "setdefaultloanscheme".to_owned(), params }
}

pub fn set_loan_token_request(loan_token: &SetLoanToken, utxos: &Option<UTXO>) -> (r: RpcRequest)
    ensures
        r.method@ == "setloantoken"@,
        r.params@.len() == 2,
        set_loan_token_json(*loan_token, r.params@[0]),
        opt_utxo_json(r.params@[1], *utxos),
{
    let mut params: Vec<JsonValue> = Vec::new();
    params.push(loan_token.to_json());
    params.push(jv_of_opt_utxo(utxos));
    RpcRequest { method: "setloantoken".to_owned(), params }
}

pub fn take_loan_request(metadata: &crate::loan::TakeLoanMetadata, utxos: &Option<UTXO>) -> (r:
    RpcRequest)
    ensures
        r.method@ == "takeloan"@,
        r.params@.len() == 2,
        crate::loan::take_loan_metadata_json(*metadata, r.params@[0]),
        opt_utxo_json(r.params@[1], *utxos),
{
    let mut params: Vec<JsonValue> = Vec::new();
    params.push(metadata.to_json());
    params.push(jv_of_opt_utxo(utxos));
    RpcRequest { method: "takeloan".to_owned(), params }
}

pub fn update_loan_scheme_request(scheme: &UpdateLoanScheme, utxos: &Option<UTXO>) -> (r:
    RpcRequest)
    ensures
        r.method@ == "updateloanscheme"@,
        r.params@.len() == 2,
        update_loan_scheme_json(*scheme, r.params@[0]),
        opt_utxo_json(r.params@[1], *utxos),
{
    let mut params: Vec<JsonValue> = Vec::new();
    params.push(scheme.to_json());
    params.push(jv_of_opt_utxo(utxos));
    RpcRequest { method: "updateloanscheme".to_owned(), params }
}

pub fn update_loan_token_request(
    old_token: &str,
    new_token_details: &UpdateLoanToken,
    utxos: &Option<UTXO>,
) -> (r: RpcRequest)
    ensures
        r.method@ == "updateloantoken"@,
        r.params@.len() == 3,
        (r.params@[0] matches JsonValue::Str(s) && s@ == old_token@),
        update_loan_token_json(*new_token_details, r.params@[1]),
        opt_utxo_json(r.params@[2], *utxos),
{
    let mut params: Vec<JsonValue> = Vec::new();
    params.push(JsonValue::Str(old_token.to_owned()));
    params.push(new_token_details.to_json());
    params.push(jv_of_opt_utxo(utxos));
    RpcRequest { method: "updateloantoken".to_owned(), params }
}

} // verus!
