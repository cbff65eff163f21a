//! Bindings for the token methods.

use vstd::prelude::*;

use crate::common::{jv_of_opt_utxo, opt_utxo_json, UTXO};
use crate::envelope::{decode_envelope, spec_decode_envelope, RpcError, RpcRequest};
use crate::token::{
    create_token_metadata_json, mint_tokens_options_json, token_pagination_json,
    token_result_fields, token_result_shaped, update_token_metadata_json, CreateTokenMetadata,
    MintTokensOptions, TokenPagination, TokenResult, UpdateTokenMetadata,
};
use crate::value::{jv_of_opt_bool, jv_of_opt_str, opt_bool_json, opt_str_json, JsonValue};

verus! {

pub fn burn_tokens_request(
    amounts: &str,
    from: &Option<String>,
    context: &Option<String>,
    utxos: &Option<UTXO>,
) -> (r: RpcRequest)
    ensures
        r.method@ == "burntokens"@,
        r.params@.len() == 4,
        (r.params@[0] matches JsonValue::Str(s) && s@ == amounts@),
        opt_str_json(r.params@[1], *from),
        opt_str_json(r.params@[2], *context),
        opt_utxo_json(r.params@[3], *utxos),
{
    let mut params: Vec<JsonValue> = Vec::new();
    params.push(JsonValue::Str(amounts.to_owned()));
    params.push(jv_of_opt_str(from));
    params.push(jv_of_opt_str(context));
    params.push(jv_of_opt_utxo(utxos));
    RpcRequest { method: "burntokens".to_owned(), params }
}

pub fn create_token_request(metadata: &CreateTokenMetadata, utxos: &Option<UTXO>) -> (r:
    RpcRequest)
    ensures
        r.method@ == "createtoken"@,
        r.params@.len() == 2,
        create_token_metadata_json(*metadata, r.params@[0]),
        opt_utxo_json(r.params@[1], *utxos),
{
    let mut params: Vec<JsonValue> = Vec::new();
    params.push(metadata.to_json());
    params.push(jv_of_opt_utxo(utxos));
    RpcRequest { method: "createtoken".to_owned(), params }
}

pub fn decode_custom_tx_request(hexstring: &str, iswitness: &Option<bool>) -> (r: RpcRequest)
    ensures
        r.method@ == "decodecustomtx"@,
        r.params@.len() == 2,
        (r.params@[0] matches JsonValue::Str(s) && s@ == hexstring@),
        opt_bool_json(r.params@[1], *iswitness),
{
    let mut params: Vec<JsonValue> = Vec::new();
    params.push(JsonValue::Str(hexstring.to_owned()));
    params.push(jv_of_opt_bool(iswitness));
    RpcRequest { method: "decodecustomtx".to_owned(), params }
}

pub fn get_custom_tx_request(txid: &str, blockhash: &Option<String>) -> (r: RpcRequest)
    ensures
        r.method@ == "getcustomtx"@,
        r.params@.len() == 2,
        (r.params@[0] matches JsonValue::Str(s) && s@ == txid@),
        opt_str_json(r.params@[1], *blockhash),
{
    let mut params: Vec<JsonValue> = Vec::new();
    params.push(JsonValue::Str(txid.to_owned()));
    params.push(jv_of_opt_str(blockhash));
    RpcRequest { method: "getcustomtx".to_owned(), params }
}

pub fn get_token_request(symbol_key: &str) -> (r: RpcRequest)
    ensures
        r.method@ == "gettoken"@,
        r.params@.len() == 1,
        (r.params@[0] matches JsonValue::Str(s) && s@ == symbol_key@),
{
    let mut params: Vec<JsonValue> = Vec::new();
    params.push(JsonValue::Str(symbol_key.to_owned()));
    RpcRequest { method: "gettoken".to_owned(), params }
}

/// Decode the reply to a token lookup.  A node-reported error, as for a
/// symbol the node does not know, comes back as that error verbatim and
/// never as an empty token map.
pub fn get_token_response(envelope: JsonValue) -> (r: Result<TokenResult, RpcError>)
    ensures
        (match spec_decode_envelope(envelope) {
            Err(e) => r == Err::<TokenResult, RpcError>(e),
            Ok(res) => match r {
                Ok(d) => token_result_shaped(res) && token_result_fields(d.0@, res),
                Err(e) => e == RpcError::Decode && !token_result_shaped(res),
            },
        }),
{
    match decode_envelope(envelope) {
        Err(e) => Err(e),
        Ok(res) => match TokenResult::from_json(&res) {
            Some(d) => Ok(d),
            None => Err(RpcError::Decode),
        },
    }
}

pub fn list_tokens_request(pagination: &Option<TokenPagination>, verbose: &Option<bool>) -> (r:
    RpcRequest)
    ensures
        r.method@ == "listtokens"@,
        r.params@.len() == 2,
        (match *pagination {
            None => (r.params@[0] matches JsonValue::Obj(fs) && fs@.len() == 0),
            Some(p) => token_pagination_json(p, r.params@[0]),
        }),
        opt_bool_json(r.params@[1], *verbose),
{
    let pag = match pagination {
        None => JsonValue::Obj(Vec::new()),
        Some(p) => p.to_json(),
    };
    let mut params: Vec<JsonValue> = Vec::new();
    params.push(pag);
    params.push(jv_of_opt_bool(verbose));
    RpcRequest { method: "listtokens".to_owned(), params }
}

pub fn mint_tokens_request(options: &MintTokensOptions) -> (r: RpcRequest)
    ensures
        r.method@ == "minttokens"@,
        r.params@.len() == 1,
        mint_tokens_options_json(*options, r.params@[0]),
{
    let mut params: Vec<JsonValue> = Vec::new();
    params.push(options.to_json());
    RpcRequest { method: "minttokens".to_owned(), params }
}

pub fn update_token_request(token: &str, metadata: &Option<UpdateTokenMetadata>) -> (r: RpcRequest)
    ensures
        r.method@ == "updatetoken"@,
        r.params@.len() == 2,
        (r.params@[0] matches JsonValue::Str(s) && s@ == token@),
        (match *metadata {
            None => r.params@[1] is Null,
            Some(m) => update_token_metadata_json(m, r.params@[1]),
        }),
{
    let md = match metadata {
        None => JsonValue::Null,
        Some(m) => m.to_json(),
    };
    let mut params: Vec<JsonValue> = Vec::new();
    params.push(JsonValue::Str(token.to_owned()));
    params.push(md);
    RpcRequest { method: "updatetoken".to_owned(), params }
}

} // verus!
