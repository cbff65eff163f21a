//! Bindings for the wallet methods whose argument types are plain values.

use vstd::prelude::*;

use crate::envelope::RpcRequest;
use crate::value::JsonValue;

verus! {

pub fn create_wallet_request(wallet_name: &str) -> (r: RpcRequest)
    ensures
        r.method@ == "createwallet"@,
        r.params@.len() == 1,
        (r.params@[0] matches JsonValue::Str(s) && s@ == wallet_name@),
{
    let mut params: Vec<JsonValue> = Vec::new();
    params.push(JsonValue::Str(wallet_name.to_owned()));
    RpcRequest { method: "createwallet".to_owned(), params }
}

pub fn dump_priv_key_request(address: &str) -> (r: RpcRequest)
    ensures
        r.method@ == "dumpprivkey"@,
        r.params@.len() == 1,
        (r.params@[0] matches JsonValue::Str(s) && s@ == address@),
{
    let mut params: Vec<JsonValue> = Vec::new();
    params.push(JsonValue::Str(address.to_owned()));
    RpcRequest { method: "dumpprivkey".to_owned(), params }
}

pub fn get_address_info_request(address: &str) -> (r: RpcRequest)
    ensures
        r.method@ == "getaddressinfo"@,
        r.params@.len() == 1,
        (r.params@[0] matches JsonValue::Str(s) && s@ == address@),
{
    let mut params: Vec<JsonValue> = Vec::new();
    params.push(JsonValue::Str(address.to_owned()));
    RpcRequest { method: "getaddressinfo".to_owned(), params }
}

pub fn get_balance_request() -> (r: RpcRequest)
    ensures
        r.method@ == "getbalance"@,
        r.params@.len() == 0,
{
    RpcRequest { method: "getbalance".to_owned(), params: Vec::new() }
}

pub fn get_balances_request() -> (r: RpcRequest)
    ensures
        r.method@ == "getbalances"@,
        r.params@.len() == 0,
{
    RpcRequest { method: "getbalances".to_owned(), params: Vec::new() }
}

pub fn get_new_address_request() -> (r: RpcRequest)
    ensures
        r.method@ == "getnewaddress"@,
        r.params@.len() == 0,
{
    RpcRequest { method: "getnewaddress".to_owned(), params: Vec::new() }
}

pub fn get_transaction_request(txid: &str) -> (r: RpcRequest)
    ensures
        r.method@ == "gettransaction"@,
        r.params@.len() == 1,
        (r.params@[0] matches JsonValue::Str(s) && s@ == txid@),
{
    let mut params: Vec<JsonValue> = Vec::new();
    params.push(JsonValue::Str(txid.to_owned()));
    RpcRequest { method: "gettransaction".to_owned(), params }
}

pub fn get_unconfirmed_balance_request() -> (r: RpcRequest)
    ensures
        r.method@ == "getunconfirmedbalance"@,
        r.params@.len() == 0,
{
    RpcRequest { method: "getunconfirmedbalance".to_owned(), params: Vec::new() }
}

pub fn get_wallet_info_request() -> (r: RpcRequest)
    ensures
        r.method@ == "getwalletinfo"@,
        r.params@.len() == 0,
{
    RpcRequest { method: "getwalletinfo".to_owned(), params: Vec::new() }
}

pub fn import_priv_key_request(privkey: &str) -> (r: RpcRequest)
    ensures
        r.method@ == "importprivkey"@,
        r.params@.len() == 1,
        (r.params@[0] matches JsonValue::Str(s) && s@ == privkey@),
{
    let mut params: Vec<JsonValue> = Vec::new();
    params.push(JsonValue::Str(privkey.to_owned()));
    RpcRequest { method: "importprivkey".to_owned(), params }
}

pub fn list_address_groupings_request() -> (r: RpcRequest)
    ensures
        r.method@ == "listaddressgroupings"@,
        r.params@.len() == 0,
{
    RpcRequest { method: "listaddressgroupings".to_owned(), params: Vec::new() }
}

pub fn list_unspent_request() -> (r: RpcRequest)
    ensures
        r.method@ == "listunspent"@,
        r.params@.len() == 0,
{
    RpcRequest { method: "listunspent".to_owned(), params: Vec::new() }
}

pub fn list_wallets_request() -> (r: RpcRequest)
    ensures
        r.method@ == "listwallets"@,
        r.params@.len() == 0,
{
    RpcRequest { method: "listwallets".to_owned(), params: Vec::new() }
}

pub fn send_to_address_request(address: &str, amount: u64) -> (r: RpcRequest)
    ensures
        r.method@ == "sendtoaddress"@,
        r.params@.len() == 2,
        (r.params@[0] matches JsonValue::Str(s) && s@ == address@),
        r.params@[1] == JsonValue::UInt(amount),
{
    let mut params: Vec<JsonValue> = Vec::new();
    params.push(JsonValue::Str(address.to_owned()));
    params.push(JsonValue::UInt(amount));
    RpcRequest { method: "sendtoaddress".to_owned(), params }
}

pub fn sign_message_request(address: &str, message: &str) -> (r: RpcRequest)
    ensures
        r.method@ == "signmessage"@,
        r.params@.len() == 2,
        (r.params@[0] matches JsonValue::Str(s) && s@ == address@),
        (r.params@[1] matches JsonValue::Str(s) && s@ == message@),
{
    let mut params: Vec<JsonValue> = Vec::new();
    params.push(JsonValue::Str(address.to_owned()));
    params.push(JsonValue::Str(message.to_owned()));
    RpcRequest { method: "signmessage".to_owned(), params }
}

pub fn validate_address_request(address: &str) -> (r: RpcRequest)
    ensures
        r.method@ == "validateaddress"@,
        r.params@.len() == 1,
        (r.params@[0] matches JsonValue::Str(s) && s@ == address@),
{
    let mut params: Vec<JsonValue> = Vec::new();
    params.push(JsonValue::Str(address.to_owned()));
    RpcRequest { method: "validateaddress".to_owned(), params }
}

} // verus!
