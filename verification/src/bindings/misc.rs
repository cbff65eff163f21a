//! Bindings for the miscellaneous signing and debugging methods.

use vstd::prelude::*;

use crate::envelope::RpcRequest;
use crate::value::JsonValue;

verus! {

pub fn derive_addresses_request(descriptor: &str) -> (r: RpcRequest)
    ensures
        r.method@ == "deriveaddresses"@,
        r.params@.len() == 1,
        (r.params@[0] matches JsonValue::Str(s) && s@ == descriptor@),
{
    let mut params: Vec<JsonValue> = Vec::new();
    params.push(JsonValue::Str(descriptor.to_owned()));
    RpcRequest { method: "deriveaddresses".to_owned(), params }
}

pub fn set_mock_time_request(ts: u64) -> (r: RpcRequest)
    ensures
        r.method@ == "setmocktime"@,
        r.params@.len() == 1,
        r.params@[0] == JsonValue::UInt(ts),
{
    let mut params: Vec<JsonValue> = Vec::new();
    params.push(JsonValue::UInt(ts));
    RpcRequest { method: "setmocktime".to_owned(), params }
}

pub fn sign_message_with_priv_key_request(privkey: &str, message: &str) -> (r: RpcRequest)
    ensures
        r.method@ == "signmessagewithprivkey"@,
        r.params@.len() == 2,
        (r.params@[0] matches JsonValue::Str(s) && s@ == privkey@),
        (r.params@[1] matches JsonValue::Str(s) && s@ == message@),
{
    let mut params: Vec<JsonValue> = Vec::new();
    params.push(JsonValue::Str(privkey.to_owned()));
    params.push(JsonValue::Str(message.to_owned()));
    RpcRequest { method: "signmessagewithprivkey".to_owned(), params }
}

pub fn verify_message_request(address: &str, signature: &str, message: &str) -> (r: RpcRequest)
    ensures
        r.method@ == "verifymessage"@,
        r.params@.len() == 3,
        (r.params@[0] matches JsonValue::Str(s) && s@ == address@),
        (r.params@[1] matches JsonValue::Str(s) && s@ == signature@),
        (r.params@[2] matches JsonValue::Str(s) && s@ == message@),
{
    let mut params: Vec<JsonValue> = Vec::new();
    params.push(JsonValue::Str(address.to_owned()));
    params.push(JsonValue::Str(signature.to_owned()));
    params.push(JsonValue::Str(message.to_owned()));
    RpcRequest { method: "verifymessage".to_owned(), params }
}

} // verus!
