//! The request builders: method names, argument order, and null placement.

use defichain_rpc::bindings::account::{get_account_request, list_accounts_request};
use defichain_rpc::bindings::blockchain::{get_block_request, get_tx_out_request};
use defichain_rpc::bindings::token::{get_token_request, list_tokens_request};
use defichain_rpc::bindings::vault::get_vault_request;
use defichain_rpc::envelope::{request_body, RpcError};
use defichain_rpc::queryable::raw_block_request;
use defichain_rpc::value::JsonValue;

/// Absent optionals still occupy their positional slot as explicit nulls
/// whenever a later argument is present.
#[test]
fn null_placement_in_positional_slots() {
    let r = list_accounts_request(&None, &None, &Some(true), &None);
    assert_eq!(r.method, "listaccounts");
    assert_eq!(r.params.len(), 4);
    assert_eq!(r.params[0], JsonValue::Null);
    assert_eq!(r.params[1], JsonValue::Null);
    assert_eq!(r.params[2], JsonValue::Bool(true));
    assert_eq!(r.params[3], JsonValue::Null);
}

/// An absent pagination argument becomes an explicit empty object where
/// the node expects an object slot.
#[test]
fn absent_pagination_is_empty_object() {
    let r = get_account_request("addr", &None, &Some(false));
    assert_eq!(r.method, "getaccount");
    assert_eq!(r.params.len(), 3);
    assert_eq!(r.params[0], JsonValue::Str("addr".to_owned()));
    assert_eq!(r.params[1], JsonValue::Obj(vec![]));
    assert_eq!(r.params[2], JsonValue::Bool(false));

    let r2 = list_tokens_request(&None, &None);
    assert_eq!(r2.params[0], JsonValue::Obj(vec![]));
    assert_eq!(r2.params[1], JsonValue::Null);
}

/// A verbosity above the supported maximum fails locally with a
/// validation error before any request exists.
#[test]
fn block_fetch_verbosity_bound() {
    match get_block_request("deadbeef", 3) {
        Err(RpcError::Validation(m)) => {
            assert_eq!(m, "Only verbosity up to 2 is supported");
        },
        other => panic!("expected a validation error, got {:?}", other),
    }
    let ok = get_block_request("deadbeef", 2).expect("verbosity 2 is supported");
    assert_eq!(ok.method, "getblock");
    assert_eq!(ok.params.len(), 2);
    assert_eq!(ok.params[0], JsonValue::Str("deadbeef".to_owned()));
    assert_eq!(ok.params[1], JsonValue::UInt(2));
}

/// The omitted mempool flag is defaulted to true before encoding.
#[test]
fn tx_out_default_flag() {
    let r = get_tx_out_request("txid", 1, &None);
    assert_eq!(r.params.len(), 3);
    assert_eq!(r.params[2], JsonValue::Bool(true));
    let r2 = get_tx_out_request("txid", 1, &Some(false));
    assert_eq!(r2.params[2], JsonValue::Bool(false));
}

/// The omitted verbose flag of a vault fetch defaults to false.
#[test]
fn vault_fetch_default_flag() {
    let r = get_vault_request("v1", &None);
    assert_eq!(r.method, "getvault");
    assert_eq!(r.params[1], JsonValue::Bool(false));
}

/// The token lookup carries exactly its one argument.
#[test]
fn token_lookup_request_shape() {
    let r = get_token_request("GOLD");
    assert_eq!(r.method, "gettoken");
    assert_eq!(r.params, vec![JsonValue::Str("GOLD".to_owned())]);
}

/// The raw-block fetch pins verbosity zero.
#[test]
fn raw_block_request_shape() {
    let r = raw_block_request("00ab");
    assert_eq!(r.method, "getblock");
    assert_eq!(r.params, vec![JsonValue::Str("00ab".to_owned()), JsonValue::UInt(0)]);
}

/// A raw-block reply decodes through the consensus decoder: a zeroed
/// header with an empty transaction list is a well-formed block, while
/// text that is not hex never reaches the decoder.
#[test]
fn raw_block_decoding() {
    let hex = "0".repeat(160) + "00";
    let block = defichain_rpc::queryable::block_from_hex(&hex).expect("should decode");
    assert_eq!(block.0.txdata.len(), 0);
    assert!(defichain_rpc::queryable::block_from_hex("zz").is_none());
    assert!(defichain_rpc::queryable::block_from_hex("0").is_none());
}

/// The wallet builders fix their method names and plain arguments.
#[test]
fn wallet_request_shapes() {
    let r = defichain_rpc::bindings::wallet::send_to_address_request("addr", 7);
    assert_eq!(r.method, "sendtoaddress");
    assert_eq!(r.params, vec![JsonValue::Str("addr".to_owned()), JsonValue::UInt(7)]);
    let r2 = defichain_rpc::bindings::wallet::get_balance_request();
    assert_eq!(r2.method, "getbalance");
    assert!(r2.params.is_empty());
}

/// The request body wraps method, params and id in that order.
#[test]
fn request_body_shape() {
    let r = get_token_request("GOLD");
    let body = request_body(r, 7);
    match body {
        JsonValue::Obj(fs) => {
            assert_eq!(fs.len(), 3);
            assert_eq!(fs[0].0, "method");
            assert_eq!(fs[0].1, JsonValue::Str("gettoken".to_owned()));
            assert_eq!(fs[1].0, "params");
            assert_eq!(fs[2].0, "id");
            assert_eq!(fs[2].1, JsonValue::UInt(7));
        },
        other => panic!("expected an object, got {:?}", other),
    }
}
