//! Scenario tests at the wire level: JSON text in, typed values out.

use defichain_rpc::bindings::blockchain::{chain_height_response, get_block_response};
use defichain_rpc::bindings::token::get_token_response;
use defichain_rpc::envelope::{decode_envelope, RpcError};
use defichain_rpc::blockchain::GetBlockResult;
use defichain_rpc::interop::{parse_response, render_text};
use defichain_rpc::value::JsonValue;

fn envelope_with_result(result: JsonValue) -> JsonValue {
    JsonValue::Obj(vec![
        ("result".to_owned(), result),
        ("error".to_owned(), JsonValue::Null),
        ("id".to_owned(), JsonValue::UInt(1)),
    ])
}

fn blockchain_info_value(blocks: u64) -> JsonValue {
    JsonValue::Obj(vec![
        ("chain".to_owned(), JsonValue::Str("regtest".to_owned())),
        ("blocks".to_owned(), JsonValue::UInt(blocks)),
        ("headers".to_owned(), JsonValue::UInt(blocks)),
        ("bestblockhash".to_owned(), JsonValue::Str("d744db74fb70ed42767ae028a129365fb4d7de54ba1b6575fb047490554f8a7b".to_owned())),
        ("difficulty".to_owned(), JsonValue::Float("4.656542373906925e-10".to_owned())),
        ("mediantime".to_owned(), JsonValue::UInt(1577836800)),
        ("verificationprogress".to_owned(), JsonValue::UInt(1)),
        ("initialblockdownload".to_owned(), JsonValue::Bool(false)),
        ("chainwork".to_owned(), JsonValue::Str("00000000000000000000000000000000000000000000000000000000000002d2".to_owned())),
        ("sizeOnDisk".to_owned(), JsonValue::UInt(53333)),
        ("pruned".to_owned(), JsonValue::Bool(false)),
        ("softforks".to_owned(), JsonValue::Obj(vec![])),
        ("warnings".to_owned(), JsonValue::Str(String::new())),
    ])
}

/// The chain-height binding unwraps the `blocks` field as a plain integer.
#[test]
fn chain_height_unwraps_blocks_field() {
    let env = envelope_with_result(blockchain_info_value(150));
    assert_eq!(chain_height_response(env), Ok(150));
}

/// The same payload, taken in as wire text through the real JSON parser.
#[test]
fn chain_height_from_wire_text() {
    let body = "{\"result\":{\"chain\":\"regtest\",\"blocks\":150,\"headers\":150,\"bestblockhash\":\"d744db74fb70ed42767ae028a129365fb4d7de54ba1b6575fb047490554f8a7b\",\"difficulty\":4.656542373906925e-10,\"mediantime\":1577836800,\"verificationprogress\":1,\"initialblockdownload\":false,\"chainwork\":\"00000000000000000000000000000000000000000000000000000000000002d2\",\"sizeOnDisk\":53333,\"pruned\":false,\"softforks\":{},\"warnings\":\"\"},\"error\":null,\"id\":1}";
    let payload = parse_response(body).expect("envelope should split");
    let info = defichain_rpc::blockchain::BlockchainInfo::from_json(&payload)
        .expect("payload should decode");
    assert_eq!(info.blocks, 150);
    assert_eq!(info.chain, "regtest");
}

/// A token lookup for an unknown symbol surfaces the node's error verbatim,
/// never an empty token map.
#[test]
fn unknown_token_is_node_error() {
    let env = JsonValue::Obj(vec![
        ("result".to_owned(), JsonValue::Null),
        (
            "error".to_owned(),
            JsonValue::Obj(vec![
                ("code".to_owned(), JsonValue::Int(-5)),
                ("message".to_owned(), JsonValue::Str("Token not found".to_owned())),
            ]),
        ),
        ("id".to_owned(), JsonValue::UInt(1)),
    ]);
    assert_eq!(
        get_token_response(env),
        Err(RpcError::Node { code: -5, message: "Token not found".to_owned() })
    );
}

/// The same node error, arriving as wire text.
#[test]
fn unknown_token_node_error_from_text() {
    let body = "{\"result\":null,\"error\":{\"code\":-5,\"message\":\"Token not found\"},\"id\":1}";
    assert_eq!(
        parse_response(body),
        Err(RpcError::Node { code: -5, message: "Token not found".to_owned() })
    );
}

/// Text that is not JSON is a decode failure, not a transport or node error.
#[test]
fn invalid_text_is_decode_error() {
    assert_eq!(parse_response("not json at all"), Err(RpcError::Decode));
}

/// An envelope that is no object at all fails decoding.
#[test]
fn non_object_envelope_is_decode_error() {
    assert_eq!(decode_envelope(JsonValue::UInt(3)), Err(RpcError::Decode));
}

/// A malformed error object (no code) is a decode failure.
#[test]
fn malformed_error_object_is_decode_error() {
    let env = JsonValue::Obj(vec![
        ("result".to_owned(), JsonValue::Null),
        (
            "error".to_owned(),
            JsonValue::Obj(vec![("message".to_owned(), JsonValue::Str("x".to_owned()))]),
        ),
        ("id".to_owned(), JsonValue::UInt(1)),
    ]);
    assert_eq!(decode_envelope(env), Err(RpcError::Decode));
}

/// A null error with a present result hands the result payload on.
#[test]
fn result_passes_through() {
    let env = envelope_with_result(JsonValue::UInt(42));
    assert_eq!(decode_envelope(env), Ok(JsonValue::UInt(42)));
}

/// The renderer normalizes object key order, so two spellings of one
/// object render alike; a wrapper that echoed its input could not do this.
#[test]
fn render_normalizes_key_order() {
    let v1 = JsonValue::Obj(vec![
        ("b".to_owned(), JsonValue::UInt(2)),
        ("a".to_owned(), JsonValue::UInt(1)),
    ]);
    assert_eq!(render_text(&v1), "{\"a\":1,\"b\":2}");
}

fn block_value(tx: JsonValue) -> JsonValue {
    JsonValue::Obj(vec![
        ("hash".to_owned(), JsonValue::Str("abcd".to_owned())),
        ("height".to_owned(), JsonValue::UInt(150)),
        ("confirmations".to_owned(), JsonValue::Int(1)),
        ("strippedsize".to_owned(), JsonValue::UInt(300)),
        ("size".to_owned(), JsonValue::UInt(320)),
        ("weight".to_owned(), JsonValue::UInt(1280)),
        ("masternode".to_owned(), JsonValue::Str("mn1".to_owned())),
        ("minter".to_owned(), JsonValue::Str("addr1".to_owned())),
        ("mintedBlocks".to_owned(), JsonValue::UInt(12)),
        ("stakeModifier".to_owned(), JsonValue::Str("00aa".to_owned())),
        ("version".to_owned(), JsonValue::UInt(536870912)),
        ("versionHex".to_owned(), JsonValue::Str("20000000".to_owned())),
        ("merkleroot".to_owned(), JsonValue::Str("beef".to_owned())),
        ("time".to_owned(), JsonValue::UInt(1577836800)),
        ("mediantime".to_owned(), JsonValue::UInt(1577836700)),
        ("bits".to_owned(), JsonValue::Str("207fffff".to_owned())),
        ("difficulty".to_owned(), JsonValue::Float("4.65e-10".to_owned())),
        ("chainwork".to_owned(), JsonValue::Str("02d2".to_owned())),
        ("tx".to_owned(), tx),
        ("nTx".to_owned(), JsonValue::UInt(1)),
        ("previousblockhash".to_owned(), JsonValue::Str("aaaa".to_owned())),
        ("nextblockhash".to_owned(), JsonValue::Null),
    ])
}

fn transaction_value() -> JsonValue {
    JsonValue::Obj(vec![
        ("txid".to_owned(), JsonValue::Str("feed".to_owned())),
        ("hash".to_owned(), JsonValue::Str("feed".to_owned())),
        ("version".to_owned(), JsonValue::UInt(4)),
        ("size".to_owned(), JsonValue::UInt(100)),
        ("vsize".to_owned(), JsonValue::UInt(100)),
        ("weight".to_owned(), JsonValue::UInt(400)),
        ("locktime".to_owned(), JsonValue::UInt(0)),
        (
            "vin".to_owned(),
            JsonValue::Arr(vec![JsonValue::Obj(vec![
                ("coinbase".to_owned(), JsonValue::Str("0196".to_owned())),
                ("sequence".to_owned(), JsonValue::UInt(4294967295)),
            ])]),
        ),
        (
            "vout".to_owned(),
            JsonValue::Arr(vec![JsonValue::Obj(vec![
                ("value".to_owned(), JsonValue::Float("38.0".to_owned())),
                ("n".to_owned(), JsonValue::UInt(0)),
                (
                    "scriptPubKey".to_owned(),
                    JsonValue::Obj(vec![
                        ("asm".to_owned(), JsonValue::Str("OP_DUP".to_owned())),
                        ("hex".to_owned(), JsonValue::Str("76a9".to_owned())),
                        ("type".to_owned(), JsonValue::Str("pubkeyhash".to_owned())),
                        ("reqSigs".to_owned(), JsonValue::UInt(1)),
                        ("addresses".to_owned(), JsonValue::Arr(vec![JsonValue::Str(
                            "addr1".to_owned(),
                        )])),
                    ]),
                ),
                ("tokenId".to_owned(), JsonValue::UInt(0)),
            ])]),
        ),
        ("hex".to_owned(), JsonValue::Str("0400".to_owned())),
    ])
}

/// A payload of the full-transaction shape decodes as the full variant,
/// never as the hex fallback.
#[test]
fn block_full_precedence() {
    let env = envelope_with_result(block_value(JsonValue::Arr(vec![transaction_value()])));
    match get_block_response(env) {
        Ok(GetBlockResult::Full(b)) => {
            assert_eq!(b.height, 150);
            assert_eq!(b.tx.len(), 1);
            assert_eq!(b.tx[0].txid, "feed");
            assert_eq!(b.tx[0].vout[0].script_pub_key.hex, vec![0x76u8, 0xa9]);
            match &b.tx[0].vin[0] {
                defichain_rpc::blockchain::Vin::Coinbase(c) => {
                    assert_eq!(c.coinbase, "0196");
                },
                other => panic!("expected a coinbase input, got {:?}", other),
            }
        },
        other => panic!("expected the full variant, got {:?}", other),
    }
}

/// A payload whose transactions are bare ids decodes as the id-list
/// variant: more structured than hex, less than the full list.
#[test]
fn block_id_list_precedence() {
    let tx = JsonValue::Arr(vec![
        JsonValue::Str("feed".to_owned()),
        JsonValue::Str("beef".to_owned()),
    ]);
    let env = envelope_with_result(block_value(tx));
    match get_block_response(env) {
        Ok(GetBlockResult::TxHash(b)) => {
            assert_eq!(b.tx, vec!["feed".to_owned(), "beef".to_owned()]);
            assert_eq!(b.nextblockhash, None);
            assert_eq!(b.previousblockhash, Some("aaaa".to_owned()));
        },
        other => panic!("expected the id-list variant, got {:?}", other),
    }
}

/// A hex-string block payload decodes as the raw fallback only because
/// the structured shapes do not match.
#[test]
fn block_hex_fallback() {
    let env = envelope_with_result(JsonValue::Str("00ff".to_owned()));
    match get_block_response(env) {
        Ok(GetBlockResult::Hex(s)) => assert_eq!(s, "00ff"),
        other => panic!("expected the hex fallback, got {:?}", other),
    }
}
