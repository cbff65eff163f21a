//! Fetching raw consensus objects: the request names the object, the
//! reply is hex text, and the bytes it spells are handed to the bitcoin
//! crate's consensus decoder.

use vstd::prelude::*;

use crate::envelope::RpcRequest;
use crate::hex::{bytes_of_hex, hex_to_bytes, valid_hex};
use crate::value::JsonValue;

verus! {

/// A consensus-decoded block of the bitcoin crate, held opaquely; the
/// field is open to unverified callers.
#[verifier::external_body]
pub struct RawBlock(pub bitcoin::block::Block);

/// A consensus-decoded transaction of the bitcoin crate, held opaquely.
#[verifier::external_body]
pub struct RawTransaction(pub bitcoin::transaction::Transaction);

/// Whether a byte string consensus-decodes, whole, as one block; the
/// outcome depends on the bytes alone.
pub uninterp spec fn wf_block_bytes(b: Seq<u8>) -> bool;

/// Whether a byte string consensus-decodes, whole, as one transaction.
pub uninterp spec fn wf_transaction_bytes(b: Seq<u8>) -> bool;

/// Relies on bitcoin::consensus::encode::deserialize for blocks: `Some`
/// exactly when the whole byte string is one well-formed block, a
/// function of the bytes alone.
#[verifier::external_body]
fn consensus_block(bytes: &[u8]) -> (r: Option<RawBlock>)
    ensures
        r is Some <==> wf_block_bytes(bytes@),
{
    bitcoin::consensus::encode::deserialize(bytes).ok().map(RawBlock)
}

/// Relies on bitcoin::consensus::encode::deserialize for transactions:
/// `Some` exactly when the whole byte string is one well-formed
/// transaction, a function of the bytes alone.
#[verifier::external_body]
fn consensus_transaction(bytes: &[u8]) -> (r: Option<RawTransaction>)
    ensures
        r is Some <==> wf_transaction_bytes(bytes@),
{
    bitcoin::consensus::encode::deserialize(bytes).ok().map(RawTransaction)
}

/// The request whose reply is a raw block as hex text: a block fetch at
/// verbosity zero.
pub fn raw_block_request(hash: &str) -> (r: RpcRequest)
    ensures
        r.method@ == "getblock"@,
        r.params@.len() == 2,
        (r.params@[0] matches JsonValue::Str(s) && s@ == hash@),
        r.params@[1] == JsonValue::UInt(0u64),
{
    let mut params: Vec<JsonValue> = Vec::new();
    params.push(JsonValue::Str(hash.to_owned()));
    params.push(JsonValue::UInt(0));
    RpcRequest { method: "getblock".to_owned(), params }
}

/// The request whose reply is a raw transaction as hex text.
pub fn raw_transaction_request(txid: &str) -> (r: RpcRequest)
    ensures
        r.method@ == "getrawtransaction"@,
        r.params@.len() == 1,
        (r.params@[0] matches JsonValue::Str(s) && s@ == txid@),
{
    let mut params: Vec<JsonValue> = Vec::new();
    params.push(JsonValue::Str(txid.to_owned()));
    RpcRequest { method: "getrawtransaction".to_owned(), params }
}

/// Decode a raw-block reply: the hex text is checked and turned into
/// bytes here, and the bytes go to the consensus decoder.  It succeeds
/// exactly when the text is hex whose spelled bytes form one block.
pub fn block_from_hex(hex: &str) -> (r: Option<RawBlock>)
    ensures
        !valid_hex(hex@) ==> r is None,
        valid_hex(hex@) ==> (r is Some <==> exists|b: Seq<u8>|
            #[trigger] bytes_of_hex(hex@, b) && wf_block_bytes(b)),
{
    match hex_to_bytes(hex) {
        Some(b) => {
            proof {
                lemma_hex_bytes_unique(hex@, b@);
            }
            consensus_block(b.as_slice())
        },
        None => None,
    }
}

/// Decode a raw-transaction reply, as `block_from_hex` does for blocks.
pub fn transaction_from_hex(hex: &str) -> (r: Option<RawTransaction>)
    ensures
        !valid_hex(hex@) ==> r is None,
        valid_hex(hex@) ==> (r is Some <==> exists|b: Seq<u8>|
            #[trigger] bytes_of_hex(hex@, b) && wf_transaction_bytes(b)),
{
    match hex_to_bytes(hex) {
        Some(b) => {
            proof {
                lemma_hex_bytes_unique(hex@, b@);
            }
            consensus_transaction(b.as_slice())
        },
        None => None,
    }
}

/// A hex text spells exactly one byte string.
proof fn lemma_hex_bytes_unique(s: Seq<char>, b: Seq<u8>)
    requires
        bytes_of_hex(s, b),
    ensures
        forall|b2: Seq<u8>| #[trigger] bytes_of_hex(s, b2) ==> b2 == b,
{
    assert forall|b2: Seq<u8>| #[trigger] bytes_of_hex(s, b2) implies b2 == b by {
        assert(b2.len() == b.len());
        assert forall|i: int| 0 <= i < b.len() implies b2[i] == b[i] by {
            assert(b2[i] as int == crate::hex::hex_byte(s, i));
            assert(b[i] as int == crate::hex::hex_byte(s, i));
        }
        assert(b2 =~= b);
    }
}

} // verus!
