//! Chain-state types: blocks, transactions, mempool entries.
//!
//! The block-fetch result is untagged on the wire; its decoder tries the
//! most structured shape first (full transactions, then id lists, then raw
//! hex text), and that precedence is part of the contract.

use vstd::prelude::*;

use crate::hex::{bytes_of_hex, hex_to_bytes, valid_hex};
use crate::value::{
    field_bool, field_i64, field_numtext, field_str, field_u32, field_u64, get_bool, get_i64,
    get_numtext, get_opt_str, get_opt_str_vec, get_opt_u64, get_str, get_str_vec,
    get_u32, get_u64, is_str_arr, jv_get, jv_obj_get, jv_str_of, opt_field_str,
    opt_field_u64, opt_str_eq, opt_strvec_ok, opt_strvec_val, str_arr_shaped, JsonValue,
};

verus! {

#[derive(Debug, PartialEq)]
pub struct SoftforkInfo {
    pub kind: String,
    pub active: bool,
    pub height: u32,
}

pub open spec fn softfork_info_shaped(v: JsonValue) -> bool {
    &&& field_str(v, "type"@) is Some
    &&& field_bool(v, "active"@) is Some
    &&& field_u32(v, "height"@) is Some
}

pub open spec fn softfork_info_fields(d: SoftforkInfo, v: JsonValue) -> bool {
    &&& (field_str(v, "type"@) matches Some(s) && d.kind@ == s@)
    &&& field_bool(v, "active"@) == Some(d.active)
    &&& field_u32(v, "height"@) == Some(d.height)
}

impl SoftforkInfo {
    pub fn from_json(v: &JsonValue) -> (r: Option<SoftforkInfo>)
        ensures
            r is Some <==> softfork_info_shaped(*v),
            r matches Some(d) ==> softfork_info_fields(d, *v),
    {
        let kind = match get_str(v, "type") {
            Some(s) => s,
            None => {
                return None;
            },
        };
        let active = match get_bool(v, "active") {
            Some(x) => x,
            None => {
                return None;
            },
        };
        let height = match get_u32(v, "height") {
            Some(x) => x,
            None => {
                return None;
            },
        };
        Some(SoftforkInfo { kind, active, height })
    }
}

/// The blockchain-info payload.  The difficulty, a JSON number on the
/// wire, keeps its decimal text.
#[derive(Debug, PartialEq)]
pub struct BlockchainInfo {
    pub chain: String,
    pub blocks: u32,
    pub headers: u32,
    pub bestblockhash: String,
    pub difficulty: String,
    pub mediantime: u64,
    pub verificationprogress: u64,
    pub initialblockdownload: bool,
    pub chainwork: String,
    pub size_on_disk: u64,
    pub pruned: bool,
    pub softforks: Vec<(String, SoftforkInfo)>,
    pub warnings: String,
}

pub open spec fn softfork_map_shaped(v: JsonValue) -> bool {
    &&& v matches JsonValue::Obj(fs)
    &&& forall|i: int| 0 <= i < fs@.len() ==> softfork_info_shaped((#[trigger] fs@[i]).1)
}

pub open spec fn softfork_map_fields(m: Seq<(String, SoftforkInfo)>, v: JsonValue) -> bool {
    &&& v matches JsonValue::Obj(fs)
    &&& fs@.len() == m.len()
    &&& forall|i: int|
        0 <= i < m.len() ==> (#[trigger] fs@[i]).0@ == m[i].0@ && softfork_info_fields(
            m[i].1,
            fs@[i].1,
        )
}

#[verifier::loop_isolation(false)]
fn softforks_from_json(v: &JsonValue) -> (r: Option<Vec<(String, SoftforkInfo)>>)
    ensures
        r is Some <==> softfork_map_shaped(*v),
        r matches Some(m) ==> softfork_map_fields(m@, *v),
{
    match v {
        JsonValue::Obj(fs) => {
            let n = fs.len();
            let mut out: Vec<(String, SoftforkInfo)> = Vec::new();
            let mut i: usize = 0;
            while i < n
                invariant
                    n == fs@.len(),
                    i <= n,
                    out@.len() == i,
                    forall|j: int|
                        0 <= j < i ==> (#[trigger] out@[j]).0@ == fs@[j].0@ && softfork_info_fields(
                            out@[j].1,
                            fs@[j].1,
                        ),
                    forall|j: int| 0 <= j < i ==> softfork_info_shaped((#[trigger] fs@[j]).1),
                decreases n - i,
            {
                let info = match SoftforkInfo::from_json(&fs[i].1) {
                    Some(x) => x,
                    None => {
                        return None;
                    },
                };
                out.push((fs[i].0.clone(), info));
                i += 1;
            }
            Some(out)
        },
        _ => None,
    }
}

pub open spec fn blockchain_info_shaped(v: JsonValue) -> bool {
    &&& field_str(v, "chain"@) is Some
    &&& field_u32(v, "blocks"@) is Some
    &&& field_u32(v, "headers"@) is Some
    &&& field_str(v, "bestblockhash"@) is Some
    &&& field_numtext(v, "difficulty"@) is Some
    &&& field_u64(v, "mediantime"@) is Some
    &&& field_u64(v, "verificationprogress"@) is Some
    &&& field_bool(v, "initialblockdownload"@) is Some
    &&& field_str(v, "chainwork"@) is Some
    &&& field_u64(v, "sizeOnDisk"@) is Some
    &&& field_bool(v, "pruned"@) is Some
    &&& (jv_get(v, "softforks"@) matches Some(x) && softfork_map_shaped(x))
    &&& field_str(v, "warnings"@) is Some
}

pub open spec fn blockchain_info_fields(d: BlockchainInfo, v: JsonValue) -> bool {
    &&& (field_str(v, "chain"@) matches Some(s) && d.chain@ == s@)
    &&& field_u32(v, "blocks"@) == Some(d.blocks)
    &&& field_u32(v, "headers"@) == Some(d.headers)
    &&& (field_str(v, "bestblockhash"@) matches Some(s) && d.bestblockhash@ == s@)
    &&& field_numtext(v, "difficulty"@) == Some(d.difficulty@)
    &&& field_u64(v, "mediantime"@) == Some(d.mediantime)
    &&& field_u64(v, "verificationprogress"@) == Some(d.verificationprogress)
    &&& field_bool(v, "initialblockdownload"@) == Some(d.initialblockdownload)
    &&& (field_str(v, "chainwork"@) matches Some(s) && d.chainwork@ == s@)
    &&& field_u64(v, "sizeOnDisk"@) == Some(d.size_on_disk)
    &&& field_bool(v, "pruned"@) == Some(d.pruned)
    &&& (jv_get(v, "softforks"@) matches Some(x) && softfork_map_fields(d.softforks@, x))
    &&& (field_str(v, "warnings"@) matches Some(s) && d.warnings@ == s@)
}

impl BlockchainInfo {
    pub fn from_json(v: &JsonValue) -> (r: Option<BlockchainInfo>)
        ensures
            r is Some <==> blockchain_info_shaped(*v),
            r matches Some(d) ==> blockchain_info_fields(d, *v),
    {
        let chain = match get_str(v, "chain") {
            Some(s) => s,
            None => {
                return None;
            },
        };
        let blocks = match get_u32(v, "blocks") {
            Some(x) => x,
            None => {
                return None;
            },
        };
        let headers = match get_u32(v, "headers") {
            Some(x) => x,
            None => {
                return None;
            },
        };
        let bestblockhash = match get_str(v, "bestblockhash") {
            Some(s) => s,
            None => {
                return None;
            },
        };
        let difficulty = match get_numtext(v, "difficulty") {
            Some(x) => x,
            None => {
                return None;
            },
        };
        let mediantime = match get_u64(v, "mediantime") {
            Some(x) => x,
            None => {
                return None;
            },
        };
        let verificationprogress = match get_u64(v, "verificationprogress") {
            Some(x) => x,
            None => {
                return None;
            },
        };
        let initialblockdownload = match get_bool(v, "initialblockdownload") {
            Some(x) => x,
            None => {
                return None;
            },
        };
        let chainwork = match get_str(v, "chainwork") {
            Some(s) => s,
            None => {
                return None;
            },
        };
        let size_on_disk = match get_u64(v, "sizeOnDisk") {
            Some(x) => x,
            None => {
                return None;
            },
        };
        let pruned = match get_bool(v, "pruned") {
            Some(x) => x,
            None => {
                return None;
            },
        };
        let softforks = match jv_obj_get(v, "softforks") {
            Some(x) => match softforks_from_json(x) {
                Some(m) => m,
                None => {
                    return None;
                },
            },
            None => {
                return None;
            },
        };
        let warnings = match get_str(v, "warnings") {
            Some(s) => s,
            None => {
                return None;
            },
        };
        Some(
            BlockchainInfo {
                chain,
                blocks,
                headers,
                bestblockhash,
                difficulty,
                mediantime,
                verificationprogress,
                initialblockdownload,
                chainwork,
                size_on_disk,
                pruned,
                softforks,
                warnings,
            },
        )
    }
}

#[derive(Debug, PartialEq)]
pub struct BlockHeader {
    pub hash: String,
    pub confirmations: u64,
    pub height: u64,
    pub version: u64,
    pub version_hex: String,
    pub merkleroot: String,
    pub time: u64,
    pub mediantime: u64,
    pub bits: String,
    pub difficulty: u64,
    pub chainwork: String,
    pub n_tx: u64,
    pub previousblockhash: String,
    pub nextblockhash: String,
}

pub open spec fn block_header_shaped(v: JsonValue) -> bool {
    &&& field_str(v, "hash"@) is Some
    &&& field_u64(v, "confirmations"@) is Some
    &&& field_u64(v, "height"@) is Some
    &&& field_u64(v, "version"@) is Some
    &&& field_str(v, "versionHex"@) is Some
    &&& field_str(v, "merkleroot"@) is Some
    &&& field_u64(v, "time"@) is Some
    &&& field_u64(v, "mediantime"@) is Some
    &&& field_str(v, "bits"@) is Some
    &&& field_u64(v, "difficulty"@) is Some
    &&& field_str(v, "chainwork"@) is Some
    &&& field_u64(v, "nTx"@) is Some
    &&& field_str(v, "previousblockhash"@) is Some
    &&& field_str(v, "nextblockhash"@) is Some
}

pub open spec fn block_header_fields(d: BlockHeader, v: JsonValue) -> bool {
    &&& (field_str(v, "hash"@) matches Some(s) && d.hash@ == s@)
    &&& field_u64(v, "confirmations"@) == Some(d.confirmations)
    &&& field_u64(v, "height"@) == Some(d.height)
    &&& field_u64(v, "version"@) == Some(d.version)
    &&& (field_str(v, "versionHex"@) matches Some(s) && d.version_hex@ == s@)
    &&& (field_str(v, "merkleroot"@) matches Some(s) && d.merkleroot@ == s@)
    &&& field_u64(v, "time"@) == Some(d.time)
    &&& field_u64(v, "mediantime"@) == Some(d.mediantime)
    &&& (field_str(v, "bits"@) matches Some(s) && d.bits@ == s@)
    &&& field_u64(v, "difficulty"@) == Some(d.difficulty)
    &&& (field_str(v, "chainwork"@) matches Some(s) && d.chainwork@ == s@)
    &&& field_u64(v, "nTx"@) == Some(d.n_tx)
    &&& (field_str(v, "previousblockhash"@) matches Some(s) && d.previousblockhash@ == s@)
    &&& (field_str(v, "nextblockhash"@) matches Some(s) && d.nextblockhash@ == s@)
}

impl BlockHeader {
    pub fn from_json(v: &JsonValue) -> (r: Option<BlockHeader>)
        ensures
            r is Some <==> block_header_shaped(*v),
            r matches Some(d) ==> block_header_fields(d, *v),
    {
        let hash = match get_str(v, "hash") {
            Some(s) => s,
            None => {
                return None;
            },
        };
        let confirmations = match get_u64(v, "confirmations") {
            Some(x) => x,
            None => {
                return None;
            },
        };
        let height = match get_u64(v, "height") {
            Some(x) => x,
            None => {
                return None;
            },
        };
        let version = match get_u64(v, "version") {
            Some(x) => x,
            None => {
                return None;
            },
        };
        let version_hex = match get_str(v, "versionHex") {
            Some(s) => s,
            None => {
                return None;
            },
        };
        let merkleroot = match get_str(v, "merkleroot") {
            Some(s) => s,
            None => {
                return None;
            },
        };
        let time = match get_u64(v, "time") {
            Some(x) => x,
            None => {
                return None;
            },
        };
        let mediantime = match get_u64(v, "mediantime") {
            Some(x) => x,
            None => {
                return None;
            },
        };
        let bits = match get_str(v, "bits") {
            Some(s) => s,
            None => {
                return None;
            },
        };
        let difficulty = match get_u64(v, "difficulty") {
            Some(x) => x,
            None => {
                return None;
            },
        };
        let chainwork = match get_str(v, "chainwork") {
            Some(s) => s,
            None => {
                return None;
            },
        };
        let n_tx = match get_u64(v, "nTx") {
            Some(x) => x,
            None => {
                return None;
            },
        };
        let previousblockhash = match get_str(v, "previousblockhash") {
            Some(s) => s,
            None => {
                return None;
            },
        };
        let nextblockhash = match get_str(v, "nextblockhash") {
            Some(s) => s,
            None => {
                return None;
            },
        };
        Some(
            BlockHeader {
                hash,
                confirmations,
                height,
                version,
                version_hex,
                merkleroot,
                time,
                mediantime,
                bits,
                difficulty,
                chainwork,
                n_tx,
                previousblockhash,
                nextblockhash,
            },
        )
    }
}

#[derive(Debug, PartialEq)]
pub struct ScriptSig {
    pub script_asm: String,
    pub hex: Option<String>,
}

pub open spec fn script_sig_shaped(v: JsonValue) -> bool {
    &&& field_str(v, "asm"@) is Some
    &&& opt_field_str(v, "hex"@) is Some
}

pub open spec fn script_sig_fields(d: ScriptSig, v: JsonValue) -> bool {
    &&& (field_str(v, "asm"@) matches Some(s) && d.script_asm@ == s@)
    &&& (opt_field_str(v, "hex"@) matches Some(o) && opt_str_eq(d.hex, o))
}

impl ScriptSig {
    pub fn from_json(v: &JsonValue) -> (r: Option<ScriptSig>)
        ensures
            r is Some <==> script_sig_shaped(*v),
            r matches Some(d) ==> script_sig_fields(d, *v),
    {
        let script_asm = match get_str(v, "asm") {
            Some(s) => s,
            None => {
                return None;
            },
        };
        let hex = match get_opt_str(v, "hex") {
            Some(x) => x,
            None => {
                return None;
            },
        };
        Some(ScriptSig { script_asm, hex })
    }
}

/// An output script.  Its `hex` field arrives as hex text and is decoded
/// to the spelled bytes.
#[derive(Debug, PartialEq)]
pub struct ScriptPubKey {
    pub script_asm: String,
    pub hex: Vec<u8>,
    pub kind: String,
    pub req_sigs: Option<u64>,
    pub addresses: Option<Vec<String>>,
}

pub open spec fn script_pub_key_shaped(v: JsonValue) -> bool {
    &&& field_str(v, "asm"@) is Some
    &&& (field_str(v, "hex"@) matches Some(s) && valid_hex(s@))
    &&& field_str(v, "type"@) is Some
    &&& opt_field_u64(v, "reqSigs"@) is Some
    &&& opt_strvec_ok(v, "addresses"@)
}

pub open spec fn script_pub_key_fields(d: ScriptPubKey, v: JsonValue) -> bool {
    &&& (field_str(v, "asm"@) matches Some(s) && d.script_asm@ == s@)
    &&& (field_str(v, "hex"@) matches Some(s) && bytes_of_hex(s@, d.hex@))
    &&& (field_str(v, "type"@) matches Some(s) && d.kind@ == s@)
    &&& opt_field_u64(v, "reqSigs"@) == Some(d.req_sigs)
    &&& opt_strvec_val(
        v,
        "addresses"@,
        match d.addresses {
            None => None,
            Some(ss) => Some(ss.deep_view()),
        },
    )
}

impl ScriptPubKey {
    pub fn from_json(v: &JsonValue) -> (r: Option<ScriptPubKey>)
        ensures
            r is Some <==> script_pub_key_shaped(*v),
            r matches Some(d) ==> script_pub_key_fields(d, *v),
    {
        let script_asm = match get_str(v, "asm") {
            Some(s) => s,
            None => {
                return None;
            },
        };
        let hex_text = match get_str(v, "hex") {
            Some(s) => s,
            None => {
                return None;
            },
        };
        let hex = match hex_to_bytes(hex_text.as_str()) {
            Some(b) => b,
            None => {
                return None;
            },
        };
        let kind = match get_str(v, "type") {
            Some(s) => s,
            None => {
                return None;
            },
        };
        let req_sigs = match get_opt_u64(v, "reqSigs") {
            Some(x) => x,
            None => {
                return None;
            },
        };
        let addresses = match get_opt_str_vec(v, "addresses") {
            Some(x) => x,
            None => {
                return None;
            },
        };
        Some(ScriptPubKey { script_asm, hex, kind, req_sigs, addresses })
    }
}

#[derive(Debug, PartialEq)]
pub struct VinCoinbase {
    pub coinbase: String,
    pub sequence: i64,
}

pub open spec fn vin_coinbase_shaped(v: JsonValue) -> bool {
    &&& field_str(v, "coinbase"@) is Some
    &&& field_i64(v, "sequence"@) is Some
}

pub open spec fn vin_coinbase_fields(d: VinCoinbase, v: JsonValue) -> bool {
    &&& (field_str(v, "coinbase"@) matches Some(s) && d.coinbase@ == s@)
    &&& field_i64(v, "sequence"@) == Some(d.sequence)
}

impl VinCoinbase {
    pub fn from_json(v: &JsonValue) -> (r: Option<VinCoinbase>)
        ensures
            r is Some <==> vin_coinbase_shaped(*v),
            r matches Some(d) ==> vin_coinbase_fields(d, *v),
    {
        let coinbase = match get_str(v, "coinbase") {
            Some(s) => s,
            None => {
                return None;
            },
        };
        let sequence = match get_i64(v, "sequence") {
            Some(x) => x,
            None => {
                return None;
            },
        };
        Some(VinCoinbase { coinbase, sequence })
    }
}

#[derive(Debug, PartialEq)]
pub struct VinStandard {
    pub txid: String,
    pub vout: u64,
    pub script_sig: ScriptSig,
    pub txinwitness: Option<Vec<String>>,
    pub sequence: i64,
}

pub open spec fn vin_standard_shaped(v: JsonValue) -> bool {
    &&& field_str(v, "txid"@) is Some
    &&& field_u64(v, "vout"@) is Some
    &&& (jv_get(v, "scriptSig"@) matches Some(x) && script_sig_shaped(x))
    &&& opt_strvec_ok(v, "txinwitness"@)
    &&& field_i64(v, "sequence"@) is Some
}

pub open spec fn vin_standard_fields(d: VinStandard, v: JsonValue) -> bool {
    &&& (field_str(v, "txid"@) matches Some(s) && d.txid@ == s@)
    &&& field_u64(v, "vout"@) == Some(d.vout)
    &&& (jv_get(v, "scriptSig"@) matches Some(x) && script_sig_fields(d.script_sig, x))
    &&& opt_strvec_val(
        v,
        "txinwitness"@,
        match d.txinwitness {
            None => None,
            Some(ss) => Some(ss.deep_view()),
        },
    )
    &&& field_i64(v, "sequence"@) == Some(d.sequence)
}

impl VinStandard {
    pub fn from_json(v: &JsonValue) -> (r: Option<VinStandard>)
        ensures
            r is Some <==> vin_standard_shaped(*v),
            r matches Some(d) ==> vin_standard_fields(d, *v),
    {
        let txid = match get_str(v, "txid") {
            Some(s) => s,
            None => {
                return None;
            },
        };
        let vout = match get_u64(v, "vout") {
            Some(x) => x,
            None => {
                return None;
            },
        };
        let script_sig = match jv_obj_get(v, "scriptSig") {
            Some(x) => match ScriptSig::from_json(x) {
                Some(ss) => ss,
                None => {
                    return None;
                },
            },
            None => {
                return None;
            },
        };
        let txinwitness = match get_opt_str_vec(v, "txinwitness") {
            Some(x) => x,
            None => {
                return None;
            },
        };
        let sequence = match get_i64(v, "sequence") {
            Some(x) => x,
            None => {
                return None;
            },
        };
        Some(VinStandard { txid, vout, script_sig, txinwitness, sequence })
    }
}

/// A transaction input: a coinbase input or a standard one.  The payload
/// is untagged, so the coinbase shape is tried first.
#[derive(Debug, PartialEq)]
pub enum Vin {
    Coinbase(VinCoinbase),
    Standard(VinStandard),
}

pub open spec fn vin_shaped(v: JsonValue) -> bool {
    vin_coinbase_shaped(v) || vin_standard_shaped(v)
}

impl Vin {
    pub fn from_json(v: &JsonValue) -> (r: Option<Vin>)
        ensures
            r is Some <==> vin_shaped(*v),
            vin_coinbase_shaped(*v) ==> (r matches Some(d) && d is Coinbase),
            r matches Some(d) ==> match d {
                Vin::Coinbase(c) => vin_coinbase_fields(c, *v),
                Vin::Standard(s) => (vin_standard_fields(s, *v) && !vin_coinbase_shaped(*v)),
            },
    {
        match VinCoinbase::from_json(v) {
            Some(c) => Some(Vin::Coinbase(c)),
            None => match VinStandard::from_json(v) {
                Some(s) => Some(Vin::Standard(s)),
                None => None,
            },
        }
    }
}

pub open spec fn vin_arr_shaped(v: JsonValue) -> bool {
    &&& v matches JsonValue::Arr(items)
    &&& forall|i: int| 0 <= i < items@.len() ==> vin_shaped(#[trigger] items@[i])
}

pub open spec fn vin_arr_fields(ds: Seq<Vin>, v: JsonValue) -> bool {
    &&& v matches JsonValue::Arr(items)
    &&& items@.len() == ds.len()
    &&& forall|i: int|
        0 <= i < ds.len() ==> match ds[i] {
            Vin::Coinbase(c) => vin_coinbase_fields(c, #[trigger] items@[i]),
            Vin::Standard(s) => vin_standard_fields(s, items@[i]),
        }
}

#[verifier::loop_isolation(false)]
pub fn vins_from_json(v: &JsonValue) -> (r: Option<Vec<Vin>>)
    ensures
        r is Some <==> vin_arr_shaped(*v),
        r matches Some(ds) ==> vin_arr_fields(ds@, *v),
{
    match v {
        JsonValue::Arr(items) => {
            let n = items.len();
            let mut out: Vec<Vin> = Vec::new();
            let mut i: usize = 0;
            while i < n
                invariant
                    n == items@.len(),
                    i <= n,
                    out@.len() == i,
                    forall|j: int|
                        0 <= j < i ==> match out@[j] {
                            Vin::Coinbase(c) => vin_coinbase_fields(c, #[trigger] items@[j]),
                            Vin::Standard(s) => vin_standard_fields(s, items@[j]),
                        },
                    forall|j: int| 0 <= j < i ==> vin_shaped(#[trigger] items@[j]),
                decreases n - i,
            {
                match Vin::from_json(&items[i]) {
                    Some(d) => {
                        out.push(d);
                    },
                    None => {
                        return None;
                    },
                }
                i += 1;
            }
            Some(out)
        },
        _ => None,
    }
}

/// A transaction output.  Its value, a JSON number on the wire, keeps its
/// decimal text.
#[derive(Debug, PartialEq)]
pub struct Vout {
    pub value: String,
    pub n: u64,
    pub script_pub_key: ScriptPubKey,
    pub token_id: Option<u64>,
}

pub open spec fn vout_shaped(v: JsonValue) -> bool {
    &&& field_numtext(v, "value"@) is Some
    &&& field_u64(v, "n"@) is Some
    &&& (jv_get(v, "scriptPubKey"@) matches Some(x) && script_pub_key_shaped(x))
    &&& opt_field_u64(v, "tokenId"@) is Some
}

pub open spec fn vout_fields(d: Vout, v: JsonValue) -> bool {
    &&& field_numtext(v, "value"@) == Some(d.value@)
    &&& field_u64(v, "n"@) == Some(d.n)
    &&& (jv_get(v, "scriptPubKey"@) matches Some(x) && script_pub_key_fields(d.script_pub_key, x))
    &&& opt_field_u64(v, "tokenId"@) == Some(d.token_id)
}

impl Vout {
    pub fn from_json(v: &JsonValue) -> (r: Option<Vout>)
        ensures
            r is Some <==> vout_shaped(*v),
            r matches Some(d) ==> vout_fields(d, *v),
    {
        let value = match get_numtext(v, "value") {
            Some(x) => x,
            None => {
                return None;
            },
        };
        let n = match get_u64(v, "n") {
            Some(x) => x,
            None => {
                return None;
            },
        };
        let script_pub_key = match jv_obj_get(v, "scriptPubKey") {
            Some(x) => match ScriptPubKey::from_json(x) {
                Some(spk) => spk,
                None => {
                    return None;
                },
            },
            None => {
                return None;
            },
        };
        let token_id = match get_opt_u64(v, "tokenId") {
            Some(x) => x,
            None => {
                return None;
            },
        };
        Some(Vout { value, n, script_pub_key, token_id })
    }
}

pub open spec fn vout_arr_shaped(v: JsonValue) -> bool {
    &&& v matches JsonValue::Arr(items)
    &&& forall|i: int| 0 <= i < items@.len() ==> vout_shaped(#[trigger] items@[i])
}

pub open spec fn vout_arr_fields(ds: Seq<Vout>, v: JsonValue) -> bool {
    &&& v matches JsonValue::Arr(items)
    &&& items@.len() == ds.len()
    &&& forall|i: int| 0 <= i < ds.len() ==> vout_fields(ds[i], #[trigger] items@[i])
}

#[verifier::loop_isolation(false)]
pub fn vouts_from_json(v: &JsonValue) -> (r: Option<Vec<Vout>>)
    ensures
        r is Some <==> vout_arr_shaped(*v),
        r matches Some(ds) ==> vout_arr_fields(ds@, *v),
{
    match v {
        JsonValue::Arr(items) => {
            let n = items.len();
            let mut out: Vec<Vout> = Vec::new();
            let mut i: usize = 0;
            while i < n
                invariant
                    n == items@.len(),
                    i <= n,
                    out@.len() == i,
                    forall|j: int| 0 <= j < i ==> vout_fields(out@[j], #[trigger] items@[j]),
                    forall|j: int| 0 <= j < i ==> vout_shaped(#[trigger] items@[j]),
                decreases n - i,
            {
                match Vout::from_json(&items[i]) {
                    Some(d) => {
                        out.push(d);
                    },
                    None => {
                        return None;
                    },
                }
                i += 1;
            }
            Some(out)
        },
        _ => None,
    }
}

#[derive(Debug, PartialEq)]
pub struct Transaction {
    pub txid: String,
    pub hash: String,
    pub version: u32,
    pub size: u64,
    pub vsize: u64,
    pub weight: u64,
    pub locktime: u64,
    pub vin: Vec<Vin>,
    pub vout: Vec<Vout>,
    pub hex: String,
}

pub open spec fn transaction_shaped(v: JsonValue) -> bool {
    &&& field_str(v, "txid"@) is Some
    &&& field_str(v, "hash"@) is Some
    &&& field_u32(v, "version"@) is Some
    &&& field_u64(v, "size"@) is Some
    &&& field_u64(v, "vsize"@) is Some
    &&& field_u64(v, "weight"@) is Some
    &&& field_u64(v, "locktime"@) is Some
    &&& (jv_get(v, "vin"@) matches Some(x) && vin_arr_shaped(x))
    &&& (jv_get(v, "vout"@) matches Some(x) && vout_arr_shaped(x))
    &&& field_str(v, "hex"@) is Some
}

pub open spec fn transaction_fields(d: Transaction, v: JsonValue) -> bool {
    &&& (field_str(v, "txid"@) matches Some(s) && d.txid@ == s@)
    &&& (field_str(v, "hash"@) matches Some(s) && d.hash@ == s@)
    &&& field_u32(v, "version"@) == Some(d.version)
    &&& field_u64(v, "size"@) == Some(d.size)
    &&& field_u64(v, "vsize"@) == Some(d.vsize)
    &&& field_u64(v, "weight"@) == Some(d.weight)
    &&& field_u64(v, "locktime"@) == Some(d.locktime)
    &&& (jv_get(v, "vin"@) matches Some(x) && vin_arr_fields(d.vin@, x))
    &&& (jv_get(v, "vout"@) matches Some(x) && vout_arr_fields(d.vout@, x))
    &&& (field_str(v, "hex"@) matches Some(s) && d.hex@ == s@)
}

impl Transaction {
    pub fn from_json(v: &JsonValue) -> (r: Option<Transaction>)
        ensures
            r is Some <==> transaction_shaped(*v),
            r matches Some(d) ==> transaction_fields(d, *v),
    {
        let txid = match get_str(v, "txid") {
            Some(s) => s,
            None => {
                return None;
            },
        };
        let hash = match get_str(v, "hash") {
            Some(s) => s,
            None => {
                return None;
            },
        };
        let version = match get_u32(v, "version") {
            Some(x) => x,
            None => {
                return None;
            },
        };
        let size = match get_u64(v, "size") {
            Some(x) => x,
            None => {
                return None;
            },
        };
        let vsize = match get_u64(v, "vsize") {
            Some(x) => x,
            None => {
                return None;
            },
        };
        let weight = match get_u64(v, "weight") {
            Some(x) => x,
            None => {
                return None;
            },
        };
        let locktime = match get_u64(v, "locktime") {
            Some(x) => x,
            None => {
                return None;
            },
        };
        let vin = match jv_obj_get(v, "vin") {
            Some(x) => match vins_from_json(x) {
                Some(ds) => ds,
                None => {
                    return None;
                },
            },
            None => {
                return None;
            },
        };
        let vout = match jv_obj_get(v, "vout") {
            Some(x) => match vouts_from_json(x) {
                Some(ds) => ds,
                None => {
                    return None;
                },
            },
            None => {
                return None;
            },
        };
        let hex = match get_str(v, "hex") {
            Some(s) => s,
            None => {
                return None;
            },
        };
        Some(
            Transaction {
                txid,
                hash,
                version,
                size,
                vsize,
                weight,
                locktime,
                vin,
                vout,
                hex,
            },
        )
    }
}

#[derive(Debug, PartialEq)]
pub struct UTXODetails {
    pub bestblock: String,
    pub confirmations: u64,
    pub value: i64,
    pub script_pub_key: ScriptPubKey,
    pub coinbase: bool,
}

pub open spec fn utxo_details_shaped(v: JsonValue) -> bool {
    &&& field_str(v, "bestblock"@) is Some
    &&& field_u64(v, "confirmations"@) is Some
    &&& field_i64(v, "value"@) is Some
    &&& (jv_get(v, "scriptPubKey"@) matches Some(x) && script_pub_key_shaped(x))
    &&& field_bool(v, "coinbase"@) is Some
}

pub open spec fn utxo_details_fields(d: UTXODetails, v: JsonValue) -> bool {
    &&& (field_str(v, "bestblock"@) matches Some(s) && d.bestblock@ == s@)
    &&& field_u64(v, "confirmations"@) == Some(d.confirmations)
    &&& field_i64(v, "value"@) == Some(d.value)
    &&& (jv_get(v, "scriptPubKey"@) matches Some(x) && script_pub_key_fields(d.script_pub_key, x))
    &&& field_bool(v, "coinbase"@) == Some(d.coinbase)
}

impl UTXODetails {
    pub fn from_json(v: &JsonValue) -> (r: Option<UTXODetails>)
        ensures
            r is Some <==> utxo_details_shaped(*v),
            r matches Some(d) ==> utxo_details_fields(d, *v),
    {
        let bestblock = match get_str(v, "bestblock") {
            Some(s) => s,
            None => {
                return None;
            },
        };
        let confirmations = match get_u64(v, "confirmations") {
            Some(x) => x,
            None => {
                return None;
            },
        };
        let value = match get_i64(v, "value") {
            Some(x) => x,
            None => {
                return None;
            },
        };
        let script_pub_key = match jv_obj_get(v, "scriptPubKey") {
            Some(x) => match ScriptPubKey::from_json(x) {
                Some(spk) => spk,
                None => {
                    return None;
                },
            },
            None => {
                return None;
            },
        };
        let coinbase = match get_bool(v, "coinbase") {
            Some(x) => x,
            None => {
                return None;
            },
        };
        Some(UTXODetails { bestblock, confirmations, value, script_pub_key, coinbase })
    }
}


/// A block, generic in how its transactions are reported: full
/// transactions at verbosity 2, their ids at verbosity 1.  Numeric fields
/// the node reports as non-integers keep their decimal text.
#[derive(Debug, PartialEq)]
pub struct Block<T> {
    pub hash: String,
    pub height: u32,
    pub confirmations: i64,
    pub strippedsize: u64,
    pub size: u64,
    pub weight: u64,
    pub masternode: Option<String>,
    pub minter: Option<String>,
    pub minted_blocks: u64,
    pub stake_modifier: String,
    pub version: i64,
    pub version_hex: String,
    pub merkleroot: String,
    pub time: i64,
    pub mediantime: i64,
    pub bits: String,
    pub difficulty: String,
    pub chainwork: String,
    pub tx: Vec<T>,
    pub n_tx: u64,
    pub previousblockhash: Option<String>,
    pub nextblockhash: Option<String>,
}

/// The fields every block shape shares, the transaction list aside.
pub open spec fn block_common_shaped(v: JsonValue) -> bool {
    &&& field_str(v, "hash"@) is Some
    &&& field_u32(v, "height"@) is Some
    &&& field_i64(v, "confirmations"@) is Some
    &&& field_u64(v, "strippedsize"@) is Some
    &&& field_u64(v, "size"@) is Some
    &&& field_u64(v, "weight"@) is Some
    &&& opt_field_str(v, "masternode"@) is Some
    &&& opt_field_str(v, "minter"@) is Some
    &&& field_u64(v, "mintedBlocks"@) is Some
    &&& field_str(v, "stakeModifier"@) is Some
    &&& field_i64(v, "version"@) is Some
    &&& field_str(v, "versionHex"@) is Some
    &&& field_str(v, "merkleroot"@) is Some
    &&& field_i64(v, "time"@) is Some
    &&& field_i64(v, "mediantime"@) is Some
    &&& field_str(v, "bits"@) is Some
    &&& field_numtext(v, "difficulty"@) is Some
    &&& field_str(v, "chainwork"@) is Some
    &&& field_u64(v, "nTx"@) is Some
    &&& opt_field_str(v, "previousblockhash"@) is Some
    &&& opt_field_str(v, "nextblockhash"@) is Some
}

pub open spec fn block_common_fields<T>(d: Block<T>, v: JsonValue) -> bool {
    &&& (field_str(v, "hash"@) matches Some(s) && d.hash@ == s@)
    &&& field_u32(v, "height"@) == Some(d.height)
    &&& field_i64(v, "confirmations"@) == Some(d.confirmations)
    &&& field_u64(v, "strippedsize"@) == Some(d.strippedsize)
    &&& field_u64(v, "size"@) == Some(d.size)
    &&& field_u64(v, "weight"@) == Some(d.weight)
    &&& (opt_field_str(v, "masternode"@) matches Some(o) && opt_str_eq(d.masternode, o))
    &&& (opt_field_str(v, "minter"@) matches Some(o) && opt_str_eq(d.minter, o))
    &&& field_u64(v, "mintedBlocks"@) == Some(d.minted_blocks)
    &&& (field_str(v, "stakeModifier"@) matches Some(s) && d.stake_modifier@ == s@)
    &&& field_i64(v, "version"@) == Some(d.version)
    &&& (field_str(v, "versionHex"@) matches Some(s) && d.version_hex@ == s@)
    &&& (field_str(v, "merkleroot"@) matches Some(s) && d.merkleroot@ == s@)
    &&& field_i64(v, "time"@) == Some(d.time)
    &&& field_i64(v, "mediantime"@) == Some(d.mediantime)
    &&& (field_str(v, "bits"@) matches Some(s) && d.bits@ == s@)
    &&& field_numtext(v, "difficulty"@) == Some(d.difficulty@)
    &&& (field_str(v, "chainwork"@) matches Some(s) && d.chainwork@ == s@)
    &&& field_u64(v, "nTx"@) == Some(d.n_tx)
    &&& (opt_field_str(v, "previousblockhash"@) matches Some(o) && opt_str_eq(
        d.previousblockhash,
        o,
    ))
    &&& (opt_field_str(v, "nextblockhash"@) matches Some(o) && opt_str_eq(d.nextblockhash, o))
}

pub open spec fn transaction_arr_shaped(v: JsonValue) -> bool {
    &&& v matches JsonValue::Arr(items)
    &&& forall|i: int| 0 <= i < items@.len() ==> transaction_shaped(#[trigger] items@[i])
}

pub open spec fn transaction_arr_fields(ds: Seq<Transaction>, v: JsonValue) -> bool {
    &&& v matches JsonValue::Arr(items)
    &&& items@.len() == ds.len()
    &&& forall|i: int| 0 <= i < ds.len() ==> transaction_fields(ds[i], #[trigger] items@[i])
}

#[verifier::loop_isolation(false)]
pub fn transactions_from_json(v: &JsonValue) -> (r: Option<Vec<Transaction>>)
    ensures
        r is Some <==> transaction_arr_shaped(*v),
        r matches Some(ds) ==> transaction_arr_fields(ds@, *v),
{
    match v {
        JsonValue::Arr(items) => {
            let n = items.len();
            let mut out: Vec<Transaction> = Vec::new();
            let mut i: usize = 0;
            while i < n
                invariant
                    n == items@.len(),
                    i <= n,
                    out@.len() == i,
                    forall|j: int| 0 <= j < i ==> transaction_fields(out@[j], #[trigger] items@[j]),
                    forall|j: int| 0 <= j < i ==> transaction_shaped(#[trigger] items@[j]),
                decreases n - i,
            {
                match Transaction::from_json(&items[i]) {
                    Some(d) => {
                        out.push(d);
                    },
                    None => {
                        return None;
                    },
                }
                i += 1;
            }
            Some(out)
        },
        _ => None,
    }
}

/// A block whose transaction list is fully decoded.
pub open spec fn block_full_shaped(v: JsonValue) -> bool {
    &&& block_common_shaped(v)
    &&& (jv_get(v, "tx"@) matches Some(x) && transaction_arr_shaped(x))
}

pub open spec fn block_full_fields(d: Block<Transaction>, v: JsonValue) -> bool {
    &&& block_common_fields(d, v)
    &&& (jv_get(v, "tx"@) matches Some(x) && transaction_arr_fields(d.tx@, x))
}

/// A block whose transactions are reported as their ids.
pub open spec fn block_ids_shaped(v: JsonValue) -> bool {
    &&& block_common_shaped(v)
    &&& (jv_get(v, "tx"@) matches Some(x) && str_arr_shaped(x))
}

pub open spec fn block_ids_fields(d: Block<String>, v: JsonValue) -> bool {
    &&& block_common_fields(d, v)
    &&& (jv_get(v, "tx"@) matches Some(x) && is_str_arr(x, d.tx.deep_view()))
}

struct BlockCommon {
    hash: String,
    height: u32,
    confirmations: i64,
    strippedsize: u64,
    size: u64,
    weight: u64,
    masternode: Option<String>,
    minter: Option<String>,
    minted_blocks: u64,
    stake_modifier: String,
    version: i64,
    version_hex: String,
    merkleroot: String,
    time: i64,
    mediantime: i64,
    bits: String,
    difficulty: String,
    chainwork: String,
    n_tx: u64,
    previousblockhash: Option<String>,
    nextblockhash: Option<String>,
}

spec fn block_common_parts_ok(c: BlockCommon, v: JsonValue) -> bool {
    &&& (field_str(v, "hash"@) matches Some(s) && c.hash@ == s@)
    &&& field_u32(v, "height"@) == Some(c.height)
    &&& field_i64(v, "confirmations"@) == Some(c.confirmations)
    &&& field_u64(v, "strippedsize"@) == Some(c.strippedsize)
    &&& field_u64(v, "size"@) == Some(c.size)
    &&& field_u64(v, "weight"@) == Some(c.weight)
    &&& (opt_field_str(v, "masternode"@) matches Some(o) && opt_str_eq(c.masternode, o))
    &&& (opt_field_str(v, "minter"@) matches Some(o) && opt_str_eq(c.minter, o))
    &&& field_u64(v, "mintedBlocks"@) == Some(c.minted_blocks)
    &&& (field_str(v, "stakeModifier"@) matches Some(s) && c.stake_modifier@ == s@)
    &&& field_i64(v, "version"@) == Some(c.version)
    &&& (field_str(v, "versionHex"@) matches Some(s) && c.version_hex@ == s@)
    &&& (field_str(v, "merkleroot"@) matches Some(s) && c.merkleroot@ == s@)
    &&& field_i64(v, "time"@) == Some(c.time)
    &&& field_i64(v, "mediantime"@) == Some(c.mediantime)
    &&& (field_str(v, "bits"@) matches Some(s) && c.bits@ == s@)
    &&& field_numtext(v, "difficulty"@) == Some(c.difficulty@)
    &&& (field_str(v, "chainwork"@) matches Some(s) && c.chainwork@ == s@)
    &&& field_u64(v, "nTx"@) == Some(c.n_tx)
    &&& (opt_field_str(v, "previousblockhash"@) matches Some(o) && opt_str_eq(
        c.previousblockhash,
        o,
    ))
    &&& (opt_field_str(v, "nextblockhash"@) matches Some(o) && opt_str_eq(c.nextblockhash, o))
}

fn block_common_from_json(v: &JsonValue) -> (r: Option<BlockCommon>)
    ensures
        r is Some <==> block_common_shaped(*v),
        r matches Some(c) ==> block_common_parts_ok(c, *v),
{
    let hash = match get_str(v, "hash") {
        Some(s) => s,
        None => {
            return None;
        },
    };
    let height = match get_u32(v, "height") {
        Some(x) => x,
        None => {
            return None;
        },
    };
    let confirmations = match get_i64(v, "confirmations") {
        Some(x) => x,
        None => {
            return None;
        },
    };
    let strippedsize = match get_u64(v, "strippedsize") {
        Some(x) => x,
        None => {
            return None;
        },
    };
    let size = match get_u64(v, "size") {
        Some(x) => x,
        None => {
            return None;
        },
    };
    let weight = match get_u64(v, "weight") {
        Some(x) => x,
        None => {
            return None;
        },
    };
    let masternode = match get_opt_str(v, "masternode") {
        Some(x) => x,
        None => {
            return None;
        },
    };
    let minter = match get_opt_str(v, "minter") {
        Some(x) => x,
        None => {
            return None;
        },
    };
    let minted_blocks = match get_u64(v, "mintedBlocks") {
        Some(x) => x,
        None => {
            return None;
        },
    };
    let stake_modifier = match get_str(v, "stakeModifier") {
        Some(s) => s,
        None => {
            return None;
        },
    };
    let version = match get_i64(v, "version") {
        Some(x) => x,
        None => {
            return None;
        },
    };
    let version_hex = match get_str(v, "versionHex") {
        Some(s) => s,
        None => {
            return None;
        },
    };
    let merkleroot = match get_str(v, "merkleroot") {
        Some(s) => s,
        None => {
            return None;
        },
    };
    let time = match get_i64(v, "time") {
        Some(x) => x,
        None => {
            return None;
        },
    };
    let mediantime = match get_i64(v, "mediantime") {
        Some(x) => x,
        None => {
            return None;
        },
    };
    let bits = match get_str(v, "bits") {
        Some(s) => s,
        None => {
            return None;
        },
    };
    let difficulty = match get_numtext(v, "difficulty") {
        Some(x) => x,
        None => {
            return None;
        },
    };
    let chainwork = match get_str(v, "chainwork") {
        Some(s) => s,
        None => {
            return None;
        },
    };
    let n_tx = match get_u64(v, "nTx") {
        Some(x) => x,
        None => {
            return None;
        },
    };
    let previousblockhash = match get_opt_str(v, "previousblockhash") {
        Some(x) => x,
        None => {
            return None;
        },
    };
    let nextblockhash = match get_opt_str(v, "nextblockhash") {
        Some(x) => x,
        None => {
            return None;
        },
    };
    Some(
        BlockCommon {
            hash,
            height,
            confirmations,
            strippedsize,
            size,
            weight,
            masternode,
            minter,
            minted_blocks,
            stake_modifier,
            version,
            version_hex,
            merkleroot,
            time,
            mediantime,
            bits,
            difficulty,
            chainwork,
            n_tx,
            previousblockhash,
            nextblockhash,
        },
    )
}

pub fn block_full_from_json(v: &JsonValue) -> (r: Option<Block<Transaction>>)
    ensures
        r is Some <==> block_full_shaped(*v),
        r matches Some(d) ==> block_full_fields(d, *v),
{
    let c = match block_common_from_json(v) {
        Some(c) => c,
        None => {
            return None;
        },
    };
    let tx = match jv_obj_get(v, "tx") {
        Some(x) => match transactions_from_json(x) {
            Some(ds) => ds,
            None => {
                return None;
            },
        },
        None => {
            return None;
        },
    };
    Some(
        Block {
            hash: c.hash,
            height: c.height,
            confirmations: c.confirmations,
            strippedsize: c.strippedsize,
            size: c.size,
            weight: c.weight,
            masternode: c.masternode,
            minter: c.minter,
            minted_blocks: c.minted_blocks,
            stake_modifier: c.stake_modifier,
            version: c.version,
            version_hex: c.version_hex,
            merkleroot: c.merkleroot,
            time: c.time,
            mediantime: c.mediantime,
            bits: c.bits,
            difficulty: c.difficulty,
            chainwork: c.chainwork,
            tx,
            n_tx: c.n_tx,
            previousblockhash: c.previousblockhash,
            nextblockhash: c.nextblockhash,
        },
    )
}

pub fn block_ids_from_json(v: &JsonValue) -> (r: Option<Block<String>>)
    ensures
        r is Some <==> block_ids_shaped(*v),
        r matches Some(d) ==> block_ids_fields(d, *v),
{
    let c = match block_common_from_json(v) {
        Some(c) => c,
        None => {
            return None;
        },
    };
    let tx = match get_str_vec(v, "tx") {
        Some(ds) => ds,
        None => {
            return None;
        },
    };
    Some(
        Block {
            hash: c.hash,
            height: c.height,
            confirmations: c.confirmations,
            strippedsize: c.strippedsize,
            size: c.size,
            weight: c.weight,
            masternode: c.masternode,
            minter: c.minter,
            minted_blocks: c.minted_blocks,
            stake_modifier: c.stake_modifier,
            version: c.version,
            version_hex: c.version_hex,
            merkleroot: c.merkleroot,
            time: c.time,
            mediantime: c.mediantime,
            bits: c.bits,
            difficulty: c.difficulty,
            chainwork: c.chainwork,
            tx,
            n_tx: c.n_tx,
            previousblockhash: c.previousblockhash,
            nextblockhash: c.nextblockhash,
        },
    )
}

/// What a block fetch returns: a block with full transactions, one with
/// transaction ids, or the raw block as hex text, depending on the
/// verbosity that was asked for.
#[derive(Debug, PartialEq)]
pub enum GetBlockResult {
    Full(Block<Transaction>),
    TxHash(Block<String>),
    Hex(String),
}

pub open spec fn get_block_result_shaped(v: JsonValue) -> bool {
    block_full_shaped(v) || block_ids_shaped(v) || v is Str
}

impl GetBlockResult {
    /// Decode with fixed precedence: the full shape first, then the id
    /// list, then raw hex text.  A payload of the full shape never decodes
    /// as the hex fallback.
    pub fn from_json(v: &JsonValue) -> (r: Option<GetBlockResult>)
        ensures
            r is Some <==> get_block_result_shaped(*v),
            block_full_shaped(*v) ==> (r matches Some(d) && d is Full),
            r matches Some(d) ==> match d {
                GetBlockResult::Full(b) => block_full_fields(b, *v),
                GetBlockResult::TxHash(b) => (block_ids_fields(b, *v) && !block_full_shaped(*v)),
                GetBlockResult::Hex(s) => (jv_str_of(*v) == Some(s) && !block_full_shaped(*v)
                    && !block_ids_shaped(*v)),
            },
    {
        match block_full_from_json(v) {
            Some(b) => Some(GetBlockResult::Full(b)),
            None => match block_ids_from_json(v) {
                Some(b) => Some(GetBlockResult::TxHash(b)),
                None => match v {
                    JsonValue::Str(s) => Some(GetBlockResult::Hex(s.clone())),
                    _ => None,
                },
            },
        }
    }
}

#[derive(Debug, PartialEq)]
pub struct TxOutSetInfo {
    pub height: u64,
    pub bestblock: String,
    pub transactions: u64,
    pub txouts: u64,
    pub bogosize: u64,
    pub hash_serialized_2: String,
    pub disk_size: u64,
    pub total_amount: i64,
}

pub open spec fn tx_out_set_info_shaped(v: JsonValue) -> bool {
    &&& field_u64(v, "height"@) is Some
    &&& field_str(v, "bestblock"@) is Some
    &&& field_u64(v, "transactions"@) is Some
    &&& field_u64(v, "txouts"@) is Some
    &&& field_u64(v, "bogosize"@) is Some
    &&& field_str(v, "hashSerialized2"@) is Some
    &&& field_u64(v, "diskSize"@) is Some
    &&& field_i64(v, "totalAmount"@) is Some
}

pub open spec fn tx_out_set_info_fields(d: TxOutSetInfo, v: JsonValue) -> bool {
    &&& field_u64(v, "height"@) == Some(d.height)
    &&& (field_str(v, "bestblock"@) matches Some(s) && d.bestblock@ == s@)
    &&& field_u64(v, "transactions"@) == Some(d.transactions)
    &&& field_u64(v, "txouts"@) == Some(d.txouts)
    &&& field_u64(v, "bogosize"@) == Some(d.bogosize)
    &&& (field_str(v, "hashSerialized2"@) matches Some(s) && d.hash_serialized_2@ == s@)
    &&& field_u64(v, "diskSize"@) == Some(d.disk_size)
    &&& field_i64(v, "totalAmount"@) == Some(d.total_amount)
}

impl TxOutSetInfo {
    pub fn from_json(v: &JsonValue) -> (r: Option<TxOutSetInfo>)
        ensures
            r is Some <==> tx_out_set_info_shaped(*v),
            r matches Some(d) ==> tx_out_set_info_fields(d, *v),
    {
        let height = match get_u64(v, "height") {
            Some(x) => x,
            None => {
                return None;
            },
        };
        let bestblock = match get_str(v, "bestblock") {
            Some(s) => s,
            None => {
                return None;
            },
        };
        let transactions = match get_u64(v, "transactions") {
            Some(x) => x,
            None => {
                return None;
            },
        };
        let txouts = match get_u64(v, "txouts") {
            Some(x) => x,
            None => {
                return None;
            },
        };
        let bogosize = match get_u64(v, "bogosize") {
            Some(x) => x,
            None => {
                return None;
            },
        };
        let hash_serialized_2 = match get_str(v, "hashSerialized2") {
            Some(s) => s,
            None => {
                return None;
            },
        };
        let disk_size = match get_u64(v, "diskSize") {
            Some(x) => x,
            None => {
                return None;
            },
        };
        let total_amount = match get_i64(v, "totalAmount") {
            Some(x) => x,
            None => {
                return None;
            },
        };
        Some(
            TxOutSetInfo {
                height,
                bestblock,
                transactions,
                txouts,
                bogosize,
                hash_serialized_2,
                disk_size,
                total_amount,
            },
        )
    }
}

#[derive(Debug, PartialEq)]
pub struct ChainTip {
    pub height: u64,
    pub hash: String,
    pub branchlen: u64,
    pub status: String,
}

pub open spec fn chain_tip_shaped(v: JsonValue) -> bool {
    &&& field_u64(v, "height"@) is Some
    &&& field_str(v, "hash"@) is Some
    &&& field_u64(v, "branchlen"@) is Some
    &&& field_str(v, "status"@) is Some
}

pub open spec fn chain_tip_fields(d: ChainTip, v: JsonValue) -> bool {
    &&& field_u64(v, "height"@) == Some(d.height)
    &&& (field_str(v, "hash"@) matches Some(s) && d.hash@ == s@)
    &&& field_u64(v, "branchlen"@) == Some(d.branchlen)
    &&& (field_str(v, "status"@) matches Some(s) && d.status@ == s@)
}

impl ChainTip {
    pub fn from_json(v: &JsonValue) -> (r: Option<ChainTip>)
        ensures
            r is Some <==> chain_tip_shaped(*v),
            r matches Some(d) ==> chain_tip_fields(d, *v),
    {
        let height = match get_u64(v, "height") {
            Some(x) => x,
            None => {
                return None;
            },
        };
        let hash = match get_str(v, "hash") {
            Some(s) => s,
            None => {
                return None;
            },
        };
        let branchlen = match get_u64(v, "branchlen") {
            Some(x) => x,
            None => {
                return None;
            },
        };
        let status = match get_str(v, "status") {
            Some(s) => s,
            None => {
                return None;
            },
        };
        Some(ChainTip { height, hash, branchlen, status })
    }
}

#[derive(Debug, PartialEq)]
pub struct FeeData {
    pub base: i64,
    pub modified: i64,
    pub ancestor: i64,
    pub descendant: i64,
}

pub open spec fn fee_data_shaped(v: JsonValue) -> bool {
    &&& field_i64(v, "base"@) is Some
    &&& field_i64(v, "modified"@) is Some
    &&& field_i64(v, "ancestor"@) is Some
    &&& field_i64(v, "descendant"@) is Some
}

pub open spec fn fee_data_fields(d: FeeData, v: JsonValue) -> bool {
    &&& field_i64(v, "base"@) == Some(d.base)
    &&& field_i64(v, "modified"@) == Some(d.modified)
    &&& field_i64(v, "ancestor"@) == Some(d.ancestor)
    &&& field_i64(v, "descendant"@) == Some(d.descendant)
}

impl FeeData {
    pub fn from_json(v: &JsonValue) -> (r: Option<FeeData>)
        ensures
            r is Some <==> fee_data_shaped(*v),
            r matches Some(d) ==> fee_data_fields(d, *v),
    {
        let base = match get_i64(v, "base") {
            Some(x) => x,
            None => {
                return None;
            },
        };
        let modified = match get_i64(v, "modified") {
            Some(x) => x,
            None => {
                return None;
            },
        };
        let ancestor = match get_i64(v, "ancestor") {
            Some(x) => x,
            None => {
                return None;
            },
        };
        let descendant = match get_i64(v, "descendant") {
            Some(x) => x,
            None => {
                return None;
            },
        };
        Some(FeeData { base, modified, ancestor, descendant })
    }
}

#[derive(Debug, PartialEq)]
pub struct MempoolInfo {
    pub loaded: bool,
    pub size: u64,
    pub bytes: u64,
    pub usage: u64,
    pub maxmempool: u64,
    pub mempoolminfee: i64,
    pub minrelaytxfee: i64,
}

pub open spec fn mempool_info_shaped(v: JsonValue) -> bool {
    &&& field_bool(v, "loaded"@) is Some
    &&& field_u64(v, "size"@) is Some
    &&& field_u64(v, "bytes"@) is Some
    &&& field_u64(v, "usage"@) is Some
    &&& field_u64(v, "maxmempool"@) is Some
    &&& field_i64(v, "mempoolminfee"@) is Some
    &&& field_i64(v, "minrelaytxfee"@) is Some
}

pub open spec fn mempool_info_fields(d: MempoolInfo, v: JsonValue) -> bool {
    &&& field_bool(v, "loaded"@) == Some(d.loaded)
    &&& field_u64(v, "size"@) == Some(d.size)
    &&& field_u64(v, "bytes"@) == Some(d.bytes)
    &&& field_u64(v, "usage"@) == Some(d.usage)
    &&& field_u64(v, "maxmempool"@) == Some(d.maxmempool)
    &&& field_i64(v, "mempoolminfee"@) == Some(d.mempoolminfee)
    &&& field_i64(v, "minrelaytxfee"@) == Some(d.minrelaytxfee)
}

impl MempoolInfo {
    pub fn from_json(v: &JsonValue) -> (r: Option<MempoolInfo>)
        ensures
            r is Some <==> mempool_info_shaped(*v),
            r matches Some(d) ==> mempool_info_fields(d, *v),
    {
        let loaded = match get_bool(v, "loaded") {
            Some(x) => x,
            None => {
                return None;
            },
        };
        let size = match get_u64(v, "size") {
            Some(x) => x,
            None => {
                return None;
            },
        };
        let bytes = match get_u64(v, "bytes") {
            Some(x) => x,
            None => {
                return None;
            },
        };
        let usage = match get_u64(v, "usage") {
            Some(x) => x,
            None => {
                return None;
            },
        };
        let maxmempool = match get_u64(v, "maxmempool") {
            Some(x) => x,
            None => {
                return None;
            },
        };
        let mempoolminfee = match get_i64(v, "mempoolminfee") {
            Some(x) => x,
            None => {
                return None;
            },
        };
        let minrelaytxfee = match get_i64(v, "minrelaytxfee") {
            Some(x) => x,
            None => {
                return None;
            },
        };
        Some(
            MempoolInfo {
                loaded,
                size,
                bytes,
                usage,
                maxmempool,
                mempoolminfee,
                minrelaytxfee,
            },
        )
    }
}

#[derive(Debug, PartialEq)]
pub struct WaitBlockResult {
    pub hash: String,
    pub height: u64,
}

pub open spec fn wait_block_result_shaped(v: JsonValue) -> bool {
    &&& field_str(v, "hash"@) is Some
    &&& field_u64(v, "height"@) is Some
}

pub open spec fn wait_block_result_fields(d: WaitBlockResult, v: JsonValue) -> bool {
    &&& (field_str(v, "hash"@) matches Some(s) && d.hash@ == s@)
    &&& field_u64(v, "height"@) == Some(d.height)
}

impl WaitBlockResult {
    pub fn from_json(v: &JsonValue) -> (r: Option<WaitBlockResult>)
        ensures
            r is Some <==> wait_block_result_shaped(*v),
            r matches Some(d) ==> wait_block_result_fields(d, *v),
    {
        let hash = match get_str(v, "hash") {
            Some(s) => s,
            None => {
                return None;
            },
        };
        let height = match get_u64(v, "height") {
            Some(x) => x,
            None => {
                return None;
            },
        };
        Some(WaitBlockResult { hash, height })
    }
}

#[derive(Debug, PartialEq)]
pub struct ChainTxStats {
    pub time: u64,
    pub txcount: u64,
    pub window_final_block_hash: String,
    pub window_final_block_height: u64,
    pub window_block_count: u64,
    pub window_tx_count: u64,
    pub window_interval: u64,
    pub txrate: u64,
}

pub open spec fn chain_tx_stats_shaped(v: JsonValue) -> bool {
    &&& field_u64(v, "time"@) is Some
    &&& field_u64(v, "txcount"@) is Some
    &&& field_str(v, "windowFinalBlockHash"@) is Some
    &&& field_u64(v, "windowFinalBlockHeight"@) is Some
    &&& field_u64(v, "windowBlockCount"@) is Some
    &&& field_u64(v, "windowTxCount"@) is Some
    &&& field_u64(v, "windowInterval"@) is Some
    &&& field_u64(v, "txrate"@) is Some
}

pub open spec fn chain_tx_stats_fields(d: ChainTxStats, v: JsonValue) -> bool {
    &&& field_u64(v, "time"@) == Some(d.time)
    &&& field_u64(v, "txcount"@) == Some(d.txcount)
    &&& (field_str(v, "windowFinalBlockHash"@) matches Some(s) && d.window_final_block_hash@
        == s@)
    &&& field_u64(v, "windowFinalBlockHeight"@) == Some(d.window_final_block_height)
    &&& field_u64(v, "windowBlockCount"@) == Some(d.window_block_count)
    &&& field_u64(v, "windowTxCount"@) == Some(d.window_tx_count)
    &&& field_u64(v, "windowInterval"@) == Some(d.window_interval)
    &&& field_u64(v, "txrate"@) == Some(d.txrate)
}

impl ChainTxStats {
    pub fn from_json(v: &JsonValue) -> (r: Option<ChainTxStats>)
        ensures
            r is Some <==> chain_tx_stats_shaped(*v),
            r matches Some(d) ==> chain_tx_stats_fields(d, *v),
    {
        let time = match get_u64(v, "time") {
            Some(x) => x,
            None => {
                return None;
            },
        };
        let txcount = match get_u64(v, "txcount") {
            Some(x) => x,
            None => {
                return None;
            },
        };
        let window_final_block_hash = match get_str(v, "windowFinalBlockHash") {
            Some(s) => s,
            None => {
                return None;
            },
        };
        let window_final_block_height = match get_u64(v, "windowFinalBlockHeight") {
            Some(x) => x,
            None => {
                return None;
            },
        };
        let window_block_count = match get_u64(v, "windowBlockCount") {
            Some(x) => x,
            None => {
                return None;
            },
        };
        let window_tx_count = match get_u64(v, "windowTxCount") {
            Some(x) => x,
            None => {
                return None;
            },
        };
        let window_interval = match get_u64(v, "windowInterval") {
            Some(x) => x,
            None => {
                return None;
            },
        };
        let txrate = match get_u64(v, "txrate") {
            Some(x) => x,
            None => {
                return None;
            },
        };
        Some(
            ChainTxStats {
                time,
                txcount,
                window_final_block_hash,
                window_final_block_height,
                window_block_count,
                window_tx_count,
                window_interval,
                txrate,
            },
        )
    }
}


/// One mempool entry.  The replaceability flag arrives under its
/// hyphenated wire name.
#[derive(Debug, PartialEq)]
pub struct MempoolTxData {
    pub vsize: i64,
    pub size: i64,
    pub weight: i64,
    pub fee: i64,
    pub modifiedfee: i64,
    pub time: i64,
    pub height: i64,
    pub descendantcount: i64,
    pub descendantsize: i64,
    pub descendantfees: i64,
    pub ancestorcount: i64,
    pub ancestorsize: i64,
    pub ancestorfees: i64,
    pub wtxid: String,
    pub fees: FeeData,
    pub depends: Vec<String>,
    pub spentby: Vec<String>,
    pub bip125_replaceable: bool,
}

pub open spec fn mempool_tx_data_shaped(v: JsonValue) -> bool {
    &&& field_i64(v, "vsize"@) is Some
    &&& field_i64(v, "size"@) is Some
    &&& field_i64(v, "weight"@) is Some
    &&& field_i64(v, "fee"@) is Some
    &&& field_i64(v, "modifiedfee"@) is Some
    &&& field_i64(v, "time"@) is Some
    &&& field_i64(v, "height"@) is Some
    &&& field_i64(v, "descendantcount"@) is Some
    &&& field_i64(v, "descendantsize"@) is Some
    &&& field_i64(v, "descendantfees"@) is Some
    &&& field_i64(v, "ancestorcount"@) is Some
    &&& field_i64(v, "ancestorsize"@) is Some
    &&& field_i64(v, "ancestorfees"@) is Some
    &&& field_str(v, "wtxid"@) is Some
    &&& (jv_get(v, "fees"@) matches Some(x) && fee_data_shaped(x))
    &&& (jv_get(v, "depends"@) matches Some(x) && str_arr_shaped(x))
    &&& (jv_get(v, "spentby"@) matches Some(x) && str_arr_shaped(x))
    &&& field_bool(v, "bip125-replaceable"@) is Some
}

pub open spec fn mempool_tx_data_fields(d: MempoolTxData, v: JsonValue) -> bool {
    &&& field_i64(v, "vsize"@) == Some(d.vsize)
    &&& field_i64(v, "size"@) == Some(d.size)
    &&& field_i64(v, "weight"@) == Some(d.weight)
    &&& field_i64(v, "fee"@) == Some(d.fee)
    &&& field_i64(v, "modifiedfee"@) == Some(d.modifiedfee)
    &&& field_i64(v, "time"@) == Some(d.time)
    &&& field_i64(v, "height"@) == Some(d.height)
    &&& field_i64(v, "descendantcount"@) == Some(d.descendantcount)
    &&& field_i64(v, "descendantsize"@) == Some(d.descendantsize)
    &&& field_i64(v, "descendantfees"@) == Some(d.descendantfees)
    &&& field_i64(v, "ancestorcount"@) == Some(d.ancestorcount)
    &&& field_i64(v, "ancestorsize"@) == Some(d.ancestorsize)
    &&& field_i64(v, "ancestorfees"@) == Some(d.ancestorfees)
    &&& (field_str(v, "wtxid"@) matches Some(s) && d.wtxid@ == s@)
    &&& (jv_get(v, "fees"@) matches Some(x) && fee_data_fields(d.fees, x))
    &&& (jv_get(v, "depends"@) matches Some(x) && is_str_arr(x, d.depends.deep_view()))
    &&& (jv_get(v, "spentby"@) matches Some(x) && is_str_arr(x, d.spentby.deep_view()))
    &&& field_bool(v, "bip125-replaceable"@) == Some(d.bip125_replaceable)
}

impl MempoolTxData {
    pub fn from_json(v: &JsonValue) -> (r: Option<MempoolTxData>)
        ensures
            r is Some <==> mempool_tx_data_shaped(*v),
            r matches Some(d) ==> mempool_tx_data_fields(d, *v),
    {
        let vsize = match get_i64(v, "vsize") {
            Some(x) => x,
            None => {
                return None;
            },
        };
        let size = match get_i64(v, "size") {
            Some(x) => x,
            None => {
                return None;
            },
        };
        let weight = match get_i64(v, "weight") {
            Some(x) => x,
            None => {
                return None;
            },
        };
        let fee = match get_i64(v, "fee") {
            Some(x) => x,
            None => {
                return None;
            },
        };
        let modifiedfee = match get_i64(v, "modifiedfee") {
            Some(x) => x,
            None => {
                return None;
            },
        };
        let time = match get_i64(v, "time") {
            Some(x) => x,
            None => {
                return None;
            },
        };
        let height = match get_i64(v, "height") {
            Some(x) => x,
            None => {
                return None;
            },
        };
        let descendantcount = match get_i64(v, "descendantcount") {
            Some(x) => x,
            None => {
                return None;
            },
        };
        let descendantsize = match get_i64(v, "descendantsize") {
            Some(x) => x,
            None => {
                return None;
            },
        };
        let descendantfees = match get_i64(v, "descendantfees") {
            Some(x) => x,
            None => {
                return None;
            },
        };
        let ancestorcount = match get_i64(v, "ancestorcount") {
            Some(x) => x,
            None => {
                return None;
            },
        };
        let ancestorsize = match get_i64(v, "ancestorsize") {
            Some(x) => x,
            None => {
                return None;
            },
        };
        let ancestorfees = match get_i64(v, "ancestorfees") {
            Some(x) => x,
            None => {
                return None;
            },
        };
        let wtxid = match get_str(v, "wtxid") {
            Some(s) => s,
            None => {
                return None;
            },
        };
        let fees = match jv_obj_get(v, "fees") {
            Some(x) => match FeeData::from_json(x) {
                Some(f) => f,
            None => {
                return None;
            },
            },
            None => {
                return None;
            },
        };
        let depends = match get_str_vec(v, "depends") {
            Some(x) => x,
            None => {
                return None;
            },
        };
        let spentby = match get_str_vec(v, "spentby") {
            Some(x) => x,
            None => {
                return None;
            },
        };
        let bip125_replaceable = match get_bool(v, "bip125-replaceable") {
            Some(x) => x,
            None => {
                return None;
            },
        };
        Some(
            MempoolTxData {
                vsize,
                size,
                weight,
                fee,
                modifiedfee,
                time,
                height,
                descendantcount,
                descendantsize,
                descendantfees,
                ancestorcount,
                ancestorsize,
                ancestorfees,
                wtxid,
                fees,
                depends,
                spentby,
                bip125_replaceable,
            },
        )
    }
}

/// Mempool entries keyed by transaction id, kept as an ordered list.
#[derive(Debug, PartialEq)]
pub struct MempoolTx(pub Vec<(String, MempoolTxData)>);

pub open spec fn mempool_tx_shaped(v: JsonValue) -> bool {
    &&& v matches JsonValue::Obj(fs)
    &&& forall|i: int| 0 <= i < fs@.len() ==> mempool_tx_data_shaped((#[trigger] fs@[i]).1)
}

pub open spec fn mempool_tx_fields(m: Seq<(String, MempoolTxData)>, v: JsonValue) -> bool {
    &&& v matches JsonValue::Obj(fs)
    &&& fs@.len() == m.len()
    &&& forall|i: int|
        0 <= i < m.len() ==> (#[trigger] fs@[i]).0@ == m[i].0@ && mempool_tx_data_fields(
            m[i].1,
            fs@[i].1,
        )
}

impl MempoolTx {
    #[verifier::loop_isolation(false)]
    pub fn from_json(v: &JsonValue) -> (r: Option<MempoolTx>)
        ensures
            r is Some <==> mempool_tx_shaped(*v),
            r matches Some(d) ==> mempool_tx_fields(d.0@, *v),
    {
        match v {
            JsonValue::Obj(fs) => {
                let n = fs.len();
                let mut out: Vec<(String, MempoolTxData)> = Vec::new();
                let mut i: usize = 0;
                while i < n
                    invariant
                        n == fs@.len(),
                        i <= n,
                        out@.len() == i,
                        forall|j: int|
                            0 <= j < i ==> (#[trigger] out@[j]).0@ == fs@[j].0@
                                && mempool_tx_data_fields(out@[j].1, fs@[j].1),
                        forall|j: int| 0 <= j < i ==> mempool_tx_data_shaped((#[trigger] fs@[j]).1),
                    decreases n - i,
                {
                    let data = match MempoolTxData::from_json(&fs[i].1) {
                        Some(x) => x,
            None => {
                return None;
            },
                    };
                    out.push((fs[i].0.clone(), data));
                    i += 1;
                }
                Some(MempoolTx(out))
            },
            _ => None,
        }
    }
}

/// Per-block statistics.  The fee-rate percentiles, JSON numbers on the
/// wire, keep their decimal text.
#[derive(Debug, PartialEq)]
pub struct BlockStats {
    pub avgfee: u64,
    pub avgfeerate: u64,
    pub avgtxsize: u64,
    pub height: u64,
    pub ins: u64,
    pub maxfee: u64,
    pub maxfeerate: u64,
    pub maxtxsize: u64,
    pub medianfee: u64,
    pub mediantime: u64,
    pub mediantxsize: u64,
    pub minfee: u64,
    pub minfeerate: u64,
    pub mintxsize: u64,
    pub outs: u64,
    pub subsidy: u64,
    pub swtxs: u64,
    pub time: u64,
    pub totalfee: u64,
    pub txs: u64,
    pub swtotal_size: u64,
    pub swtotal_weight: u64,
    pub total_out: u64,
    pub total_size: u64,
    pub total_weight: u64,
    pub utxo_increase: u64,
    pub utxo_size_inc: u64,
    pub blockhash: String,
    pub feerate_percentiles: Vec<String>,
}

pub open spec fn block_stats_shaped(v: JsonValue) -> bool {
    &&& field_u64(v, "avgfee"@) is Some
    &&& field_u64(v, "avgfeerate"@) is Some
    &&& field_u64(v, "avgtxsize"@) is Some
    &&& field_u64(v, "height"@) is Some
    &&& field_u64(v, "ins"@) is Some
    &&& field_u64(v, "maxfee"@) is Some
    &&& field_u64(v, "maxfeerate"@) is Some
    &&& field_u64(v, "maxtxsize"@) is Some
    &&& field_u64(v, "medianfee"@) is Some
    &&& field_u64(v, "mediantime"@) is Some
    &&& field_u64(v, "mediantxsize"@) is Some
    &&& field_u64(v, "minfee"@) is Some
    &&& field_u64(v, "minfeerate"@) is Some
    &&& field_u64(v, "mintxsize"@) is Some
    &&& field_u64(v, "outs"@) is Some
    &&& field_u64(v, "subsidy"@) is Some
    &&& field_u64(v, "swtxs"@) is Some
    &&& field_u64(v, "time"@) is Some
    &&& field_u64(v, "totalfee"@) is Some
    &&& field_u64(v, "txs"@) is Some
    &&& field_u64(v, "swtotalSize"@) is Some
    &&& field_u64(v, "swtotalWeight"@) is Some
    &&& field_u64(v, "totalOut"@) is Some
    &&& field_u64(v, "totalSize"@) is Some
    &&& field_u64(v, "totalWeight"@) is Some
    &&& field_u64(v, "utxoIncrease"@) is Some
    &&& field_u64(v, "utxoSizeInc"@) is Some
    &&& field_str(v, "blockhash"@) is Some
    &&& (jv_get(v, "feeratePercentiles"@) matches Some(x) && crate::value::numtext_arr_shaped(x))
}

pub open spec fn block_stats_fields(d: BlockStats, v: JsonValue) -> bool {
    &&& field_u64(v, "avgfee"@) == Some(d.avgfee)
    &&& field_u64(v, "avgfeerate"@) == Some(d.avgfeerate)
    &&& field_u64(v, "avgtxsize"@) == Some(d.avgtxsize)
    &&& field_u64(v, "height"@) == Some(d.height)
    &&& field_u64(v, "ins"@) == Some(d.ins)
    &&& field_u64(v, "maxfee"@) == Some(d.maxfee)
    &&& field_u64(v, "maxfeerate"@) == Some(d.maxfeerate)
    &&& field_u64(v, "maxtxsize"@) == Some(d.maxtxsize)
    &&& field_u64(v, "medianfee"@) == Some(d.medianfee)
    &&& field_u64(v, "mediantime"@) == Some(d.mediantime)
    &&& field_u64(v, "mediantxsize"@) == Some(d.mediantxsize)
    &&& field_u64(v, "minfee"@) == Some(d.minfee)
    &&& field_u64(v, "minfeerate"@) == Some(d.minfeerate)
    &&& field_u64(v, "mintxsize"@) == Some(d.mintxsize)
    &&& field_u64(v, "outs"@) == Some(d.outs)
    &&& field_u64(v, "subsidy"@) == Some(d.subsidy)
    &&& field_u64(v, "swtxs"@) == Some(d.swtxs)
    &&& field_u64(v, "time"@) == Some(d.time)
    &&& field_u64(v, "totalfee"@) == Some(d.totalfee)
    &&& field_u64(v, "txs"@) == Some(d.txs)
    &&& field_u64(v, "swtotalSize"@) == Some(d.swtotal_size)
    &&& field_u64(v, "swtotalWeight"@) == Some(d.swtotal_weight)
    &&& field_u64(v, "totalOut"@) == Some(d.total_out)
    &&& field_u64(v, "totalSize"@) == Some(d.total_size)
    &&& field_u64(v, "totalWeight"@) == Some(d.total_weight)
    &&& field_u64(v, "utxoIncrease"@) == Some(d.utxo_increase)
    &&& field_u64(v, "utxoSizeInc"@) == Some(d.utxo_size_inc)
    &&& (field_str(v, "blockhash"@) matches Some(s) && d.blockhash@ == s@)
    &&& (jv_get(v, "feeratePercentiles"@) matches Some(x) && crate::value::is_numtext_arr(
        x,
        d.feerate_percentiles.deep_view(),
    ))
}

impl BlockStats {
    pub fn from_json(v: &JsonValue) -> (r: Option<BlockStats>)
        ensures
            r is Some <==> block_stats_shaped(*v),
            r matches Some(d) ==> block_stats_fields(d, *v),
    {
        let avgfee = match get_u64(v, "avgfee") {
            Some(x) => x,
            None => {
                return None;
            },
        };
        let avgfeerate = match get_u64(v, "avgfeerate") {
            Some(x) => x,
            None => {
                return None;
            },
        };
        let avgtxsize = match get_u64(v, "avgtxsize") {
            Some(x) => x,
            None => {
                return None;
            },
        };
        let height = match get_u64(v, "height") {
            Some(x) => x,
            None => {
                return None;
            },
        };
        let ins = match get_u64(v, "ins") {
            Some(x) => x,
            None => {
                return None;
            },
        };
        let maxfee = match get_u64(v, "maxfee") {
            Some(x) => x,
            None => {
                return None;
            },
        };
        let maxfeerate = match get_u64(v, "maxfeerate") {
            Some(x) => x,
            None => {
                return None;
            },
        };
        let maxtxsize = match get_u64(v, "maxtxsize") {
            Some(x) => x,
            None => {
                return None;
            },
        };
        let medianfee = match get_u64(v, "medianfee") {
            Some(x) => x,
            None => {
                return None;
            },
        };
        let mediantime = match get_u64(v, "mediantime") {
            Some(x) => x,
            None => {
                return None;
            },
        };
        let mediantxsize = match get_u64(v, "mediantxsize") {
            Some(x) => x,
            None => {
                return None;
            },
        };
        let minfee = match get_u64(v, "minfee") {
            Some(x) => x,
            None => {
                return None;
            },
        };
        let minfeerate = match get_u64(v, "minfeerate") {
            Some(x) => x,
            None => {
                return None;
            },
        };
        let mintxsize = match get_u64(v, "mintxsize") {
            Some(x) => x,
            None => {
                return None;
            },
        };
        let outs = match get_u64(v, "outs") {
            Some(x) => x,
            None => {
                return None;
            },
        };
        let subsidy = match get_u64(v, "subsidy") {
            Some(x) => x,
            None => {
                return None;
            },
        };
        let swtxs = match get_u64(v, "swtxs") {
            Some(x) => x,
            None => {
                return None;
            },
        };
        let time = match get_u64(v, "time") {
            Some(x) => x,
            None => {
                return None;
            },
        };
        let totalfee = match get_u64(v, "totalfee") {
            Some(x) => x,
            None => {
                return None;
            },
        };
        let txs = match get_u64(v, "txs") {
            Some(x) => x,
            None => {
                return None;
            },
        };
        let swtotal_size = match get_u64(v, "swtotalSize") {
            Some(x) => x,
            None => {
                return None;
            },
        };
        let swtotal_weight = match get_u64(v, "swtotalWeight") {
            Some(x) => x,
            None => {
                return None;
            },
        };
        let total_out = match get_u64(v, "totalOut") {
            Some(x) => x,
            None => {
                return None;
            },
        };
        let total_size = match get_u64(v, "totalSize") {
            Some(x) => x,
            None => {
                return None;
            },
        };
        let total_weight = match get_u64(v, "totalWeight") {
            Some(x) => x,
            None => {
                return None;
            },
        };
        let utxo_increase = match get_u64(v, "utxoIncrease") {
            Some(x) => x,
            None => {
                return None;
            },
        };
        let utxo_size_inc = match get_u64(v, "utxoSizeInc") {
            Some(x) => x,
            None => {
                return None;
            },
        };
        let blockhash = match get_str(v, "blockhash") {
            Some(s) => s,
            None => {
                return None;
            },
        };
        let feerate_percentiles = match jv_obj_get(v, "feeratePercentiles") {
            Some(x) => match crate::value::json_to_numtext_vec(x) {
                Some(ts) => ts,
            None => {
                return None;
            },
            },
            None => {
                return None;
            },
        };
        Some(
            BlockStats {
                avgfee,
                avgfeerate,
                avgtxsize,
                height,
                ins,
                maxfee,
                maxfeerate,
                maxtxsize,
                medianfee,
                mediantime,
                mediantxsize,
                minfee,
                minfeerate,
                mintxsize,
                outs,
                subsidy,
                swtxs,
                time,
                totalfee,
                txs,
                swtotal_size,
                swtotal_weight,
                total_out,
                total_size,
                total_weight,
                utxo_increase,
                utxo_size_inc,
                blockhash,
                feerate_percentiles,
            },
        )
    }
}

} // verus!
