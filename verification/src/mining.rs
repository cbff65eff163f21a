//! Mining and minting status.

use vstd::prelude::*;

use crate::value::{
    field_bool, field_str, field_u64, get_bool, get_opt_bool, get_opt_str, get_opt_u64, get_str,
    get_u64, jv_get, opt_field_bool, opt_field_str, opt_field_u64, opt_str_eq, str_eq, JsonValue,
};

verus! {

#[derive(Debug, PartialEq, Eq, Structural, Clone, Copy)]
pub enum EstimateMode {
    Unset,
    Economical,
    Conservative,
}

impl EstimateMode {
    pub open spec fn spec_token(self) -> Seq<char> {
        match self {
            EstimateMode::Unset => "UNSET"@,
            EstimateMode::Economical => "ECONOMICAL"@,
            EstimateMode::Conservative => "CONSERVATIVE"@,
        }
    }

    pub open spec fn spec_from_token(s: Seq<char>) -> Option<EstimateMode> {
        if s == "UNSET"@ {
            Some(EstimateMode::Unset)
        } else if s == "ECONOMICAL"@ {
            Some(EstimateMode::Economical)
        } else if s == "CONSERVATIVE"@ {
            Some(EstimateMode::Conservative)
        } else {
            None
        }
    }

    pub fn wire_token(&self) -> (r: String)
        ensures
            r@ == self.spec_token(),
    {
        match self {
            EstimateMode::Unset => "UNSET".to_owned(),
            EstimateMode::Economical => "ECONOMICAL".to_owned(),
            EstimateMode::Conservative => "CONSERVATIVE".to_owned(),
        }
    }

    pub fn from_wire_token(s: &str) -> (r: Option<EstimateMode>)
        ensures
            r == EstimateMode::spec_from_token(s@),
    {
        if str_eq(s, "UNSET") {
            Some(EstimateMode::Unset)
        } else if str_eq(s, "ECONOMICAL") {
            Some(EstimateMode::Economical)
        } else if str_eq(s, "CONSERVATIVE") {
            Some(EstimateMode::Conservative)
        } else {
            None
        }
    }
}

/// Each estimate mode decodes back from exactly its own token.
pub proof fn lemma_estimate_mode_round_trip(x: EstimateMode)
    ensures
        EstimateMode::spec_from_token(x.spec_token()) == Some(x),
{
    reveal_strlit("UNSET");
    reveal_strlit("ECONOMICAL");
    reveal_strlit("CONSERVATIVE");
    assert("UNSET"@.len() == 5);
    assert("ECONOMICAL"@.len() == 10);
    assert("CONSERVATIVE"@.len() == 12);
}

#[derive(Debug, PartialEq)]
pub struct MasternodeInfo {
    pub id: String,
    pub operator: String,
    pub state: String,
    pub generate: bool,
    pub mintedblocks: u64,
    pub lastblockcreationattempt: String,
    pub target_multiplier: u64,
}

pub open spec fn masternode_info_shaped(v: JsonValue) -> bool {
    &&& field_str(v, "id"@) is Some
    &&& field_str(v, "operator"@) is Some
    &&& field_str(v, "state"@) is Some
    &&& field_bool(v, "generate"@) is Some
    &&& field_u64(v, "mintedblocks"@) is Some
    &&& field_str(v, "lastblockcreationattempt"@) is Some
    &&& field_u64(v, "targetMultiplier"@) is Some
}

pub open spec fn masternode_info_fields(d: MasternodeInfo, v: JsonValue) -> bool {
    &&& (field_str(v, "id"@) matches Some(s) && d.id@ == s@)
    &&& (field_str(v, "operator"@) matches Some(s) && d.operator@ == s@)
    &&& (field_str(v, "state"@) matches Some(s) && d.state@ == s@)
    &&& field_bool(v, "generate"@) == Some(d.generate)
    &&& field_u64(v, "mintedblocks"@) == Some(d.mintedblocks)
    &&& (field_str(v, "lastblockcreationattempt"@) matches Some(s) && d.lastblockcreationattempt@
        == s@)
    &&& field_u64(v, "targetMultiplier"@) == Some(d.target_multiplier)
}

impl MasternodeInfo {
    pub fn from_json(v: &JsonValue) -> (r: Option<MasternodeInfo>)
        ensures
            r is Some <==> masternode_info_shaped(*v),
            r matches Some(d) ==> masternode_info_fields(d, *v),
    {
        let id = match get_str(v, "id") {
            Some(s) => s,
            None => {
                return None;
            },
        };
        let operator = match get_str(v, "operator") {
            Some(s) => s,
            None => {
                return None;
            },
        };
        let state = match get_str(v, "state") {
            Some(s) => s,
            None => {
                return None;
            },
        };
        let generate = match get_bool(v, "generate") {
            Some(x) => x,
            None => {
                return None;
            },
        };
        let mintedblocks = match get_u64(v, "mintedblocks") {
            Some(x) => x,
            None => {
                return None;
            },
        };
        let lastblockcreationattempt = match get_str(v, "lastblockcreationattempt") {
            Some(s) => s,
            None => {
                return None;
            },
        };
        let target_multiplier = match get_u64(v, "targetMultiplier") {
            Some(x) => x,
            None => {
                return None;
            },
        };
        Some(
            MasternodeInfo {
                id,
                operator,
                state,
                generate,
                mintedblocks,
                lastblockcreationattempt,
                target_multiplier,
            },
        )
    }
}

pub open spec fn masternode_info_arr_shaped(v: JsonValue) -> bool {
    &&& v matches JsonValue::Arr(items)
    &&& forall|i: int| 0 <= i < items@.len() ==> masternode_info_shaped(#[trigger] items@[i])
}

pub open spec fn masternode_info_arr_fields(ds: Seq<MasternodeInfo>, v: JsonValue) -> bool {
    &&& v matches JsonValue::Arr(items)
    &&& items@.len() == ds.len()
    &&& forall|i: int| 0 <= i < ds.len() ==> masternode_info_fields(ds[i], #[trigger] items@[i])
}

#[verifier::loop_isolation(false)]
fn masternode_infos_from_json(v: &JsonValue) -> (r: Option<Vec<MasternodeInfo>>)
    ensures
        r is Some <==> masternode_info_arr_shaped(*v),
        r matches Some(ds) ==> masternode_info_arr_fields(ds@, *v),
{
    match v {
        JsonValue::Arr(items) => {
            let n = items.len();
            let mut out: Vec<MasternodeInfo> = Vec::new();
            let mut i: usize = 0;
            while i < n
                invariant
                    n == items@.len(),
                    i <= n,
                    out@.len() == i,
                    forall|j: int|
                        0 <= j < i ==> masternode_info_fields(out@[j], #[trigger] items@[j]),
                    forall|j: int| 0 <= j < i ==> masternode_info_shaped(#[trigger] items@[j]),
                decreases n - i,
            {
                match MasternodeInfo::from_json(&items[i]) {
                    Some(d) => {
                        out.push(d);
                    },
                    None => {
                        return None;
                    },
                }
                i += 1;
            }
            Some(out)
        },
        _ => None,
    }
}

#[derive(Debug, PartialEq)]
pub struct MintingInfo {
    pub blocks: u64,
    pub currentblockweight: Option<u64>,
    pub currentblocktx: Option<u64>,
    pub difficulty: String,
    pub isoperator: bool,
    pub masternodeid: Option<String>,
    pub masternodeoperator: Option<String>,
    pub masternodestate: String,
    pub generate: Option<bool>,
    pub mintedblocks: Option<u64>,
    pub networkhashps: u64,
    pub pooledtx: u64,
    pub chain: String,
    pub warnings: String,
}

pub open spec fn minting_info_shaped(v: JsonValue) -> bool {
    &&& field_u64(v, "blocks"@) is Some
    &&& opt_field_u64(v, "currentblockweight"@) is Some
    &&& opt_field_u64(v, "currentblocktx"@) is Some
    &&& field_str(v, "difficulty"@) is Some
    &&& field_bool(v, "isoperator"@) is Some
    &&& opt_field_str(v, "masternodeid"@) is Some
    &&& opt_field_str(v, "masternodeoperator"@) is Some
    &&& field_str(v, "masternodestate"@) is Some
    &&& opt_field_bool(v, "generate"@) is Some
    &&& opt_field_u64(v, "mintedblocks"@) is Some
    &&& field_u64(v, "networkhashps"@) is Some
    &&& field_u64(v, "pooledtx"@) is Some
    &&& field_str(v, "chain"@) is Some
    &&& field_str(v, "warnings"@) is Some
}

pub open spec fn minting_info_fields(d: MintingInfo, v: JsonValue) -> bool {
    &&& field_u64(v, "blocks"@) == Some(d.blocks)
    &&& opt_field_u64(v, "currentblockweight"@) == Some(d.currentblockweight)
    &&& opt_field_u64(v, "currentblocktx"@) == Some(d.currentblocktx)
    &&& (field_str(v, "difficulty"@) matches Some(s) && d.difficulty@ == s@)
    &&& field_bool(v, "isoperator"@) == Some(d.isoperator)
    &&& (opt_field_str(v, "masternodeid"@) matches Some(o) && opt_str_eq(d.masternodeid, o))
    &&& (opt_field_str(v, "masternodeoperator"@) matches Some(o) && opt_str_eq(
        d.masternodeoperator,
        o,
    ))
    &&& (field_str(v, "masternodestate"@) matches Some(s) && d.masternodestate@ == s@)
    &&& opt_field_bool(v, "generate"@) == Some(d.generate)
    &&& opt_field_u64(v, "mintedblocks"@) == Some(d.mintedblocks)
    &&& field_u64(v, "networkhashps"@) == Some(d.networkhashps)
    &&& field_u64(v, "pooledtx"@) == Some(d.pooledtx)
    &&& (field_str(v, "chain"@) matches Some(s) && d.chain@ == s@)
    &&& (field_str(v, "warnings"@) matches Some(s) && d.warnings@ == s@)
}

impl MintingInfo {
    pub fn from_json(v: &JsonValue) -> (r: Option<MintingInfo>)
        ensures
            r is Some <==> minting_info_shaped(*v),
            r matches Some(d) ==> minting_info_fields(d, *v),
    {
        let blocks = match get_u64(v, "blocks") {
            Some(x) => x,
            None => {
                return None;
            },
        };
        let currentblockweight = match get_opt_u64(v, "currentblockweight") {
            Some(x) => x,
            None => {
                return None;
            },
        };
        let currentblocktx = match get_opt_u64(v, "currentblocktx") {
            Some(x) => x,
            None => {
                return None;
            },
        };
        let difficulty = match get_str(v, "difficulty") {
            Some(s) => s,
            None => {
                return None;
            },
        };
        let isoperator = match get_bool(v, "isoperator") {
            Some(x) => x,
            None => {
                return None;
            },
        };
        let masternodeid = match get_opt_str(v, "masternodeid") {
            Some(x) => x,
            None => {
                return None;
            },
        };
        let masternodeoperator = match get_opt_str(v, "masternodeoperator") {
            Some(x) => x,
            None => {
                return None;
            },
        };
        let masternodestate = match get_str(v, "masternodestate") {
            Some(s) => s,
            None => {
                return None;
            },
        };
        let generate = match get_opt_bool(v, "generate") {
            Some(x) => x,
            None => {
                return None;
            },
        };
        let mintedblocks = match get_opt_u64(v, "mintedblocks") {
            Some(x) => x,
            None => {
                return None;
            },
        };
        let networkhashps = match get_u64(v, "networkhashps") {
            Some(x) => x,
            None => {
                return None;
            },
        };
        let pooledtx = match get_u64(v, "pooledtx") {
            Some(x) => x,
            None => {
                return None;
            },
        };
        let chain = match get_str(v, "chain") {
            Some(s) => s,
            None => {
                return None;
            },
        };
        let warnings = match get_str(v, "warnings") {
            Some(s) => s,
            None => {
                return None;
            },
        };
        Some(
            MintingInfo {
                blocks,
                currentblockweight,
                currentblocktx,
                difficulty,
                isoperator,
                masternodeid,
                masternodeoperator,
                masternodestate,
                generate,
                mintedblocks,
                networkhashps,
                pooledtx,
                chain,
                warnings,
            },
        )
    }
}

#[derive(Debug, PartialEq)]
pub struct MiningInfo {
    pub blocks: u64,
    pub currentblockweight: Option<u64>,
    pub currentblocktx: Option<u64>,
    pub difficulty: String,
    pub isoperator: bool,
    pub masternodes: Vec<MasternodeInfo>,
    pub networkhashps: u64,
    pub pooledtx: u64,
    pub chain: String,
    pub warnings: String,
}

pub open spec fn mining_info_shaped(v: JsonValue) -> bool {
    &&& field_u64(v, "blocks"@) is Some
    &&& opt_field_u64(v, "currentblockweight"@) is Some
    &&& opt_field_u64(v, "currentblocktx"@) is Some
    &&& field_str(v, "difficulty"@) is Some
    &&& field_bool(v, "isoperator"@) is Some
    &&& (jv_get(v, "masternodes"@) matches Some(x) && masternode_info_arr_shaped(x))
    &&& field_u64(v, "networkhashps"@) is Some
    &&& field_u64(v, "pooledtx"@) is Some
    &&& field_str(v, "chain"@) is Some
    &&& field_str(v, "warnings"@) is Some
}

pub open spec fn mining_info_fields(d: MiningInfo, v: JsonValue) -> bool {
    &&& field_u64(v, "blocks"@) == Some(d.blocks)
    &&& opt_field_u64(v, "currentblockweight"@) == Some(d.currentblockweight)
    &&& opt_field_u64(v, "currentblocktx"@) == Some(d.currentblocktx)
    &&& (field_str(v, "difficulty"@) matches Some(s) && d.difficulty@ == s@)
    &&& field_bool(v, "isoperator"@) == Some(d.isoperator)
    &&& (jv_get(v, "masternodes"@) matches Some(x) && masternode_info_arr_fields(
        d.masternodes@,
        x,
    ))
    &&& field_u64(v, "networkhashps"@) == Some(d.networkhashps)
    &&& field_u64(v, "pooledtx"@) == Some(d.pooledtx)
    &&& (field_str(v, "chain"@) matches Some(s) && d.chain@ == s@)
    &&& (field_str(v, "warnings"@) matches Some(s) && d.warnings@ == s@)
}

impl MiningInfo {
    pub fn from_json(v: &JsonValue) -> (r: Option<MiningInfo>)
        ensures
            r is Some <==> mining_info_shaped(*v),
            r matches Some(d) ==> mining_info_fields(d, *v),
    {
        let blocks = match get_u64(v, "blocks") {
            Some(x) => x,
            None => {
                return None;
            },
        };
        let currentblockweight = match get_opt_u64(v, "currentblockweight") {
            Some(x) => x,
            None => {
                return None;
            },
        };
        let currentblocktx = match get_opt_u64(v, "currentblocktx") {
            Some(x) => x,
            None => {
                return None;
            },
        };
        let difficulty = match get_str(v, "difficulty") {
            Some(s) => s,
            None => {
                return None;
            },
        };
        let isoperator = match get_bool(v, "isoperator") {
            Some(x) => x,
            None => {
                return None;
            },
        };
        let masternodes = match crate::value::jv_obj_get(v, "masternodes") {
            Some(x) => match masternode_infos_from_json(x) {
                Some(ds) => ds,
                None => {
                    return None;
                },
            },
            None => {
                return None;
            },
        };
        let networkhashps = match get_u64(v, "networkhashps") {
            Some(x) => x,
            None => {
                return None;
            },
        };
        let pooledtx = match get_u64(v, "pooledtx") {
            Some(x) => x,
            None => {
                return None;
            },
        };
        let chain = match get_str(v, "chain") {
            Some(s) => s,
            None => {
                return None;
            },
        };
        let warnings = match get_str(v, "warnings") {
            Some(s) => s,
            None => {
                return None;
            },
        };
        Some(
            MiningInfo {
                blocks,
                currentblockweight,
                currentblocktx,
                difficulty,
                isoperator,
                masternodes,
                networkhashps,
                pooledtx,
                chain,
                warnings,
            },
        )
    }
}

/// A fee estimate.  The rate, a JSON number on the wire, keeps its decimal
/// text.
#[derive(Debug, PartialEq)]
pub struct SmartFeeEstimation {
    pub feerate: Option<String>,
    pub errors: Option<Vec<String>>,
    pub blocks: u64,
}

pub open spec fn smart_fee_estimation_shaped(v: JsonValue) -> bool {
    &&& crate::value::opt_numtext_ok(v, "feerate"@)
    &&& crate::value::opt_strvec_ok(v, "errors"@)
    &&& field_u64(v, "blocks"@) is Some
}

pub open spec fn smart_fee_estimation_fields(d: SmartFeeEstimation, v: JsonValue) -> bool {
    &&& crate::value::opt_numtext_val(
        v,
        "feerate"@,
        match d.feerate {
            None => None,
            Some(s) => Some(s@),
        },
    )
    &&& crate::value::opt_strvec_val(
        v,
        "errors"@,
        match d.errors {
            None => None,
            Some(ss) => Some(ss.deep_view()),
        },
    )
    &&& field_u64(v, "blocks"@) == Some(d.blocks)
}

impl SmartFeeEstimation {
    pub fn from_json(v: &JsonValue) -> (r: Option<SmartFeeEstimation>)
        ensures
            r is Some <==> smart_fee_estimation_shaped(*v),
            r matches Some(d) ==> smart_fee_estimation_fields(d, *v),
    {
        let feerate = match crate::value::get_opt_numtext(v, "feerate") {
            Some(x) => x,
            None => {
                return None;
            },
        };
        let errors = match crate::value::get_opt_str_vec(v, "errors") {
            Some(x) => x,
            None => {
                return None;
            },
        };
        let blocks = match get_u64(v, "blocks") {
            Some(x) => x,
            None => {
                return None;
            },
        };
        Some(SmartFeeEstimation { feerate, errors, blocks })
    }
}

} // verus!
