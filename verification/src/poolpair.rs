//! Liquidity pools: pair descriptions, shares and swaps.
//!
//! The reserve-ratio fields arrive either as JSON numbers or as strings,
//! and both readings are accepted; all non-integer numbers keep their
//! decimal text.

use vstd::prelude::*;

use crate::value::{
    field_bool, field_i64, field_numtext, field_str, get_bool, get_i64, get_numtext,
    get_numtext_or_str, get_opt_numtext, get_opt_str_vec, get_str, is_str_arr, jv_get,
    jv_numtext_or_str_of, jv_of_opt_bool, jv_of_opt_str, jv_of_opt_str_vec,
    jv_of_opt_u64, opt_bool_json, opt_numtext_ok, opt_numtext_val, opt_str_json, opt_strvec_json,
    opt_strvec_ok, opt_strvec_val, opt_u64_json, JsonValue,
};

verus! {

#[derive(Debug, PartialEq)]
pub struct CreatePoolPairMetadata {
    pub token_a: String,
    pub token_b: String,
    pub commission: u64,
    pub status: bool,
    pub owner_address: String,
    pub custom_rewards: Option<Vec<String>>,
    pub pair_symbol: Option<String>,
}

pub open spec fn create_pool_pair_metadata_json(d: CreatePoolPairMetadata, v: JsonValue) -> bool {
    &&& v matches JsonValue::Obj(fs)
    &&& fs@.len() == 7
    &&& fs@[0].0@ == "tokenA"@
    &&& (fs@[0].1 matches JsonValue::Str(s) && s@ == d.token_a@)
    &&& fs@[1].0@ == "tokenB"@
    &&& (fs@[1].1 matches JsonValue::Str(s) && s@ == d.token_b@)
    &&& fs@[2].0@ == "commission"@
    &&& fs@[2].1 == JsonValue::UInt(d.commission)
    &&& fs@[3].0@ == "status"@
    &&& fs@[3].1 == JsonValue::Bool(d.status)
    &&& fs@[4].0@ == "ownerAddress"@
    &&& (fs@[4].1 matches JsonValue::Str(s) && s@ == d.owner_address@)
    &&& fs@[5].0@ == "customRewards"@
    &&& opt_strvec_json(
        fs@[5].1,
        match d.custom_rewards {
            None => None,
            Some(ss) => Some(ss.deep_view()),
        },
    )
    &&& fs@[6].0@ == "pairSymbol"@
    &&& opt_str_json(fs@[6].1, d.pair_symbol)
}

impl CreatePoolPairMetadata {
    pub fn to_json(&self) -> (r: JsonValue)
        ensures
            create_pool_pair_metadata_json(*self, r),
    {
        let mut fs: Vec<(String, JsonValue)> = Vec::new();
        fs.push(("tokenA".to_owned(), JsonValue::Str(self.token_a.clone())));
        fs.push(("tokenB".to_owned(), JsonValue::Str(self.token_b.clone())));
        fs.push(("commission".to_owned(), JsonValue::UInt(self.commission)));
        fs.push(("status".to_owned(), JsonValue::Bool(self.status)));
        fs.push(("ownerAddress".to_owned(), JsonValue::Str(self.owner_address.clone())));
        fs.push(("customRewards".to_owned(), jv_of_opt_str_vec(&self.custom_rewards)));
        fs.push(("pairSymbol".to_owned(), jv_of_opt_str(&self.pair_symbol)));
        JsonValue::Obj(fs)
    }
}

#[derive(Debug, PartialEq)]
pub struct UpdatePoolPairMetadata {
    pub pool: String,
    pub status: bool,
    pub commission: u64,
    pub owner_address: String,
    pub custom_rewards: Option<Vec<String>>,
}

pub open spec fn update_pool_pair_metadata_json(d: UpdatePoolPairMetadata, v: JsonValue) -> bool {
    &&& v matches JsonValue::Obj(fs)
    &&& fs@.len() == 5
    &&& fs@[0].0@ == "pool"@
    &&& (fs@[0].1 matches JsonValue::Str(s) && s@ == d.pool@)
    &&& fs@[1].0@ == "status"@
    &&& fs@[1].1 == JsonValue::Bool(d.status)
    &&& fs@[2].0@ == "commission"@
    &&& fs@[2].1 == JsonValue::UInt(d.commission)
    &&& fs@[3].0@ == "ownerAddress"@
    &&& (fs@[3].1 matches JsonValue::Str(s) && s@ == d.owner_address@)
    &&& fs@[4].0@ == "customRewards"@
    &&& opt_strvec_json(
        fs@[4].1,
        match d.custom_rewards {
            None => None,
            Some(ss) => Some(ss.deep_view()),
        },
    )
}

impl UpdatePoolPairMetadata {
    pub fn to_json(&self) -> (r: JsonValue)
        ensures
            update_pool_pair_metadata_json(*self, r),
    {
        let mut fs: Vec<(String, JsonValue)> = Vec::new();
        fs.push(("pool".to_owned(), JsonValue::Str(self.pool.clone())));
        fs.push(("status".to_owned(), JsonValue::Bool(self.status)));
        fs.push(("commission".to_owned(), JsonValue::UInt(self.commission)));
        fs.push(("ownerAddress".to_owned(), JsonValue::Str(self.owner_address.clone())));
        fs.push(("customRewards".to_owned(), jv_of_opt_str_vec(&self.custom_rewards)));
        JsonValue::Obj(fs)
    }
}

/// A funding output named by its transaction id text.
#[derive(Debug, PartialEq)]
pub struct UTXO {
    pub txid: String,
    pub vout: u64,
}

pub open spec fn pool_utxo_json(d: UTXO, v: JsonValue) -> bool {
    &&& v matches JsonValue::Obj(fs)
    &&& fs@.len() == 2
    &&& fs@[0].0@ == "txid"@
    &&& (fs@[0].1 matches JsonValue::Str(s) && s@ == d.txid@)
    &&& fs@[1].0@ == "vout"@
    &&& fs@[1].1 == JsonValue::UInt(d.vout)
}

pub open spec fn pool_utxo_arr_json(ds: Seq<UTXO>, v: JsonValue) -> bool {
    &&& v matches JsonValue::Arr(items)
    &&& items@.len() == ds.len()
    &&& forall|i: int| 0 <= i < ds.len() ==> pool_utxo_json(ds[i], #[trigger] items@[i])
}

impl UTXO {
    pub fn to_json(&self) -> (r: JsonValue)
        ensures
            pool_utxo_json(*self, r),
    {
        let mut fs: Vec<(String, JsonValue)> = Vec::new();
        fs.push(("txid".to_owned(), JsonValue::Str(self.txid.clone())));
        fs.push(("vout".to_owned(), JsonValue::UInt(self.vout)));
        JsonValue::Obj(fs)
    }
}

#[derive(Debug, PartialEq)]
pub struct PoolLiquidityOptions {
    pub utxos: Option<Vec<UTXO>>,
}

pub open spec fn pool_liquidity_options_json(d: PoolLiquidityOptions, v: JsonValue) -> bool {
    &&& v matches JsonValue::Obj(fs)
    &&& fs@.len() == 1
    &&& fs@[0].0@ == "utxos"@
    &&& (match d.utxos {
        None => fs@[0].1 is Null,
        Some(us) => pool_utxo_arr_json(us@, fs@[0].1),
    })
}

impl PoolLiquidityOptions {
    #[verifier::loop_isolation(false)]
    pub fn to_json(&self) -> (r: JsonValue)
        ensures
            pool_liquidity_options_json(*self, r),
    {
        let utxos = match &self.utxos {
            None => JsonValue::Null,
            Some(us) => {
                let n = us.len();
                let mut items: Vec<JsonValue> = Vec::new();
                let mut i: usize = 0;
                while i < n
                    invariant
                        n == us@.len(),
                        i <= n,
                        items@.len() == i,
                        forall|j: int| 0 <= j < i ==> pool_utxo_json(us@[j], #[trigger] items@[j]),
                    decreases n - i,
                {
                    items.push(us[i].to_json());
                    i += 1;
                }
                JsonValue::Arr(items)
            },
        };
        let mut fs: Vec<(String, JsonValue)> = Vec::new();
        fs.push(("utxos".to_owned(), utxos));
        JsonValue::Obj(fs)
    }
}

/// A pool pair as the node reports it.
#[derive(Debug, PartialEq)]
pub struct PoolPairInfo {
    pub symbol: String,
    pub name: String,
    pub status: bool,
    pub id_token_a: String,
    pub id_token_b: String,
    pub dex_fee_pct_token_a: Option<String>,
    pub dex_fee_in_pct_token_a: Option<String>,
    pub dex_fee_out_pct_token_a: Option<String>,
    pub dex_fee_pct_token_b: Option<String>,
    pub dex_fee_in_pct_token_b: Option<String>,
    pub dex_fee_out_pct_token_b: Option<String>,
    pub reserve_a: String,
    pub reserve_b: String,
    pub commission: String,
    pub total_liquidity: String,
    pub reserve_a_reserve_b: String,
    pub reserve_b_reserve_a: String,
    pub trade_enabled: bool,
    pub owner_address: String,
    pub block_commission_a: String,
    pub block_commission_b: String,
    pub reward_pct: String,
    pub reward_loan_pct: String,
    pub custom_rewards: Option<Vec<String>>,
    pub creation_tx: String,
    pub creation_height: i64,
}

pub open spec fn pool_pair_info_shaped(v: JsonValue) -> bool {
    &&& field_str(v, "symbol"@) is Some
    &&& field_str(v, "name"@) is Some
    &&& field_bool(v, "status"@) is Some
    &&& field_str(v, "idTokenA"@) is Some
    &&& field_str(v, "idTokenB"@) is Some
    &&& opt_numtext_ok(v, "dexFeePctTokenA"@)
    &&& opt_numtext_ok(v, "dexFeeInPctTokenA"@)
    &&& opt_numtext_ok(v, "dexFeeOutPctTokenA"@)
    &&& opt_numtext_ok(v, "dexFeePctTokenB"@)
    &&& opt_numtext_ok(v, "dexFeeInPctTokenB"@)
    &&& opt_numtext_ok(v, "dexFeeOutPctTokenB"@)
    &&& field_numtext(v, "reserveA"@) is Some
    &&& field_numtext(v, "reserveB"@) is Some
    &&& field_numtext(v, "commission"@) is Some
    &&& field_numtext(v, "totalLiquidity"@) is Some
    &&& (jv_get(v, "reserveA/reserveB"@) matches Some(x) && jv_numtext_or_str_of(x) is Some)
    &&& (jv_get(v, "reserveB/reserveA"@) matches Some(x) && jv_numtext_or_str_of(x) is Some)
    &&& field_bool(v, "tradeEnabled"@) is Some
    &&& field_str(v, "ownerAddress"@) is Some
    &&& field_numtext(v, "blockCommissionA"@) is Some
    &&& field_numtext(v, "blockCommissionB"@) is Some
    &&& field_numtext(v, "rewardPct"@) is Some
    &&& field_numtext(v, "rewardLoanPct"@) is Some
    &&& opt_strvec_ok(v, "customRewards"@)
    &&& field_str(v, "creationTx"@) is Some
    &&& field_i64(v, "creationHeight"@) is Some
}

pub open spec fn pool_pair_info_fields(d: PoolPairInfo, v: JsonValue) -> bool {
    &&& (field_str(v, "symbol"@) matches Some(s) && d.symbol@ == s@)
    &&& (field_str(v, "name"@) matches Some(s) && d.name@ == s@)
    &&& field_bool(v, "status"@) == Some(d.status)
    &&& (field_str(v, "idTokenA"@) matches Some(s) && d.id_token_a@ == s@)
    &&& (field_str(v, "idTokenB"@) matches Some(s) && d.id_token_b@ == s@)
    &&& opt_numtext_val(
        v,
        "dexFeePctTokenA"@,
        match d.dex_fee_pct_token_a {
            None => None,
            Some(s) => Some(s@),
        },
    )
    &&& opt_numtext_val(
        v,
        "dexFeeInPctTokenA"@,
        match d.dex_fee_in_pct_token_a {
            None => None,
            Some(s) => Some(s@),
        },
    )
    &&& opt_numtext_val(
        v,
        "dexFeeOutPctTokenA"@,
        match d.dex_fee_out_pct_token_a {
            None => None,
            Some(s) => Some(s@),
        },
    )
    &&& opt_numtext_val(
        v,
        "dexFeePctTokenB"@,
        match d.dex_fee_pct_token_b {
            None => None,
            Some(s) => Some(s@),
        },
    )
    &&& opt_numtext_val(
        v,
        "dexFeeInPctTokenB"@,
        match d.dex_fee_in_pct_token_b {
            None => None,
            Some(s) => Some(s@),
        },
    )
    &&& opt_numtext_val(
        v,
        "dexFeeOutPctTokenB"@,
        match d.dex_fee_out_pct_token_b {
            None => None,
            Some(s) => Some(s@),
        },
    )
    &&& field_numtext(v, "reserveA"@) == Some(d.reserve_a@)
    &&& field_numtext(v, "reserveB"@) == Some(d.reserve_b@)
    &&& field_numtext(v, "commission"@) == Some(d.commission@)
    &&& field_numtext(v, "totalLiquidity"@) == Some(d.total_liquidity@)
    &&& (jv_get(v, "reserveA/reserveB"@) matches Some(x) && jv_numtext_or_str_of(x) == Some(
        d.reserve_a_reserve_b@,
    ))
    &&& (jv_get(v, "reserveB/reserveA"@) matches Some(x) && jv_numtext_or_str_of(x) == Some(
        d.reserve_b_reserve_a@,
    ))
    &&& field_bool(v, "tradeEnabled"@) == Some(d.trade_enabled)
    &&& (field_str(v, "ownerAddress"@) matches Some(s) && d.owner_address@ == s@)
    &&& field_numtext(v, "blockCommissionA"@) == Some(d.block_commission_a@)
    &&& field_numtext(v, "blockCommissionB"@) == Some(d.block_commission_b@)
    &&& field_numtext(v, "rewardPct"@) == Some(d.reward_pct@)
    &&& field_numtext(v, "rewardLoanPct"@) == Some(d.reward_loan_pct@)
    &&& opt_strvec_val(
        v,
        "customRewards"@,
        match d.custom_rewards {
            None => None,
            Some(ss) => Some(ss.deep_view()),
        },
    )
    &&& (field_str(v, "creationTx"@) matches Some(s) && d.creation_tx@ == s@)
    &&& field_i64(v, "creationHeight"@) == Some(d.creation_height)
}

impl PoolPairInfo {
    pub fn from_json(v: &JsonValue) -> (r: Option<PoolPairInfo>)
        ensures
            r is Some <==> pool_pair_info_shaped(*v),
            r matches Some(d) ==> pool_pair_info_fields(d, *v),
    {
        let symbol = match get_str(v, "symbol") {
            Some(s) => s,
            None => {
                return None;
            },
        };
        let name = match get_str(v, "name") {
            Some(s) => s,
            None => {
                return None;
            },
        };
        let status = match get_bool(v, "status") {
            Some(x) => x,
            None => {
                return None;
            },
        };
        let id_token_a = match get_str(v, "idTokenA") {
            Some(s) => s,
            None => {
                return None;
            },
        };
        let id_token_b = match get_str(v, "idTokenB") {
            Some(s) => s,
            None => {
                return None;
            },
        };
        let dex_fee_pct_token_a = match get_opt_numtext(v, "dexFeePctTokenA") {
            Some(x) => x,
            None => {
                return None;
            },
        };
        let dex_fee_in_pct_token_a = match get_opt_numtext(v, "dexFeeInPctTokenA") {
            Some(x) => x,
            None => {
                return None;
            },
        };
        let dex_fee_out_pct_token_a = match get_opt_numtext(v, "dexFeeOutPctTokenA") {
            Some(x) => x,
            None => {
                return None;
            },
        };
        let dex_fee_pct_token_b = match get_opt_numtext(v, "dexFeePctTokenB") {
            Some(x) => x,
            None => {
                return None;
            },
        };
        let dex_fee_in_pct_token_b = match get_opt_numtext(v, "dexFeeInPctTokenB") {
            Some(x) => x,
            None => {
                return None;
            },
        };
        let dex_fee_out_pct_token_b = match get_opt_numtext(v, "dexFeeOutPctTokenB") {
            Some(x) => x,
            None => {
                return None;
            },
        };
        let reserve_a = match get_numtext(v, "reserveA") {
            Some(x) => x,
            None => {
                return None;
            },
        };
        let reserve_b = match get_numtext(v, "reserveB") {
            Some(x) => x,
            None => {
                return None;
            },
        };
        let commission = match get_numtext(v, "commission") {
            Some(x) => x,
            None => {
                return None;
            },
        };
        let total_liquidity = match get_numtext(v, "totalLiquidity") {
            Some(x) => x,
            None => {
                return None;
            },
        };
        let reserve_a_reserve_b = match get_numtext_or_str(v, "reserveA/reserveB") {
            Some(x) => x,
            None => {
                return None;
            },
        };
        let reserve_b_reserve_a = match get_numtext_or_str(v, "reserveB/reserveA") {
            Some(x) => x,
            None => {
                return None;
            },
        };
        let trade_enabled = match get_bool(v, "tradeEnabled") {
            Some(x) => x,
            None => {
                return None;
            },
        };
        let owner_address = match get_str(v, "ownerAddress") {
            Some(s) => s,
            None => {
                return None;
            },
        };
        let block_commission_a = match get_numtext(v, "blockCommissionA") {
            Some(x) => x,
            None => {
                return None;
            },
        };
        let block_commission_b = match get_numtext(v, "blockCommissionB") {
            Some(x) => x,
            None => {
                return None;
            },
        };
        let reward_pct = match get_numtext(v, "rewardPct") {
            Some(x) => x,
            None => {
                return None;
            },
        };
        let reward_loan_pct = match get_numtext(v, "rewardLoanPct") {
            Some(x) => x,
            None => {
                return None;
            },
        };
        let custom_rewards = match get_opt_str_vec(v, "customRewards") {
            Some(x) => x,
            None => {
                return None;
            },
        };
        let creation_tx = match get_str(v, "creationTx") {
            Some(s) => s,
            None => {
                return None;
            },
        };
        let creation_height = match get_i64(v, "creationHeight") {
            Some(x) => x,
            None => {
                return None;
            },
        };
        Some(
            PoolPairInfo {
                symbol,
                name,
                status,
                id_token_a,
                id_token_b,
                dex_fee_pct_token_a,
                dex_fee_in_pct_token_a,
                dex_fee_out_pct_token_a,
                dex_fee_pct_token_b,
                dex_fee_in_pct_token_b,
                dex_fee_out_pct_token_b,
                reserve_a,
                reserve_b,
                commission,
                total_liquidity,
                reserve_a_reserve_b,
                reserve_b_reserve_a,
                trade_enabled,
                owner_address,
                block_commission_a,
                block_commission_b,
                reward_pct,
                reward_loan_pct,
                custom_rewards,
                creation_tx,
                creation_height,
            },
        )
    }
}

/// Pool pairs keyed by their numeric id, kept as an ordered list of pairs.
#[derive(Debug, PartialEq)]
pub struct PoolPairsResult(pub Vec<(String, PoolPairInfo)>);

pub open spec fn pool_pairs_result_shaped(v: JsonValue) -> bool {
    &&& v matches JsonValue::Obj(fs)
    &&& forall|i: int| 0 <= i < fs@.len() ==> pool_pair_info_shaped((#[trigger] fs@[i]).1)
}

pub open spec fn pool_pairs_result_fields(m: Seq<(String, PoolPairInfo)>, v: JsonValue) -> bool {
    &&& v matches JsonValue::Obj(fs)
    &&& fs@.len() == m.len()
    &&& forall|i: int|
        0 <= i < m.len() ==> (#[trigger] fs@[i]).0@ == m[i].0@ && pool_pair_info_fields(
            m[i].1,
            fs@[i].1,
        )
}

impl PoolPairsResult {
    #[verifier::loop_isolation(false)]
    pub fn from_json(v: &JsonValue) -> (r: Option<PoolPairsResult>)
        ensures
            r is Some <==> pool_pairs_result_shaped(*v),
            r matches Some(d) ==> pool_pairs_result_fields(d.0@, *v),
    {
        match v {
            JsonValue::Obj(fs) => {
                let n = fs.len();
                let mut out: Vec<(String, PoolPairInfo)> = Vec::new();
                let mut i: usize = 0;
                while i < n
                    invariant
                        n == fs@.len(),
                        i <= n,
                        out@.len() == i,
                        forall|j: int|
                            0 <= j < i ==> (#[trigger] out@[j]).0@ == fs@[j].0@
                                && pool_pair_info_fields(out@[j].1, fs@[j].1),
                        forall|j: int| 0 <= j < i ==> pool_pair_info_shaped((#[trigger] fs@[j]).1),
                    decreases n - i,
                {
                    let info = match PoolPairInfo::from_json(&fs[i].1) {
                        Some(x) => x,
                        None => {
                            return None;
                        },
                    };
                    out.push((fs[i].0.clone(), info));
                    i += 1;
                }
                Some(PoolPairsResult(out))
            },
            _ => None,
        }
    }
}

#[derive(Debug, PartialEq)]
pub struct PoolShareInfo {
    pub pool_id: String,
    pub owner: String,
    pub yo: i64,
    pub amount: i64,
    pub total_liquidity: i64,
}

pub open spec fn pool_share_info_shaped(v: JsonValue) -> bool {
    &&& field_str(v, "poolId"@) is Some
    &&& field_str(v, "owner"@) is Some
    &&& field_i64(v, "yo"@) is Some
    &&& field_i64(v, "amount"@) is Some
    &&& field_i64(v, "totalLiquidity"@) is Some
}

pub open spec fn pool_share_info_fields(d: PoolShareInfo, v: JsonValue) -> bool {
    &&& (field_str(v, "poolId"@) matches Some(s) && d.pool_id@ == s@)
    &&& (field_str(v, "owner"@) matches Some(s) && d.owner@ == s@)
    &&& field_i64(v, "yo"@) == Some(d.yo)
    &&& field_i64(v, "amount"@) == Some(d.amount)
    &&& field_i64(v, "totalLiquidity"@) == Some(d.total_liquidity)
}

impl PoolShareInfo {
    pub fn from_json(v: &JsonValue) -> (r: Option<PoolShareInfo>)
        ensures
            r is Some <==> pool_share_info_shaped(*v),
            r matches Some(d) ==> pool_share_info_fields(d, *v),
    {
        let pool_id = match get_str(v, "poolId") {
            Some(s) => s,
            None => {
                return None;
            },
        };
        let owner = match get_str(v, "owner") {
            Some(s) => s,
            None => {
                return None;
            },
        };
        let yo = match get_i64(v, "yo") {
            Some(x) => x,
            None => {
                return None;
            },
        };
        let amount = match get_i64(v, "amount") {
            Some(x) => x,
            None => {
                return None;
            },
        };
        let total_liquidity = match get_i64(v, "totalLiquidity") {
            Some(x) => x,
            None => {
                return None;
            },
        };
        Some(PoolShareInfo { pool_id, owner, yo, amount, total_liquidity })
    }
}

/// Pool shares keyed by pool and owner, kept as an ordered list of pairs.
#[derive(Debug, PartialEq)]
pub struct PoolSharesResult(pub Vec<(String, PoolShareInfo)>);

pub open spec fn pool_shares_result_shaped(v: JsonValue) -> bool {
    &&& v matches JsonValue::Obj(fs)
    &&& forall|i: int| 0 <= i < fs@.len() ==> pool_share_info_shaped((#[trigger] fs@[i]).1)
}

pub open spec fn pool_shares_result_fields(m: Seq<(String, PoolShareInfo)>, v: JsonValue) -> bool {
    &&& v matches JsonValue::Obj(fs)
    &&& fs@.len() == m.len()
    &&& forall|i: int|
        0 <= i < m.len() ==> (#[trigger] fs@[i]).0@ == m[i].0@ && pool_share_info_fields(
            m[i].1,
            fs@[i].1,
        )
}

impl PoolSharesResult {
    #[verifier::loop_isolation(false)]
    pub fn from_json(v: &JsonValue) -> (r: Option<PoolSharesResult>)
        ensures
            r is Some <==> pool_shares_result_shaped(*v),
            r matches Some(d) ==> pool_shares_result_fields(d.0@, *v),
    {
        match v {
            JsonValue::Obj(fs) => {
                let n = fs.len();
                let mut out: Vec<(String, PoolShareInfo)> = Vec::new();
                let mut i: usize = 0;
                while i < n
                    invariant
                        n == fs@.len(),
                        i <= n,
                        out@.len() == i,
                        forall|j: int|
                            0 <= j < i ==> (#[trigger] out@[j]).0@ == fs@[j].0@
                                && pool_share_info_fields(out@[j].1, fs@[j].1),
                        forall|j: int| 0 <= j < i ==> pool_share_info_shaped((#[trigger] fs@[j]).1),
                    decreases n - i,
                {
                    let info = match PoolShareInfo::from_json(&fs[i].1) {
                        Some(x) => x,
                        None => {
                            return None;
                        },
                    };
                    out.push((fs[i].0.clone(), info));
                    i += 1;
                }
                Some(PoolSharesResult(out))
            },
            _ => None,
        }
    }
}

#[derive(Debug, PartialEq)]
pub struct PoolPairPagination {
    pub start: u64,
    pub including_start: bool,
    pub limit: u64,
}

pub open spec fn pool_pair_pagination_json(d: PoolPairPagination, v: JsonValue) -> bool {
    &&& v matches JsonValue::Obj(fs)
    &&& fs@.len() == 3
    &&& fs@[0].0@ == "start"@
    &&& fs@[0].1 == JsonValue::UInt(d.start)
    &&& fs@[1].0@ == "including_start"@
    &&& fs@[1].1 == JsonValue::Bool(d.including_start)
    &&& fs@[2].0@ == "limit"@
    &&& fs@[2].1 == JsonValue::UInt(d.limit)
}

impl PoolPairPagination {
    pub fn to_json(&self) -> (r: JsonValue)
        ensures
            pool_pair_pagination_json(*self, r),
    {
        let mut fs: Vec<(String, JsonValue)> = Vec::new();
        fs.push(("start".to_owned(), JsonValue::UInt(self.start)));
        fs.push(("including_start".to_owned(), JsonValue::Bool(self.including_start)));
        fs.push(("limit".to_owned(), JsonValue::UInt(self.limit)));
        JsonValue::Obj(fs)
    }
}

/// Funding sources mapped to the amounts to add, kept as an ordered list.
#[derive(Debug, PartialEq)]
pub struct AddPoolLiquiditySource(pub Vec<(String, Vec<String>)>);

impl AddPoolLiquiditySource {
    pub fn to_json(&self) -> (r: JsonValue)
        ensures
            crate::value::is_strvec_map(r, self.0@),
    {
        crate::value::strvec_map_to_json(&self.0)
    }
}

#[derive(Debug, PartialEq)]
pub struct PoolShareOptions {
    pub is_mine_only: Option<bool>,
}

pub open spec fn pool_share_options_json(d: PoolShareOptions, v: JsonValue) -> bool {
    &&& v matches JsonValue::Obj(fs)
    &&& fs@.len() == 1
    &&& fs@[0].0@ == "isMineOnly"@
    &&& opt_bool_json(fs@[0].1, d.is_mine_only)
}

impl PoolShareOptions {
    pub fn to_json(&self) -> (r: JsonValue)
        ensures
            pool_share_options_json(*self, r),
    {
        let mut fs: Vec<(String, JsonValue)> = Vec::new();
        fs.push(("isMineOnly".to_owned(), jv_of_opt_bool(&self.is_mine_only)));
        JsonValue::Obj(fs)
    }
}

#[derive(Debug, PartialEq)]
pub struct PoolSwapMetadata {
    pub from: String,
    pub token_from: String,
    pub amount_from: u64,
    pub to: String,
    pub token_to: String,
    pub max_price: Option<u64>,
}

pub open spec fn pool_swap_metadata_json(d: PoolSwapMetadata, v: JsonValue) -> bool {
    &&& v matches JsonValue::Obj(fs)
    &&& fs@.len() == 6
    &&& fs@[0].0@ == "from"@
    &&& (fs@[0].1 matches JsonValue::Str(s) && s@ == d.from@)
    &&& fs@[1].0@ == "tokenFrom"@
    &&& (fs@[1].1 matches JsonValue::Str(s) && s@ == d.token_from@)
    &&& fs@[2].0@ == "amountFrom"@
    &&& fs@[2].1 == JsonValue::UInt(d.amount_from)
    &&& fs@[3].0@ == "to"@
    &&& (fs@[3].1 matches JsonValue::Str(s) && s@ == d.to@)
    &&& fs@[4].0@ == "tokenTo"@
    &&& (fs@[4].1 matches JsonValue::Str(s) && s@ == d.token_to@)
    &&& fs@[5].0@ == "maxPrice"@
    &&& opt_u64_json(fs@[5].1, d.max_price)
}

impl PoolSwapMetadata {
    pub fn to_json(&self) -> (r: JsonValue)
        ensures
            pool_swap_metadata_json(*self, r),
    {
        let mut fs: Vec<(String, JsonValue)> = Vec::new();
        fs.push(("from".to_owned(), JsonValue::Str(self.from.clone())));
        fs.push(("tokenFrom".to_owned(), JsonValue::Str(self.token_from.clone())));
        fs.push(("amountFrom".to_owned(), JsonValue::UInt(self.amount_from)));
        fs.push(("to".to_owned(), JsonValue::Str(self.to.clone())));
        fs.push(("tokenTo".to_owned(), JsonValue::Str(self.token_to.clone())));
        fs.push(("maxPrice".to_owned(), jv_of_opt_u64(&self.max_price)));
        JsonValue::Obj(fs)
    }
}

#[derive(Debug, PartialEq)]
pub struct TestPoolSwapVerboseResult {
    pub path: String,
    pub pools: Vec<String>,
    pub amount: String,
}

pub open spec fn test_pool_swap_verbose_result_shaped(v: JsonValue) -> bool {
    &&& field_str(v, "path"@) is Some
    &&& (jv_get(v, "pools"@) matches Some(x) && crate::value::str_arr_shaped(x))
    &&& field_str(v, "amount"@) is Some
}

pub open spec fn test_pool_swap_verbose_result_fields(
    d: TestPoolSwapVerboseResult,
    v: JsonValue,
) -> bool {
    &&& (field_str(v, "path"@) matches Some(s) && d.path@ == s@)
    &&& (jv_get(v, "pools"@) matches Some(x) && is_str_arr(x, d.pools.deep_view()))
    &&& (field_str(v, "amount"@) matches Some(s) && d.amount@ == s@)
}

impl TestPoolSwapVerboseResult {
    pub fn from_json(v: &JsonValue) -> (r: Option<TestPoolSwapVerboseResult>)
        ensures
            r is Some <==> test_pool_swap_verbose_result_shaped(*v),
            r matches Some(d) ==> test_pool_swap_verbose_result_fields(d, *v),
    {
        let path = match get_str(v, "path") {
            Some(s) => s,
            None => {
                return None;
            },
        };
        let pools = match crate::value::get_str_vec(v, "pools") {
            Some(x) => x,
            None => {
                return None;
            },
        };
        let amount = match get_str(v, "amount") {
            Some(s) => s,
            None => {
                return None;
            },
        };
        Some(TestPoolSwapVerboseResult { path, pools, amount })
    }
}

} // verus!
