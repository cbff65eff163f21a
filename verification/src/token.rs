//! Token descriptions and the token-management request types.

use vstd::prelude::*;

use crate::common::{jv_of_opt_utxo_vec, opt_utxo_vec_json, UTXO};
use crate::value::{
    field_bool, field_i64, field_numtext, field_str, field_u8, get_bool, get_i64, get_numtext,
    get_opt_str, get_str, get_u8, jv_of_opt_bool, jv_of_opt_str, opt_bool_json, opt_field_str,
    opt_str_eq, opt_str_json, str_vec_to_json, is_str_arr, JsonValue,
};

verus! {

/// One token as the node describes it.  The minted amount, a JSON number
/// on the wire, is kept as its decimal text.
#[derive(Debug, PartialEq)]
pub struct TokenInfo {
    pub symbol: String,
    pub symbol_key: String,
    pub name: String,
    pub decimal: u8,
    pub limit: i64,
    pub mintable: bool,
    pub tradeable: bool,
    pub is_dat: bool,
    pub is_lps: bool,
    pub is_loan_token: bool,
    pub finalized: bool,
    pub minted: String,
    pub creation_tx: String,
    pub creation_height: i64,
    pub destruction_tx: String,
    pub destruction_height: i64,
    pub collateral_address: Option<String>,
}

pub open spec fn token_info_shaped(v: JsonValue) -> bool {
    &&& field_str(v, "symbol"@) is Some
    &&& field_str(v, "symbolKey"@) is Some
    &&& field_str(v, "name"@) is Some
    &&& field_u8(v, "decimal"@) is Some
    &&& field_i64(v, "limit"@) is Some
    &&& field_bool(v, "mintable"@) is Some
    &&& field_bool(v, "tradeable"@) is Some
    &&& field_bool(v, "isDAT"@) is Some
    &&& field_bool(v, "isLPS"@) is Some
    &&& field_bool(v, "isLoanToken"@) is Some
    &&& field_bool(v, "finalized"@) is Some
    &&& field_numtext(v, "minted"@) is Some
    &&& field_str(v, "creationTx"@) is Some
    &&& field_i64(v, "creationHeight"@) is Some
    &&& field_str(v, "destructionTx"@) is Some
    &&& field_i64(v, "destructionHeight"@) is Some
    &&& opt_field_str(v, "collateralAddress"@) is Some
}

pub open spec fn token_info_fields(d: TokenInfo, v: JsonValue) -> bool {
    &&& (field_str(v, "symbol"@) matches Some(s) && d.symbol@ == s@)
    &&& (field_str(v, "symbolKey"@) matches Some(s) && d.symbol_key@ == s@)
    &&& (field_str(v, "name"@) matches Some(s) && d.name@ == s@)
    &&& field_u8(v, "decimal"@) == Some(d.decimal)
    &&& field_i64(v, "limit"@) == Some(d.limit)
    &&& field_bool(v, "mintable"@) == Some(d.mintable)
    &&& field_bool(v, "tradeable"@) == Some(d.tradeable)
    &&& field_bool(v, "isDAT"@) == Some(d.is_dat)
    &&& field_bool(v, "isLPS"@) == Some(d.is_lps)
    &&& field_bool(v, "isLoanToken"@) == Some(d.is_loan_token)
    &&& field_bool(v, "finalized"@) == Some(d.finalized)
    &&& field_numtext(v, "minted"@) == Some(d.minted@)
    &&& (field_str(v, "creationTx"@) matches Some(s) && d.creation_tx@ == s@)
    &&& field_i64(v, "creationHeight"@) == Some(d.creation_height)
    &&& (field_str(v, "destructionTx"@) matches Some(s) && d.destruction_tx@ == s@)
    &&& field_i64(v, "destructionHeight"@) == Some(d.destruction_height)
    &&& (opt_field_str(v, "collateralAddress"@) matches Some(o) && opt_str_eq(
        d.collateral_address,
        o,
    ))
}

impl TokenInfo {
    pub fn from_json(v: &JsonValue) -> (r: Option<TokenInfo>)
        ensures
            r is Some <==> token_info_shaped(*v),
            r matches Some(d) ==> token_info_fields(d, *v),
    {
        let symbol = match get_str(v, "symbol") {
            Some(s) => s,
            None => {
                return None;
            },
        };
        let symbol_key = match get_str(v, "symbolKey") {
            Some(s) => s,
            None => {
                return None;
            },
        };
        let name = match get_str(v, "name") {
            Some(s) => s,
            None => {
                return None;
            },
        };
        let decimal = match get_u8(v, "decimal") {
            Some(x) => x,
            None => {
                return None;
            },
        };
        let limit = match get_i64(v, "limit") {
            Some(x) => x,
            None => {
                return None;
            },
        };
        let mintable = match get_bool(v, "mintable") {
            Some(x) => x,
            None => {
                return None;
            },
        };
        let tradeable = match get_bool(v, "tradeable") {
            Some(x) => x,
            None => {
                return None;
            },
        };
        let is_dat = match get_bool(v, "isDAT") {
            Some(x) => x,
            None => {
                return None;
            },
        };
        let is_lps = match get_bool(v, "isLPS") {
            Some(x) => x,
            None => {
                return None;
            },
        };
        let is_loan_token = match get_bool(v, "isLoanToken") {
            Some(x) => x,
            None => {
                return None;
            },
        };
        let finalized = match get_bool(v, "finalized") {
            Some(x) => x,
            None => {
                return None;
            },
        };
        let minted = match get_numtext(v, "minted") {
            Some(x) => x,
            None => {
                return None;
            },
        };
        let creation_tx = match get_str(v, "creationTx") {
            Some(s) => s,
            None => {
                return None;
            },
        };
        let creation_height = match get_i64(v, "creationHeight") {
            Some(x) => x,
            None => {
                return None;
            },
        };
        let destruction_tx = match get_str(v, "destructionTx") {
            Some(s) => s,
            None => {
                return None;
            },
        };
        let destruction_height = match get_i64(v, "destructionHeight") {
            Some(x) => x,
            None => {
                return None;
            },
        };
        let collateral_address = match get_opt_str(v, "collateralAddress") {
            Some(x) => x,
            None => {
                return None;
            },
        };
        Some(
            TokenInfo {
                symbol,
                symbol_key,
                name,
                decimal,
                limit,
                mintable,
                tradeable,
                is_dat,
                is_lps,
                is_loan_token,
                finalized,
                minted,
                creation_tx,
                creation_height,
                destruction_tx,
                destruction_height,
                collateral_address,
            },
        )
    }
}

/// Tokens keyed by their numeric id, kept as an ordered list of pairs.
#[derive(Debug, PartialEq)]
pub struct TokenResult(pub Vec<(String, TokenInfo)>);

pub open spec fn token_result_shaped(v: JsonValue) -> bool {
    &&& v matches JsonValue::Obj(fs)
    &&& forall|i: int| 0 <= i < fs@.len() ==> token_info_shaped((#[trigger] fs@[i]).1)
}

pub open spec fn token_result_fields(m: Seq<(String, TokenInfo)>, v: JsonValue) -> bool {
    &&& v matches JsonValue::Obj(fs)
    &&& fs@.len() == m.len()
    &&& forall|i: int|
        0 <= i < m.len() ==> (#[trigger] fs@[i]).0@ == m[i].0@ && token_info_fields(
            m[i].1,
            fs@[i].1,
        )
}

impl TokenResult {
    #[verifier::loop_isolation(false)]
    pub fn from_json(v: &JsonValue) -> (r: Option<TokenResult>)
        ensures
            r is Some <==> token_result_shaped(*v),
            r matches Some(d) ==> token_result_fields(d.0@, *v),
    {
        match v {
            JsonValue::Obj(fs) => {
                let n = fs.len();
                let mut out: Vec<(String, TokenInfo)> = Vec::new();
                let mut i: usize = 0;
                while i < n
                    invariant
                        n == fs@.len(),
                        i <= n,
                        out@.len() == i,
                        forall|j: int|
                            0 <= j < i ==> (#[trigger] out@[j]).0@ == fs@[j].0@ && token_info_fields(
                                out@[j].1,
                                fs@[j].1,
                            ),
                        forall|j: int| 0 <= j < i ==> token_info_shaped((#[trigger] fs@[j]).1),
                    decreases n - i,
                {
                    let info = match TokenInfo::from_json(&fs[i].1) {
                        Some(x) => x,
                        None => {
                            return None;
                        },
                    };
                    out.push((fs[i].0.clone(), info));
                    i += 1;
                }
                Some(TokenResult(out))
            },
            _ => None,
        }
    }
}

#[derive(Debug, PartialEq)]
pub struct CreateTokenMetadata {
    pub symbol: String,
    pub name: String,
    pub is_dat: bool,
    pub mintable: bool,
    pub tradeable: bool,
    pub collateral_address: String,
}

pub open spec fn create_token_metadata_json(d: CreateTokenMetadata, v: JsonValue) -> bool {
    &&& v matches JsonValue::Obj(fs)
    &&& fs@.len() == 6
    &&& fs@[0].0@ == "symbol"@
    &&& (fs@[0].1 matches JsonValue::Str(s) && s@ == d.symbol@)
    &&& fs@[1].0@ == "name"@
    &&& (fs@[1].1 matches JsonValue::Str(s) && s@ == d.name@)
    &&& fs@[2].0@ == "isDAT"@
    &&& fs@[2].1 == JsonValue::Bool(d.is_dat)
    &&& fs@[3].0@ == "mintable"@
    &&& fs@[3].1 == JsonValue::Bool(d.mintable)
    &&& fs@[4].0@ == "tradeable"@
    &&& fs@[4].1 == JsonValue::Bool(d.tradeable)
    &&& fs@[5].0@ == "collateralAddress"@
    &&& (fs@[5].1 matches JsonValue::Str(s) && s@ == d.collateral_address@)
}

impl CreateTokenMetadata {
    pub fn to_json(&self) -> (r: JsonValue)
        ensures
            create_token_metadata_json(*self, r),
    {
        let mut fs: Vec<(String, JsonValue)> = Vec::new();
        fs.push(("symbol".to_owned(), JsonValue::Str(self.symbol.clone())));
        fs.push(("name".to_owned(), JsonValue::Str(self.name.clone())));
        fs.push(("isDAT".to_owned(), JsonValue::Bool(self.is_dat)));
        fs.push(("mintable".to_owned(), JsonValue::Bool(self.mintable)));
        fs.push(("tradeable".to_owned(), JsonValue::Bool(self.tradeable)));
        fs.push(("collateralAddress".to_owned(), JsonValue::Str(self.collateral_address.clone())));
        JsonValue::Obj(fs)
    }
}

#[derive(Debug, PartialEq)]
pub struct UpdateTokenMetadata {
    pub symbol: Option<String>,
    pub name: Option<String>,
    pub is_dat: Option<bool>,
    pub mintable: Option<bool>,
    pub tradeable: Option<bool>,
    pub finalize: Option<bool>,
}

pub open spec fn update_token_metadata_json(d: UpdateTokenMetadata, v: JsonValue) -> bool {
    &&& v matches JsonValue::Obj(fs)
    &&& fs@.len() == 6
    &&& fs@[0].0@ == "symbol"@
    &&& opt_str_json(fs@[0].1, d.symbol)
    &&& fs@[1].0@ == "name"@
    &&& opt_str_json(fs@[1].1, d.name)
    &&& fs@[2].0@ == "isDAT"@
    &&& opt_bool_json(fs@[2].1, d.is_dat)
    &&& fs@[3].0@ == "mintable"@
    &&& opt_bool_json(fs@[3].1, d.mintable)
    &&& fs@[4].0@ == "tradeable"@
    &&& opt_bool_json(fs@[4].1, d.tradeable)
    &&& fs@[5].0@ == "finalize"@
    &&& opt_bool_json(fs@[5].1, d.finalize)
}

impl UpdateTokenMetadata {
    pub fn to_json(&self) -> (r: JsonValue)
        ensures
            update_token_metadata_json(*self, r),
    {
        let mut fs: Vec<(String, JsonValue)> = Vec::new();
        fs.push(("symbol".to_owned(), jv_of_opt_str(&self.symbol)));
        fs.push(("name".to_owned(), jv_of_opt_str(&self.name)));
        fs.push(("isDAT".to_owned(), jv_of_opt_bool(&self.is_dat)));
        fs.push(("mintable".to_owned(), jv_of_opt_bool(&self.mintable)));
        fs.push(("tradeable".to_owned(), jv_of_opt_bool(&self.tradeable)));
        fs.push(("finalize".to_owned(), jv_of_opt_bool(&self.finalize)));
        JsonValue::Obj(fs)
    }
}

#[derive(Debug, PartialEq, Default)]
pub struct TokenPagination {
    pub start: u64,
    pub including_start: bool,
    pub limit: u64,
}

pub open spec fn token_pagination_json(d: TokenPagination, v: JsonValue) -> bool {
    &&& v matches JsonValue::Obj(fs)
    &&& fs@.len() == 3
    &&& fs@[0].0@ == "start"@
    &&& fs@[0].1 == JsonValue::UInt(d.start)
    &&& fs@[1].0@ == "includingStart"@
    &&& fs@[1].1 == JsonValue::Bool(d.including_start)
    &&& fs@[2].0@ == "limit"@
    &&& fs@[2].1 == JsonValue::UInt(d.limit)
}

pub open spec fn token_pagination_shaped(v: JsonValue) -> bool {
    &&& crate::value::field_u64(v, "start"@) is Some
    &&& field_bool(v, "includingStart"@) is Some
    &&& crate::value::field_u64(v, "limit"@) is Some
}

pub open spec fn token_pagination_fields(d: TokenPagination, v: JsonValue) -> bool {
    &&& crate::value::field_u64(v, "start"@) == Some(d.start)
    &&& field_bool(v, "includingStart"@) == Some(d.including_start)
    &&& crate::value::field_u64(v, "limit"@) == Some(d.limit)
}

impl TokenPagination {
    pub fn to_json(&self) -> (r: JsonValue)
        ensures
            token_pagination_json(*self, r),
    {
        let mut fs: Vec<(String, JsonValue)> = Vec::new();
        fs.push(("start".to_owned(), JsonValue::UInt(self.start)));
        fs.push(("includingStart".to_owned(), JsonValue::Bool(self.including_start)));
        fs.push(("limit".to_owned(), JsonValue::UInt(self.limit)));
        JsonValue::Obj(fs)
    }

    pub fn from_json(v: &JsonValue) -> (r: Option<TokenPagination>)
        ensures
            r is Some <==> token_pagination_shaped(*v),
            r matches Some(d) ==> token_pagination_fields(d, *v),
    {
        let start = match crate::value::get_u64(v, "start") {
            Some(x) => x,
            None => {
                return None;
            },
        };
        let including_start = match get_bool(v, "includingStart") {
            Some(x) => x,
            None => {
                return None;
            },
        };
        let limit = match crate::value::get_u64(v, "limit") {
            Some(x) => x,
            None => {
                return None;
            },
        };
        Some(TokenPagination { start, including_start, limit })
    }
}

/// What a pagination object encodes as decodes back to the very value.
pub proof fn lemma_token_pagination_round_trip(
    d: TokenPagination,
    v: JsonValue,
    d2: TokenPagination,
)
    requires
        token_pagination_json(d, v),
        token_pagination_fields(d2, v),
    ensures
        d2 == d,
{
    lemma_token_pagination_encode_shaped(d, v);
}

/// The encoded form of a pagination object always satisfies its decoder.
pub proof fn lemma_token_pagination_encode_shaped(d: TokenPagination, v: JsonValue)
    requires
        token_pagination_json(d, v),
    ensures
        token_pagination_shaped(v),
        token_pagination_fields(d, v),
{
    reveal_strlit("start");
    reveal_strlit("includingStart");
    reveal_strlit("limit");
    let fs = v->Obj_0;
    assert("start"@.len() == 5);
    assert("includingStart"@.len() == 14);
    assert("limit"@.len() == 5);
    assert("start"@[0] == 's');
    assert("limit"@[0] == 'l');
    crate::value::lemma_obj_get_at(fs@, "start"@, 0);
    crate::value::lemma_obj_get_at(fs@, "includingStart"@, 1);
    crate::value::lemma_obj_get_at(fs@, "limit"@, 2);
}

#[derive(Debug, PartialEq)]
pub struct MintTokensOptions {
    pub amounts: Vec<String>,
    pub utxos: Option<Vec<UTXO>>,
    pub to: Option<String>,
}

pub open spec fn mint_tokens_options_json(d: MintTokensOptions, v: JsonValue) -> bool {
    &&& v matches JsonValue::Obj(fs)
    &&& fs@.len() == 3
    &&& fs@[0].0@ == "amounts"@
    &&& is_str_arr(fs@[0].1, d.amounts.deep_view())
    &&& fs@[1].0@ == "utxos"@
    &&& opt_utxo_vec_json(
        fs@[1].1,
        match d.utxos {
            None => None,
            Some(us) => Some(us@),
        },
    )
    &&& fs@[2].0@ == "to"@
    &&& opt_str_json(fs@[2].1, d.to)
}

impl MintTokensOptions {
    pub fn to_json(&self) -> (r: JsonValue)
        ensures
            mint_tokens_options_json(*self, r),
    {
        let mut fs: Vec<(String, JsonValue)> = Vec::new();
        fs.push(("amounts".to_owned(), str_vec_to_json(&self.amounts)));
        fs.push(("utxos".to_owned(), jv_of_opt_utxo_vec(&self.utxos)));
        fs.push(("to".to_owned(), jv_of_opt_str(&self.to)));
        JsonValue::Obj(fs)
    }
}


/// The report on a custom transaction.  Its `results` member is the raw
/// JSON the node attached, kept as the library's tree.
#[derive(Debug, PartialEq)]
pub struct GetCustomTxResult {
    pub kind: String,
    pub valid: bool,
    pub results: JsonValue,
    pub block_height: String,
    pub blockhash: String,
    pub confirmations: u64,
}

pub open spec fn get_custom_tx_result_shaped(v: JsonValue) -> bool {
    &&& field_str(v, "type"@) is Some
    &&& field_bool(v, "valid"@) is Some
    &&& crate::value::jv_get(v, "results"@) is Some
    &&& field_str(v, "blockHeight"@) is Some
    &&& field_str(v, "blockhash"@) is Some
    &&& crate::value::field_u64(v, "confirmations"@) is Some
}

pub open spec fn get_custom_tx_result_fields(d: GetCustomTxResult, v: JsonValue) -> bool {
    &&& (field_str(v, "type"@) matches Some(s) && d.kind@ == s@)
    &&& field_bool(v, "valid"@) == Some(d.valid)
    &&& crate::value::jv_get(v, "results"@) == Some(d.results)
    &&& (field_str(v, "blockHeight"@) matches Some(s) && d.block_height@ == s@)
    &&& (field_str(v, "blockhash"@) matches Some(s) && d.blockhash@ == s@)
    &&& crate::value::field_u64(v, "confirmations"@) == Some(d.confirmations)
}

impl GetCustomTxResult {
    /// Decode, consuming the payload so the raw `results` member can be
    /// carried out whole.
    pub fn from_json(v: JsonValue) -> (r: Option<GetCustomTxResult>)
        ensures
            r is Some <==> get_custom_tx_result_shaped(v),
            r matches Some(d) ==> get_custom_tx_result_fields(d, v),
    {
        let kind = match get_str(&v, "type") {
            Some(s) => s,
            None => {
                return None;
            },
        };
        let valid = match get_bool(&v, "valid") {
            Some(x) => x,
            None => {
                return None;
            },
        };
        let block_height = match get_str(&v, "blockHeight") {
            Some(s) => s,
            None => {
                return None;
            },
        };
        let blockhash = match get_str(&v, "blockhash") {
            Some(s) => s,
            None => {
                return None;
            },
        };
        let confirmations = match crate::value::get_u64(&v, "confirmations") {
            Some(x) => x,
            None => {
                return None;
            },
        };
        let results = match v {
            JsonValue::Obj(fs) => match crate::envelope::obj_take(fs, "results") {
                Some(x) => x,
                None => {
                    return None;
                },
            },
            _ => {
                return None;
            },
        };
        Some(GetCustomTxResult { kind, valid, results, block_height, blockhash, confirmations })
    }
}

/// The report on a decoded custom transaction, its raw `results` kept as
/// the library's tree.
#[derive(Debug, PartialEq)]
pub struct DecodeCustomTxResult {
    pub txid: String,
    pub kind: String,
    pub valid: bool,
    pub results: JsonValue,
}

pub open spec fn decode_custom_tx_result_shaped(v: JsonValue) -> bool {
    &&& field_str(v, "txid"@) is Some
    &&& field_str(v, "type"@) is Some
    &&& field_bool(v, "valid"@) is Some
    &&& crate::value::jv_get(v, "results"@) is Some
}

pub open spec fn decode_custom_tx_result_fields(d: DecodeCustomTxResult, v: JsonValue) -> bool {
    &&& (field_str(v, "txid"@) matches Some(s) && d.txid@ == s@)
    &&& (field_str(v, "type"@) matches Some(s) && d.kind@ == s@)
    &&& field_bool(v, "valid"@) == Some(d.valid)
    &&& crate::value::jv_get(v, "results"@) == Some(d.results)
}

impl DecodeCustomTxResult {
    /// Decode, consuming the payload as `GetCustomTxResult::from_json`
    /// does.
    pub fn from_json(v: JsonValue) -> (r: Option<DecodeCustomTxResult>)
        ensures
            r is Some <==> decode_custom_tx_result_shaped(v),
            r matches Some(d) ==> decode_custom_tx_result_fields(d, v),
    {
        let txid = match get_str(&v, "txid") {
            Some(s) => s,
            None => {
                return None;
            },
        };
        let kind = match get_str(&v, "type") {
            Some(s) => s,
            None => {
                return None;
            },
        };
        let valid = match get_bool(&v, "valid") {
            Some(x) => x,
            None => {
                return None;
            },
        };
        let results = match v {
            JsonValue::Obj(fs) => match crate::envelope::obj_take(fs, "results") {
                Some(x) => x,
                None => {
                    return None;
                },
            },
            _ => {
                return None;
            },
        };
        Some(DecodeCustomTxResult { txid, kind, valid, results })
    }
}

} // verus!
