//! Loan schemes, collateral and loan tokens, and loan payback requests.

use vstd::prelude::*;

use crate::token::{token_result_fields, token_result_shaped, TokenResult};
use crate::value::{
    field_i64, field_str, field_u64, get_i64, get_str, get_u64, is_str_arr, jv_get, jv_obj_get,
    jv_of_opt_bool, jv_of_opt_i64, jv_of_opt_str, jv_of_opt_u64, opt_bool_json, opt_i64_json,
    opt_str_json, opt_u64_json, str_vec_to_json, JsonValue,
};

verus! {

/// A list that serializes as its single element when it has exactly one,
/// and as an array otherwise.
pub open spec fn one_or_many_json(v: JsonValue, ss: Seq<Seq<char>>) -> bool {
    if ss.len() == 1 {
        (v matches JsonValue::Str(t) && t@ == ss[0])
    } else {
        is_str_arr(v, ss)
    }
}

pub fn jv_of_one_or_many(ss: &Vec<String>) -> (r: JsonValue)
    ensures
        one_or_many_json(r, ss.deep_view()),
{
    if ss.len() == 1 {
        JsonValue::Str(ss[0].clone())
    } else {
        str_vec_to_json(ss)
    }
}

#[derive(Debug, PartialEq)]
pub struct CreateLoanScheme {
    pub min_col_ratio: u64,
    pub interest_rate: i64,
    pub id: String,
}

pub open spec fn create_loan_scheme_json(d: CreateLoanScheme, v: JsonValue) -> bool {
    &&& v matches JsonValue::Obj(fs)
    &&& fs@.len() == 3
    &&& fs@[0].0@ == "minColRatio"@
    &&& fs@[0].1 == JsonValue::UInt(d.min_col_ratio)
    &&& fs@[1].0@ == "interestRate"@
    &&& fs@[1].1 == JsonValue::Int(d.interest_rate)
    &&& fs@[2].0@ == "id"@
    &&& (fs@[2].1 matches JsonValue::Str(s) && s@ == d.id@)
}

impl CreateLoanScheme {
    pub fn to_json(&self) -> (r: JsonValue)
        ensures
            create_loan_scheme_json(*self, r),
    {
        let mut fs: Vec<(String, JsonValue)> = Vec::new();
        fs.push(("minColRatio".to_owned(), JsonValue::UInt(self.min_col_ratio)));
        fs.push(("interestRate".to_owned(), JsonValue::Int(self.interest_rate)));
        fs.push(("id".to_owned(), JsonValue::Str(self.id.clone())));
        JsonValue::Obj(fs)
    }
}

#[derive(Debug, PartialEq)]
pub struct UpdateLoanScheme {
    pub min_col_ratio: u64,
    pub interest_rate: i64,
    pub id: String,
    pub activate_after_block: Option<u64>,
}

pub open spec fn update_loan_scheme_json(d: UpdateLoanScheme, v: JsonValue) -> bool {
    &&& v matches JsonValue::Obj(fs)
    &&& fs@.len() == 4
    &&& fs@[0].0@ == "minColRatio"@
    &&& fs@[0].1 == JsonValue::UInt(d.min_col_ratio)
    &&& fs@[1].0@ == "interestRate"@
    &&& fs@[1].1 == JsonValue::Int(d.interest_rate)
    &&& fs@[2].0@ == "id"@
    &&& (fs@[2].1 matches JsonValue::Str(s) && s@ == d.id@)
    &&& fs@[3].0@ == "activateAfterBlock"@
    &&& opt_u64_json(fs@[3].1, d.activate_after_block)
}

impl UpdateLoanScheme {
    pub fn to_json(&self) -> (r: JsonValue)
        ensures
            update_loan_scheme_json(*self, r),
    {
        let mut fs: Vec<(String, JsonValue)> = Vec::new();
        fs.push(("minColRatio".to_owned(), JsonValue::UInt(self.min_col_ratio)));
        fs.push(("interestRate".to_owned(), JsonValue::Int(self.interest_rate)));
        fs.push(("id".to_owned(), JsonValue::Str(self.id.clone())));
        fs.push(("activateAfterBlock".to_owned(), jv_of_opt_u64(&self.activate_after_block)));
        JsonValue::Obj(fs)
    }
}

#[derive(Debug, PartialEq)]
pub struct DestroyLoanScheme {
    pub id: String,
    pub activate_after_block: Option<u64>,
}

pub open spec fn destroy_loan_scheme_json(d: DestroyLoanScheme, v: JsonValue) -> bool {
    &&& v matches JsonValue::Obj(fs)
    &&& fs@.len() == 2
    &&& fs@[0].0@ == "id"@
    &&& (fs@[0].1 matches JsonValue::Str(s) && s@ == d.id@)
    &&& fs@[1].0@ == "activateAfterBlock"@
    &&& opt_u64_json(fs@[1].1, d.activate_after_block)
}

impl DestroyLoanScheme {
    pub fn to_json(&self) -> (r: JsonValue)
        ensures
            destroy_loan_scheme_json(*self, r),
    {
        let mut fs: Vec<(String, JsonValue)> = Vec::new();
        fs.push(("id".to_owned(), JsonValue::Str(self.id.clone())));
        fs.push(("activateAfterBlock".to_owned(), jv_of_opt_u64(&self.activate_after_block)));
        JsonValue::Obj(fs)
    }
}

/// A loan scheme as the node reports it; the wire uses the plain
/// lower-case field spellings on responses.
#[derive(Debug, PartialEq)]
pub struct LoanSchemeResult {
    pub id: String,
    pub mincolratio: i64,
    pub interestrate: i64,
    pub default: bool,
}

pub open spec fn loan_scheme_result_shaped(v: JsonValue) -> bool {
    &&& field_str(v, "id"@) is Some
    &&& field_i64(v, "mincolratio"@) is Some
    &&& field_i64(v, "interestrate"@) is Some
    &&& crate::value::field_bool(v, "default"@) is Some
}

pub open spec fn loan_scheme_result_fields(d: LoanSchemeResult, v: JsonValue) -> bool {
    &&& (field_str(v, "id"@) matches Some(s) && d.id@ == s@)
    &&& field_i64(v, "mincolratio"@) == Some(d.mincolratio)
    &&& field_i64(v, "interestrate"@) == Some(d.interestrate)
    &&& crate::value::field_bool(v, "default"@) == Some(d.default)
}

impl LoanSchemeResult {
    pub fn from_json(v: &JsonValue) -> (r: Option<LoanSchemeResult>)
        ensures
            r is Some <==> loan_scheme_result_shaped(*v),
            r matches Some(d) ==> loan_scheme_result_fields(d, *v),
    {
        let id = match get_str(v, "id") {
            Some(s) => s,
            None => {
                return None;
            },
        };
        let mincolratio = match get_i64(v, "mincolratio") {
            Some(x) => x,
            None => {
                return None;
            },
        };
        let interestrate = match get_i64(v, "interestrate") {
            Some(x) => x,
            None => {
                return None;
            },
        };
        let default = match crate::value::get_bool(v, "default") {
            Some(x) => x,
            None => {
                return None;
            },
        };
        Some(LoanSchemeResult { id, mincolratio, interestrate, default })
    }
}

#[derive(Debug, PartialEq)]
pub struct SetCollateralToken {
    pub token: String,
    pub factor: i64,
    pub fixed_interval_price_id: String,
    pub activate_after_block: Option<u64>,
}

pub open spec fn set_collateral_token_json(d: SetCollateralToken, v: JsonValue) -> bool {
    &&& v matches JsonValue::Obj(fs)
    &&& fs@.len() == 4
    &&& fs@[0].0@ == "token"@
    &&& (fs@[0].1 matches JsonValue::Str(s) && s@ == d.token@)
    &&& fs@[1].0@ == "factor"@
    &&& fs@[1].1 == JsonValue::Int(d.factor)
    &&& fs@[2].0@ == "fixedIntervalPriceId"@
    &&& (fs@[2].1 matches JsonValue::Str(s) && s@ == d.fixed_interval_price_id@)
    &&& fs@[3].0@ == "activateAfterBlock"@
    &&& opt_u64_json(fs@[3].1, d.activate_after_block)
}

impl SetCollateralToken {
    pub fn to_json(&self) -> (r: JsonValue)
        ensures
            set_collateral_token_json(*self, r),
    {
        let mut fs: Vec<(String, JsonValue)> = Vec::new();
        fs.push(("token".to_owned(), JsonValue::Str(self.token.clone())));
        fs.push(("factor".to_owned(), JsonValue::Int(self.factor)));
        fs.push(
            ("fixedIntervalPriceId".to_owned(), JsonValue::Str(
                self.fixed_interval_price_id.clone(),
            )),
        );
        fs.push(("activateAfterBlock".to_owned(), jv_of_opt_u64(&self.activate_after_block)));
        JsonValue::Obj(fs)
    }
}

#[derive(Debug, PartialEq)]
pub struct CollateralTokenDetail {
    pub token: String,
    pub factor: i64,
    pub fixed_interval_price_id: String,
    pub token_id: String,
}

pub open spec fn collateral_token_detail_shaped(v: JsonValue) -> bool {
    &&& field_str(v, "token"@) is Some
    &&& field_i64(v, "factor"@) is Some
    &&& field_str(v, "fixedIntervalPriceId"@) is Some
    &&& field_str(v, "tokenId"@) is Some
}

pub open spec fn collateral_token_detail_fields(d: CollateralTokenDetail, v: JsonValue) -> bool {
    &&& (field_str(v, "token"@) matches Some(s) && d.token@ == s@)
    &&& field_i64(v, "factor"@) == Some(d.factor)
    &&& (field_str(v, "fixedIntervalPriceId"@) matches Some(s) && d.fixed_interval_price_id@
        == s@)
    &&& (field_str(v, "tokenId"@) matches Some(s) && d.token_id@ == s@)
}

impl CollateralTokenDetail {
    pub fn from_json(v: &JsonValue) -> (r: Option<CollateralTokenDetail>)
        ensures
            r is Some <==> collateral_token_detail_shaped(*v),
            r matches Some(d) ==> collateral_token_detail_fields(d, *v),
    {
        let token = match get_str(v, "token") {
            Some(s) => s,
            None => {
                return None;
            },
        };
        let factor = match get_i64(v, "factor") {
            Some(x) => x,
            None => {
                return None;
            },
        };
        let fixed_interval_price_id = match get_str(v, "fixedIntervalPriceId") {
            Some(s) => s,
            None => {
                return None;
            },
        };
        let token_id = match get_str(v, "tokenId") {
            Some(s) => s,
            None => {
                return None;
            },
        };
        Some(CollateralTokenDetail { token, factor, fixed_interval_price_id, token_id })
    }
}

#[derive(Debug, PartialEq)]
pub struct SetLoanToken {
    pub symbol: String,
    pub name: Option<String>,
    pub fixed_interval_price_id: String,
    pub mintable: Option<bool>,
    pub interest: Option<i64>,
}

pub open spec fn set_loan_token_json(d: SetLoanToken, v: JsonValue) -> bool {
    &&& v matches JsonValue::Obj(fs)
    &&& fs@.len() == 5
    &&& fs@[0].0@ == "symbol"@
    &&& (fs@[0].1 matches JsonValue::Str(s) && s@ == d.symbol@)
    &&& fs@[1].0@ == "name"@
    &&& opt_str_json(fs@[1].1, d.name)
    &&& fs@[2].0@ == "fixedIntervalPriceId"@
    &&& (fs@[2].1 matches JsonValue::Str(s) && s@ == d.fixed_interval_price_id@)
    &&& fs@[3].0@ == "mintable"@
    &&& opt_bool_json(fs@[3].1, d.mintable)
    &&& fs@[4].0@ == "interest"@
    &&& opt_i64_json(fs@[4].1, d.interest)
}

impl SetLoanToken {
    pub fn to_json(&self) -> (r: JsonValue)
        ensures
            set_loan_token_json(*self, r),
    {
        let mut fs: Vec<(String, JsonValue)> = Vec::new();
        fs.push(("symbol".to_owned(), JsonValue::Str(self.symbol.clone())));
        fs.push(("name".to_owned(), jv_of_opt_str(&self.name)));
        fs.push(
            ("fixedIntervalPriceId".to_owned(), JsonValue::Str(
                self.fixed_interval_price_id.clone(),
            )),
        );
        fs.push(("mintable".to_owned(), jv_of_opt_bool(&self.mintable)));
        fs.push(("interest".to_owned(), jv_of_opt_i64(&self.interest)));
        JsonValue::Obj(fs)
    }
}

#[derive(Debug, PartialEq)]
pub struct UpdateLoanToken {
    pub symbol: Option<String>,
    pub name: Option<String>,
    pub fixed_interval_price_id: Option<String>,
    pub mintable: Option<bool>,
    pub interest: Option<i64>,
}

pub open spec fn update_loan_token_json(d: UpdateLoanToken, v: JsonValue) -> bool {
    &&& v matches JsonValue::Obj(fs)
    &&& fs@.len() == 5
    &&& fs@[0].0@ == "symbol"@
    &&& opt_str_json(fs@[0].1, d.symbol)
    &&& fs@[1].0@ == "name"@
    &&& opt_str_json(fs@[1].1, d.name)
    &&& fs@[2].0@ == "fixedIntervalPriceId"@
    &&& opt_str_json(fs@[2].1, d.fixed_interval_price_id)
    &&& fs@[3].0@ == "mintable"@
    &&& opt_bool_json(fs@[3].1, d.mintable)
    &&& fs@[4].0@ == "interest"@
    &&& opt_i64_json(fs@[4].1, d.interest)
}

impl UpdateLoanToken {
    pub fn to_json(&self) -> (r: JsonValue)
        ensures
            update_loan_token_json(*self, r),
    {
        let mut fs: Vec<(String, JsonValue)> = Vec::new();
        fs.push(("symbol".to_owned(), jv_of_opt_str(&self.symbol)));
        fs.push(("name".to_owned(), jv_of_opt_str(&self.name)));
        fs.push(("fixedIntervalPriceId".to_owned(), jv_of_opt_str(&self.fixed_interval_price_id)));
        fs.push(("mintable".to_owned(), jv_of_opt_bool(&self.mintable)));
        fs.push(("interest".to_owned(), jv_of_opt_i64(&self.interest)));
        JsonValue::Obj(fs)
    }
}

/// A loan token and its pricing parameters.
#[derive(Debug, PartialEq)]
pub struct LoanTokenResult {
    pub token: TokenResult,
    pub fixed_interval_price_id: String,
    pub interest: i64,
}

pub open spec fn loan_token_result_shaped(v: JsonValue) -> bool {
    &&& (jv_get(v, "token"@) matches Some(x) && token_result_shaped(x))
    &&& field_str(v, "fixedIntervalPriceId"@) is Some
    &&& field_i64(v, "interest"@) is Some
}

pub open spec fn loan_token_result_fields(d: LoanTokenResult, v: JsonValue) -> bool {
    &&& (jv_get(v, "token"@) matches Some(x) && token_result_fields(d.token.0@, x))
    &&& (field_str(v, "fixedIntervalPriceId"@) matches Some(s) && d.fixed_interval_price_id@
        == s@)
    &&& field_i64(v, "interest"@) == Some(d.interest)
}

impl LoanTokenResult {
    pub fn from_json(v: &JsonValue) -> (r: Option<LoanTokenResult>)
        ensures
            r is Some <==> loan_token_result_shaped(*v),
            r matches Some(d) ==> loan_token_result_fields(d, *v),
    {
        let token = match jv_obj_get(v, "token") {
            Some(x) => match TokenResult::from_json(x) {
                Some(t) => t,
                None => {
                    return None;
                },
            },
            None => {
                return None;
            },
        };
        let fixed_interval_price_id = match get_str(v, "fixedIntervalPriceId") {
            Some(s) => s,
            None => {
                return None;
            },
        };
        let interest = match get_i64(v, "interest") {
            Some(x) => x,
            None => {
                return None;
            },
        };
        Some(LoanTokenResult { token, fixed_interval_price_id, interest })
    }
}

/// Default loan parameters.  The price-deviation bound, a JSON number on
/// the wire, keeps its decimal text.
#[derive(Debug, PartialEq)]
pub struct LoanConfig {
    pub fixed_interval_blocks: u64,
    pub max_price_deviation_pct: String,
    pub min_oracles_per_price: u64,
    pub scheme: String,
}

pub open spec fn loan_config_shaped(v: JsonValue) -> bool {
    &&& field_u64(v, "fixedIntervalBlocks"@) is Some
    &&& crate::value::field_numtext(v, "maxPriceDeviationPct"@) is Some
    &&& field_u64(v, "minOraclesPerPrice"@) is Some
    &&& field_str(v, "scheme"@) is Some
}

pub open spec fn loan_config_fields(d: LoanConfig, v: JsonValue) -> bool {
    &&& field_u64(v, "fixedIntervalBlocks"@) == Some(d.fixed_interval_blocks)
    &&& crate::value::field_numtext(v, "maxPriceDeviationPct"@) == Some(
        d.max_price_deviation_pct@,
    )
    &&& field_u64(v, "minOraclesPerPrice"@) == Some(d.min_oracles_per_price)
    &&& (field_str(v, "scheme"@) matches Some(s) && d.scheme@ == s@)
}

impl LoanConfig {
    pub fn from_json(v: &JsonValue) -> (r: Option<LoanConfig>)
        ensures
            r is Some <==> loan_config_shaped(*v),
            r matches Some(d) ==> loan_config_fields(d, *v),
    {
        let fixed_interval_blocks = match get_u64(v, "fixedIntervalBlocks") {
            Some(x) => x,
            None => {
                return None;
            },
        };
        let max_price_deviation_pct = match crate::value::get_numtext(v, "maxPriceDeviationPct") {
            Some(x) => x,
            None => {
                return None;
            },
        };
        let min_oracles_per_price = match get_u64(v, "minOraclesPerPrice") {
            Some(x) => x,
            None => {
                return None;
            },
        };
        let scheme = match get_str(v, "scheme") {
            Some(s) => s,
            None => {
                return None;
            },
        };
        Some(
            LoanConfig {
                fixed_interval_blocks,
                max_price_deviation_pct,
                min_oracles_per_price,
                scheme,
            },
        )
    }
}

/// Totals over all vaults and loans.  Monetary values keep their decimal
/// text.
#[derive(Debug, PartialEq)]
pub struct LoanSummary {
    pub collateral_tokens: u64,
    pub collateral_value: String,
    pub loan_tokens: u64,
    pub loan_value: String,
    pub open_auctions: u64,
    pub open_vaults: u64,
    pub schemes: u64,
}

pub open spec fn loan_summary_shaped(v: JsonValue) -> bool {
    &&& field_u64(v, "collateralTokens"@) is Some
    &&& crate::value::field_numtext(v, "collateralValue"@) is Some
    &&& field_u64(v, "loanTokens"@) is Some
    &&& crate::value::field_numtext(v, "loanValue"@) is Some
    &&& field_u64(v, "openAuctions"@) is Some
    &&& field_u64(v, "openVaults"@) is Some
    &&& field_u64(v, "schemes"@) is Some
}

pub open spec fn loan_summary_fields(d: LoanSummary, v: JsonValue) -> bool {
    &&& field_u64(v, "collateralTokens"@) == Some(d.collateral_tokens)
    &&& crate::value::field_numtext(v, "collateralValue"@) == Some(d.collateral_value@)
    &&& field_u64(v, "loanTokens"@) == Some(d.loan_tokens)
    &&& crate::value::field_numtext(v, "loanValue"@) == Some(d.loan_value@)
    &&& field_u64(v, "openAuctions"@) == Some(d.open_auctions)
    &&& field_u64(v, "openVaults"@) == Some(d.open_vaults)
    &&& field_u64(v, "schemes"@) == Some(d.schemes)
}

impl LoanSummary {
    pub fn from_json(v: &JsonValue) -> (r: Option<LoanSummary>)
        ensures
            r is Some <==> loan_summary_shaped(*v),
            r matches Some(d) ==> loan_summary_fields(d, *v),
    {
        let collateral_tokens = match get_u64(v, "collateralTokens") {
            Some(x) => x,
            None => {
                return None;
            },
        };
        let collateral_value = match crate::value::get_numtext(v, "collateralValue") {
            Some(x) => x,
            None => {
                return None;
            },
        };
        let loan_tokens = match get_u64(v, "loanTokens") {
            Some(x) => x,
            None => {
                return None;
            },
        };
        let loan_value = match crate::value::get_numtext(v, "loanValue") {
            Some(x) => x,
            None => {
                return None;
            },
        };
        let open_auctions = match get_u64(v, "openAuctions") {
            Some(x) => x,
            None => {
                return None;
            },
        };
        let open_vaults = match get_u64(v, "openVaults") {
            Some(x) => x,
            None => {
                return None;
            },
        };
        let schemes = match get_u64(v, "schemes") {
            Some(x) => x,
            None => {
                return None;
            },
        };
        Some(
            LoanSummary {
                collateral_tokens,
                collateral_value,
                loan_tokens,
                loan_value,
                open_auctions,
                open_vaults,
                schemes,
            },
        )
    }
}

#[derive(Debug, PartialEq)]
pub struct GetLoanInfoResult {
    pub current_price_block: i64,
    pub next_price_block: i64,
    pub defaults: LoanConfig,
    pub totals: LoanSummary,
}

pub open spec fn get_loan_info_result_shaped(v: JsonValue) -> bool {
    &&& field_i64(v, "currentPriceBlock"@) is Some
    &&& field_i64(v, "nextPriceBlock"@) is Some
    &&& (jv_get(v, "defaults"@) matches Some(x) && loan_config_shaped(x))
    &&& (jv_get(v, "totals"@) matches Some(x) && loan_summary_shaped(x))
}

pub open spec fn get_loan_info_result_fields(d: GetLoanInfoResult, v: JsonValue) -> bool {
    &&& field_i64(v, "currentPriceBlock"@) == Some(d.current_price_block)
    &&& field_i64(v, "nextPriceBlock"@) == Some(d.next_price_block)
    &&& (jv_get(v, "defaults"@) matches Some(x) && loan_config_fields(d.defaults, x))
    &&& (jv_get(v, "totals"@) matches Some(x) && loan_summary_fields(d.totals, x))
}

impl GetLoanInfoResult {
    pub fn from_json(v: &JsonValue) -> (r: Option<GetLoanInfoResult>)
        ensures
            r is Some <==> get_loan_info_result_shaped(*v),
            r matches Some(d) ==> get_loan_info_result_fields(d, *v),
    {
        let current_price_block = match get_i64(v, "currentPriceBlock") {
            Some(x) => x,
            None => {
                return None;
            },
        };
        let next_price_block = match get_i64(v, "nextPriceBlock") {
            Some(x) => x,
            None => {
                return None;
            },
        };
        let defaults = match jv_obj_get(v, "defaults") {
            Some(x) => match LoanConfig::from_json(x) {
                Some(c) => c,
                None => {
                    return None;
                },
            },
            None => {
                return None;
            },
        };
        let totals = match jv_obj_get(v, "totals") {
            Some(x) => match LoanSummary::from_json(x) {
                Some(t) => t,
                None => {
                    return None;
                },
            },
            None => {
                return None;
            },
        };
        Some(GetLoanInfoResult { current_price_block, next_price_block, defaults, totals })
    }
}

#[derive(Debug, PartialEq)]
pub struct TakeLoanMetadata {
    pub vault_id: String,
    pub amounts: Vec<String>,
    pub to: Option<String>,
}

pub open spec fn take_loan_metadata_json(d: TakeLoanMetadata, v: JsonValue) -> bool {
    &&& v matches JsonValue::Obj(fs)
    &&& fs@.len() == 3
    &&& fs@[0].0@ == "vaultId"@
    &&& (fs@[0].1 matches JsonValue::Str(s) && s@ == d.vault_id@)
    &&& fs@[1].0@ == "amounts"@
    &&& one_or_many_json(fs@[1].1, d.amounts.deep_view())
    &&& fs@[2].0@ == "to"@
    &&& opt_str_json(fs@[2].1, d.to)
}

impl TakeLoanMetadata {
    pub fn to_json(&self) -> (r: JsonValue)
        ensures
            take_loan_metadata_json(*self, r),
    {
        let mut fs: Vec<(String, JsonValue)> = Vec::new();
        fs.push(("vaultId".to_owned(), JsonValue::Str(self.vault_id.clone())));
        fs.push(("amounts".to_owned(), jv_of_one_or_many(&self.amounts)));
        fs.push(("to".to_owned(), jv_of_opt_str(&self.to)));
        JsonValue::Obj(fs)
    }
}

#[derive(Debug, PartialEq)]
pub struct PaybackLoanMetadata {
    pub vault_id: String,
    pub amounts: Vec<String>,
    pub from: String,
}

pub open spec fn payback_loan_metadata_json(d: PaybackLoanMetadata, v: JsonValue) -> bool {
    &&& v matches JsonValue::Obj(fs)
    &&& fs@.len() == 3
    &&& fs@[0].0@ == "vaultId"@
    &&& (fs@[0].1 matches JsonValue::Str(s) && s@ == d.vault_id@)
    &&& fs@[1].0@ == "amounts"@
    &&& one_or_many_json(fs@[1].1, d.amounts.deep_view())
    &&& fs@[2].0@ == "from"@
    &&& (fs@[2].1 matches JsonValue::Str(s) && s@ == d.from@)
}

impl PaybackLoanMetadata {
    pub fn to_json(&self) -> (r: JsonValue)
        ensures
            payback_loan_metadata_json(*self, r),
    {
        let mut fs: Vec<(String, JsonValue)> = Vec::new();
        fs.push(("vaultId".to_owned(), JsonValue::Str(self.vault_id.clone())));
        fs.push(("amounts".to_owned(), jv_of_one_or_many(&self.amounts)));
        fs.push(("from".to_owned(), JsonValue::Str(self.from.clone())));
        JsonValue::Obj(fs)
    }
}

#[derive(Debug, PartialEq)]
pub struct TokenPaybackAmount {
    pub d_token: String,
    pub amounts: Vec<String>,
}

pub open spec fn token_payback_amount_json(d: TokenPaybackAmount, v: JsonValue) -> bool {
    &&& v matches JsonValue::Obj(fs)
    &&& fs@.len() == 2
    &&& fs@[0].0@ == "dToken"@
    &&& (fs@[0].1 matches JsonValue::Str(s) && s@ == d.d_token@)
    &&& fs@[1].0@ == "amounts"@
    &&& one_or_many_json(fs@[1].1, d.amounts.deep_view())
}

impl TokenPaybackAmount {
    pub fn to_json(&self) -> (r: JsonValue)
        ensures
            token_payback_amount_json(*self, r),
    {
        let mut fs: Vec<(String, JsonValue)> = Vec::new();
        fs.push(("dToken".to_owned(), JsonValue::Str(self.d_token.clone())));
        fs.push(("amounts".to_owned(), jv_of_one_or_many(&self.amounts)));
        JsonValue::Obj(fs)
    }
}

pub open spec fn token_payback_arr_json(ds: Seq<TokenPaybackAmount>, v: JsonValue) -> bool {
    &&& v matches JsonValue::Arr(items)
    &&& items@.len() == ds.len()
    &&& forall|i: int| 0 <= i < ds.len() ==> token_payback_amount_json(ds[i], #[trigger] items@[i])
}

#[verifier::loop_isolation(false)]
fn token_paybacks_to_json(ds: &Vec<TokenPaybackAmount>) -> (r: JsonValue)
    ensures
        token_payback_arr_json(ds@, r),
{
    let n = ds.len();
    let mut items: Vec<JsonValue> = Vec::new();
    let mut i: usize = 0;
    while i < n
        invariant
            n == ds@.len(),
            i <= n,
            items@.len() == i,
            forall|j: int| 0 <= j < i ==> token_payback_amount_json(ds@[j], #[trigger] items@[j]),
        decreases n - i,
    {
        items.push(ds[i].to_json());
        i += 1;
    }
    JsonValue::Arr(items)
}

#[derive(Debug, PartialEq)]
pub struct PaybackLoanMetadataV2 {
    pub vault_id: String,
    pub from: String,
    pub loans: Vec<TokenPaybackAmount>,
}

pub open spec fn payback_loan_metadata_v2_json(d: PaybackLoanMetadataV2, v: JsonValue) -> bool {
    &&& v matches JsonValue::Obj(fs)
    &&& fs@.len() == 3
    &&& fs@[0].0@ == "vaultId"@
    &&& (fs@[0].1 matches JsonValue::Str(s) && s@ == d.vault_id@)
    &&& fs@[1].0@ == "from"@
    &&& (fs@[1].1 matches JsonValue::Str(s) && s@ == d.from@)
    &&& fs@[2].0@ == "loans"@
    &&& token_payback_arr_json(d.loans@, fs@[2].1)
}

impl PaybackLoanMetadataV2 {
    pub fn to_json(&self) -> (r: JsonValue)
        ensures
            payback_loan_metadata_v2_json(*self, r),
    {
        let mut fs: Vec<(String, JsonValue)> = Vec::new();
        fs.push(("vaultId".to_owned(), JsonValue::Str(self.vault_id.clone())));
        fs.push(("from".to_owned(), JsonValue::Str(self.from.clone())));
        fs.push(("loans".to_owned(), token_paybacks_to_json(&self.loans)));
        JsonValue::Obj(fs)
    }
}

} // verus!
