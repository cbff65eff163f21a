//! Vault and auction types.
//!
//! `VaultState` carries its own wire tokens: they are fixed camel-case
//! strings that do not match the variant names, and the decoder also
//! accepts a historical spelling for the may-liquidate state while
//! falling back to `Unknown` on anything unrecognized.  Both directions
//! are stated exactly, and every state round-trips through its token.

use vstd::prelude::*;

use crate::value::{
    field_i64, field_numtext, field_str, field_u32, field_u64, get_i64, get_numtext,
    get_opt_i64, get_opt_str, get_str, get_str_vec, get_u32, get_u64, is_str_arr, jv_get, jv_obj_get, jv_of_opt_bool, jv_of_opt_str, jv_of_opt_u64, jv_str_of, opt_bool_json,
    opt_field_i64, opt_field_str, opt_str_eq, opt_str_json, opt_u64_json, str_arr_shaped, str_eq,
    JsonValue,
};

verus! {

#[derive(Debug, PartialEq, Eq, Structural, Clone, Copy)]
pub enum VaultState {
    Unknown,
    Active,
    InLiquidation,
    Frozen,
    MayLiquidate,
}

impl VaultState {
    /// The token this state serializes to.
    pub open spec fn spec_token(self) -> Seq<char> {
        match self {
            VaultState::Unknown => "unknown"@,
            VaultState::Active => "active"@,
            VaultState::InLiquidation => "inLiquidation"@,
            VaultState::Frozen => "frozen"@,
            VaultState::MayLiquidate => "mayLiquidate"@,
        }
    }

    /// What a token decodes to; an unrecognized one falls back to `Unknown`.
    /// `MayLiquidate` decodes from its own token and also from the
    /// historical spelling `"mayLiquidation"`.
    pub open spec fn spec_from_token(s: Seq<char>) -> VaultState {
        if s == "active"@ {
            VaultState::Active
        } else if s == "inLiquidation"@ {
            VaultState::InLiquidation
        } else if s == "frozen"@ {
            VaultState::Frozen
        } else if s == "mayLiquidate"@ {
            VaultState::MayLiquidate
        } else if s == "mayLiquidation"@ {
            VaultState::MayLiquidate
        } else {
            VaultState::Unknown
        }
    }

    pub fn wire_token(&self) -> (r: String)
        ensures
            r@ == self.spec_token(),
    {
        match self {
            VaultState::Unknown => "unknown".to_owned(),
            VaultState::Active => "active".to_owned(),
            VaultState::InLiquidation => "inLiquidation".to_owned(),
            VaultState::Frozen => "frozen".to_owned(),
            VaultState::MayLiquidate => "mayLiquidate".to_owned(),
        }
    }

    pub fn from_wire_token(s: &str) -> (r: VaultState)
        ensures
            r == VaultState::spec_from_token(s@),
    {
        if str_eq(s, "active") {
            VaultState::Active
        } else if str_eq(s, "inLiquidation") {
            VaultState::InLiquidation
        } else if str_eq(s, "frozen") {
            VaultState::Frozen
        } else if str_eq(s, "mayLiquidate") {
            VaultState::MayLiquidate
        } else if str_eq(s, "mayLiquidation") {
            VaultState::MayLiquidate
        } else {
            VaultState::Unknown
        }
    }

    pub fn in_liquidation() -> (r: Self)
        ensures
            r == VaultState::InLiquidation,
    {
        VaultState::InLiquidation
    }

    pub fn to_json(&self) -> (r: JsonValue)
        ensures
            (r matches JsonValue::Str(t) && t@ == self.spec_token()),
    {
        JsonValue::Str(self.wire_token())
    }

    /// Only a string node decodes; its token is read as `spec_from_token`.
    pub fn from_json(v: &JsonValue) -> (r: Option<VaultState>)
        ensures
            r is Some <==> *v is Str,
            r matches Some(s) ==> (jv_str_of(*v) matches Some(t) && s
                == VaultState::spec_from_token(t@)),
    {
        match v {
            JsonValue::Str(s) => Some(VaultState::from_wire_token(s.as_str())),
            _ => None,
        }
    }
}

/// Every state decodes back from its own serialized token.
pub proof fn lemma_vault_state_round_trip(s: VaultState)
    ensures
        VaultState::spec_from_token(s.spec_token()) == s,
{
    reveal_strlit("unknown");
    reveal_strlit("active");
    reveal_strlit("inLiquidation");
    reveal_strlit("frozen");
    reveal_strlit("mayLiquidate");
    reveal_strlit("mayLiquidation");
    match s {
        VaultState::Unknown => {
            assert("unknown"@.len() == 7);
            assert("mayLiquidate"@.len() == 12);
            assert(VaultState::spec_from_token("unknown"@) == VaultState::Unknown);
        },
        VaultState::Active => {
            assert(VaultState::spec_from_token("active"@) == VaultState::Active);
        },
        VaultState::InLiquidation => {
            assert("inLiquidation"@.len() == 13);
            assert("active"@.len() == 6);
            assert(VaultState::spec_from_token("inLiquidation"@) == VaultState::InLiquidation);
        },
        VaultState::Frozen => {
            assert("frozen"@[0] == 'f');
            assert("active"@[0] == 'a');
            assert("frozen"@.len() == 6);
            assert("inLiquidation"@.len() == 13);
            assert("mayLiquidate"@.len() == 12);
            assert(VaultState::spec_from_token("frozen"@) == VaultState::Frozen);
        },
        VaultState::MayLiquidate => {
            assert("mayLiquidate"@.len() == 12);
            assert("active"@.len() == 6);
            assert("inLiquidation"@.len() == 13);
            assert("frozen"@.len() == 6);
            assert(VaultState::spec_from_token("mayLiquidate"@) == VaultState::MayLiquidate);
        },
    }
}

#[derive(Debug, PartialEq)]
pub struct CreateVault {
    pub owner_address: String,
    pub loan_scheme_id: Option<String>,
}

pub open spec fn create_vault_json(d: CreateVault, v: JsonValue) -> bool {
    &&& v matches JsonValue::Obj(fs)
    &&& fs@.len() == 2
    &&& fs@[0].0@ == "ownerAddress"@
    &&& (fs@[0].1 matches JsonValue::Str(s) && s@ == d.owner_address@)
    &&& fs@[1].0@ == "loanSchemeId"@
    &&& opt_str_json(fs@[1].1, d.loan_scheme_id)
}

impl CreateVault {
    pub fn to_json(&self) -> (r: JsonValue)
        ensures
            create_vault_json(*self, r),
    {
        let mut fs: Vec<(String, JsonValue)> = Vec::new();
        fs.push(("ownerAddress".to_owned(), JsonValue::Str(self.owner_address.clone())));
        fs.push(("loanSchemeId".to_owned(), jv_of_opt_str(&self.loan_scheme_id)));
        JsonValue::Obj(fs)
    }
}

#[derive(Debug, PartialEq)]
pub struct UpdateVault {
    pub owner_address: Option<String>,
    pub loan_scheme_id: Option<String>,
}

pub open spec fn update_vault_json(d: UpdateVault, v: JsonValue) -> bool {
    &&& v matches JsonValue::Obj(fs)
    &&& fs@.len() == 2
    &&& fs@[0].0@ == "ownerAddress"@
    &&& opt_str_json(fs@[0].1, d.owner_address)
    &&& fs@[1].0@ == "loanSchemeId"@
    &&& opt_str_json(fs@[1].1, d.loan_scheme_id)
}

impl UpdateVault {
    pub fn to_json(&self) -> (r: JsonValue)
        ensures
            update_vault_json(*self, r),
    {
        let mut fs: Vec<(String, JsonValue)> = Vec::new();
        fs.push(("ownerAddress".to_owned(), jv_of_opt_str(&self.owner_address)));
        fs.push(("loanSchemeId".to_owned(), jv_of_opt_str(&self.loan_scheme_id)));
        JsonValue::Obj(fs)
    }
}

#[derive(Debug, PartialEq)]
pub struct DepositVault {
    pub vault_id: String,
    pub from: String,
    pub amount: String,
}

pub open spec fn deposit_vault_json(d: DepositVault, v: JsonValue) -> bool {
    &&& v matches JsonValue::Obj(fs)
    &&& fs@.len() == 3
    &&& fs@[0].0@ == "vaultId"@
    &&& (fs@[0].1 matches JsonValue::Str(s) && s@ == d.vault_id@)
    &&& fs@[1].0@ == "from"@
    &&& (fs@[1].1 matches JsonValue::Str(s) && s@ == d.from@)
    &&& fs@[2].0@ == "amount"@
    &&& (fs@[2].1 matches JsonValue::Str(s) && s@ == d.amount@)
}

impl DepositVault {
    pub fn to_json(&self) -> (r: JsonValue)
        ensures
            deposit_vault_json(*self, r),
    {
        let mut fs: Vec<(String, JsonValue)> = Vec::new();
        fs.push(("vaultId".to_owned(), JsonValue::Str(self.vault_id.clone())));
        fs.push(("from".to_owned(), JsonValue::Str(self.from.clone())));
        fs.push(("amount".to_owned(), JsonValue::Str(self.amount.clone())));
        JsonValue::Obj(fs)
    }
}

#[derive(Debug, PartialEq)]
pub struct WithdrawVault {
    pub vault_id: String,
    pub to: String,
    pub amount: String,
}

pub open spec fn withdraw_vault_json(d: WithdrawVault, v: JsonValue) -> bool {
    &&& v matches JsonValue::Obj(fs)
    &&& fs@.len() == 3
    &&& fs@[0].0@ == "vaultId"@
    &&& (fs@[0].1 matches JsonValue::Str(s) && s@ == d.vault_id@)
    &&& fs@[1].0@ == "to"@
    &&& (fs@[1].1 matches JsonValue::Str(s) && s@ == d.to@)
    &&& fs@[2].0@ == "amount"@
    &&& (fs@[2].1 matches JsonValue::Str(s) && s@ == d.amount@)
}

impl WithdrawVault {
    pub fn to_json(&self) -> (r: JsonValue)
        ensures
            withdraw_vault_json(*self, r),
    {
        let mut fs: Vec<(String, JsonValue)> = Vec::new();
        fs.push(("vaultId".to_owned(), JsonValue::Str(self.vault_id.clone())));
        fs.push(("to".to_owned(), JsonValue::Str(self.to.clone())));
        fs.push(("amount".to_owned(), JsonValue::Str(self.amount.clone())));
        JsonValue::Obj(fs)
    }
}

#[derive(Debug, PartialEq, Default)]
pub struct VaultPagination {
    pub start: Option<String>,
    pub including_start: Option<bool>,
    pub limit: Option<u64>,
}

pub open spec fn vault_pagination_json(d: VaultPagination, v: JsonValue) -> bool {
    &&& v matches JsonValue::Obj(fs)
    &&& fs@.len() == 3
    &&& fs@[0].0@ == "start"@
    &&& opt_str_json(fs@[0].1, d.start)
    &&& fs@[1].0@ == "includingStart"@
    &&& opt_bool_json(fs@[1].1, d.including_start)
    &&& fs@[2].0@ == "limit"@
    &&& opt_u64_json(fs@[2].1, d.limit)
}

impl VaultPagination {
    pub fn to_json(&self) -> (r: JsonValue)
        ensures
            vault_pagination_json(*self, r),
    {
        let mut fs: Vec<(String, JsonValue)> = Vec::new();
        fs.push(("start".to_owned(), jv_of_opt_str(&self.start)));
        fs.push(("includingStart".to_owned(), jv_of_opt_bool(&self.including_start)));
        fs.push(("limit".to_owned(), jv_of_opt_u64(&self.limit)));
        JsonValue::Obj(fs)
    }
}

#[derive(Debug, PartialEq, Default)]
pub struct ListVaultOptions {
    pub owner_address: Option<String>,
    pub loan_scheme_id: Option<String>,
    pub state: Option<VaultState>,
    pub verbose: Option<bool>,
}

pub open spec fn opt_vault_state_json(v: JsonValue, o: Option<VaultState>) -> bool {
    match o {
        None => v is Null,
        Some(s) => (v matches JsonValue::Str(t) && t@ == s.spec_token()),
    }
}

pub open spec fn list_vault_options_json(d: ListVaultOptions, v: JsonValue) -> bool {
    &&& v matches JsonValue::Obj(fs)
    &&& fs@.len() == 4
    &&& fs@[0].0@ == "ownerAddress"@
    &&& opt_str_json(fs@[0].1, d.owner_address)
    &&& fs@[1].0@ == "loanSchemeId"@
    &&& opt_str_json(fs@[1].1, d.loan_scheme_id)
    &&& fs@[2].0@ == "state"@
    &&& opt_vault_state_json(fs@[2].1, d.state)
    &&& fs@[3].0@ == "verbose"@
    &&& opt_bool_json(fs@[3].1, d.verbose)
}

impl ListVaultOptions {
    pub fn to_json(&self) -> (r: JsonValue)
        ensures
            list_vault_options_json(*self, r),
    {
        let state = match &self.state {
            None => JsonValue::Null,
            Some(s) => s.to_json(),
        };
        let mut fs: Vec<(String, JsonValue)> = Vec::new();
        fs.push(("ownerAddress".to_owned(), jv_of_opt_str(&self.owner_address)));
        fs.push(("loanSchemeId".to_owned(), jv_of_opt_str(&self.loan_scheme_id)));
        fs.push(("state".to_owned(), state));
        fs.push(("verbose".to_owned(), jv_of_opt_bool(&self.verbose)));
        JsonValue::Obj(fs)
    }
}

#[derive(Debug, PartialEq)]
pub struct CloseVault {
    pub vault_id: String,
    pub to: String,
}

pub open spec fn close_vault_json(d: CloseVault, v: JsonValue) -> bool {
    &&& v matches JsonValue::Obj(fs)
    &&& fs@.len() == 2
    &&& fs@[0].0@ == "vaultId"@
    &&& (fs@[0].1 matches JsonValue::Str(s) && s@ == d.vault_id@)
    &&& fs@[1].0@ == "to"@
    &&& (fs@[1].1 matches JsonValue::Str(s) && s@ == d.to@)
}

impl CloseVault {
    pub fn to_json(&self) -> (r: JsonValue)
        ensures
            close_vault_json(*self, r),
    {
        let mut fs: Vec<(String, JsonValue)> = Vec::new();
        fs.push(("vaultId".to_owned(), JsonValue::Str(self.vault_id.clone())));
        fs.push(("to".to_owned(), JsonValue::Str(self.to.clone())));
        JsonValue::Obj(fs)
    }
}

#[derive(Debug, PartialEq)]
pub struct PlaceAuctionBid {
    pub vault_id: String,
    pub index: u64,
    pub from: String,
    pub amount: String,
}

pub open spec fn place_auction_bid_json(d: PlaceAuctionBid, v: JsonValue) -> bool {
    &&& v matches JsonValue::Obj(fs)
    &&& fs@.len() == 4
    &&& fs@[0].0@ == "vaultId"@
    &&& (fs@[0].1 matches JsonValue::Str(s) && s@ == d.vault_id@)
    &&& fs@[1].0@ == "index"@
    &&& fs@[1].1 == JsonValue::UInt(d.index)
    &&& fs@[2].0@ == "from"@
    &&& (fs@[2].1 matches JsonValue::Str(s) && s@ == d.from@)
    &&& fs@[3].0@ == "amount"@
    &&& (fs@[3].1 matches JsonValue::Str(s) && s@ == d.amount@)
}

impl PlaceAuctionBid {
    pub fn to_json(&self) -> (r: JsonValue)
        ensures
            place_auction_bid_json(*self, r),
    {
        let mut fs: Vec<(String, JsonValue)> = Vec::new();
        fs.push(("vaultId".to_owned(), JsonValue::Str(self.vault_id.clone())));
        fs.push(("index".to_owned(), JsonValue::UInt(self.index)));
        fs.push(("from".to_owned(), JsonValue::Str(self.from.clone())));
        fs.push(("amount".to_owned(), JsonValue::Str(self.amount.clone())));
        JsonValue::Obj(fs)
    }
}

#[derive(Debug, PartialEq)]
pub struct AuctionPaginationStart {
    pub vault_id: String,
    pub height: u64,
}

pub open spec fn auction_pagination_start_json(d: AuctionPaginationStart, v: JsonValue) -> bool {
    &&& v matches JsonValue::Obj(fs)
    &&& fs@.len() == 2
    &&& fs@[0].0@ == "vaultId"@
    &&& (fs@[0].1 matches JsonValue::Str(s) && s@ == d.vault_id@)
    &&& fs@[1].0@ == "height"@
    &&& fs@[1].1 == JsonValue::UInt(d.height)
}

impl AuctionPaginationStart {
    pub fn to_json(&self) -> (r: JsonValue)
        ensures
            auction_pagination_start_json(*self, r),
    {
        let mut fs: Vec<(String, JsonValue)> = Vec::new();
        fs.push(("vaultId".to_owned(), JsonValue::Str(self.vault_id.clone())));
        fs.push(("height".to_owned(), JsonValue::UInt(self.height)));
        JsonValue::Obj(fs)
    }
}

#[derive(Debug, PartialEq)]
pub struct AuctionPagination {
    pub start: Option<AuctionPaginationStart>,
    pub including_start: Option<bool>,
    pub limit: Option<u64>,
}

pub open spec fn auction_pagination_json(d: AuctionPagination, v: JsonValue) -> bool {
    &&& v matches JsonValue::Obj(fs)
    &&& fs@.len() == 3
    &&& fs@[0].0@ == "start"@
    &&& (match d.start {
        None => fs@[0].1 is Null,
        Some(st) => auction_pagination_start_json(st, fs@[0].1),
    })
    &&& fs@[1].0@ == "includingStart"@
    &&& opt_bool_json(fs@[1].1, d.including_start)
    &&& fs@[2].0@ == "limit"@
    &&& opt_u64_json(fs@[2].1, d.limit)
}

impl AuctionPagination {
    pub fn to_json(&self) -> (r: JsonValue)
        ensures
            auction_pagination_json(*self, r),
    {
        let start = match &self.start {
            None => JsonValue::Null,
            Some(st) => st.to_json(),
        };
        let mut fs: Vec<(String, JsonValue)> = Vec::new();
        fs.push(("start".to_owned(), start));
        fs.push(("includingStart".to_owned(), jv_of_opt_bool(&self.including_start)));
        fs.push(("limit".to_owned(), jv_of_opt_u64(&self.limit)));
        JsonValue::Obj(fs)
    }
}

#[derive(Debug, PartialEq)]
pub struct ListAuctionHistoryPagination {
    pub max_block_height: Option<u64>,
    pub vault_id: Option<String>,
    pub index: Option<u64>,
    pub limit: Option<u64>,
}

pub open spec fn list_auction_history_pagination_json(
    d: ListAuctionHistoryPagination,
    v: JsonValue,
) -> bool {
    &&& v matches JsonValue::Obj(fs)
    &&& fs@.len() == 4
    &&& fs@[0].0@ == "maxBlockHeight"@
    &&& opt_u64_json(fs@[0].1, d.max_block_height)
    &&& fs@[1].0@ == "vaultId"@
    &&& opt_str_json(fs@[1].1, d.vault_id)
    &&& fs@[2].0@ == "index"@
    &&& opt_u64_json(fs@[2].1, d.index)
    &&& fs@[3].0@ == "limit"@
    &&& opt_u64_json(fs@[3].1, d.limit)
}

impl ListAuctionHistoryPagination {
    pub fn to_json(&self) -> (r: JsonValue)
        ensures
            list_auction_history_pagination_json(*self, r),
    {
        let mut fs: Vec<(String, JsonValue)> = Vec::new();
        fs.push(("maxBlockHeight".to_owned(), jv_of_opt_u64(&self.max_block_height)));
        fs.push(("vaultId".to_owned(), jv_of_opt_str(&self.vault_id)));
        fs.push(("index".to_owned(), jv_of_opt_u64(&self.index)));
        fs.push(("limit".to_owned(), jv_of_opt_u64(&self.limit)));
        JsonValue::Obj(fs)
    }
}

/// Token symbols mapped to their percentage share, kept as an ordered list
/// of pairs.
#[derive(Debug, PartialEq)]
pub struct TokenPercentageSplit(pub Vec<(String, u64)>);

pub open spec fn token_percentage_split_json(d: TokenPercentageSplit, v: JsonValue) -> bool {
    &&& v matches JsonValue::Obj(fs)
    &&& fs@.len() == d.0@.len()
    &&& forall|i: int|
        0 <= i < d.0@.len() ==> (#[trigger] fs@[i]).0@ == d.0@[i].0@ && fs@[i].1
            == JsonValue::UInt(d.0@[i].1)
}

impl TokenPercentageSplit {
    #[verifier::loop_isolation(false)]
    pub fn to_json(&self) -> (r: JsonValue)
        ensures
            token_percentage_split_json(*self, r),
    {
        let n = self.0.len();
        let mut fs: Vec<(String, JsonValue)> = Vec::new();
        let mut i: usize = 0;
        while i < n
            invariant
                n == self.0@.len(),
                i <= n,
                fs@.len() == i,
                forall|j: int|
                    0 <= j < i ==> (#[trigger] fs@[j]).0@ == self.0@[j].0@ && fs@[j].1
                        == JsonValue::UInt(self.0@[j].1),
            decreases n - i,
        {
            fs.push((self.0[i].0.clone(), JsonValue::UInt(self.0[i].1)));
            i += 1;
        }
        JsonValue::Obj(fs)
    }
}

#[derive(Debug, PartialEq)]
pub struct HighestBid {
    pub amount: String,
    pub owner: String,
}

pub open spec fn highest_bid_shaped(v: JsonValue) -> bool {
    &&& field_str(v, "amount"@) is Some
    &&& field_str(v, "owner"@) is Some
}

pub open spec fn highest_bid_fields(d: HighestBid, v: JsonValue) -> bool {
    &&& (field_str(v, "amount"@) matches Some(s) && d.amount@ == s@)
    &&& (field_str(v, "owner"@) matches Some(s) && d.owner@ == s@)
}

impl HighestBid {
    pub fn from_json(v: &JsonValue) -> (r: Option<HighestBid>)
        ensures
            r is Some <==> highest_bid_shaped(*v),
            r matches Some(d) ==> highest_bid_fields(d, *v),
    {
        let amount = match get_str(v, "amount") {
            Some(s) => s,
            None => {
                return None;
            },
        };
        let owner = match get_str(v, "owner") {
            Some(s) => s,
            None => {
                return None;
            },
        };
        Some(HighestBid { amount, owner })
    }
}

#[derive(Debug, PartialEq)]
pub struct VaultLiquidationBatch {
    pub index: u32,
    pub collaterals: Vec<String>,
    pub loan: String,
    pub highest_bid: Option<HighestBid>,
}

pub open spec fn vault_liquidation_batch_shaped(v: JsonValue) -> bool {
    &&& field_u32(v, "index"@) is Some
    &&& (jv_get(v, "collaterals"@) matches Some(x) && str_arr_shaped(x))
    &&& field_str(v, "loan"@) is Some
    &&& (match jv_get(v, "highestBid"@) {
        None => true,
        Some(JsonValue::Null) => true,
        Some(x) => highest_bid_shaped(x),
    })
}

pub open spec fn vault_liquidation_batch_fields(d: VaultLiquidationBatch, v: JsonValue) -> bool {
    &&& field_u32(v, "index"@) == Some(d.index)
    &&& (jv_get(v, "collaterals"@) matches Some(x) && is_str_arr(x, d.collaterals.deep_view()))
    &&& (field_str(v, "loan"@) matches Some(s) && d.loan@ == s@)
    &&& (match jv_get(v, "highestBid"@) {
        None => d.highest_bid is None,
        Some(JsonValue::Null) => d.highest_bid is None,
        Some(x) => (d.highest_bid matches Some(hb) && highest_bid_fields(hb, x)),
    })
}

impl VaultLiquidationBatch {
    pub fn from_json(v: &JsonValue) -> (r: Option<VaultLiquidationBatch>)
        ensures
            r is Some <==> vault_liquidation_batch_shaped(*v),
            r matches Some(d) ==> vault_liquidation_batch_fields(d, *v),
    {
        let index = match get_u32(v, "index") {
            Some(x) => x,
            None => {
                return None;
            },
        };
        let collaterals = match get_str_vec(v, "collaterals") {
            Some(x) => x,
            None => {
                return None;
            },
        };
        let loan = match get_str(v, "loan") {
            Some(x) => x,
            None => {
                return None;
            },
        };
        let highest_bid = match jv_obj_get(v, "highestBid") {
            None => None,
            Some(x) => match x {
                JsonValue::Null => None,
                _ => match HighestBid::from_json(x) {
                    Some(hb) => Some(hb),
                    None => {
                        return None;
                    },
                },
            },
        };
        Some(VaultLiquidationBatch { index, collaterals, loan, highest_bid })
    }
}

pub open spec fn batch_arr_shaped(v: JsonValue) -> bool {
    &&& v matches JsonValue::Arr(items)
    &&& forall|i: int|
        0 <= i < items@.len() ==> vault_liquidation_batch_shaped(#[trigger] items@[i])
}

pub open spec fn batch_arr_fields(ds: Seq<VaultLiquidationBatch>, v: JsonValue) -> bool {
    &&& v matches JsonValue::Arr(items)
    &&& items@.len() == ds.len()
    &&& forall|i: int|
        0 <= i < ds.len() ==> vault_liquidation_batch_fields(ds[i], #[trigger] items@[i])
}

#[verifier::loop_isolation(false)]
pub fn batches_from_json(v: &JsonValue) -> (r: Option<Vec<VaultLiquidationBatch>>)
    ensures
        r is Some <==> batch_arr_shaped(*v),
        r matches Some(ds) ==> batch_arr_fields(ds@, *v),
{
    match v {
        JsonValue::Arr(items) => {
            let n = items.len();
            let mut out: Vec<VaultLiquidationBatch> = Vec::new();
            let mut i: usize = 0;
            while i < n
                invariant
                    n == items@.len(),
                    i <= n,
                    out@.len() == i,
                    forall|j: int|
                        0 <= j < i ==> vault_liquidation_batch_fields(
                            out@[j],
                            #[trigger] items@[j],
                        ),
                    forall|j: int|
                        0 <= j < i ==> vault_liquidation_batch_shaped(#[trigger] items@[j]),
                decreases n - i,
            {
                match VaultLiquidationBatch::from_json(&items[i]) {
                    Some(d) => {
                        out.push(d);
                    },
                    None => {
                        return None;
                    },
                }
                i += 1;
            }
            Some(out)
        },
        _ => None,
    }
}

#[derive(Debug, PartialEq)]
pub struct Vault {
    pub vault_id: String,
    pub loan_scheme_id: String,
    pub owner_address: String,
    pub state: VaultState,
}

pub open spec fn vault_shaped(v: JsonValue) -> bool {
    &&& field_str(v, "vaultId"@) is Some
    &&& field_str(v, "loanSchemeId"@) is Some
    &&& field_str(v, "ownerAddress"@) is Some
    &&& field_str(v, "state"@) is Some
}

pub open spec fn vault_fields(d: Vault, v: JsonValue) -> bool {
    &&& (field_str(v, "vaultId"@) matches Some(s) && d.vault_id@ == s@)
    &&& (field_str(v, "loanSchemeId"@) matches Some(s) && d.loan_scheme_id@ == s@)
    &&& (field_str(v, "ownerAddress"@) matches Some(s) && d.owner_address@ == s@)
    &&& (field_str(v, "state"@) matches Some(t) && d.state == VaultState::spec_from_token(t@))
}

impl Vault {
    pub fn from_json(v: &JsonValue) -> (r: Option<Vault>)
        ensures
            r is Some <==> vault_shaped(*v),
            r matches Some(d) ==> vault_fields(d, *v),
    {
        let vault_id = match get_str(v, "vaultId") {
            Some(s) => s,
            None => {
                return None;
            },
        };
        let loan_scheme_id = match get_str(v, "loanSchemeId") {
            Some(s) => s,
            None => {
                return None;
            },
        };
        let owner_address = match get_str(v, "ownerAddress") {
            Some(s) => s,
            None => {
                return None;
            },
        };
        let state_tok = match get_str(v, "state") {
            Some(s) => s,
            None => {
                return None;
            },
        };
        let state = VaultState::from_wire_token(state_tok.as_str());
        Some(Vault { vault_id, loan_scheme_id, owner_address, state })
    }
}

/// A vault not in liquidation, as the node reports it verbosely.  Monetary
/// magnitudes that the node sends as JSON numbers are kept as their decimal
/// text, so no precision is lost.
#[derive(Debug, PartialEq)]
pub struct VaultActive {
    pub vault_id: String,
    pub loan_scheme_id: String,
    pub owner_address: String,
    pub state: VaultState,
    pub collateral_amounts: Vec<String>,
    pub loan_amounts: Vec<String>,
    pub interest_amounts: Vec<String>,
    pub collateral_value: String,
    pub loan_value: String,
    pub interest_value: String,
    pub collateral_ratio: i64,
    pub informative_ratio: String,
    pub next_collateral_ratio: Option<i64>,
    pub interest_per_block_value: Option<String>,
    pub interests_per_block: Option<Vec<String>>,
}

pub open spec fn vault_active_shaped(v: JsonValue) -> bool {
    &&& field_str(v, "vaultId"@) is Some
    &&& field_str(v, "loanSchemeId"@) is Some
    &&& field_str(v, "ownerAddress"@) is Some
    &&& field_str(v, "state"@) is Some
    &&& (jv_get(v, "collateralAmounts"@) matches Some(x) && str_arr_shaped(x))
    &&& (jv_get(v, "loanAmounts"@) matches Some(x) && str_arr_shaped(x))
    &&& (jv_get(v, "interestAmounts"@) matches Some(x) && str_arr_shaped(x))
    &&& field_numtext(v, "collateralValue"@) is Some
    &&& field_numtext(v, "loanValue"@) is Some
    &&& field_numtext(v, "interestValue"@) is Some
    &&& field_i64(v, "collateralRatio"@) is Some
    &&& field_numtext(v, "informativeRatio"@) is Some
    &&& opt_field_i64(v, "nextCollateralRatio"@) is Some
    &&& opt_field_str(v, "interestPerBlockValue"@) is Some
    &&& crate::value::opt_strvec_ok(v, "interestsPerBlock"@)
}

pub open spec fn vault_active_fields(d: VaultActive, v: JsonValue) -> bool {
    &&& (field_str(v, "vaultId"@) matches Some(s) && d.vault_id@ == s@)
    &&& (field_str(v, "loanSchemeId"@) matches Some(s) && d.loan_scheme_id@ == s@)
    &&& (field_str(v, "ownerAddress"@) matches Some(s) && d.owner_address@ == s@)
    &&& (field_str(v, "state"@) matches Some(t) && d.state == VaultState::spec_from_token(t@))
    &&& (jv_get(v, "collateralAmounts"@) matches Some(x) && is_str_arr(
        x,
        d.collateral_amounts.deep_view(),
    ))
    &&& (jv_get(v, "loanAmounts"@) matches Some(x) && is_str_arr(x, d.loan_amounts.deep_view()))
    &&& (jv_get(v, "interestAmounts"@) matches Some(x) && is_str_arr(
        x,
        d.interest_amounts.deep_view(),
    ))
    &&& field_numtext(v, "collateralValue"@) == Some(d.collateral_value@)
    &&& field_numtext(v, "loanValue"@) == Some(d.loan_value@)
    &&& field_numtext(v, "interestValue"@) == Some(d.interest_value@)
    &&& field_i64(v, "collateralRatio"@) == Some(d.collateral_ratio)
    &&& field_numtext(v, "informativeRatio"@) == Some(d.informative_ratio@)
    &&& opt_field_i64(v, "nextCollateralRatio"@) == Some(d.next_collateral_ratio)
    &&& (opt_field_str(v, "interestPerBlockValue"@) matches Some(o) && opt_str_eq(
        d.interest_per_block_value,
        o,
    ))
    &&& crate::value::opt_strvec_val(
        v,
        "interestsPerBlock"@,
        match d.interests_per_block {
            None => None,
            Some(ss) => Some(ss.deep_view()),
        },
    )
}

impl VaultActive {
    pub fn from_json(v: &JsonValue) -> (r: Option<VaultActive>)
        ensures
            r is Some <==> vault_active_shaped(*v),
            r matches Some(d) ==> vault_active_fields(d, *v),
    {
        let vault_id = match get_str(v, "vaultId") {
            Some(s) => s,
            None => {
                return None;
            },
        };
        let loan_scheme_id = match get_str(v, "loanSchemeId") {
            Some(s) => s,
            None => {
                return None;
            },
        };
        let owner_address = match get_str(v, "ownerAddress") {
            Some(s) => s,
            None => {
                return None;
            },
        };
        let state_tok = match get_str(v, "state") {
            Some(s) => s,
            None => {
                return None;
            },
        };
        let collateral_amounts = match get_str_vec(v, "collateralAmounts") {
            Some(x) => x,
            None => {
                return None;
            },
        };
        let loan_amounts = match get_str_vec(v, "loanAmounts") {
            Some(x) => x,
            None => {
                return None;
            },
        };
        let interest_amounts = match get_str_vec(v, "interestAmounts") {
            Some(x) => x,
            None => {
                return None;
            },
        };
        let collateral_value = match get_numtext(v, "collateralValue") {
            Some(x) => x,
            None => {
                return None;
            },
        };
        let loan_value = match get_numtext(v, "loanValue") {
            Some(x) => x,
            None => {
                return None;
            },
        };
        let interest_value = match get_numtext(v, "interestValue") {
            Some(x) => x,
            None => {
                return None;
            },
        };
        let collateral_ratio = match get_i64(v, "collateralRatio") {
            Some(x) => x,
            None => {
                return None;
            },
        };
        let informative_ratio = match get_numtext(v, "informativeRatio") {
            Some(x) => x,
            None => {
                return None;
            },
        };
        let next_collateral_ratio = match get_opt_i64(v, "nextCollateralRatio") {
            Some(x) => x,
            None => {
                return None;
            },
        };
        let interest_per_block_value = match get_opt_str(v, "interestPerBlockValue") {
            Some(x) => x,
            None => {
                return None;
            },
        };
        let interests_per_block = match crate::value::get_opt_str_vec(v, "interestsPerBlock") {
            Some(x) => x,
            None => {
                return None;
            },
        };
        Some(
            VaultActive {
                vault_id,
                loan_scheme_id,
                owner_address,
                state: VaultState::from_wire_token(state_tok.as_str()),
                collateral_amounts,
                loan_amounts,
                interest_amounts,
                collateral_value,
                loan_value,
                interest_value,
                collateral_ratio,
                informative_ratio,
                next_collateral_ratio,
                interest_per_block_value,
                interests_per_block,
            },
        )
    }
}

/// A vault under liquidation.  When the node omits the state field, it is
/// taken as `InLiquidation`.
#[derive(Debug, PartialEq)]
pub struct VaultLiquidation {
    pub vault_id: String,
    pub loan_scheme_id: String,
    pub owner_address: String,
    pub state: VaultState,
    pub liquidation_height: u64,
    pub liquidation_penalty: String,
    pub batch_count: u64,
    pub batches: Vec<VaultLiquidationBatch>,
}

pub open spec fn vault_liquidation_shaped(v: JsonValue) -> bool {
    &&& field_str(v, "vaultId"@) is Some
    &&& field_str(v, "loanSchemeId"@) is Some
    &&& field_str(v, "ownerAddress"@) is Some
    &&& (match jv_get(v, "state"@) {
        None => true,
        Some(x) => x is Str,
    })
    &&& field_u64(v, "liquidationHeight"@) is Some
    &&& field_numtext(v, "liquidationPenalty"@) is Some
    &&& field_u64(v, "batchCount"@) is Some
    &&& (jv_get(v, "batches"@) matches Some(x) && batch_arr_shaped(x))
}

pub open spec fn vault_liquidation_fields(d: VaultLiquidation, v: JsonValue) -> bool {
    &&& (field_str(v, "vaultId"@) matches Some(s) && d.vault_id@ == s@)
    &&& (field_str(v, "loanSchemeId"@) matches Some(s) && d.loan_scheme_id@ == s@)
    &&& (field_str(v, "ownerAddress"@) matches Some(s) && d.owner_address@ == s@)
    &&& (match jv_get(v, "state"@) {
        None => d.state == VaultState::InLiquidation,
        Some(x) => (jv_str_of(x) matches Some(t) && d.state == VaultState::spec_from_token(t@)),
    })
    &&& field_u64(v, "liquidationHeight"@) == Some(d.liquidation_height)
    &&& field_numtext(v, "liquidationPenalty"@) == Some(d.liquidation_penalty@)
    &&& field_u64(v, "batchCount"@) == Some(d.batch_count)
    &&& (jv_get(v, "batches"@) matches Some(x) && batch_arr_fields(d.batches@, x))
}

impl VaultLiquidation {
    pub fn from_json(v: &JsonValue) -> (r: Option<VaultLiquidation>)
        ensures
            r is Some <==> vault_liquidation_shaped(*v),
            r matches Some(d) ==> vault_liquidation_fields(d, *v),
    {
        let vault_id = match get_str(v, "vaultId") {
            Some(s) => s,
            None => {
                return None;
            },
        };
        let loan_scheme_id = match get_str(v, "loanSchemeId") {
            Some(s) => s,
            None => {
                return None;
            },
        };
        let owner_address = match get_str(v, "ownerAddress") {
            Some(s) => s,
            None => {
                return None;
            },
        };
        let state = match jv_obj_get(v, "state") {
            None => VaultState::InLiquidation,
            Some(x) => match x {
                JsonValue::Str(s) => VaultState::from_wire_token(s.as_str()),
                _ => {
                    return None;
                },
            },
        };
        let liquidation_height = match get_u64(v, "liquidationHeight") {
            Some(x) => x,
            None => {
                return None;
            },
        };
        let liquidation_penalty = match get_numtext(v, "liquidationPenalty") {
            Some(x) => x,
            None => {
                return None;
            },
        };
        let batch_count = match get_u64(v, "batchCount") {
            Some(x) => x,
            None => {
                return None;
            },
        };
        let batches = match jv_obj_get(v, "batches") {
            Some(x) => match batches_from_json(x) {
                Some(bs) => bs,
                None => {
                    return None;
                },
            },
            None => {
                return None;
            },
        };
        Some(
            VaultLiquidation {
                vault_id,
                loan_scheme_id,
                owner_address,
                state,
                liquidation_height,
                liquidation_penalty,
                batch_count,
                batches,
            },
        )
    }
}

#[derive(Debug, PartialEq)]
pub struct ListAuctionHistoryDetail {
    pub winner: String,
    pub block_height: u64,
    pub block_hash: String,
    pub block_time: u64,
    pub vault_id: String,
    pub batch_index: u64,
    pub auction_bid: String,
    pub auction_won: Vec<String>,
}

pub open spec fn list_auction_history_detail_shaped(v: JsonValue) -> bool {
    &&& field_str(v, "winner"@) is Some
    &&& field_u64(v, "blockHeight"@) is Some
    &&& field_str(v, "blockHash"@) is Some
    &&& field_u64(v, "blockTime"@) is Some
    &&& field_str(v, "vaultId"@) is Some
    &&& field_u64(v, "batchIndex"@) is Some
    &&& field_str(v, "auctionBid"@) is Some
    &&& (jv_get(v, "auctionWon"@) matches Some(x) && str_arr_shaped(x))
}

pub open spec fn list_auction_history_detail_fields(
    d: ListAuctionHistoryDetail,
    v: JsonValue,
) -> bool {
    &&& (field_str(v, "winner"@) matches Some(s) && d.winner@ == s@)
    &&& field_u64(v, "blockHeight"@) == Some(d.block_height)
    &&& (field_str(v, "blockHash"@) matches Some(s) && d.block_hash@ == s@)
    &&& field_u64(v, "blockTime"@) == Some(d.block_time)
    &&& (field_str(v, "vaultId"@) matches Some(s) && d.vault_id@ == s@)
    &&& field_u64(v, "batchIndex"@) == Some(d.batch_index)
    &&& (field_str(v, "auctionBid"@) matches Some(s) && d.auction_bid@ == s@)
    &&& (jv_get(v, "auctionWon"@) matches Some(x) && is_str_arr(x, d.auction_won.deep_view()))
}

impl ListAuctionHistoryDetail {
    pub fn from_json(v: &JsonValue) -> (r: Option<ListAuctionHistoryDetail>)
        ensures
            r is Some <==> list_auction_history_detail_shaped(*v),
            r matches Some(d) ==> list_auction_history_detail_fields(d, *v),
    {
        let winner = match get_str(v, "winner") {
            Some(s) => s,
            None => {
                return None;
            },
        };
        let block_height = match get_u64(v, "blockHeight") {
            Some(x) => x,
            None => {
                return None;
            },
        };
        let block_hash = match get_str(v, "blockHash") {
            Some(s) => s,
            None => {
                return None;
            },
        };
        let block_time = match get_u64(v, "blockTime") {
            Some(x) => x,
            None => {
                return None;
            },
        };
        let vault_id = match get_str(v, "vaultId") {
            Some(s) => s,
            None => {
                return None;
            },
        };
        let batch_index = match get_u64(v, "batchIndex") {
            Some(x) => x,
            None => {
                return None;
            },
        };
        let auction_bid = match get_str(v, "auctionBid") {
            Some(s) => s,
            None => {
                return None;
            },
        };
        let auction_won = match get_str_vec(v, "auctionWon") {
            Some(x) => x,
            None => {
                return None;
            },
        };
        Some(
            ListAuctionHistoryDetail {
                winner,
                block_height,
                block_hash,
                block_time,
                vault_id,
                batch_index,
                auction_bid,
                auction_won,
            },
        )
    }
}

#[derive(Debug, PartialEq)]
pub struct VaultEstimation {
    pub collateral_value: i64,
    pub loan_value: i64,
    pub informative_ratio: i64,
    pub collateral_ratio: u64,
}

pub open spec fn vault_estimation_shaped(v: JsonValue) -> bool {
    &&& field_i64(v, "collateralValue"@) is Some
    &&& field_i64(v, "loanValue"@) is Some
    &&& field_i64(v, "informativeRatio"@) is Some
    &&& field_u64(v, "collateralRatio"@) is Some
}

pub open spec fn vault_estimation_fields(d: VaultEstimation, v: JsonValue) -> bool {
    &&& field_i64(v, "collateralValue"@) == Some(d.collateral_value)
    &&& field_i64(v, "loanValue"@) == Some(d.loan_value)
    &&& field_i64(v, "informativeRatio"@) == Some(d.informative_ratio)
    &&& field_u64(v, "collateralRatio"@) == Some(d.collateral_ratio)
}

impl VaultEstimation {
    pub fn from_json(v: &JsonValue) -> (r: Option<VaultEstimation>)
        ensures
            r is Some <==> vault_estimation_shaped(*v),
            r matches Some(d) ==> vault_estimation_fields(d, *v),
    {
        let collateral_value = match get_i64(v, "collateralValue") {
            Some(x) => x,
            None => {
                return None;
            },
        };
        let loan_value = match get_i64(v, "loanValue") {
            Some(x) => x,
            None => {
                return None;
            },
        };
        let informative_ratio = match get_i64(v, "informativeRatio") {
            Some(x) => x,
            None => {
                return None;
            },
        };
        let collateral_ratio = match get_u64(v, "collateralRatio") {
            Some(x) => x,
            None => {
                return None;
            },
        };
        Some(VaultEstimation { collateral_value, loan_value, informative_ratio, collateral_ratio })
    }
}

/// A verbose vault listing entry: either an active vault or one in
/// liquidation.  The wire payload carries no tag, so the more structured
/// active shape is tried first.
#[derive(Debug, PartialEq)]
pub enum VaultResult {
    VaultActive(VaultActive),
    VaultLiquidation(VaultLiquidation),
}

pub open spec fn vault_result_shaped(v: JsonValue) -> bool {
    vault_active_shaped(v) || vault_liquidation_shaped(v)
}

impl VaultResult {
    /// Decode with fixed precedence: a payload that matches the active
    /// shape never decodes as a liquidation.
    pub fn from_json(v: &JsonValue) -> (r: Option<VaultResult>)
        ensures
            r is Some <==> vault_result_shaped(*v),
            vault_active_shaped(*v) ==> (r matches Some(d) && d is VaultActive),
            r matches Some(d) ==> match d {
                VaultResult::VaultActive(a) => vault_active_fields(a, *v),
                VaultResult::VaultLiquidation(l) => (vault_liquidation_fields(l, *v)
                    && !vault_active_shaped(*v)),
            },
    {
        match VaultActive::from_json(v) {
            Some(a) => Some(VaultResult::VaultActive(a)),
            None => match VaultLiquidation::from_json(v) {
                Some(l) => Some(VaultResult::VaultLiquidation(l)),
                None => None,
            },
        }
    }
}


pub open spec fn create_vault_shaped(v: JsonValue) -> bool {
    &&& field_str(v, "ownerAddress"@) is Some
    &&& opt_field_str(v, "loanSchemeId"@) is Some
}

pub open spec fn create_vault_fields(d: CreateVault, v: JsonValue) -> bool {
    &&& (field_str(v, "ownerAddress"@) matches Some(s) && d.owner_address@ == s@)
    &&& (opt_field_str(v, "loanSchemeId"@) matches Some(o) && opt_str_eq(d.loan_scheme_id, o))
}

impl CreateVault {
    pub fn from_json(v: &JsonValue) -> (r: Option<CreateVault>)
        ensures
            r is Some <==> create_vault_shaped(*v),
            r matches Some(d) ==> create_vault_fields(d, *v),
    {
        let owner_address = match crate::value::get_str(v, "ownerAddress") {
            Some(s) => s,
            None => {
                return None;
            },
        };
        let loan_scheme_id = match crate::value::get_opt_str(v, "loanSchemeId") {
            Some(x) => x,
            None => {
                return None;
            },
        };
        Some(CreateVault { owner_address, loan_scheme_id })
    }
}

/// What a vault-creation request encodes as satisfies its own decoder, and
/// anything decoded from it carries the original values field for field.
pub proof fn lemma_create_vault_round_trip(d: CreateVault, v: JsonValue, d2: CreateVault)
    requires
        create_vault_json(d, v),
        create_vault_fields(d2, v),
    ensures
        d2.owner_address@ == d.owner_address@,
        opt_str_eq(d2.loan_scheme_id, d.loan_scheme_id),
{
    lemma_create_vault_encode_shaped(d, v);
}

/// The encoded form of a vault-creation request always decodes.
pub proof fn lemma_create_vault_encode_shaped(d: CreateVault, v: JsonValue)
    requires
        create_vault_json(d, v),
    ensures
        create_vault_shaped(v),
        create_vault_fields(d, v),
{
    reveal_strlit("ownerAddress");
    reveal_strlit("loanSchemeId");
    let fs = v->Obj_0;
    assert("ownerAddress"@.len() == 12);
    assert("loanSchemeId"@.len() == 12);
    assert("ownerAddress"@[0] == 'o');
    assert("loanSchemeId"@[0] == 'l');
    crate::value::lemma_obj_get_at(fs@, "ownerAddress"@, 0);
    crate::value::lemma_obj_get_at(fs@, "loanSchemeId"@, 1);
}

pub open spec fn deposit_vault_shaped(v: JsonValue) -> bool {
    &&& field_str(v, "vaultId"@) is Some
    &&& field_str(v, "from"@) is Some
    &&& field_str(v, "amount"@) is Some
}

pub open spec fn deposit_vault_fields(d: DepositVault, v: JsonValue) -> bool {
    &&& (field_str(v, "vaultId"@) matches Some(s) && d.vault_id@ == s@)
    &&& (field_str(v, "from"@) matches Some(s) && d.from@ == s@)
    &&& (field_str(v, "amount"@) matches Some(s) && d.amount@ == s@)
}

impl DepositVault {
    pub fn from_json(v: &JsonValue) -> (r: Option<DepositVault>)
        ensures
            r is Some <==> deposit_vault_shaped(*v),
            r matches Some(d) ==> deposit_vault_fields(d, *v),
    {
        let vault_id = match crate::value::get_str(v, "vaultId") {
            Some(s) => s,
            None => {
                return None;
            },
        };
        let from = match crate::value::get_str(v, "from") {
            Some(s) => s,
            None => {
                return None;
            },
        };
        let amount = match crate::value::get_str(v, "amount") {
            Some(s) => s,
            None => {
                return None;
            },
        };
        Some(DepositVault { vault_id, from, amount })
    }
}

/// What a deposit request encodes as satisfies its own decoder, and
/// anything decoded from it carries the original values field for field.
pub proof fn lemma_deposit_vault_round_trip(d: DepositVault, v: JsonValue, d2: DepositVault)
    requires
        deposit_vault_json(d, v),
        deposit_vault_fields(d2, v),
    ensures
        d2.vault_id@ == d.vault_id@,
        d2.from@ == d.from@,
        d2.amount@ == d.amount@,
{
    lemma_deposit_vault_encode_shaped(d, v);
}

/// The encoded form of a deposit request always decodes.
pub proof fn lemma_deposit_vault_encode_shaped(d: DepositVault, v: JsonValue)
    requires
        deposit_vault_json(d, v),
    ensures
        deposit_vault_shaped(v),
        deposit_vault_fields(d, v),
{
    reveal_strlit("vaultId");
    reveal_strlit("from");
    reveal_strlit("amount");
    let fs = v->Obj_0;
    assert("vaultId"@.len() == 7);
    assert("from"@.len() == 4);
    assert("amount"@.len() == 6);
    crate::value::lemma_obj_get_at(fs@, "vaultId"@, 0);
    crate::value::lemma_obj_get_at(fs@, "from"@, 1);
    crate::value::lemma_obj_get_at(fs@, "amount"@, 2);
}


pub open spec fn vault_result_arr_shaped(v: JsonValue) -> bool {
    &&& v matches JsonValue::Arr(items)
    &&& forall|i: int| 0 <= i < items@.len() ==> vault_result_shaped(#[trigger] items@[i])
}

/// Each entry decodes with the same precedence as a single vault result.
pub open spec fn vault_result_arr_fields(ds: Seq<VaultResult>, v: JsonValue) -> bool {
    &&& v matches JsonValue::Arr(items)
    &&& items@.len() == ds.len()
    &&& forall|i: int|
        0 <= i < ds.len() ==> match ds[i] {
            VaultResult::VaultActive(a) => vault_active_fields(a, #[trigger] items@[i]),
            VaultResult::VaultLiquidation(l) => (vault_liquidation_fields(l, items@[i])
                && !vault_active_shaped(items@[i])),
        }
}

#[verifier::loop_isolation(false)]
pub fn vault_results_from_json(v: &JsonValue) -> (r: Option<Vec<VaultResult>>)
    ensures
        r is Some <==> vault_result_arr_shaped(*v),
        r matches Some(ds) ==> vault_result_arr_fields(ds@, *v),
{
    match v {
        JsonValue::Arr(items) => {
            let n = items.len();
            let mut out: Vec<VaultResult> = Vec::new();
            let mut i: usize = 0;
            while i < n
                invariant
                    n == items@.len(),
                    i <= n,
                    out@.len() == i,
                    forall|j: int|
                        0 <= j < i ==> match out@[j] {
                            VaultResult::VaultActive(a) => vault_active_fields(
                                a,
                                #[trigger] items@[j],
                            ),
                            VaultResult::VaultLiquidation(l) => (vault_liquidation_fields(
                                l,
                                items@[j],
                            ) && !vault_active_shaped(items@[j])),
                        },
                    forall|j: int| 0 <= j < i ==> vault_result_shaped(#[trigger] items@[j]),
                decreases n - i,
            {
                match VaultResult::from_json(&items[i]) {
                    Some(d) => {
                        out.push(d);
                    },
                    None => {
                        return None;
                    },
                }
                i += 1;
            }
            Some(out)
        },
        _ => None,
    }
}

} // verus!
