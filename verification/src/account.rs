//! Account balances, histories and transfers.

use vstd::prelude::*;

use crate::common::{opt_utxo_vec_json, UTXO};
use crate::value::{
    field_i64, field_str, field_u64, get_i64, get_opt_i64, get_opt_str, get_opt_u64, get_str,
    get_str_vec, get_u64, is_str_arr, is_strvec_map, jv_get, jv_of_opt_bool, jv_of_opt_char,
    jv_of_opt_char_vec, jv_of_opt_str, jv_of_opt_u32, jv_of_opt_u64, json_to_str_vec,
    opt_bool_json, opt_char_json, opt_charvec_json, opt_field_i64, opt_field_str, opt_field_u64,
    opt_str_eq, opt_str_json, opt_u32_json, opt_u64_json, str_arr_shaped, str_eq,
    strvec_map_to_json, JsonValue,
};

verus! {

#[derive(Debug, PartialEq, Eq, Structural, Clone, Copy)]
pub enum OwnerType {
    Mine,
    All,
}

impl OwnerType {
    pub open spec fn spec_token(self) -> Seq<char> {
        match self {
            OwnerType::Mine => "mine"@,
            OwnerType::All => "all"@,
        }
    }

    pub open spec fn spec_from_token(s: Seq<char>) -> Option<OwnerType> {
        if s == "mine"@ {
            Some(OwnerType::Mine)
        } else if s == "all"@ {
            Some(OwnerType::All)
        } else {
            None
        }
    }

    pub fn wire_token(&self) -> (r: String)
        ensures
            r@ == self.spec_token(),
    {
        match self {
            OwnerType::Mine => "mine".to_owned(),
            OwnerType::All => "all".to_owned(),
        }
    }

    pub fn from_wire_token(s: &str) -> (r: Option<OwnerType>)
        ensures
            r == OwnerType::spec_from_token(s@),
    {
        if str_eq(s, "mine") {
            Some(OwnerType::Mine)
        } else if str_eq(s, "all") {
            Some(OwnerType::All)
        } else {
            None
        }
    }
}

/// Each owner filter decodes back from exactly its own token.
pub proof fn lemma_owner_type_round_trip(x: OwnerType)
    ensures
        OwnerType::spec_from_token(x.spec_token()) == Some(x),
{
    reveal_strlit("mine");
    reveal_strlit("all");
    assert("mine"@.len() == 4);
    assert("all"@.len() == 3);
}

#[derive(Debug, PartialEq, Eq, Structural, Clone, Copy)]
pub enum Format {
    Id,
    Symbol,
}

impl Format {
    pub open spec fn spec_token(self) -> Seq<char> {
        match self {
            Format::Id => "id"@,
            Format::Symbol => "symbol"@,
        }
    }

    pub open spec fn spec_from_token(s: Seq<char>) -> Option<Format> {
        if s == "id"@ {
            Some(Format::Id)
        } else if s == "symbol"@ {
            Some(Format::Symbol)
        } else {
            None
        }
    }

    pub fn wire_token(&self) -> (r: String)
        ensures
            r@ == self.spec_token(),
    {
        match self {
            Format::Id => "id".to_owned(),
            Format::Symbol => "symbol".to_owned(),
        }
    }

    pub fn from_wire_token(s: &str) -> (r: Option<Format>)
        ensures
            r == Format::spec_from_token(s@),
    {
        if str_eq(s, "id") {
            Some(Format::Id)
        } else if str_eq(s, "symbol") {
            Some(Format::Symbol)
        } else {
            None
        }
    }
}

/// Each amount format decodes back from exactly its own token.
pub proof fn lemma_format_round_trip(x: Format)
    ensures
        Format::spec_from_token(x.spec_token()) == Some(x),
{
    reveal_strlit("id");
    reveal_strlit("symbol");
    assert("id"@.len() == 2);
    assert("symbol"@.len() == 6);
}

#[derive(Debug, PartialEq, Eq, Structural, Clone, Copy)]
pub enum SelectionModeType {
    Pie,
    Crumbs,
    Forward,
}

impl SelectionModeType {
    pub open spec fn spec_token(self) -> Seq<char> {
        match self {
            SelectionModeType::Pie => "pie"@,
            SelectionModeType::Crumbs => "crumbs"@,
            SelectionModeType::Forward => "forward"@,
        }
    }

    pub open spec fn spec_from_token(s: Seq<char>) -> Option<SelectionModeType> {
        if s == "pie"@ {
            Some(SelectionModeType::Pie)
        } else if s == "crumbs"@ {
            Some(SelectionModeType::Crumbs)
        } else if s == "forward"@ {
            Some(SelectionModeType::Forward)
        } else {
            None
        }
    }

    pub fn wire_token(&self) -> (r: String)
        ensures
            r@ == self.spec_token(),
    {
        match self {
            SelectionModeType::Pie => "pie".to_owned(),
            SelectionModeType::Crumbs => "crumbs".to_owned(),
            SelectionModeType::Forward => "forward".to_owned(),
        }
    }

    pub fn from_wire_token(s: &str) -> (r: Option<SelectionModeType>)
        ensures
            r == SelectionModeType::spec_from_token(s@),
    {
        if str_eq(s, "pie") {
            Some(SelectionModeType::Pie)
        } else if str_eq(s, "crumbs") {
            Some(SelectionModeType::Crumbs)
        } else if str_eq(s, "forward") {
            Some(SelectionModeType::Forward)
        } else {
            None
        }
    }
}

/// Each selection mode decodes back from exactly its own token.
pub proof fn lemma_selection_mode_round_trip(x: SelectionModeType)
    ensures
        SelectionModeType::spec_from_token(x.spec_token()) == Some(x),
{
    reveal_strlit("pie");
    reveal_strlit("crumbs");
    reveal_strlit("forward");
    assert("pie"@.len() == 3);
    assert("crumbs"@.len() == 6);
    assert("forward"@.len() == 7);
}

#[derive(Debug, PartialEq, Eq, Structural, Clone, Copy)]
pub enum TransferDomainType {
    NoDomain,
    Utxo,
    Dvm,
    Evm,
}

impl TransferDomainType {
    pub open spec fn spec_token(self) -> Seq<char> {
        match self {
            TransferDomainType::NoDomain => "None"@,
            TransferDomainType::Utxo => "Utxo"@,
            TransferDomainType::Dvm => "Dvm"@,
            TransferDomainType::Evm => "Evm"@,
        }
    }

    pub open spec fn spec_from_token(s: Seq<char>) -> Option<TransferDomainType> {
        if s == "None"@ {
            Some(TransferDomainType::NoDomain)
        } else if s == "Utxo"@ {
            Some(TransferDomainType::Utxo)
        } else if s == "Dvm"@ {
            Some(TransferDomainType::Dvm)
        } else if s == "Evm"@ {
            Some(TransferDomainType::Evm)
        } else {
            None
        }
    }

    pub fn wire_token(&self) -> (r: String)
        ensures
            r@ == self.spec_token(),
    {
        match self {
            TransferDomainType::NoDomain => "None".to_owned(),
            TransferDomainType::Utxo => "Utxo".to_owned(),
            TransferDomainType::Dvm => "Dvm".to_owned(),
            TransferDomainType::Evm => "Evm".to_owned(),
        }
    }

    pub fn from_wire_token(s: &str) -> (r: Option<TransferDomainType>)
        ensures
            r == TransferDomainType::spec_from_token(s@),
    {
        if str_eq(s, "None") {
            Some(TransferDomainType::NoDomain)
        } else if str_eq(s, "Utxo") {
            Some(TransferDomainType::Utxo)
        } else if str_eq(s, "Dvm") {
            Some(TransferDomainType::Dvm)
        } else if str_eq(s, "Evm") {
            Some(TransferDomainType::Evm)
        } else {
            None
        }
    }
}

/// Each transfer domain decodes back from exactly its own token.
pub proof fn lemma_transfer_domain_round_trip(x: TransferDomainType)
    ensures
        TransferDomainType::spec_from_token(x.spec_token()) == Some(x),
{
    reveal_strlit("None");
    reveal_strlit("Utxo");
    reveal_strlit("Dvm");
    reveal_strlit("Evm");
    assert("None"@.len() == 4);
    assert("Utxo"@.len() == 4);
    assert("Dvm"@.len() == 3);
    assert("Evm"@.len() == 3);
    assert("None"@[0] == 'N');
    assert("Utxo"@[0] == 'U');
    assert("Dvm"@[0] == 'D');
    assert("Evm"@[0] == 'E');
}

#[derive(Debug, PartialEq)]
pub struct ListAccountsPagination {
    pub start: Option<String>,
    pub including_start: Option<bool>,
    pub limit: Option<u64>,
}

pub open spec fn list_accounts_pagination_json(d: ListAccountsPagination, v: JsonValue) -> bool {
    &&& v matches JsonValue::Obj(fs)
    &&& fs@.len() == 3
    &&& fs@[0].0@ == "start"@
    &&& opt_str_json(fs@[0].1, d.start)
    &&& fs@[1].0@ == "including_start"@
    &&& opt_bool_json(fs@[1].1, d.including_start)
    &&& fs@[2].0@ == "limit"@
    &&& opt_u64_json(fs@[2].1, d.limit)
}

impl ListAccountsPagination {
    pub fn new(start: Option<String>, including_start: Option<bool>, limit: Option<u64>) -> (r:
        Self)
        ensures
            r.start == start,
            r.including_start == including_start,
            r.limit == limit,
    {
        Self { start, including_start, limit }
    }

    pub fn to_json(&self) -> (r: JsonValue)
        ensures
            list_accounts_pagination_json(*self, r),
    {
        let mut fs: Vec<(String, JsonValue)> = Vec::new();
        fs.push(("start".to_owned(), jv_of_opt_str(&self.start)));
        fs.push(("including_start".to_owned(), jv_of_opt_bool(&self.including_start)));
        fs.push(("limit".to_owned(), jv_of_opt_u64(&self.limit)));
        JsonValue::Obj(fs)
    }
}

#[derive(Debug, PartialEq)]
pub struct GetAccountPagination {
    pub start: Option<u32>,
    pub including_start: Option<bool>,
    pub limit: Option<u64>,
}

pub open spec fn get_account_pagination_json(d: GetAccountPagination, v: JsonValue) -> bool {
    &&& v matches JsonValue::Obj(fs)
    &&& fs@.len() == 3
    &&& fs@[0].0@ == "start"@
    &&& opt_u32_json(fs@[0].1, d.start)
    &&& fs@[1].0@ == "including_start"@
    &&& opt_bool_json(fs@[1].1, d.including_start)
    &&& fs@[2].0@ == "limit"@
    &&& opt_u64_json(fs@[2].1, d.limit)
}

impl GetAccountPagination {
    pub fn to_json(&self) -> (r: JsonValue)
        ensures
            get_account_pagination_json(*self, r),
    {
        let mut fs: Vec<(String, JsonValue)> = Vec::new();
        fs.push(("start".to_owned(), jv_of_opt_u32(&self.start)));
        fs.push(("including_start".to_owned(), jv_of_opt_bool(&self.including_start)));
        fs.push(("limit".to_owned(), jv_of_opt_u64(&self.limit)));
        JsonValue::Obj(fs)
    }
}

/// One entry of an account listing, generic in how the owner and the
/// amount are reported.
#[derive(Debug, PartialEq)]
pub struct AccountsResult<T, U> {
    pub key: String,
    pub owner: T,
    pub amount: U,
}

#[derive(Debug, PartialEq)]
pub struct AccountsResultOwner {
    pub script_asm: String,
    pub hex: String,
    pub req_sigs: Option<u64>,
    pub kind: String,
    pub addresses: Option<Vec<String>>,
}

pub open spec fn accounts_result_owner_shaped(v: JsonValue) -> bool {
    &&& field_str(v, "asm"@) is Some
    &&& field_str(v, "hex"@) is Some
    &&& opt_field_u64(v, "reqSigs"@) is Some
    &&& field_str(v, "type"@) is Some
    &&& crate::value::opt_strvec_ok(v, "addresses"@)
}

pub open spec fn accounts_result_owner_fields(d: AccountsResultOwner, v: JsonValue) -> bool {
    &&& (field_str(v, "asm"@) matches Some(s) && d.script_asm@ == s@)
    &&& (field_str(v, "hex"@) matches Some(s) && d.hex@ == s@)
    &&& opt_field_u64(v, "reqSigs"@) == Some(d.req_sigs)
    &&& (field_str(v, "type"@) matches Some(s) && d.kind@ == s@)
    &&& crate::value::opt_strvec_val(
        v,
        "addresses"@,
        match d.addresses {
            None => None,
            Some(ss) => Some(ss.deep_view()),
        },
    )
}

impl AccountsResultOwner {
    pub fn from_json(v: &JsonValue) -> (r: Option<AccountsResultOwner>)
        ensures
            r is Some <==> accounts_result_owner_shaped(*v),
            r matches Some(d) ==> accounts_result_owner_fields(d, *v),
    {
        let script_asm = match get_str(v, "asm") {
            Some(s) => s,
            None => {
                return None;
            },
        };
        let hex = match get_str(v, "hex") {
            Some(s) => s,
            None => {
                return None;
            },
        };
        let req_sigs = match get_opt_u64(v, "reqSigs") {
            Some(x) => x,
            None => {
                return None;
            },
        };
        let kind = match get_str(v, "type") {
            Some(s) => s,
            None => {
                return None;
            },
        };
        let addresses = match crate::value::get_opt_str_vec(v, "addresses") {
            Some(x) => x,
            None => {
                return None;
            },
        };
        Some(AccountsResultOwner { script_asm, hex, req_sigs, kind, addresses })
    }
}

pub open spec fn accounts_result_shaped(v: JsonValue) -> bool {
    &&& field_str(v, "key"@) is Some
    &&& (jv_get(v, "owner"@) matches Some(x) && accounts_result_owner_shaped(x))
    &&& field_str(v, "amount"@) is Some
}

pub open spec fn accounts_result_fields(
    d: AccountsResult<AccountsResultOwner, String>,
    v: JsonValue,
) -> bool {
    &&& (field_str(v, "key"@) matches Some(s) && d.key@ == s@)
    &&& (jv_get(v, "owner"@) matches Some(x) && accounts_result_owner_fields(d.owner, x))
    &&& (field_str(v, "amount"@) matches Some(s) && d.amount@ == s@)
}

impl AccountsResult<AccountsResultOwner, String> {
    pub fn from_json(v: &JsonValue) -> (r: Option<AccountsResult<AccountsResultOwner, String>>)
        ensures
            r is Some <==> accounts_result_shaped(*v),
            r matches Some(d) ==> accounts_result_fields(d, *v),
    {
        let key = match get_str(v, "key") {
            Some(s) => s,
            None => {
                return None;
            },
        };
        let owner = match crate::value::jv_obj_get(v, "owner") {
            Some(x) => match AccountsResultOwner::from_json(x) {
                Some(o) => o,
                None => {
                    return None;
                },
            },
            None => {
                return None;
            },
        };
        let amount = match get_str(v, "amount") {
            Some(s) => s,
            None => {
                return None;
            },
        };
        Some(AccountsResult { key, owner, amount })
    }
}

pub open spec fn accounts_result_arr_shaped(v: JsonValue) -> bool {
    &&& v matches JsonValue::Arr(items)
    &&& forall|i: int| 0 <= i < items@.len() ==> accounts_result_shaped(#[trigger] items@[i])
}

pub open spec fn accounts_result_arr_fields(
    ds: Seq<AccountsResult<AccountsResultOwner, String>>,
    v: JsonValue,
) -> bool {
    &&& v matches JsonValue::Arr(items)
    &&& items@.len() == ds.len()
    &&& forall|i: int| 0 <= i < ds.len() ==> accounts_result_fields(ds[i], #[trigger] items@[i])
}

#[verifier::loop_isolation(false)]
pub fn accounts_results_from_json(v: &JsonValue) -> (r: Option<
    Vec<AccountsResult<AccountsResultOwner, String>>,
>)
    ensures
        r is Some <==> accounts_result_arr_shaped(*v),
        r matches Some(ds) ==> accounts_result_arr_fields(ds@, *v),
{
    match v {
        JsonValue::Arr(items) => {
            let n = items.len();
            let mut out: Vec<AccountsResult<AccountsResultOwner, String>> = Vec::new();
            let mut i: usize = 0;
            while i < n
                invariant
                    n == items@.len(),
                    i <= n,
                    out@.len() == i,
                    forall|j: int|
                        0 <= j < i ==> accounts_result_fields(out@[j], #[trigger] items@[j]),
                    forall|j: int| 0 <= j < i ==> accounts_result_shaped(#[trigger] items@[j]),
                decreases n - i,
            {
                match AccountsResult::<AccountsResultOwner, String>::from_json(&items[i]) {
                    Some(d) => {
                        out.push(d);
                    },
                    None => {
                        return None;
                    },
                }
                i += 1;
            }
            Some(out)
        },
        _ => None,
    }
}

/// Account amounts as the node lists them: an array of `amount@symbol`
/// strings.
#[derive(Debug, PartialEq)]
pub struct AccountAmount(pub Vec<String>);

impl AccountAmount {
    pub fn from_json(v: &JsonValue) -> (r: Option<AccountAmount>)
        ensures
            r is Some <==> str_arr_shaped(*v),
            r matches Some(d) ==> is_str_arr(*v, d.0.deep_view()),
    {
        match json_to_str_vec(v) {
            Some(ss) => Some(AccountAmount(ss)),
            None => None,
        }
    }
}

#[derive(Debug, PartialEq)]
pub struct GetAccountOptions {
    pub indexed_amounts: Option<bool>,
}

pub open spec fn get_account_options_json(d: GetAccountOptions, v: JsonValue) -> bool {
    &&& v matches JsonValue::Obj(fs)
    &&& fs@.len() == 1
    &&& fs@[0].0@ == "indexedAmounts"@
    &&& opt_bool_json(fs@[0].1, d.indexed_amounts)
}

impl GetAccountOptions {
    pub fn to_json(&self) -> (r: JsonValue)
        ensures
            get_account_options_json(*self, r),
    {
        let mut fs: Vec<(String, JsonValue)> = Vec::new();
        fs.push(("indexedAmounts".to_owned(), jv_of_opt_bool(&self.indexed_amounts)));
        JsonValue::Obj(fs)
    }
}

#[derive(Debug, PartialEq)]
pub struct GetTokenBalancesOptions {
    pub symbol_lookup: Option<bool>,
    pub include_eth: Option<bool>,
}

pub open spec fn get_token_balances_options_json(d: GetTokenBalancesOptions, v: JsonValue) -> bool {
    &&& v matches JsonValue::Obj(fs)
    &&& fs@.len() == 2
    &&& fs@[0].0@ == "symbolLookup"@
    &&& opt_bool_json(fs@[0].1, d.symbol_lookup)
    &&& fs@[1].0@ == "includeEth"@
    &&& opt_bool_json(fs@[1].1, d.include_eth)
}

impl GetTokenBalancesOptions {
    pub fn to_json(&self) -> (r: JsonValue)
        ensures
            get_token_balances_options_json(*self, r),
    {
        let mut fs: Vec<(String, JsonValue)> = Vec::new();
        fs.push(("symbolLookup".to_owned(), jv_of_opt_bool(&self.symbol_lookup)));
        fs.push(("includeEth".to_owned(), jv_of_opt_bool(&self.include_eth)));
        JsonValue::Obj(fs)
    }
}

/// Addresses mapped to the amounts to move, kept as an ordered list.
#[derive(Debug, PartialEq)]
pub struct BalanceTransferPayload(pub Vec<(String, String)>);

impl BalanceTransferPayload {
    pub fn to_json(&self) -> (r: JsonValue)
        ensures
            crate::value::is_str_map(r, self.0@),
    {
        crate::value::str_map_to_json(&self.0)
    }
}

#[derive(Debug, PartialEq)]
pub struct BalanceTransferAccountOptions {
    pub utxos: Option<Vec<UTXO>>,
}

pub open spec fn balance_transfer_account_options_json(
    d: BalanceTransferAccountOptions,
    v: JsonValue,
) -> bool {
    &&& v matches JsonValue::Obj(fs)
    &&& fs@.len() == 1
    &&& fs@[0].0@ == "utxos"@
    &&& opt_utxo_vec_json(
        fs@[0].1,
        match d.utxos {
            None => None,
            Some(us) => Some(us@),
        },
    )
}

impl BalanceTransferAccountOptions {
    pub fn to_json(&self) -> (r: JsonValue)
        ensures
            balance_transfer_account_options_json(*self, r),
    {
        let mut fs: Vec<(String, JsonValue)> = Vec::new();
        fs.push(("utxos".to_owned(), crate::common::jv_of_opt_utxo_vec(&self.utxos)));
        JsonValue::Obj(fs)
    }
}


#[derive(Debug, PartialEq)]
pub struct AccountHistory {
    pub owner: String,
    pub block_height: u64,
    pub block_hash: Option<String>,
    pub block_time: Option<u64>,
    pub kind: String,
    pub txn: Option<u64>,
    pub txid: Option<String>,
    pub amounts: Vec<String>,
}

pub open spec fn account_history_shaped(v: JsonValue) -> bool {
    &&& field_str(v, "owner"@) is Some
    &&& field_u64(v, "blockHeight"@) is Some
    &&& opt_field_str(v, "blockHash"@) is Some
    &&& opt_field_u64(v, "blockTime"@) is Some
    &&& field_str(v, "type"@) is Some
    &&& opt_field_u64(v, "txn"@) is Some
    &&& opt_field_str(v, "txid"@) is Some
    &&& (jv_get(v, "amounts"@) matches Some(x) && str_arr_shaped(x))
}

pub open spec fn account_history_fields(d: AccountHistory, v: JsonValue) -> bool {
    &&& (field_str(v, "owner"@) matches Some(s) && d.owner@ == s@)
    &&& field_u64(v, "blockHeight"@) == Some(d.block_height)
    &&& (opt_field_str(v, "blockHash"@) matches Some(o) && opt_str_eq(d.block_hash, o))
    &&& opt_field_u64(v, "blockTime"@) == Some(d.block_time)
    &&& (field_str(v, "type"@) matches Some(s) && d.kind@ == s@)
    &&& opt_field_u64(v, "txn"@) == Some(d.txn)
    &&& (opt_field_str(v, "txid"@) matches Some(o) && opt_str_eq(d.txid, o))
    &&& (jv_get(v, "amounts"@) matches Some(x) && is_str_arr(x, d.amounts.deep_view()))
}

impl AccountHistory {
    pub fn from_json(v: &JsonValue) -> (r: Option<AccountHistory>)
        ensures
            r is Some <==> account_history_shaped(*v),
            r matches Some(d) ==> account_history_fields(d, *v),
    {
        let owner = match get_str(v, "owner") {
            Some(s) => s,
            None => {
                return None;
            },
        };
        let block_height = match get_u64(v, "blockHeight") {
            Some(x) => x,
            None => {
                return None;
            },
        };
        let block_hash = match get_opt_str(v, "blockHash") {
            Some(x) => x,
            None => {
                return None;
            },
        };
        let block_time = match get_opt_u64(v, "blockTime") {
            Some(x) => x,
            None => {
                return None;
            },
        };
        let kind = match get_str(v, "type") {
            Some(s) => s,
            None => {
                return None;
            },
        };
        let txn = match get_opt_u64(v, "txn") {
            Some(x) => x,
            None => {
                return None;
            },
        };
        let txid = match get_opt_str(v, "txid") {
            Some(x) => x,
            None => {
                return None;
            },
        };
        let amounts = match get_str_vec(v, "amounts") {
            Some(x) => x,
            None => {
                return None;
            },
        };
        Some(
            AccountHistory {
                owner,
                block_height,
                block_hash,
                block_time,
                kind,
                txn,
                txid,
                amounts,
            },
        )
    }
}

pub open spec fn account_history_arr_shaped(v: JsonValue) -> bool {
    &&& v matches JsonValue::Arr(items)
    &&& forall|i: int| 0 <= i < items@.len() ==> account_history_shaped(#[trigger] items@[i])
}

pub open spec fn account_history_arr_fields(ds: Seq<AccountHistory>, v: JsonValue) -> bool {
    &&& v matches JsonValue::Arr(items)
    &&& items@.len() == ds.len()
    &&& forall|i: int| 0 <= i < ds.len() ==> account_history_fields(ds[i], #[trigger] items@[i])
}

#[verifier::loop_isolation(false)]
pub fn account_histories_from_json(v: &JsonValue) -> (r: Option<Vec<AccountHistory>>)
    ensures
        r is Some <==> account_history_arr_shaped(*v),
        r matches Some(ds) ==> account_history_arr_fields(ds@, *v),
{
    match v {
        JsonValue::Arr(items) => {
            let n = items.len();
            let mut out: Vec<AccountHistory> = Vec::new();
            let mut i: usize = 0;
            while i < n
                invariant
                    n == items@.len(),
                    i <= n,
                    out@.len() == i,
                    forall|j: int|
                        0 <= j < i ==> account_history_fields(out@[j], #[trigger] items@[j]),
                    forall|j: int| 0 <= j < i ==> account_history_shaped(#[trigger] items@[j]),
                decreases n - i,
            {
                match AccountHistory::from_json(&items[i]) {
                    Some(d) => {
                        out.push(d);
                    },
                    None => {
                        return None;
                    },
                }
                i += 1;
            }
            Some(out)
        },
        _ => None,
    }
}

/// Options for an account-history listing.  Two field names keep their
/// snake-case wire spelling by explicit rename in the node's schema.
#[derive(Debug, PartialEq)]
pub struct AccountHistoryOptions {
    pub max_block_height: Option<u64>,
    pub depth: Option<u64>,
    pub no_rewards: Option<bool>,
    pub token: Option<String>,
    pub txtype: Option<char>,
    pub txtypes: Option<Vec<char>>,
    pub limit: Option<u64>,
    pub start: Option<u64>,
    pub including_start: Option<bool>,
    pub txn: Option<u64>,
    pub format: Option<Format>,
}

pub open spec fn opt_format_json(v: JsonValue, o: Option<Format>) -> bool {
    match o {
        None => v is Null,
        Some(f) => (v matches JsonValue::Str(t) && t@ == f.spec_token()),
    }
}

pub open spec fn account_history_options_json(d: AccountHistoryOptions, v: JsonValue) -> bool {
    &&& v matches JsonValue::Obj(fs)
    &&& fs@.len() == 11
    &&& fs@[0].0@ == "maxBlockHeight"@
    &&& opt_u64_json(fs@[0].1, d.max_block_height)
    &&& fs@[1].0@ == "depth"@
    &&& opt_u64_json(fs@[1].1, d.depth)
    &&& fs@[2].0@ == "no_rewards"@
    &&& opt_bool_json(fs@[2].1, d.no_rewards)
    &&& fs@[3].0@ == "token"@
    &&& opt_str_json(fs@[3].1, d.token)
    &&& fs@[4].0@ == "txtype"@
    &&& opt_char_json(fs@[4].1, d.txtype)
    &&& fs@[5].0@ == "txtypes"@
    &&& opt_charvec_json(
        fs@[5].1,
        match d.txtypes {
            None => None,
            Some(cs) => Some(cs@),
        },
    )
    &&& fs@[6].0@ == "limit"@
    &&& opt_u64_json(fs@[6].1, d.limit)
    &&& fs@[7].0@ == "start"@
    &&& opt_u64_json(fs@[7].1, d.start)
    &&& fs@[8].0@ == "including_start"@
    &&& opt_bool_json(fs@[8].1, d.including_start)
    &&& fs@[9].0@ == "txn"@
    &&& opt_u64_json(fs@[9].1, d.txn)
    &&& fs@[10].0@ == "format"@
    &&& opt_format_json(fs@[10].1, d.format)
}

impl AccountHistoryOptions {
    pub fn new(
        max_block_height: Option<u64>,
        depth: Option<u64>,
        no_rewards: Option<bool>,
        token: Option<String>,
        txtype: Option<char>,
        txtypes: Option<Vec<char>>,
        limit: Option<u64>,
        start: Option<u64>,
        including_start: Option<bool>,
        txn: Option<u64>,
        format: Option<Format>,
    ) -> (r: Self)
        ensures
            r.max_block_height == max_block_height,
            r.depth == depth,
            r.no_rewards == no_rewards,
            r.token == token,
            r.txtype == txtype,
            r.txtypes == txtypes,
            r.limit == limit,
            r.start == start,
            r.including_start == including_start,
            r.txn == txn,
            r.format == format,
    {
        Self {
            max_block_height,
            depth,
            no_rewards,
            token,
            txtype,
            txtypes,
            limit,
            start,
            including_start,
            txn,
            format,
        }
    }

    pub fn to_json(&self) -> (r: JsonValue)
        ensures
            account_history_options_json(*self, r),
    {
        let format = match &self.format {
            None => JsonValue::Null,
            Some(f) => JsonValue::Str(f.wire_token()),
        };
        let mut fs: Vec<(String, JsonValue)> = Vec::new();
        fs.push(("maxBlockHeight".to_owned(), jv_of_opt_u64(&self.max_block_height)));
        fs.push(("depth".to_owned(), jv_of_opt_u64(&self.depth)));
        fs.push(("no_rewards".to_owned(), jv_of_opt_bool(&self.no_rewards)));
        fs.push(("token".to_owned(), jv_of_opt_str(&self.token)));
        fs.push(("txtype".to_owned(), jv_of_opt_char(&self.txtype)));
        fs.push(("txtypes".to_owned(), jv_of_opt_char_vec(&self.txtypes)));
        fs.push(("limit".to_owned(), jv_of_opt_u64(&self.limit)));
        fs.push(("start".to_owned(), jv_of_opt_u64(&self.start)));
        fs.push(("including_start".to_owned(), jv_of_opt_bool(&self.including_start)));
        fs.push(("txn".to_owned(), jv_of_opt_u64(&self.txn)));
        fs.push(("format".to_owned(), format));
        JsonValue::Obj(fs)
    }
}


pub open spec fn account_history_options_shaped(v: JsonValue) -> bool {
    &&& opt_field_u64(v, "maxBlockHeight"@) is Some
    &&& opt_field_u64(v, "depth"@) is Some
    &&& crate::value::opt_field_bool(v, "no_rewards"@) is Some
    &&& opt_field_str(v, "token"@) is Some
    &&& crate::value::opt_field_char(v, "txtype"@) is Some
    &&& crate::value::opt_charvec_ok(v, "txtypes"@)
    &&& opt_field_u64(v, "limit"@) is Some
    &&& opt_field_u64(v, "start"@) is Some
    &&& crate::value::opt_field_bool(v, "including_start"@) is Some
    &&& opt_field_u64(v, "txn"@) is Some
    &&& (match jv_get(v, "format"@) {
        None => true,
        Some(JsonValue::Null) => true,
        Some(x) => (crate::value::jv_str_of(x) matches Some(t) && Format::spec_from_token(t@)
            is Some),
    })
}

pub open spec fn account_history_options_fields(d: AccountHistoryOptions, v: JsonValue) -> bool {
    &&& opt_field_u64(v, "maxBlockHeight"@) == Some(d.max_block_height)
    &&& opt_field_u64(v, "depth"@) == Some(d.depth)
    &&& crate::value::opt_field_bool(v, "no_rewards"@) == Some(d.no_rewards)
    &&& (opt_field_str(v, "token"@) matches Some(o) && opt_str_eq(d.token, o))
    &&& crate::value::opt_field_char(v, "txtype"@) == Some(d.txtype)
    &&& crate::value::opt_charvec_val(
        v,
        "txtypes"@,
        match d.txtypes {
            None => None,
            Some(cs) => Some(cs@),
        },
    )
    &&& opt_field_u64(v, "limit"@) == Some(d.limit)
    &&& opt_field_u64(v, "start"@) == Some(d.start)
    &&& crate::value::opt_field_bool(v, "including_start"@) == Some(d.including_start)
    &&& opt_field_u64(v, "txn"@) == Some(d.txn)
    &&& (match jv_get(v, "format"@) {
        None => d.format is None,
        Some(JsonValue::Null) => d.format is None,
        Some(x) => (d.format matches Some(f) && crate::value::jv_str_of(x) matches Some(t)
            && Format::spec_from_token(t@) == Some(f)),
    })
}

impl AccountHistoryOptions {
    pub fn from_json(v: &JsonValue) -> (r: Option<AccountHistoryOptions>)
        ensures
            r is Some <==> account_history_options_shaped(*v),
            r matches Some(d) ==> account_history_options_fields(d, *v),
    {
        let max_block_height = match get_opt_u64(v, "maxBlockHeight") {
            Some(x) => x,
            None => {
                return None;
            },
        };
        let depth = match get_opt_u64(v, "depth") {
            Some(x) => x,
            None => {
                return None;
            },
        };
        let no_rewards = match crate::value::get_opt_bool(v, "no_rewards") {
            Some(x) => x,
            None => {
                return None;
            },
        };
        let token = match get_opt_str(v, "token") {
            Some(x) => x,
            None => {
                return None;
            },
        };
        let txtype = match crate::value::get_opt_char(v, "txtype") {
            Some(x) => x,
            None => {
                return None;
            },
        };
        let txtypes = match crate::value::get_opt_char_vec(v, "txtypes") {
            Some(x) => x,
            None => {
                return None;
            },
        };
        let limit = match get_opt_u64(v, "limit") {
            Some(x) => x,
            None => {
                return None;
            },
        };
        let start = match get_opt_u64(v, "start") {
            Some(x) => x,
            None => {
                return None;
            },
        };
        let including_start = match crate::value::get_opt_bool(v, "including_start") {
            Some(x) => x,
            None => {
                return None;
            },
        };
        let txn = match get_opt_u64(v, "txn") {
            Some(x) => x,
            None => {
                return None;
            },
        };
        let format = match crate::value::jv_obj_get(v, "format") {
            None => None,
            Some(x) => match x {
                JsonValue::Null => None,
                JsonValue::Str(t) => match Format::from_wire_token(t.as_str()) {
                    Some(f) => Some(f),
                    None => {
                        return None;
                    },
                },
                _ => {
                    return None;
                },
            },
        };
        Some(
            AccountHistoryOptions {
                max_block_height,
                depth,
                no_rewards,
                token,
                txtype,
                txtypes,
                limit,
                start,
                including_start,
                txn,
                format,
            },
        )
    }
}

/// The encoded form of a history-options object, its two snake-case
/// renames included, always satisfies its own decoder.
pub proof fn lemma_account_history_options_encode_shaped(d: AccountHistoryOptions, v: JsonValue)
    requires
        account_history_options_json(d, v),
    ensures
        account_history_options_shaped(v),
        account_history_options_fields(d, v),
{
    reveal_strlit("maxBlockHeight");
    reveal_strlit("depth");
    reveal_strlit("no_rewards");
    reveal_strlit("token");
    reveal_strlit("txtype");
    reveal_strlit("txtypes");
    reveal_strlit("limit");
    reveal_strlit("start");
    reveal_strlit("including_start");
    reveal_strlit("txn");
    reveal_strlit("format");
    let fs = v->Obj_0;
    assert("maxBlockHeight"@.len() == 14);
    assert("depth"@.len() == 5);
    assert("no_rewards"@.len() == 10);
    assert("token"@.len() == 5);
    assert("txtype"@.len() == 6);
    assert("txtypes"@.len() == 7);
    assert("limit"@.len() == 5);
    assert("start"@.len() == 5);
    assert("including_start"@.len() == 15);
    assert("txn"@.len() == 3);
    assert("format"@.len() == 6);
    assert("depth"@[0] == 'd');
    assert("token"@[0] == 't');
    assert("limit"@[0] == 'l');
    assert("start"@[0] == 's');
    assert("txtype"@[0] == 't');
    assert("format"@[0] == 'f');
    crate::value::lemma_obj_get_at(fs@, "maxBlockHeight"@, 0);
    crate::value::lemma_obj_get_at(fs@, "depth"@, 1);
    crate::value::lemma_obj_get_at(fs@, "no_rewards"@, 2);
    crate::value::lemma_obj_get_at(fs@, "token"@, 3);
    crate::value::lemma_obj_get_at(fs@, "txtype"@, 4);
    crate::value::lemma_obj_get_at(fs@, "txtypes"@, 5);
    crate::value::lemma_obj_get_at(fs@, "limit"@, 6);
    crate::value::lemma_obj_get_at(fs@, "start"@, 7);
    crate::value::lemma_obj_get_at(fs@, "including_start"@, 8);
    crate::value::lemma_obj_get_at(fs@, "txn"@, 9);
    crate::value::lemma_obj_get_at(fs@, "format"@, 10);
    match d.format {
        Some(f) => {
            lemma_format_round_trip(f);
        },
        None => {},
    }
}

/// A history-options object, every field populated, comes back from its
/// own encoding value for value.
pub proof fn lemma_account_history_options_round_trip(
    d: AccountHistoryOptions,
    v: JsonValue,
    d2: AccountHistoryOptions,
)
    requires
        account_history_options_json(d, v),
        account_history_options_fields(d2, v),
    ensures
        d2.max_block_height == d.max_block_height,
        d2.depth == d.depth,
        d2.no_rewards == d.no_rewards,
        opt_str_eq(d2.token, d.token),
        d2.txtype == d.txtype,
        (match (d2.txtypes, d.txtypes) {
            (None, None) => true,
            (Some(a), Some(b)) => a@ == b@,
            _ => false,
        }),
        d2.limit == d.limit,
        d2.start == d.start,
        d2.including_start == d.including_start,
        d2.txn == d.txn,
        d2.format == d.format,
{
    lemma_account_history_options_encode_shaped(d, v);
    match (d2.txtypes, d.txtypes) {
        (Some(a), Some(b)) => {
            reveal_strlit("maxBlockHeight");
            reveal_strlit("depth");
            reveal_strlit("no_rewards");
            reveal_strlit("token");
            reveal_strlit("txtype");
            reveal_strlit("txtypes");
            assert("maxBlockHeight"@.len() == 14);
            assert("depth"@.len() == 5);
            assert("no_rewards"@.len() == 10);
            assert("token"@.len() == 5);
            assert("txtype"@.len() == 6);
            assert("txtypes"@.len() == 7);
            let fs = v->Obj_0;
            crate::value::lemma_obj_get_at(fs@, "txtypes"@, 5);
            let x = fs@[5].1;
            let items = x->Arr_0;
            assert(crate::value::is_char_arr(x, a@));
            assert(crate::value::is_char_arr(x, b@));
            assert forall|i: int| 0 <= i < a@.len() implies a@[i] == b@[i] by {
                assert(crate::value::char_json(items@[i], a@[i]));
                assert(crate::value::char_json(items@[i], b@[i]));
                assert(seq![a@[i]][0] == a@[i]);
                assert(seq![b@[i]][0] == b@[i]);
            }
            assert(a@ =~= b@);
        },
        _ => {},
    }
}

#[derive(Debug, PartialEq)]
pub struct AccountHistoryCountOptions {
    pub token: Option<String>,
    pub txtype: Option<char>,
    pub txtypes: Option<Vec<char>>,
    pub no_rewards: Option<bool>,
}

pub open spec fn account_history_count_options_json(
    d: AccountHistoryCountOptions,
    v: JsonValue,
) -> bool {
    &&& v matches JsonValue::Obj(fs)
    &&& fs@.len() == 4
    &&& fs@[0].0@ == "token"@
    &&& opt_str_json(fs@[0].1, d.token)
    &&& fs@[1].0@ == "txtype"@
    &&& opt_char_json(fs@[1].1, d.txtype)
    &&& fs@[2].0@ == "txtypes"@
    &&& opt_charvec_json(
        fs@[2].1,
        match d.txtypes {
            None => None,
            Some(cs) => Some(cs@),
        },
    )
    &&& fs@[3].0@ == "noRewards"@
    &&& opt_bool_json(fs@[3].1, d.no_rewards)
}

impl AccountHistoryCountOptions {
    pub fn to_json(&self) -> (r: JsonValue)
        ensures
            account_history_count_options_json(*self, r),
    {
        let mut fs: Vec<(String, JsonValue)> = Vec::new();
        fs.push(("token".to_owned(), jv_of_opt_str(&self.token)));
        fs.push(("txtype".to_owned(), jv_of_opt_char(&self.txtype)));
        fs.push(("txtypes".to_owned(), jv_of_opt_char_vec(&self.txtypes)));
        fs.push(("noRewards".to_owned(), jv_of_opt_bool(&self.no_rewards)));
        JsonValue::Obj(fs)
    }
}

/// Addresses mapped to the amount strings they send or receive.
#[derive(Debug, PartialEq)]
pub struct AddressBalances(pub Vec<(String, Vec<String>)>);

impl AddressBalances {
    pub fn to_json(&self) -> (r: JsonValue)
        ensures
            is_strvec_map(r, self.0@),
    {
        strvec_map_to_json(&self.0)
    }
}

#[derive(Debug, PartialEq)]
pub struct SendTokensOptions {
    pub selection_mode: SelectionModeType,
}

pub open spec fn send_tokens_options_json(d: SendTokensOptions, v: JsonValue) -> bool {
    &&& v matches JsonValue::Obj(fs)
    &&& fs@.len() == 1
    &&& fs@[0].0@ == "selectionMode"@
    &&& (fs@[0].1 matches JsonValue::Str(t) && t@ == d.selection_mode.spec_token())
}

impl SendTokensOptions {
    pub fn to_json(&self) -> (r: JsonValue)
        ensures
            send_tokens_options_json(*self, r),
    {
        let mut fs: Vec<(String, JsonValue)> = Vec::new();
        fs.push(("selectionMode".to_owned(), JsonValue::Str(self.selection_mode.wire_token())));
        JsonValue::Obj(fs)
    }
}

#[derive(Debug, PartialEq)]
pub struct CommunityBalanceData {
    pub anchor_reward: i64,
    pub incentive_funding: Option<i64>,
    pub burnt: i64,
    pub swap: Option<i64>,
    pub futures: Option<i64>,
    pub options: Option<i64>,
    pub unallocated: Option<i64>,
    pub unknown: Option<i64>,
}

pub open spec fn community_balance_data_shaped(v: JsonValue) -> bool {
    &&& field_i64(v, "anchorReward"@) is Some
    &&& opt_field_i64(v, "incentiveFunding"@) is Some
    &&& field_i64(v, "burnt"@) is Some
    &&& opt_field_i64(v, "swap"@) is Some
    &&& opt_field_i64(v, "futures"@) is Some
    &&& opt_field_i64(v, "options"@) is Some
    &&& opt_field_i64(v, "unallocated"@) is Some
    &&& opt_field_i64(v, "unknown"@) is Some
}

pub open spec fn community_balance_data_fields(d: CommunityBalanceData, v: JsonValue) -> bool {
    &&& field_i64(v, "anchorReward"@) == Some(d.anchor_reward)
    &&& opt_field_i64(v, "incentiveFunding"@) == Some(d.incentive_funding)
    &&& field_i64(v, "burnt"@) == Some(d.burnt)
    &&& opt_field_i64(v, "swap"@) == Some(d.swap)
    &&& opt_field_i64(v, "futures"@) == Some(d.futures)
    &&& opt_field_i64(v, "options"@) == Some(d.options)
    &&& opt_field_i64(v, "unallocated"@) == Some(d.unallocated)
    &&& opt_field_i64(v, "unknown"@) == Some(d.unknown)
}

impl CommunityBalanceData {
    pub fn from_json(v: &JsonValue) -> (r: Option<CommunityBalanceData>)
        ensures
            r is Some <==> community_balance_data_shaped(*v),
            r matches Some(d) ==> community_balance_data_fields(d, *v),
    {
        let anchor_reward = match get_i64(v, "anchorReward") {
            Some(x) => x,
            None => {
                return None;
            },
        };
        let incentive_funding = match get_opt_i64(v, "incentiveFunding") {
            Some(x) => x,
            None => {
                return None;
            },
        };
        let burnt = match get_i64(v, "burnt") {
            Some(x) => x,
            None => {
                return None;
            },
        };
        let swap = match get_opt_i64(v, "swap") {
            Some(x) => x,
            None => {
                return None;
            },
        };
        let futures = match get_opt_i64(v, "futures") {
            Some(x) => x,
            None => {
                return None;
            },
        };
        let options = match get_opt_i64(v, "options") {
            Some(x) => x,
            None => {
                return None;
            },
        };
        let unallocated = match get_opt_i64(v, "unallocated") {
            Some(x) => x,
            None => {
                return None;
            },
        };
        let unknown = match get_opt_i64(v, "unknown") {
            Some(x) => x,
            None => {
                return None;
            },
        };
        Some(
            CommunityBalanceData {
                anchor_reward,
                incentive_funding,
                burnt,
                swap,
                futures,
                options,
                unallocated,
                unknown,
            },
        )
    }
}

#[derive(Debug, PartialEq)]
pub struct BurnHistoryOptions {
    pub max_block_height: Option<u64>,
    pub depth: Option<u64>,
    pub token: Option<String>,
    pub txtype: Option<char>,
    pub limit: Option<u64>,
}

pub open spec fn burn_history_options_json(d: BurnHistoryOptions, v: JsonValue) -> bool {
    &&& v matches JsonValue::Obj(fs)
    &&& fs@.len() == 5
    &&& fs@[0].0@ == "maxBlockHeight"@
    &&& opt_u64_json(fs@[0].1, d.max_block_height)
    &&& fs@[1].0@ == "depth"@
    &&& opt_u64_json(fs@[1].1, d.depth)
    &&& fs@[2].0@ == "token"@
    &&& opt_str_json(fs@[2].1, d.token)
    &&& fs@[3].0@ == "txtype"@
    &&& opt_char_json(fs@[3].1, d.txtype)
    &&& fs@[4].0@ == "limit"@
    &&& opt_u64_json(fs@[4].1, d.limit)
}

impl BurnHistoryOptions {
    pub fn to_json(&self) -> (r: JsonValue)
        ensures
            burn_history_options_json(*self, r),
    {
        let mut fs: Vec<(String, JsonValue)> = Vec::new();
        fs.push(("maxBlockHeight".to_owned(), jv_of_opt_u64(&self.max_block_height)));
        fs.push(("depth".to_owned(), jv_of_opt_u64(&self.depth)));
        fs.push(("token".to_owned(), jv_of_opt_str(&self.token)));
        fs.push(("txtype".to_owned(), jv_of_opt_char(&self.txtype)));
        fs.push(("limit".to_owned(), jv_of_opt_u64(&self.limit)));
        JsonValue::Obj(fs)
    }
}

#[derive(Debug, PartialEq)]
pub struct BurnHistory {
    pub owner: String,
    pub block_height: u64,
    pub block_hash: String,
    pub block_time: u64,
    pub kind: String,
    pub txn: u64,
    pub txid: String,
    pub amounts: Vec<String>,
}

pub open spec fn burn_history_shaped(v: JsonValue) -> bool {
    &&& field_str(v, "owner"@) is Some
    &&& field_u64(v, "blockHeight"@) is Some
    &&& field_str(v, "blockHash"@) is Some
    &&& field_u64(v, "blockTime"@) is Some
    &&& field_str(v, "type"@) is Some
    &&& field_u64(v, "txn"@) is Some
    &&& field_str(v, "txid"@) is Some
    &&& (jv_get(v, "amounts"@) matches Some(x) && str_arr_shaped(x))
}

pub open spec fn burn_history_fields(d: BurnHistory, v: JsonValue) -> bool {
    &&& (field_str(v, "owner"@) matches Some(s) && d.owner@ == s@)
    &&& field_u64(v, "blockHeight"@) == Some(d.block_height)
    &&& (field_str(v, "blockHash"@) matches Some(s) && d.block_hash@ == s@)
    &&& field_u64(v, "blockTime"@) == Some(d.block_time)
    &&& (field_str(v, "type"@) matches Some(s) && d.kind@ == s@)
    &&& field_u64(v, "txn"@) == Some(d.txn)
    &&& (field_str(v, "txid"@) matches Some(s) && d.txid@ == s@)
    &&& (jv_get(v, "amounts"@) matches Some(x) && is_str_arr(x, d.amounts.deep_view()))
}

impl BurnHistory {
    pub fn from_json(v: &JsonValue) -> (r: Option<BurnHistory>)
        ensures
            r is Some <==> burn_history_shaped(*v),
            r matches Some(d) ==> burn_history_fields(d, *v),
    {
        let owner = match get_str(v, "owner") {
            Some(s) => s,
            None => {
                return None;
            },
        };
        let block_height = match get_u64(v, "blockHeight") {
            Some(x) => x,
            None => {
                return None;
            },
        };
        let block_hash = match get_str(v, "blockHash") {
            Some(s) => s,
            None => {
                return None;
            },
        };
        let block_time = match get_u64(v, "blockTime") {
            Some(x) => x,
            None => {
                return None;
            },
        };
        let kind = match get_str(v, "type") {
            Some(s) => s,
            None => {
                return None;
            },
        };
        let txn = match get_u64(v, "txn") {
            Some(x) => x,
            None => {
                return None;
            },
        };
        let txid = match get_str(v, "txid") {
            Some(s) => s,
            None => {
                return None;
            },
        };
        let amounts = match get_str_vec(v, "amounts") {
            Some(x) => x,
            None => {
                return None;
            },
        };
        Some(
            BurnHistory {
                owner,
                block_height,
                block_hash,
                block_time,
                kind,
                txn,
                txid,
                amounts,
            },
        )
    }
}

/// Totals of burnt funds.  Amounts the node reports as JSON numbers keep
/// their decimal text.
#[derive(Debug, PartialEq)]
pub struct BurnInfo {
    pub address: String,
    pub amount: String,
    pub tokens: Vec<String>,
    pub feeburn: String,
    pub emissionburn: String,
    pub auctionburn: String,
    pub paybackburn: Vec<String>,
    pub dexfeetokens: Vec<String>,
    pub dfipaybackfee: String,
    pub dfipaybacktokens: Vec<String>,
    pub paybackfees: Vec<String>,
    pub paybacktokens: Vec<String>,
    pub dfip_2203: Vec<String>,
    pub dfip_2206_f: Vec<String>,
}

pub open spec fn burn_info_shaped(v: JsonValue) -> bool {
    &&& field_str(v, "address"@) is Some
    &&& crate::value::field_numtext(v, "amount"@) is Some
    &&& (jv_get(v, "tokens"@) matches Some(x) && str_arr_shaped(x))
    &&& crate::value::field_numtext(v, "feeburn"@) is Some
    &&& crate::value::field_numtext(v, "emissionburn"@) is Some
    &&& crate::value::field_numtext(v, "auctionburn"@) is Some
    &&& (jv_get(v, "paybackburn"@) matches Some(x) && str_arr_shaped(x))
    &&& (jv_get(v, "dexfeetokens"@) matches Some(x) && str_arr_shaped(x))
    &&& crate::value::field_numtext(v, "dfipaybackfee"@) is Some
    &&& (jv_get(v, "dfipaybacktokens"@) matches Some(x) && str_arr_shaped(x))
    &&& (jv_get(v, "paybackfees"@) matches Some(x) && str_arr_shaped(x))
    &&& (jv_get(v, "paybacktokens"@) matches Some(x) && str_arr_shaped(x))
    &&& (jv_get(v, "dfip2203"@) matches Some(x) && str_arr_shaped(x))
    &&& (jv_get(v, "dfip2206f"@) matches Some(x) && str_arr_shaped(x))
}

pub open spec fn burn_info_fields(d: BurnInfo, v: JsonValue) -> bool {
    &&& (field_str(v, "address"@) matches Some(s) && d.address@ == s@)
    &&& crate::value::field_numtext(v, "amount"@) == Some(d.amount@)
    &&& (jv_get(v, "tokens"@) matches Some(x) && is_str_arr(x, d.tokens.deep_view()))
    &&& crate::value::field_numtext(v, "feeburn"@) == Some(d.feeburn@)
    &&& crate::value::field_numtext(v, "emissionburn"@) == Some(d.emissionburn@)
    &&& crate::value::field_numtext(v, "auctionburn"@) == Some(d.auctionburn@)
    &&& (jv_get(v, "paybackburn"@) matches Some(x) && is_str_arr(x, d.paybackburn.deep_view()))
    &&& (jv_get(v, "dexfeetokens"@) matches Some(x) && is_str_arr(x, d.dexfeetokens.deep_view()))
    &&& crate::value::field_numtext(v, "dfipaybackfee"@) == Some(d.dfipaybackfee@)
    &&& (jv_get(v, "dfipaybacktokens"@) matches Some(x) && is_str_arr(
        x,
        d.dfipaybacktokens.deep_view(),
    ))
    &&& (jv_get(v, "paybackfees"@) matches Some(x) && is_str_arr(x, d.paybackfees.deep_view()))
    &&& (jv_get(v, "paybacktokens"@) matches Some(x) && is_str_arr(x, d.paybacktokens.deep_view()))
    &&& (jv_get(v, "dfip2203"@) matches Some(x) && is_str_arr(x, d.dfip_2203.deep_view()))
    &&& (jv_get(v, "dfip2206f"@) matches Some(x) && is_str_arr(x, d.dfip_2206_f.deep_view()))
}

impl BurnInfo {
    pub fn from_json(v: &JsonValue) -> (r: Option<BurnInfo>)
        ensures
            r is Some <==> burn_info_shaped(*v),
            r matches Some(d) ==> burn_info_fields(d, *v),
    {
        let address = match get_str(v, "address") {
            Some(s) => s,
            None => {
                return None;
            },
        };
        let amount = match crate::value::get_numtext(v, "amount") {
            Some(x) => x,
            None => {
                return None;
            },
        };
        let tokens = match get_str_vec(v, "tokens") {
            Some(x) => x,
            None => {
                return None;
            },
        };
        let feeburn = match crate::value::get_numtext(v, "feeburn") {
            Some(x) => x,
            None => {
                return None;
            },
        };
        let emissionburn = match crate::value::get_numtext(v, "emissionburn") {
            Some(x) => x,
            None => {
                return None;
            },
        };
        let auctionburn = match crate::value::get_numtext(v, "auctionburn") {
            Some(x) => x,
            None => {
                return None;
            },
        };
        let paybackburn = match get_str_vec(v, "paybackburn") {
            Some(x) => x,
            None => {
                return None;
            },
        };
        let dexfeetokens = match get_str_vec(v, "dexfeetokens") {
            Some(x) => x,
            None => {
                return None;
            },
        };
        let dfipaybackfee = match crate::value::get_numtext(v, "dfipaybackfee") {
            Some(x) => x,
            None => {
                return None;
            },
        };
        let dfipaybacktokens = match get_str_vec(v, "dfipaybacktokens") {
            Some(x) => x,
            None => {
                return None;
            },
        };
        let paybackfees = match get_str_vec(v, "paybackfees") {
            Some(x) => x,
            None => {
                return None;
            },
        };
        let paybacktokens = match get_str_vec(v, "paybacktokens") {
            Some(x) => x,
            None => {
                return None;
            },
        };
        let dfip_2203 = match get_str_vec(v, "dfip2203") {
            Some(x) => x,
            None => {
                return None;
            },
        };
        let dfip_2206_f = match get_str_vec(v, "dfip2206f") {
            Some(x) => x,
            None => {
                return None;
            },
        };
        Some(
            BurnInfo {
                address,
                amount,
                tokens,
                feeburn,
                emissionburn,
                auctionburn,
                paybackburn,
                dexfeetokens,
                dfipaybackfee,
                dfipaybacktokens,
                paybackfees,
                paybacktokens,
                dfip_2203,
                dfip_2206_f,
            },
        )
    }
}

#[derive(Debug, PartialEq)]
pub struct FutureSwap {
    pub address: String,
    pub amount: String,
    pub destination: Option<String>,
}

pub open spec fn future_swap_json(d: FutureSwap, v: JsonValue) -> bool {
    &&& v matches JsonValue::Obj(fs)
    &&& fs@.len() == 3
    &&& fs@[0].0@ == "address"@
    &&& (fs@[0].1 matches JsonValue::Str(s) && s@ == d.address@)
    &&& fs@[1].0@ == "amount"@
    &&& (fs@[1].1 matches JsonValue::Str(s) && s@ == d.amount@)
    &&& fs@[2].0@ == "destination"@
    &&& opt_str_json(fs@[2].1, d.destination)
}

impl FutureSwap {
    pub fn to_json(&self) -> (r: JsonValue)
        ensures
            future_swap_json(*self, r),
    {
        let mut fs: Vec<(String, JsonValue)> = Vec::new();
        fs.push(("address".to_owned(), JsonValue::Str(self.address.clone())));
        fs.push(("amount".to_owned(), JsonValue::Str(self.amount.clone())));
        fs.push(("destination".to_owned(), jv_of_opt_str(&self.destination)));
        JsonValue::Obj(fs)
    }
}

#[derive(Debug, PartialEq)]
pub struct FutureData {
    pub source: String,
    pub destination: String,
}

pub open spec fn future_data_shaped(v: JsonValue) -> bool {
    &&& field_str(v, "source"@) is Some
    &&& field_str(v, "destination"@) is Some
}

pub open spec fn future_data_fields(d: FutureData, v: JsonValue) -> bool {
    &&& (field_str(v, "source"@) matches Some(s) && d.source@ == s@)
    &&& (field_str(v, "destination"@) matches Some(s) && d.destination@ == s@)
}

impl FutureData {
    pub fn from_json(v: &JsonValue) -> (r: Option<FutureData>)
        ensures
            r is Some <==> future_data_shaped(*v),
            r matches Some(d) ==> future_data_fields(d, *v),
    {
        let source = match get_str(v, "source") {
            Some(s) => s,
            None => {
                return None;
            },
        };
        let destination = match get_str(v, "destination") {
            Some(s) => s,
            None => {
                return None;
            },
        };
        Some(FutureData { source, destination })
    }
}

pub open spec fn future_data_arr_shaped(v: JsonValue) -> bool {
    &&& v matches JsonValue::Arr(items)
    &&& forall|i: int| 0 <= i < items@.len() ==> future_data_shaped(#[trigger] items@[i])
}

pub open spec fn future_data_arr_fields(ds: Seq<FutureData>, v: JsonValue) -> bool {
    &&& v matches JsonValue::Arr(items)
    &&& items@.len() == ds.len()
    &&& forall|i: int| 0 <= i < ds.len() ==> future_data_fields(ds[i], #[trigger] items@[i])
}

#[verifier::loop_isolation(false)]
fn future_datas_from_json(v: &JsonValue) -> (r: Option<Vec<FutureData>>)
    ensures
        r is Some <==> future_data_arr_shaped(*v),
        r matches Some(ds) ==> future_data_arr_fields(ds@, *v),
{
    match v {
        JsonValue::Arr(items) => {
            let n = items.len();
            let mut out: Vec<FutureData> = Vec::new();
            let mut i: usize = 0;
            while i < n
                invariant
                    n == items@.len(),
                    i <= n,
                    out@.len() == i,
                    forall|j: int| 0 <= j < i ==> future_data_fields(out@[j], #[trigger] items@[j]),
                    forall|j: int| 0 <= j < i ==> future_data_shaped(#[trigger] items@[j]),
                decreases n - i,
            {
                match FutureData::from_json(&items[i]) {
                    Some(d) => {
                        out.push(d);
                    },
                    None => {
                        return None;
                    },
                }
                i += 1;
            }
            Some(out)
        },
        _ => None,
    }
}

#[derive(Debug, PartialEq)]
pub struct GetFutureInfo {
    pub owner: String,
    pub values: Vec<FutureData>,
}

pub open spec fn get_future_info_shaped(v: JsonValue) -> bool {
    &&& field_str(v, "owner"@) is Some
    &&& (jv_get(v, "values"@) matches Some(x) && future_data_arr_shaped(x))
}

pub open spec fn get_future_info_fields(d: GetFutureInfo, v: JsonValue) -> bool {
    &&& (field_str(v, "owner"@) matches Some(s) && d.owner@ == s@)
    &&& (jv_get(v, "values"@) matches Some(x) && future_data_arr_fields(d.values@, x))
}

impl GetFutureInfo {
    pub fn from_json(v: &JsonValue) -> (r: Option<GetFutureInfo>)
        ensures
            r is Some <==> get_future_info_shaped(*v),
            r matches Some(d) ==> get_future_info_fields(d, *v),
    {
        let owner = match get_str(v, "owner") {
            Some(s) => s,
            None => {
                return None;
            },
        };
        let values = match crate::value::jv_obj_get(v, "values") {
            Some(x) => match future_datas_from_json(x) {
                Some(ds) => ds,
                None => {
                    return None;
                },
            },
            None => {
                return None;
            },
        };
        Some(GetFutureInfo { owner, values })
    }
}

#[derive(Debug, PartialEq)]
pub struct ListFutureInfo {
    pub owner: String,
    pub source: String,
    pub destination: String,
}

pub open spec fn list_future_info_shaped(v: JsonValue) -> bool {
    &&& field_str(v, "owner"@) is Some
    &&& field_str(v, "source"@) is Some
    &&& field_str(v, "destination"@) is Some
}

pub open spec fn list_future_info_fields(d: ListFutureInfo, v: JsonValue) -> bool {
    &&& (field_str(v, "owner"@) matches Some(s) && d.owner@ == s@)
    &&& (field_str(v, "source"@) matches Some(s) && d.source@ == s@)
    &&& (field_str(v, "destination"@) matches Some(s) && d.destination@ == s@)
}

impl ListFutureInfo {
    pub fn from_json(v: &JsonValue) -> (r: Option<ListFutureInfo>)
        ensures
            r is Some <==> list_future_info_shaped(*v),
            r matches Some(d) ==> list_future_info_fields(d, *v),
    {
        let owner = match get_str(v, "owner") {
            Some(s) => s,
            None => {
                return None;
            },
        };
        let source = match get_str(v, "source") {
            Some(s) => s,
            None => {
                return None;
            },
        };
        let destination = match get_str(v, "destination") {
            Some(s) => s,
            None => {
                return None;
            },
        };
        Some(ListFutureInfo { owner, source, destination })
    }
}

#[derive(Debug, PartialEq)]
pub struct DusdSwapsInfo {
    pub owner: String,
    pub amount: i64,
}

pub open spec fn dusd_swaps_info_shaped(v: JsonValue) -> bool {
    &&& field_str(v, "owner"@) is Some
    &&& field_i64(v, "amount"@) is Some
}

pub open spec fn dusd_swaps_info_fields(d: DusdSwapsInfo, v: JsonValue) -> bool {
    &&& (field_str(v, "owner"@) matches Some(s) && d.owner@ == s@)
    &&& field_i64(v, "amount"@) == Some(d.amount)
}

impl DusdSwapsInfo {
    pub fn from_json(v: &JsonValue) -> (r: Option<DusdSwapsInfo>)
        ensures
            r is Some <==> dusd_swaps_info_shaped(*v),
            r matches Some(d) ==> dusd_swaps_info_fields(d, *v),
    {
        let owner = match get_str(v, "owner") {
            Some(s) => s,
            None => {
                return None;
            },
        };
        let amount = match get_i64(v, "amount") {
            Some(x) => x,
            None => {
                return None;
            },
        };
        Some(DusdSwapsInfo { owner, amount })
    }
}

#[derive(Debug, PartialEq)]
pub struct TransferDomainData {
    pub address: String,
    pub amount: String,
    pub domain: TransferDomainType,
}

pub open spec fn transfer_domain_data_json(d: TransferDomainData, v: JsonValue) -> bool {
    &&& v matches JsonValue::Obj(fs)
    &&& fs@.len() == 3
    &&& fs@[0].0@ == "address"@
    &&& (fs@[0].1 matches JsonValue::Str(s) && s@ == d.address@)
    &&& fs@[1].0@ == "amount"@
    &&& (fs@[1].1 matches JsonValue::Str(s) && s@ == d.amount@)
    &&& fs@[2].0@ == "domain"@
    &&& (fs@[2].1 matches JsonValue::Str(t) && t@ == d.domain.spec_token())
}

impl TransferDomainData {
    pub fn to_json(&self) -> (r: JsonValue)
        ensures
            transfer_domain_data_json(*self, r),
    {
        let mut fs: Vec<(String, JsonValue)> = Vec::new();
        fs.push(("address".to_owned(), JsonValue::Str(self.address.clone())));
        fs.push(("amount".to_owned(), JsonValue::Str(self.amount.clone())));
        fs.push(("domain".to_owned(), JsonValue::Str(self.domain.wire_token())));
        JsonValue::Obj(fs)
    }
}

#[derive(Debug, PartialEq)]
pub struct TransferDomain {
    pub src: TransferDomainData,
    pub dst: TransferDomainData,
}

pub open spec fn transfer_domain_json(d: TransferDomain, v: JsonValue) -> bool {
    &&& v matches JsonValue::Obj(fs)
    &&& fs@.len() == 2
    &&& fs@[0].0@ == "src"@
    &&& transfer_domain_data_json(d.src, fs@[0].1)
    &&& fs@[1].0@ == "dst"@
    &&& transfer_domain_data_json(d.dst, fs@[1].1)
}

impl TransferDomain {
    pub fn to_json(&self) -> (r: JsonValue)
        ensures
            transfer_domain_json(*self, r),
    {
        let mut fs: Vec<(String, JsonValue)> = Vec::new();
        fs.push(("src".to_owned(), self.src.to_json()));
        fs.push(("dst".to_owned(), self.dst.to_json()));
        JsonValue::Obj(fs)
    }
}

pub open spec fn transfer_domain_arr_json(ds: Seq<TransferDomain>, v: JsonValue) -> bool {
    &&& v matches JsonValue::Arr(items)
    &&& items@.len() == ds.len()
    &&& forall|i: int| 0 <= i < ds.len() ==> transfer_domain_json(ds[i], #[trigger] items@[i])
}

#[verifier::loop_isolation(false)]
pub fn transfer_domains_to_json(ds: &Vec<TransferDomain>) -> (r: JsonValue)
    ensures
        transfer_domain_arr_json(ds@, r),
{
    let n = ds.len();
    let mut items: Vec<JsonValue> = Vec::new();
    let mut i: usize = 0;
    while i < n
        invariant
            n == ds@.len(),
            i <= n,
            items@.len() == i,
            forall|j: int| 0 <= j < i ==> transfer_domain_json(ds@[j], #[trigger] items@[j]),
        decreases n - i,
    {
        items.push(ds[i].to_json());
        i += 1;
    }
    JsonValue::Arr(items)
}

} // verus!
