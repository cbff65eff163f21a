//! Types shared across the binding domains.

use vstd::prelude::*;

use crate::value::{field_i64, field_str, get_i64, get_str, JsonValue};

verus! {

/// A transaction output to fund a call with.  The transaction id is kept
/// as its hex text.
#[derive(Debug, PartialEq)]
pub struct UTXO {
    pub txid: String,
    pub vout: u64,
}

pub open spec fn utxo_json(d: UTXO, v: JsonValue) -> bool {
    &&& v matches JsonValue::Obj(fs)
    &&& fs@.len() == 2
    &&& fs@[0].0@ == "txid"@
    &&& (fs@[0].1 matches JsonValue::Str(s) && s@ == d.txid@)
    &&& fs@[1].0@ == "vout"@
    &&& fs@[1].1 == JsonValue::UInt(d.vout)
}

pub open spec fn opt_utxo_json(v: JsonValue, o: Option<UTXO>) -> bool {
    match o {
        None => v is Null,
        Some(u) => utxo_json(u, v),
    }
}

impl UTXO {
    pub fn to_json(&self) -> (r: JsonValue)
        ensures
            utxo_json(*self, r),
    {
        let mut fs: Vec<(String, JsonValue)> = Vec::new();
        fs.push(("txid".to_owned(), JsonValue::Str(self.txid.clone())));
        fs.push(("vout".to_owned(), JsonValue::UInt(self.vout)));
        JsonValue::Obj(fs)
    }
}

pub fn jv_of_opt_utxo(o: &Option<UTXO>) -> (r: JsonValue)
    ensures
        opt_utxo_json(r, *o),
{
    match o {
        None => JsonValue::Null,
        Some(u) => u.to_json(),
    }
}

pub open spec fn is_utxo_arr(v: JsonValue, ds: Seq<UTXO>) -> bool {
    &&& v matches JsonValue::Arr(items)
    &&& items@.len() == ds.len()
    &&& forall|i: int| 0 <= i < ds.len() ==> utxo_json(ds[i], #[trigger] items@[i])
}

pub open spec fn opt_utxo_vec_json(v: JsonValue, o: Option<Seq<UTXO>>) -> bool {
    match o {
        None => v is Null,
        Some(ds) => is_utxo_arr(v, ds),
    }
}

#[verifier::loop_isolation(false)]
pub fn utxo_vec_to_json(ds: &Vec<UTXO>) -> (r: JsonValue)
    ensures
        is_utxo_arr(r, ds@),
{
    let n = ds.len();
    let mut items: Vec<JsonValue> = Vec::new();
    let mut i: usize = 0;
    while i < n
        invariant
            n == ds@.len(),
            i <= n,
            items@.len() == i,
            forall|j: int| 0 <= j < i ==> utxo_json(ds@[j], #[trigger] items@[j]),
        decreases n - i,
    {
        items.push(ds[i].to_json());
        i += 1;
    }
    JsonValue::Arr(items)
}

pub fn jv_of_opt_utxo_vec(o: &Option<Vec<UTXO>>) -> (r: JsonValue)
    ensures
        opt_utxo_vec_json(
            r,
            match *o {
                None => None,
                Some(ds) => Some(ds@),
            },
        ),
{
    match o {
        None => JsonValue::Null,
        Some(ds) => utxo_vec_to_json(ds),
    }
}

/// Interest accrued against a loan token.
#[derive(Debug, PartialEq)]
pub struct Interest {
    pub token: String,
    pub realized_interest_per_block: i64,
    pub total_interest: i64,
    pub interest_per_block: i64,
}

pub open spec fn interest_shaped(v: JsonValue) -> bool {
    &&& field_str(v, "token"@) is Some
    &&& field_i64(v, "realizedInterestPerBlock"@) is Some
    &&& field_i64(v, "totalInterest"@) is Some
    &&& field_i64(v, "interestPerBlock"@) is Some
}

pub open spec fn interest_fields(d: Interest, v: JsonValue) -> bool {
    &&& (field_str(v, "token"@) matches Some(s) && d.token@ == s@)
    &&& field_i64(v, "realizedInterestPerBlock"@) == Some(d.realized_interest_per_block)
    &&& field_i64(v, "totalInterest"@) == Some(d.total_interest)
    &&& field_i64(v, "interestPerBlock"@) == Some(d.interest_per_block)
}

impl Interest {
    pub fn from_json(v: &JsonValue) -> (r: Option<Interest>)
        ensures
            r is Some <==> interest_shaped(*v),
            r matches Some(d) ==> interest_fields(d, *v),
    {
        let token = match get_str(v, "token") {
            Some(s) => s,
            None => {
                return None;
            },
        };
        let realized_interest_per_block = match get_i64(v, "realizedInterestPerBlock") {
            Some(x) => x,
            None => {
                return None;
            },
        };
        let total_interest = match get_i64(v, "totalInterest") {
            Some(x) => x,
            None => {
                return None;
            },
        };
        let interest_per_block = match get_i64(v, "interestPerBlock") {
            Some(x) => x,
            None => {
                return None;
            },
        };
        Some(
            Interest {
                token,
                realized_interest_per_block,
                total_interest,
                interest_per_block,
            },
        )
    }
}

} // verus!
