//! Bindings for the governance methods.

use vstd::prelude::*;

use crate::envelope::{decode_envelope, spec_decode_envelope, RpcError, RpcRequest};
use crate::governance::{
    list_gov_proposal_votes_options_json, list_proposals_options_json, proposal_info_fields,
    proposal_info_shaped, ListGovProposalVotesOptions, ListProposalsOptions, ProposalInfo,
};
use crate::value::JsonValue;

verus! {

pub fn get_gov_proposal_request(proposal_id: &str) -> (r: RpcRequest)
    ensures
        r.method@ == "getgovproposal"@,
        r.params@.len() == 1,
        (r.params@[0] matches JsonValue::Str(s) && s@ == proposal_id@),
{
    let mut params: Vec<JsonValue> = Vec::new();
    params.push(JsonValue::Str(proposal_id.to_owned()));
    RpcRequest { method: "getgovproposal".to_owned(), params }
}

/// Decode the reply to a proposal fetch.
pub fn get_gov_proposal_response(envelope: JsonValue) -> (r: Result<ProposalInfo, RpcError>)
    ensures
        (match spec_decode_envelope(envelope) {
            Err(e) => r == Err::<ProposalInfo, RpcError>(e),
            Ok(res) => match r {
                Ok(d) => proposal_info_shaped(res) && proposal_info_fields(d, res),
                Err(e) => e == RpcError::Decode && !proposal_info_shaped(res),
            },
        }),
{
    match decode_envelope(envelope) {
        Err(e) => Err(e),
        Ok(res) => match ProposalInfo::from_json(&res) {
            Some(d) => Ok(d),
            None => Err(RpcError::Decode),
        },
    }
}

pub fn list_gov_proposals_request(opts: &Option<ListProposalsOptions>) -> (r: RpcRequest)
    ensures
        r.method@ == "listgovproposals"@,
        r.params@.len() == 1,
        (match *opts {
            None => r.params@[0] is Null,
            Some(o) => list_proposals_options_json(o, r.params@[0]),
        }),
{
    let arg = match opts {
        None => JsonValue::Null,
        Some(o) => o.to_json(),
    };
    let mut params: Vec<JsonValue> = Vec::new();
    params.push(arg);
    RpcRequest { method: "listgovproposals".to_owned(), params }
}

pub fn list_gov_proposal_votes_request(opts: &Option<ListGovProposalVotesOptions>) -> (r:
    RpcRequest)
    ensures
        r.method@ == "listgovproposalvotes"@,
        r.params@.len() == 1,
        (match *opts {
            None => r.params@[0] is Null,
            Some(o) => list_gov_proposal_votes_options_json(o, r.params@[0]),
        }),
{
    let arg = match opts {
        None => JsonValue::Null,
        Some(o) => o.to_json(),
    };
    let mut params: Vec<JsonValue> = Vec::new();
    params.push(arg);
    RpcRequest { method: "listgovproposalvotes".to_owned(), params }
}

} // verus!
