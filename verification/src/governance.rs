//! Governance proposals and votes.
//!
//! The option objects here omit absent fields altogether instead of
//! writing nulls; their contracts pin both which fields appear and where.

use vstd::prelude::*;

use crate::value::{
    field_bool, field_str, field_u64, get_bool, get_opt_str, get_opt_u64, get_str, get_u64, jv_of_opt_bool, jv_of_opt_str, jv_of_opt_u64, opt_field_str,
    opt_field_u64, opt_str_eq, opt_str_json, opt_u64_json, str_eq, JsonValue,
};

verus! {

#[derive(Debug, PartialEq, Eq, Structural, Clone, Copy)]
pub enum ProposalType {
    CommunityFundProposal,
    VoteOfConfidence,
}

impl ProposalType {
    pub open spec fn spec_token(self) -> Seq<char> {
        match self {
            ProposalType::CommunityFundProposal => "CommunityFundProposal"@,
            ProposalType::VoteOfConfidence => "VoteOfConfidence"@,
        }
    }

    pub open spec fn spec_from_token(s: Seq<char>) -> Option<ProposalType> {
        if s == "CommunityFundProposal"@ {
            Some(ProposalType::CommunityFundProposal)
        } else if s == "VoteOfConfidence"@ {
            Some(ProposalType::VoteOfConfidence)
        } else {
            None
        }
    }

    pub fn wire_token(&self) -> (r: String)
        ensures
            r@ == self.spec_token(),
    {
        match self {
            ProposalType::CommunityFundProposal => "CommunityFundProposal".to_owned(),
            ProposalType::VoteOfConfidence => "VoteOfConfidence".to_owned(),
        }
    }

    pub fn from_wire_token(s: &str) -> (r: Option<ProposalType>)
        ensures
            r == ProposalType::spec_from_token(s@),
    {
        if str_eq(s, "CommunityFundProposal") {
            Some(ProposalType::CommunityFundProposal)
        } else if str_eq(s, "VoteOfConfidence") {
            Some(ProposalType::VoteOfConfidence)
        } else {
            None
        }
    }
}

/// Each proposal type decodes back from exactly its own token.
pub proof fn lemma_proposal_type_round_trip(x: ProposalType)
    ensures
        ProposalType::spec_from_token(x.spec_token()) == Some(x),
{
    reveal_strlit("CommunityFundProposal");
    reveal_strlit("VoteOfConfidence");
    assert("CommunityFundProposal"@.len() == 21);
    assert("VoteOfConfidence"@.len() == 16);
}

#[derive(Debug, PartialEq, Eq, Structural, Clone, Copy)]
pub enum ProposalStatus {
    Voting,
    Rejected,
    Completed,
}

impl ProposalStatus {
    pub open spec fn spec_token(self) -> Seq<char> {
        match self {
            ProposalStatus::Voting => "Voting"@,
            ProposalStatus::Rejected => "Rejected"@,
            ProposalStatus::Completed => "Completed"@,
        }
    }

    pub open spec fn spec_from_token(s: Seq<char>) -> Option<ProposalStatus> {
        if s == "Voting"@ {
            Some(ProposalStatus::Voting)
        } else if s == "Rejected"@ {
            Some(ProposalStatus::Rejected)
        } else if s == "Completed"@ {
            Some(ProposalStatus::Completed)
        } else {
            None
        }
    }

    pub fn wire_token(&self) -> (r: String)
        ensures
            r@ == self.spec_token(),
    {
        match self {
            ProposalStatus::Voting => "Voting".to_owned(),
            ProposalStatus::Rejected => "Rejected".to_owned(),
            ProposalStatus::Completed => "Completed".to_owned(),
        }
    }

    pub fn from_wire_token(s: &str) -> (r: Option<ProposalStatus>)
        ensures
            r == ProposalStatus::spec_from_token(s@),
    {
        if str_eq(s, "Voting") {
            Some(ProposalStatus::Voting)
        } else if str_eq(s, "Rejected") {
            Some(ProposalStatus::Rejected)
        } else if str_eq(s, "Completed") {
            Some(ProposalStatus::Completed)
        } else {
            None
        }
    }
}

/// Each proposal status decodes back from exactly its own token.
pub proof fn lemma_proposal_status_round_trip(x: ProposalStatus)
    ensures
        ProposalStatus::spec_from_token(x.spec_token()) == Some(x),
{
    reveal_strlit("Voting");
    reveal_strlit("Rejected");
    reveal_strlit("Completed");
    assert("Voting"@.len() == 6);
    assert("Rejected"@.len() == 8);
    assert("Completed"@.len() == 9);
}

#[derive(Debug, PartialEq, Eq, Structural, Clone, Copy, Default)]
pub enum ListProposalsType {
    Cfp,
    Voc,
    #[default]
    All,
}

impl ListProposalsType {
    pub open spec fn spec_token(self) -> Seq<char> {
        match self {
            ListProposalsType::Cfp => "cfp"@,
            ListProposalsType::Voc => "voc"@,
            ListProposalsType::All => "all"@,
        }
    }

    pub open spec fn spec_from_token(s: Seq<char>) -> Option<ListProposalsType> {
        if s == "cfp"@ {
            Some(ListProposalsType::Cfp)
        } else if s == "voc"@ {
            Some(ListProposalsType::Voc)
        } else if s == "all"@ {
            Some(ListProposalsType::All)
        } else {
            None
        }
    }

    pub fn wire_token(&self) -> (r: String)
        ensures
            r@ == self.spec_token(),
    {
        match self {
            ListProposalsType::Cfp => "cfp".to_owned(),
            ListProposalsType::Voc => "voc".to_owned(),
            ListProposalsType::All => "all".to_owned(),
        }
    }

    pub fn from_wire_token(s: &str) -> (r: Option<ListProposalsType>)
        ensures
            r == ListProposalsType::spec_from_token(s@),
    {
        if str_eq(s, "cfp") {
            Some(ListProposalsType::Cfp)
        } else if str_eq(s, "voc") {
            Some(ListProposalsType::Voc)
        } else if str_eq(s, "all") {
            Some(ListProposalsType::All)
        } else {
            None
        }
    }
}

/// Each listing filter decodes back from exactly its own token.
pub proof fn lemma_list_proposals_type_round_trip(x: ListProposalsType)
    ensures
        ListProposalsType::spec_from_token(x.spec_token()) == Some(x),
{
    reveal_strlit("cfp");
    reveal_strlit("voc");
    reveal_strlit("all");
    assert("cfp"@[0] == 'c');
    assert("voc"@[0] == 'v');
    assert("all"@[0] == 'a');
    assert("cfp"@.len() == 3);
    assert("voc"@.len() == 3);
    assert("all"@.len() == 3);
}

#[derive(Debug, PartialEq, Eq, Structural, Clone, Copy, Default)]
pub enum ListProposalsStatus {
    Voting,
    Rejected,
    Completed,
    #[default]
    All,
}

impl ListProposalsStatus {
    pub open spec fn spec_token(self) -> Seq<char> {
        match self {
            ListProposalsStatus::Voting => "voting"@,
            ListProposalsStatus::Rejected => "rejected"@,
            ListProposalsStatus::Completed => "completed"@,
            ListProposalsStatus::All => "all"@,
        }
    }

    pub open spec fn spec_from_token(s: Seq<char>) -> Option<ListProposalsStatus> {
        if s == "voting"@ {
            Some(ListProposalsStatus::Voting)
        } else if s == "rejected"@ {
            Some(ListProposalsStatus::Rejected)
        } else if s == "completed"@ {
            Some(ListProposalsStatus::Completed)
        } else if s == "all"@ {
            Some(ListProposalsStatus::All)
        } else {
            None
        }
    }

    pub fn wire_token(&self) -> (r: String)
        ensures
            r@ == self.spec_token(),
    {
        match self {
            ListProposalsStatus::Voting => "voting".to_owned(),
            ListProposalsStatus::Rejected => "rejected".to_owned(),
            ListProposalsStatus::Completed => "completed".to_owned(),
            ListProposalsStatus::All => "all".to_owned(),
        }
    }

    pub fn from_wire_token(s: &str) -> (r: Option<ListProposalsStatus>)
        ensures
            r == ListProposalsStatus::spec_from_token(s@),
    {
        if str_eq(s, "voting") {
            Some(ListProposalsStatus::Voting)
        } else if str_eq(s, "rejected") {
            Some(ListProposalsStatus::Rejected)
        } else if str_eq(s, "completed") {
            Some(ListProposalsStatus::Completed)
        } else if str_eq(s, "all") {
            Some(ListProposalsStatus::All)
        } else {
            None
        }
    }
}

/// Each status filter decodes back from exactly its own token.
pub proof fn lemma_list_proposals_status_round_trip(x: ListProposalsStatus)
    ensures
        ListProposalsStatus::spec_from_token(x.spec_token()) == Some(x),
{
    reveal_strlit("voting");
    reveal_strlit("rejected");
    reveal_strlit("completed");
    reveal_strlit("all");
    assert("voting"@.len() == 6);
    assert("rejected"@.len() == 8);
    assert("completed"@.len() == 9);
    assert("all"@.len() == 3);
}

#[derive(Debug, PartialEq, Eq, Structural, Clone, Copy)]
pub enum VoteDecision {
    Yes,
    No,
    Neutral,
}

impl VoteDecision {
    pub open spec fn spec_token(self) -> Seq<char> {
        match self {
            VoteDecision::Yes => "yes"@,
            VoteDecision::No => "no"@,
            VoteDecision::Neutral => "neutral"@,
        }
    }

    pub open spec fn spec_from_token(s: Seq<char>) -> Option<VoteDecision> {
        if s == "yes"@ {
            Some(VoteDecision::Yes)
        } else if s == "no"@ {
            Some(VoteDecision::No)
        } else if s == "neutral"@ {
            Some(VoteDecision::Neutral)
        } else {
            None
        }
    }

    pub fn wire_token(&self) -> (r: String)
        ensures
            r@ == self.spec_token(),
    {
        match self {
            VoteDecision::Yes => "yes".to_owned(),
            VoteDecision::No => "no".to_owned(),
            VoteDecision::Neutral => "neutral".to_owned(),
        }
    }

    pub fn from_wire_token(s: &str) -> (r: Option<VoteDecision>)
        ensures
            r == VoteDecision::spec_from_token(s@),
    {
        if str_eq(s, "yes") {
            Some(VoteDecision::Yes)
        } else if str_eq(s, "no") {
            Some(VoteDecision::No)
        } else if str_eq(s, "neutral") {
            Some(VoteDecision::Neutral)
        } else {
            None
        }
    }
}

/// Each vote decision decodes back from exactly its own token.
pub proof fn lemma_vote_decision_round_trip(x: VoteDecision)
    ensures
        VoteDecision::spec_from_token(x.spec_token()) == Some(x),
{
    reveal_strlit("yes");
    reveal_strlit("no");
    reveal_strlit("neutral");
    assert("yes"@.len() == 3);
    assert("no"@.len() == 2);
    assert("neutral"@.len() == 7);
}

#[derive(Debug, PartialEq, Eq, Structural, Clone, Copy)]
pub enum VoteResult {
    Yes,
    No,
    Neutral,
    Unknown,
}

impl VoteResult {
    pub open spec fn spec_token(self) -> Seq<char> {
        match self {
            VoteResult::Yes => "YES"@,
            VoteResult::No => "NO"@,
            VoteResult::Neutral => "NEUTRAL"@,
            VoteResult::Unknown => "Unknown"@,
        }
    }

    pub open spec fn spec_from_token(s: Seq<char>) -> Option<VoteResult> {
        if s == "YES"@ {
            Some(VoteResult::Yes)
        } else if s == "NO"@ {
            Some(VoteResult::No)
        } else if s == "NEUTRAL"@ {
            Some(VoteResult::Neutral)
        } else if s == "Unknown"@ {
            Some(VoteResult::Unknown)
        } else {
            None
        }
    }

    pub fn wire_token(&self) -> (r: String)
        ensures
            r@ == self.spec_token(),
    {
        match self {
            VoteResult::Yes => "YES".to_owned(),
            VoteResult::No => "NO".to_owned(),
            VoteResult::Neutral => "NEUTRAL".to_owned(),
            VoteResult::Unknown => "Unknown".to_owned(),
        }
    }

    pub fn from_wire_token(s: &str) -> (r: Option<VoteResult>)
        ensures
            r == VoteResult::spec_from_token(s@),
    {
        if str_eq(s, "YES") {
            Some(VoteResult::Yes)
        } else if str_eq(s, "NO") {
            Some(VoteResult::No)
        } else if str_eq(s, "NEUTRAL") {
            Some(VoteResult::Neutral)
        } else if str_eq(s, "Unknown") {
            Some(VoteResult::Unknown)
        } else {
            None
        }
    }
}

/// Each vote result decodes back from exactly its own token.
pub proof fn lemma_vote_result_round_trip(x: VoteResult)
    ensures
        VoteResult::spec_from_token(x.spec_token()) == Some(x),
{
    reveal_strlit("YES");
    reveal_strlit("NO");
    reveal_strlit("NEUTRAL");
    reveal_strlit("Unknown");
    assert("YES"@.len() == 3);
    assert("NO"@.len() == 2);
    assert("NEUTRAL"@.len() == 7);
    assert("Unknown"@.len() == 7);
    assert("NEUTRAL"@[0] == 'N');
    assert("Unknown"@[0] == 'U');
}

#[derive(Debug, PartialEq, Eq, Structural, Clone, Copy)]
pub enum MasternodeType {
    Mine,
    All,
}

impl MasternodeType {
    pub open spec fn spec_token(self) -> Seq<char> {
        match self {
            MasternodeType::Mine => "mine"@,
            MasternodeType::All => "all"@,
        }
    }

    pub open spec fn spec_from_token(s: Seq<char>) -> Option<MasternodeType> {
        if s == "mine"@ {
            Some(MasternodeType::Mine)
        } else if s == "all"@ {
            Some(MasternodeType::All)
        } else {
            None
        }
    }

    pub fn wire_token(&self) -> (r: String)
        ensures
            r@ == self.spec_token(),
    {
        match self {
            MasternodeType::Mine => "mine".to_owned(),
            MasternodeType::All => "all".to_owned(),
        }
    }

    pub fn from_wire_token(s: &str) -> (r: Option<MasternodeType>)
        ensures
            r == MasternodeType::spec_from_token(s@),
    {
        if str_eq(s, "mine") {
            Some(MasternodeType::Mine)
        } else if str_eq(s, "all") {
            Some(MasternodeType::All)
        } else {
            None
        }
    }
}

/// Each masternode filter decodes back from exactly its own token.
pub proof fn lemma_masternode_type_round_trip(x: MasternodeType)
    ensures
        MasternodeType::spec_from_token(x.spec_token()) == Some(x),
{
    reveal_strlit("mine");
    reveal_strlit("all");
    assert("mine"@.len() == 4);
    assert("all"@.len() == 3);
}

#[derive(Debug, PartialEq)]
pub struct CFPData {
    pub title: String,
    pub context: String,
    pub context_hash: Option<String>,
    pub amount: i64,
    pub payout_address: String,
    pub cycles: Option<u64>,
}

pub open spec fn cfp_data_json(d: CFPData, v: JsonValue) -> bool {
    &&& v matches JsonValue::Obj(fs)
    &&& fs@.len() == 6
    &&& fs@[0].0@ == "title"@
    &&& (fs@[0].1 matches JsonValue::Str(s) && s@ == d.title@)
    &&& fs@[1].0@ == "context"@
    &&& (fs@[1].1 matches JsonValue::Str(s) && s@ == d.context@)
    &&& fs@[2].0@ == "contextHash"@
    &&& opt_str_json(fs@[2].1, d.context_hash)
    &&& fs@[3].0@ == "amount"@
    &&& fs@[3].1 == JsonValue::Int(d.amount)
    &&& fs@[4].0@ == "payoutAddress"@
    &&& (fs@[4].1 matches JsonValue::Str(s) && s@ == d.payout_address@)
    &&& fs@[5].0@ == "cycles"@
    &&& opt_u64_json(fs@[5].1, d.cycles)
}

impl CFPData {
    pub fn to_json(&self) -> (r: JsonValue)
        ensures
            cfp_data_json(*self, r),
    {
        let mut fs: Vec<(String, JsonValue)> = Vec::new();
        fs.push(("title".to_owned(), JsonValue::Str(self.title.clone())));
        fs.push(("context".to_owned(), JsonValue::Str(self.context.clone())));
        fs.push(("contextHash".to_owned(), jv_of_opt_str(&self.context_hash)));
        fs.push(("amount".to_owned(), JsonValue::Int(self.amount)));
        fs.push(("payoutAddress".to_owned(), JsonValue::Str(self.payout_address.clone())));
        fs.push(("cycles".to_owned(), jv_of_opt_u64(&self.cycles)));
        JsonValue::Obj(fs)
    }
}

#[derive(Debug, PartialEq)]
pub struct VOCData {
    pub title: String,
    pub context: String,
    pub context_hash: Option<String>,
    pub emergency: Option<bool>,
}

pub open spec fn voc_data_json(d: VOCData, v: JsonValue) -> bool {
    &&& v matches JsonValue::Obj(fs)
    &&& fs@.len() == 4
    &&& fs@[0].0@ == "title"@
    &&& (fs@[0].1 matches JsonValue::Str(s) && s@ == d.title@)
    &&& fs@[1].0@ == "context"@
    &&& (fs@[1].1 matches JsonValue::Str(s) && s@ == d.context@)
    &&& fs@[2].0@ == "contextHash"@
    &&& opt_str_json(fs@[2].1, d.context_hash)
    &&& fs@[3].0@ == "emergency"@
    &&& crate::value::opt_bool_json(fs@[3].1, d.emergency)
}

impl VOCData {
    pub fn to_json(&self) -> (r: JsonValue)
        ensures
            voc_data_json(*self, r),
    {
        let mut fs: Vec<(String, JsonValue)> = Vec::new();
        fs.push(("title".to_owned(), JsonValue::Str(self.title.clone())));
        fs.push(("context".to_owned(), JsonValue::Str(self.context.clone())));
        fs.push(("contextHash".to_owned(), jv_of_opt_str(&self.context_hash)));
        fs.push(("emergency".to_owned(), jv_of_opt_bool(&self.emergency)));
        JsonValue::Obj(fs)
    }
}

#[derive(Debug, PartialEq)]
pub struct VoteData {
    pub proposal_id: String,
    pub masternode_id: String,
    pub decision: VoteDecision,
}

pub open spec fn vote_data_json(d: VoteData, v: JsonValue) -> bool {
    &&& v matches JsonValue::Obj(fs)
    &&& fs@.len() == 3
    &&& fs@[0].0@ == "proposalId"@
    &&& (fs@[0].1 matches JsonValue::Str(s) && s@ == d.proposal_id@)
    &&& fs@[1].0@ == "masternodeId"@
    &&& (fs@[1].1 matches JsonValue::Str(s) && s@ == d.masternode_id@)
    &&& fs@[2].0@ == "decision"@
    &&& (fs@[2].1 matches JsonValue::Str(t) && t@ == d.decision.spec_token())
}

impl VoteData {
    pub fn to_json(&self) -> (r: JsonValue)
        ensures
            vote_data_json(*self, r),
    {
        let mut fs: Vec<(String, JsonValue)> = Vec::new();
        fs.push(("proposalId".to_owned(), JsonValue::Str(self.proposal_id.clone())));
        fs.push(("masternodeId".to_owned(), JsonValue::Str(self.masternode_id.clone())));
        fs.push(("decision".to_owned(), JsonValue::Str(self.decision.wire_token())));
        JsonValue::Obj(fs)
    }
}

#[derive(Debug, PartialEq)]
pub struct ListVotesResult {
    pub proposal_id: String,
    pub masternode_id: String,
    pub cycle: u64,
    pub vote: VoteResult,
    pub valid: bool,
}

pub open spec fn list_votes_result_shaped(v: JsonValue) -> bool {
    &&& field_str(v, "proposalId"@) is Some
    &&& field_str(v, "masternodeId"@) is Some
    &&& field_u64(v, "cycle"@) is Some
    &&& (field_str(v, "vote"@) matches Some(t) && VoteResult::spec_from_token(t@) is Some)
    &&& field_bool(v, "valid"@) is Some
}

pub open spec fn list_votes_result_fields(d: ListVotesResult, v: JsonValue) -> bool {
    &&& (field_str(v, "proposalId"@) matches Some(s) && d.proposal_id@ == s@)
    &&& (field_str(v, "masternodeId"@) matches Some(s) && d.masternode_id@ == s@)
    &&& field_u64(v, "cycle"@) == Some(d.cycle)
    &&& (field_str(v, "vote"@) matches Some(t) && VoteResult::spec_from_token(t@) == Some(d.vote))
    &&& field_bool(v, "valid"@) == Some(d.valid)
}

impl ListVotesResult {
    pub fn from_json(v: &JsonValue) -> (r: Option<ListVotesResult>)
        ensures
            r is Some <==> list_votes_result_shaped(*v),
            r matches Some(d) ==> list_votes_result_fields(d, *v),
    {
        let proposal_id = match get_str(v, "proposalId") {
            Some(s) => s,
            None => {
                return None;
            },
        };
        let masternode_id = match get_str(v, "masternodeId") {
            Some(s) => s,
            None => {
                return None;
            },
        };
        let cycle = match get_u64(v, "cycle") {
            Some(x) => x,
            None => {
                return None;
            },
        };
        let vote_tok = match get_str(v, "vote") {
            Some(s) => s,
            None => {
                return None;
            },
        };
        let vote = match VoteResult::from_wire_token(vote_tok.as_str()) {
            Some(x) => x,
            None => {
                return None;
            },
        };
        let valid = match get_bool(v, "valid") {
            Some(x) => x,
            None => {
                return None;
            },
        };
        Some(ListVotesResult { proposal_id, masternode_id, cycle, vote, valid })
    }
}

/// Pagination for proposal listings; absent fields are omitted from the
/// encoded object.
#[derive(Debug, PartialEq, Default)]
pub struct ListProposalsPagination {
    pub start: Option<String>,
    pub including_start: Option<bool>,
    pub limit: Option<u64>,
}

pub open spec fn list_proposals_pagination_json(d: ListProposalsPagination, v: JsonValue) -> bool {
    let n0: int = if d.start is Some {
        1int
    } else {
        0int
    };
    let n1: int = n0 + if d.including_start is Some {
        1int
    } else {
        0int
    };
    let n2: int = n1 + if d.limit is Some {
        1int
    } else {
        0int
    };
    &&& v matches JsonValue::Obj(fs)
    &&& fs@.len() == n2
    &&& (d.start matches Some(s) ==> fs@[0].0@ == "start"@ && (fs@[0].1 matches JsonValue::Str(t)
        && t@ == s@))
    &&& (d.including_start matches Some(b) ==> fs@[n0].0@ == "including_start"@ && fs@[n0].1
        == JsonValue::Bool(b))
    &&& (d.limit matches Some(u) ==> fs@[n1].0@ == "limit"@ && fs@[n1].1 == JsonValue::UInt(u))
}

impl ListProposalsPagination {
    pub fn to_json(&self) -> (r: JsonValue)
        ensures
            list_proposals_pagination_json(*self, r),
    {
        let mut fs: Vec<(String, JsonValue)> = Vec::new();
        if let Some(s) = &self.start {
            fs.push(("start".to_owned(), JsonValue::Str(s.clone())));
        }
        if let Some(b) = &self.including_start {
            fs.push(("including_start".to_owned(), JsonValue::Bool(*b)));
        }
        if let Some(u) = &self.limit {
            fs.push(("limit".to_owned(), JsonValue::UInt(*u)));
        }
        JsonValue::Obj(fs)
    }
}

/// Filter options for proposal listings; absent fields are omitted.
#[derive(Debug, PartialEq, Default)]
pub struct ListProposalsOptions {
    pub kind: Option<ListProposalsType>,
    pub status: Option<ListProposalsStatus>,
    pub cycle: Option<i64>,
    pub pagination: Option<ListProposalsPagination>,
}

pub open spec fn list_proposals_options_json(d: ListProposalsOptions, v: JsonValue) -> bool {
    let n0: int = if d.kind is Some {
        1int
    } else {
        0int
    };
    let n1: int = n0 + if d.status is Some {
        1int
    } else {
        0int
    };
    let n2: int = n1 + if d.cycle is Some {
        1int
    } else {
        0int
    };
    let n3: int = n2 + if d.pagination is Some {
        1int
    } else {
        0int
    };
    &&& v matches JsonValue::Obj(fs)
    &&& fs@.len() == n3
    &&& (d.kind matches Some(k) ==> fs@[0].0@ == "type"@ && (fs@[0].1 matches JsonValue::Str(t)
        && t@ == k.spec_token()))
    &&& (d.status matches Some(st) ==> fs@[n0].0@ == "status"@ && (fs@[n0].1
        matches JsonValue::Str(t) && t@ == st.spec_token()))
    &&& (d.cycle matches Some(c) ==> fs@[n1].0@ == "cycle"@ && fs@[n1].1 == JsonValue::Int(c))
    &&& (d.pagination matches Some(p) ==> fs@[n2].0@ == "pagination"@
        && list_proposals_pagination_json(p, fs@[n2].1))
}

impl ListProposalsOptions {
    pub fn to_json(&self) -> (r: JsonValue)
        ensures
            list_proposals_options_json(*self, r),
    {
        let mut fs: Vec<(String, JsonValue)> = Vec::new();
        if let Some(k) = &self.kind {
            fs.push(("type".to_owned(), JsonValue::Str(k.wire_token())));
        }
        if let Some(st) = &self.status {
            fs.push(("status".to_owned(), JsonValue::Str(st.wire_token())));
        }
        if let Some(c) = &self.cycle {
            fs.push(("cycle".to_owned(), JsonValue::Int(*c)));
        }
        if let Some(p) = &self.pagination {
            fs.push(("pagination".to_owned(), p.to_json()));
        }
        JsonValue::Obj(fs)
    }
}

/// Pagination for vote listings; absent fields are omitted.
#[derive(Debug, PartialEq, Default)]
pub struct ListGovProposalVotesPagination {
    pub start: Option<u64>,
    pub including_start: Option<bool>,
    pub limit: Option<u64>,
}

pub open spec fn list_gov_proposal_votes_pagination_json(
    d: ListGovProposalVotesPagination,
    v: JsonValue,
) -> bool {
    let n0: int = if d.start is Some {
        1int
    } else {
        0int
    };
    let n1: int = n0 + if d.including_start is Some {
        1int
    } else {
        0int
    };
    let n2: int = n1 + if d.limit is Some {
        1int
    } else {
        0int
    };
    &&& v matches JsonValue::Obj(fs)
    &&& fs@.len() == n2
    &&& (d.start matches Some(s) ==> fs@[0].0@ == "start"@ && fs@[0].1 == JsonValue::UInt(s))
    &&& (d.including_start matches Some(b) ==> fs@[n0].0@ == "including_start"@ && fs@[n0].1
        == JsonValue::Bool(b))
    &&& (d.limit matches Some(u) ==> fs@[n1].0@ == "limit"@ && fs@[n1].1 == JsonValue::UInt(u))
}

impl ListGovProposalVotesPagination {
    pub fn to_json(&self) -> (r: JsonValue)
        ensures
            list_gov_proposal_votes_pagination_json(*self, r),
    {
        let mut fs: Vec<(String, JsonValue)> = Vec::new();
        if let Some(s) = &self.start {
            fs.push(("start".to_owned(), JsonValue::UInt(*s)));
        }
        if let Some(b) = &self.including_start {
            fs.push(("including_start".to_owned(), JsonValue::Bool(*b)));
        }
        if let Some(u) = &self.limit {
            fs.push(("limit".to_owned(), JsonValue::UInt(*u)));
        }
        JsonValue::Obj(fs)
    }
}

/// Filter options for vote listings; absent fields are omitted.  The
/// proposal id is kept as its hex text.
#[derive(Debug, PartialEq, Default)]
pub struct ListGovProposalVotesOptions {
    pub proposal_id: Option<String>,
    pub masternode: Option<String>,
    pub cycle: Option<i64>,
    pub pagination: Option<ListGovProposalVotesPagination>,
    pub aggregate: Option<bool>,
    pub valid: Option<bool>,
}

pub open spec fn list_gov_proposal_votes_options_json(
    d: ListGovProposalVotesOptions,
    v: JsonValue,
) -> bool {
    let n0: int = if d.proposal_id is Some {
        1int
    } else {
        0int
    };
    let n1: int = n0 + if d.masternode is Some {
        1int
    } else {
        0int
    };
    let n2: int = n1 + if d.cycle is Some {
        1int
    } else {
        0int
    };
    let n3: int = n2 + if d.pagination is Some {
        1int
    } else {
        0int
    };
    let n4: int = n3 + if d.aggregate is Some {
        1int
    } else {
        0int
    };
    let n5: int = n4 + if d.valid is Some {
        1int
    } else {
        0int
    };
    &&& v matches JsonValue::Obj(fs)
    &&& fs@.len() == n5
    &&& (d.proposal_id matches Some(s) ==> fs@[0].0@ == "proposalId"@ && (fs@[0].1
        matches JsonValue::Str(t) && t@ == s@))
    &&& (d.masternode matches Some(s) ==> fs@[n0].0@ == "masternode"@ && (fs@[n0].1
        matches JsonValue::Str(t) && t@ == s@))
    &&& (d.cycle matches Some(c) ==> fs@[n1].0@ == "cycle"@ && fs@[n1].1 == JsonValue::Int(c))
    &&& (d.pagination matches Some(p) ==> fs@[n2].0@ == "pagination"@
        && list_gov_proposal_votes_pagination_json(p, fs@[n2].1))
    &&& (d.aggregate matches Some(b) ==> fs@[n3].0@ == "aggregate"@ && fs@[n3].1
        == JsonValue::Bool(b))
    &&& (d.valid matches Some(b) ==> fs@[n4].0@ == "valid"@ && fs@[n4].1 == JsonValue::Bool(b))
}

impl ListGovProposalVotesOptions {
    pub fn to_json(&self) -> (r: JsonValue)
        ensures
            list_gov_proposal_votes_options_json(*self, r),
    {
        let mut fs: Vec<(String, JsonValue)> = Vec::new();
        if let Some(s) = &self.proposal_id {
            fs.push(("proposalId".to_owned(), JsonValue::Str(s.clone())));
        }
        if let Some(s) = &self.masternode {
            fs.push(("masternode".to_owned(), JsonValue::Str(s.clone())));
        }
        if let Some(c) = &self.cycle {
            fs.push(("cycle".to_owned(), JsonValue::Int(*c)));
        }
        if let Some(p) = &self.pagination {
            fs.push(("pagination".to_owned(), p.to_json()));
        }
        if let Some(b) = &self.aggregate {
            fs.push(("aggregate".to_owned(), JsonValue::Bool(*b)));
        }
        if let Some(b) = &self.valid {
            fs.push(("valid".to_owned(), JsonValue::Bool(*b)));
        }
        JsonValue::Obj(fs)
    }
}

/// A proposal as the node reports it.  Amounts and fees the node sends as
/// JSON numbers keep their decimal text.
#[derive(Debug, PartialEq)]
pub struct ProposalInfo {
    pub proposal_id: String,
    pub title: String,
    pub context: String,
    pub context_hash: String,
    pub kind: ProposalType,
    pub status: ProposalStatus,
    pub amount: Option<String>,
    pub current_cycle: u64,
    pub total_cycles: u64,
    pub creation_height: u64,
    pub cycle_end_height: u64,
    pub proposal_end_height: u64,
    pub payout_address: Option<String>,
    pub voting_period: u64,
    pub approval_threshold: String,
    pub quorum: String,
    pub votes_possible: Option<u64>,
    pub votes_present: Option<u64>,
    pub votes_present_pct: Option<String>,
    pub votes_yes: Option<u64>,
    pub votes_invalid: Option<u64>,
    pub votes_neutral: Option<u64>,
    pub votes_no: Option<u64>,
    pub votes_yes_pct: Option<String>,
    pub fee: String,
    pub options: Option<Vec<String>>,
    pub fee_redistribution_per_vote: Option<String>,
    pub fee_redistribution_total: Option<String>,
}

pub open spec fn proposal_info_shaped(v: JsonValue) -> bool {
    &&& field_str(v, "proposalId"@) is Some
    &&& field_str(v, "title"@) is Some
    &&& field_str(v, "context"@) is Some
    &&& field_str(v, "contextHash"@) is Some
    &&& (field_str(v, "type"@) matches Some(t) && ProposalType::spec_from_token(t@) is Some)
    &&& (field_str(v, "status"@) matches Some(t) && ProposalStatus::spec_from_token(t@) is Some)
    &&& crate::value::opt_numtext_ok(v, "amount"@)
    &&& field_u64(v, "currentCycle"@) is Some
    &&& field_u64(v, "totalCycles"@) is Some
    &&& field_u64(v, "creationHeight"@) is Some
    &&& field_u64(v, "cycleEndHeight"@) is Some
    &&& field_u64(v, "proposalEndHeight"@) is Some
    &&& opt_field_str(v, "payoutAddress"@) is Some
    &&& field_u64(v, "votingPeriod"@) is Some
    &&& field_str(v, "approvalThreshold"@) is Some
    &&& field_str(v, "quorum"@) is Some
    &&& opt_field_u64(v, "votesPossible"@) is Some
    &&& opt_field_u64(v, "votesPresent"@) is Some
    &&& opt_field_str(v, "votesPresentPct"@) is Some
    &&& opt_field_u64(v, "votesYes"@) is Some
    &&& opt_field_u64(v, "votesInvalid"@) is Some
    &&& opt_field_u64(v, "votesNeutral"@) is Some
    &&& opt_field_u64(v, "votesNo"@) is Some
    &&& opt_field_str(v, "votesYesPct"@) is Some
    &&& crate::value::field_numtext(v, "fee"@) is Some
    &&& crate::value::opt_strvec_ok(v, "options"@)
    &&& crate::value::opt_numtext_ok(v, "feeRedistributionPerVote"@)
    &&& crate::value::opt_numtext_ok(v, "feeRedistributionTotal"@)
}

pub open spec fn proposal_info_fields(d: ProposalInfo, v: JsonValue) -> bool {
    &&& (field_str(v, "proposalId"@) matches Some(s) && d.proposal_id@ == s@)
    &&& (field_str(v, "title"@) matches Some(s) && d.title@ == s@)
    &&& (field_str(v, "context"@) matches Some(s) && d.context@ == s@)
    &&& (field_str(v, "contextHash"@) matches Some(s) && d.context_hash@ == s@)
    &&& (field_str(v, "type"@) matches Some(t) && ProposalType::spec_from_token(t@) == Some(
        d.kind,
    ))
    &&& (field_str(v, "status"@) matches Some(t) && ProposalStatus::spec_from_token(t@) == Some(
        d.status,
    ))
    &&& crate::value::opt_numtext_val(
        v,
        "amount"@,
        match d.amount {
            None => None,
            Some(s) => Some(s@),
        },
    )
    &&& field_u64(v, "currentCycle"@) == Some(d.current_cycle)
    &&& field_u64(v, "totalCycles"@) == Some(d.total_cycles)
    &&& field_u64(v, "creationHeight"@) == Some(d.creation_height)
    &&& field_u64(v, "cycleEndHeight"@) == Some(d.cycle_end_height)
    &&& field_u64(v, "proposalEndHeight"@) == Some(d.proposal_end_height)
    &&& (opt_field_str(v, "payoutAddress"@) matches Some(o) && opt_str_eq(d.payout_address, o))
    &&& field_u64(v, "votingPeriod"@) == Some(d.voting_period)
    &&& (field_str(v, "approvalThreshold"@) matches Some(s) && d.approval_threshold@ == s@)
    &&& (field_str(v, "quorum"@) matches Some(s) && d.quorum@ == s@)
    &&& opt_field_u64(v, "votesPossible"@) == Some(d.votes_possible)
    &&& opt_field_u64(v, "votesPresent"@) == Some(d.votes_present)
    &&& (opt_field_str(v, "votesPresentPct"@) matches Some(o) && opt_str_eq(
        d.votes_present_pct,
        o,
    ))
    &&& opt_field_u64(v, "votesYes"@) == Some(d.votes_yes)
    &&& opt_field_u64(v, "votesInvalid"@) == Some(d.votes_invalid)
    &&& opt_field_u64(v, "votesNeutral"@) == Some(d.votes_neutral)
    &&& opt_field_u64(v, "votesNo"@) == Some(d.votes_no)
    &&& (opt_field_str(v, "votesYesPct"@) matches Some(o) && opt_str_eq(d.votes_yes_pct, o))
    &&& crate::value::field_numtext(v, "fee"@) == Some(d.fee@)
    &&& crate::value::opt_strvec_val(
        v,
        "options"@,
        match d.options {
            None => None,
            Some(ss) => Some(ss.deep_view()),
        },
    )
    &&& crate::value::opt_numtext_val(
        v,
        "feeRedistributionPerVote"@,
        match d.fee_redistribution_per_vote {
            None => None,
            Some(s) => Some(s@),
        },
    )
    &&& crate::value::opt_numtext_val(
        v,
        "feeRedistributionTotal"@,
        match d.fee_redistribution_total {
            None => None,
            Some(s) => Some(s@),
        },
    )
}

impl ProposalInfo {
    pub fn from_json(v: &JsonValue) -> (r: Option<ProposalInfo>)
        ensures
            r is Some <==> proposal_info_shaped(*v),
            r matches Some(d) ==> proposal_info_fields(d, *v),
    {
        let proposal_id = match get_str(v, "proposalId") {
            Some(s) => s,
            None => {
                return None;
            },
        };
        let title = match get_str(v, "title") {
            Some(s) => s,
            None => {
                return None;
            },
        };
        let context = match get_str(v, "context") {
            Some(s) => s,
            None => {
                return None;
            },
        };
        let context_hash = match get_str(v, "contextHash") {
            Some(s) => s,
            None => {
                return None;
            },
        };
        let kind_tok = match get_str(v, "type") {
            Some(s) => s,
            None => {
                return None;
            },
        };
        let kind = match ProposalType::from_wire_token(kind_tok.as_str()) {
            Some(x) => x,
            None => {
                return None;
            },
        };
        let status_tok = match get_str(v, "status") {
            Some(s) => s,
            None => {
                return None;
            },
        };
        let status = match ProposalStatus::from_wire_token(status_tok.as_str()) {
            Some(x) => x,
            None => {
                return None;
            },
        };
        let amount = match crate::value::get_opt_numtext(v, "amount") {
            Some(x) => x,
            None => {
                return None;
            },
        };
        let current_cycle = match get_u64(v, "currentCycle") {
            Some(x) => x,
            None => {
                return None;
            },
        };
        let total_cycles = match get_u64(v, "totalCycles") {
            Some(x) => x,
            None => {
                return None;
            },
        };
        let creation_height = match get_u64(v, "creationHeight") {
            Some(x) => x,
            None => {
                return None;
            },
        };
        let cycle_end_height = match get_u64(v, "cycleEndHeight") {
            Some(x) => x,
            None => {
                return None;
            },
        };
        let proposal_end_height = match get_u64(v, "proposalEndHeight") {
            Some(x) => x,
            None => {
                return None;
            },
        };
        let payout_address = match get_opt_str(v, "payoutAddress") {
            Some(x) => x,
            None => {
                return None;
            },
        };
        let voting_period = match get_u64(v, "votingPeriod") {
            Some(x) => x,
            None => {
                return None;
            },
        };
        let approval_threshold = match get_str(v, "approvalThreshold") {
            Some(s) => s,
            None => {
                return None;
            },
        };
        let quorum = match get_str(v, "quorum") {
            Some(s) => s,
            None => {
                return None;
            },
        };
        let votes_possible = match get_opt_u64(v, "votesPossible") {
            Some(x) => x,
            None => {
                return None;
            },
        };
        let votes_present = match get_opt_u64(v, "votesPresent") {
            Some(x) => x,
            None => {
                return None;
            },
        };
        let votes_present_pct = match get_opt_str(v, "votesPresentPct") {
            Some(x) => x,
            None => {
                return None;
            },
        };
        let votes_yes = match get_opt_u64(v, "votesYes") {
            Some(x) => x,
            None => {
                return None;
            },
        };
        let votes_invalid = match get_opt_u64(v, "votesInvalid") {
            Some(x) => x,
            None => {
                return None;
            },
        };
        let votes_neutral = match get_opt_u64(v, "votesNeutral") {
            Some(x) => x,
            None => {
                return None;
            },
        };
        let votes_no = match get_opt_u64(v, "votesNo") {
            Some(x) => x,
            None => {
                return None;
            },
        };
        let votes_yes_pct = match get_opt_str(v, "votesYesPct") {
            Some(x) => x,
            None => {
                return None;
            },
        };
        let fee = match crate::value::get_numtext(v, "fee") {
            Some(x) => x,
            None => {
                return None;
            },
        };
        let options = match crate::value::get_opt_str_vec(v, "options") {
            Some(x) => x,
            None => {
                return None;
            },
        };
        let fee_redistribution_per_vote = match crate::value::get_opt_numtext(
            v,
            "feeRedistributionPerVote",
        ) {
            Some(x) => x,
            None => {
                return None;
            },
        };
        let fee_redistribution_total = match crate::value::get_opt_numtext(
            v,
            "feeRedistributionTotal",
        ) {
            Some(x) => x,
            None => {
                return None;
            },
        };
        Some(
            ProposalInfo {
                proposal_id,
                title,
                context,
                context_hash,
                kind,
                status,
                amount,
                current_cycle,
                total_cycles,
                creation_height,
                cycle_end_height,
                proposal_end_height,
                payout_address,
                voting_period,
                approval_threshold,
                quorum,
                votes_possible,
                votes_present,
                votes_present_pct,
                votes_yes,
                votes_invalid,
                votes_neutral,
                votes_no,
                votes_yes_pct,
                fee,
                options,
                fee_redistribution_per_vote,
                fee_redistribution_total,
            },
        )
    }
}

} // verus!
