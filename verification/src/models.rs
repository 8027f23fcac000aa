//! The entities of a snapshot, each with its mathematical view.
//!
//! No entity refers to another: what ties a proposal to its fund, or a vote
//! plan to its fund, are copied identifiers and timestamps.

use crate::text::{is_split, split, texts};
use vstd::prelude::*;

verus! {

/// The views of the entities that a vector holds, in order.
pub open spec fn views<T: View>(items: Seq<T>) -> Seq<T::V> {
    Seq::new(items.len(), |i: int| items[i]@)
}

/// The on-chain voting schedule that backs a fund and its proposals.
#[derive(Debug, PartialEq, Eq)]
pub struct Voteplan {
    pub id: i32,
    pub chain_voteplan_id: String,
    pub chain_vote_start_time: i64,
    pub chain_vote_end_time: i64,
    pub chain_committee_end_time: i64,
    pub chain_voteplan_payload: String,
    pub chain_vote_encryption_key: String,
    pub fund_id: i32,
}

pub struct VoteplanView {
    pub id: int,
    pub chain_voteplan_id: Seq<char>,
    pub chain_vote_start_time: int,
    pub chain_vote_end_time: int,
    pub chain_committee_end_time: int,
    pub chain_voteplan_payload: Seq<char>,
    pub chain_vote_encryption_key: Seq<char>,
    pub fund_id: int,
}

impl View for Voteplan {
    type V = VoteplanView;

    open spec fn view(&self) -> VoteplanView {
        VoteplanView {
            id: self.id as int,
            chain_voteplan_id: self.chain_voteplan_id@,
            chain_vote_start_time: self.chain_vote_start_time as int,
            chain_vote_end_time: self.chain_vote_end_time as int,
            chain_committee_end_time: self.chain_committee_end_time as int,
            chain_voteplan_payload: self.chain_voteplan_payload@,
            chain_vote_encryption_key: self.chain_vote_encryption_key@,
            fund_id: self.fund_id as int,
        }
    }
}

impl Clone for Voteplan {
    fn clone(&self) -> (copy: Self)
        ensures
            copy@ == self@,
    {
        Voteplan {
            id: self.id,
            chain_voteplan_id: self.chain_voteplan_id.clone(),
            chain_vote_start_time: self.chain_vote_start_time,
            chain_vote_end_time: self.chain_vote_end_time,
            chain_committee_end_time: self.chain_committee_end_time,
            chain_voteplan_payload: self.chain_voteplan_payload.clone(),
            chain_vote_encryption_key: self.chain_vote_encryption_key.clone(),
            fund_id: self.fund_id,
        }
    }
}

/// A funding round: its window of three timestamps and the vote plans that
/// carry its identifier.
#[derive(Debug, PartialEq, Eq)]
pub struct Fund {
    pub id: i32,
    pub fund_name: String,
    pub fund_goal: String,
    pub voting_power_info: String,
    pub voting_power_threshold: i64,
    pub rewards_info: String,
    pub fund_start_time: i64,
    pub fund_end_time: i64,
    pub next_fund_start_time: i64,
    pub chain_vote_plans: Vec<Voteplan>,
}

pub struct FundView {
    pub id: int,
    pub fund_name: Seq<char>,
    pub fund_goal: Seq<char>,
    pub voting_power_info: Seq<char>,
    pub voting_power_threshold: int,
    pub rewards_info: Seq<char>,
    pub fund_start_time: int,
    pub fund_end_time: int,
    pub next_fund_start_time: int,
    pub chain_vote_plans: Seq<VoteplanView>,
}

impl View for Fund {
    type V = FundView;

    open spec fn view(&self) -> FundView {
        FundView {
            id: self.id as int,
            fund_name: self.fund_name@,
            fund_goal: self.fund_goal@,
            voting_power_info: self.voting_power_info@,
            voting_power_threshold: self.voting_power_threshold as int,
            rewards_info: self.rewards_info@,
            fund_start_time: self.fund_start_time as int,
            fund_end_time: self.fund_end_time as int,
            next_fund_start_time: self.next_fund_start_time as int,
            chain_vote_plans: views(self.chain_vote_plans@),
        }
    }
}

impl Clone for Fund {
    fn clone(&self) -> (copy: Self)
        ensures
            copy@ == self@,
    {
        let chain_vote_plans = self.chain_vote_plans.clone();
        assert(views(chain_vote_plans@) =~= views(self.chain_vote_plans@));
        Fund {
            id: self.id,
            fund_name: self.fund_name.clone(),
            fund_goal: self.fund_goal.clone(),
            voting_power_info: self.voting_power_info.clone(),
            voting_power_threshold: self.voting_power_threshold,
            rewards_info: self.rewards_info.clone(),
            fund_start_time: self.fund_start_time,
            fund_end_time: self.fund_end_time,
            next_fund_start_time: self.next_fund_start_time,
            chain_vote_plans,
        }
    }
}

/// Who submitted a proposal. Purely descriptive.
#[derive(Debug, PartialEq, Eq)]
pub struct Proposer {
    pub proposer_name: String,
    pub proposer_email: String,
    pub proposer_url: String,
    pub proposer_relevant_experience: String,
}

pub struct ProposerView {
    pub proposer_name: Seq<char>,
    pub proposer_email: Seq<char>,
    pub proposer_url: Seq<char>,
    pub proposer_relevant_experience: Seq<char>,
}

impl View for Proposer {
    type V = ProposerView;

    open spec fn view(&self) -> ProposerView {
        ProposerView {
            proposer_name: self.proposer_name@,
            proposer_email: self.proposer_email@,
            proposer_url: self.proposer_url@,
            proposer_relevant_experience: self.proposer_relevant_experience@,
        }
    }
}

impl Clone for Proposer {
    fn clone(&self) -> (copy: Self)
        ensures
            copy@ == self@,
    {
        Proposer {
            proposer_name: self.proposer_name.clone(),
            proposer_email: self.proposer_email.clone(),
            proposer_url: self.proposer_url.clone(),
            proposer_relevant_experience: self.proposer_relevant_experience.clone(),
        }
    }
}

/// The category of a proposal. Its identifier is left empty: no taxonomy
/// backs it.
#[derive(Debug, PartialEq, Eq)]
pub struct Category {
    pub category_id: String,
    pub category_name: String,
    pub category_description: String,
}

pub struct CategoryView {
    pub category_id: Seq<char>,
    pub category_name: Seq<char>,
    pub category_description: Seq<char>,
}

impl View for Category {
    type V = CategoryView;

    open spec fn view(&self) -> CategoryView {
        CategoryView {
            category_id: self.category_id@,
            category_name: self.category_name@,
            category_description: self.category_description@,
        }
    }
}

impl Clone for Category {
    fn clone(&self) -> (copy: Self)
        ensures
            copy@ == self@,
    {
        Category {
            category_id: self.category_id.clone(),
            category_name: self.category_name.clone(),
            category_description: self.category_description.clone(),
        }
    }
}

/// The choices of a vote, in order: the place of a choice is its number on
/// the ballot.
#[derive(Debug, PartialEq, Eq)]
pub struct VoteOptions(pub Vec<String>);

impl View for VoteOptions {
    type V = Seq<Seq<char>>;

    open spec fn view(&self) -> Seq<Seq<char>> {
        texts(self.0@)
    }
}

impl Clone for VoteOptions {
    fn clone(&self) -> (copy: Self)
        ensures
            copy@ == self@,
    {
        let choices = self.0.clone();
        assert(texts(choices@) =~= texts(self.0@));
        VoteOptions(choices)
    }
}

impl VoteOptions {
    /// Reads the choices from a list separated by commas: the text is cut at
    /// every comma and nothing is trimmed.
    pub fn parse_coma_separated_value(csv: &str) -> (options: VoteOptions)
        ensures
            is_split(options@, csv@, ','),
    {
        VoteOptions(split(csv, ','))
    }
}

/// A submission that competes for the money of a fund. Its `chain_*` fields
/// about the vote plan are copies of what the fund's vote plan holds.
#[derive(Debug, PartialEq, Eq)]
pub struct Proposal {
    pub internal_id: i32,
    pub proposal_id: String,
    pub proposal_category: Category,
    pub proposal_title: String,
    pub proposal_summary: String,
    pub proposal_problem: String,
    pub proposal_solution: String,
    pub proposal_public_key: String,
    pub proposal_funds: i64,
    pub proposal_url: String,
    pub proposal_files_url: String,
    pub proposal_impact_score: i64,
    pub proposer: Proposer,
    pub chain_proposal_id: Vec<u8>,
    pub chain_proposal_index: i64,
    pub chain_vote_options: VoteOptions,
    pub chain_voteplan_id: String,
    pub chain_vote_start_time: i64,
    pub chain_vote_end_time: i64,
    pub chain_committee_end_time: i64,
    pub chain_voteplan_payload: String,
    pub chain_vote_encryption_key: String,
    pub fund_id: i32,
}

pub struct ProposalView {
    pub internal_id: int,
    pub proposal_id: Seq<char>,
    pub proposal_category: CategoryView,
    pub proposal_title: Seq<char>,
    pub proposal_summary: Seq<char>,
    pub proposal_problem: Seq<char>,
    pub proposal_solution: Seq<char>,
    pub proposal_public_key: Seq<char>,
    pub proposal_funds: int,
    pub proposal_url: Seq<char>,
    pub proposal_files_url: Seq<char>,
    pub proposal_impact_score: int,
    pub proposer: ProposerView,
    pub chain_proposal_id: Seq<u8>,
    pub chain_proposal_index: int,
    pub chain_vote_options: Seq<Seq<char>>,
    pub chain_voteplan_id: Seq<char>,
    pub chain_vote_start_time: int,
    pub chain_vote_end_time: int,
    pub chain_committee_end_time: int,
    pub chain_voteplan_payload: Seq<char>,
    pub chain_vote_encryption_key: Seq<char>,
    pub fund_id: int,
}

impl View for Proposal {
    type V = ProposalView;

    open spec fn view(&self) -> ProposalView {
        ProposalView {
            internal_id: self.internal_id as int,
            proposal_id: self.proposal_id@,
            proposal_category: self.proposal_category@,
            proposal_title: self.proposal_title@,
            proposal_summary: self.proposal_summary@,
            proposal_problem: self.proposal_problem@,
            proposal_solution: self.proposal_solution@,
            proposal_public_key: self.proposal_public_key@,
            proposal_funds: self.proposal_funds as int,
            proposal_url: self.proposal_url@,
            proposal_files_url: self.proposal_files_url@,
            proposal_impact_score: self.proposal_impact_score as int,
            proposer: self.proposer@,
            chain_proposal_id: self.chain_proposal_id@,
            chain_proposal_index: self.chain_proposal_index as int,
            chain_vote_options: self.chain_vote_options@,
            chain_voteplan_id: self.chain_voteplan_id@,
            chain_vote_start_time: self.chain_vote_start_time as int,
            chain_vote_end_time: self.chain_vote_end_time as int,
            chain_committee_end_time: self.chain_committee_end_time as int,
            chain_voteplan_payload: self.chain_voteplan_payload@,
            chain_vote_encryption_key: self.chain_vote_encryption_key@,
            fund_id: self.fund_id as int,
        }
    }
}

impl Clone for Proposal {
    fn clone(&self) -> (copy: Self)
        ensures
            copy@ == self@,
    {
        let chain_proposal_id = self.chain_proposal_id.clone();
        assert(chain_proposal_id@ =~= self.chain_proposal_id@);
        Proposal {
            internal_id: self.internal_id,
            proposal_id: self.proposal_id.clone(),
            proposal_category: self.proposal_category.clone(),
            proposal_title: self.proposal_title.clone(),
            proposal_summary: self.proposal_summary.clone(),
            proposal_problem: self.proposal_problem.clone(),
            proposal_solution: self.proposal_solution.clone(),
            proposal_public_key: self.proposal_public_key.clone(),
            proposal_funds: self.proposal_funds,
            proposal_url: self.proposal_url.clone(),
            proposal_files_url: self.proposal_files_url.clone(),
            proposal_impact_score: self.proposal_impact_score,
            proposer: self.proposer.clone(),
            chain_proposal_id,
            chain_proposal_index: self.chain_proposal_index,
            chain_vote_options: self.chain_vote_options.clone(),
            chain_voteplan_id: self.chain_voteplan_id.clone(),
            chain_vote_start_time: self.chain_vote_start_time,
            chain_vote_end_time: self.chain_vote_end_time,
            chain_committee_end_time: self.chain_committee_end_time,
            chain_voteplan_payload: self.chain_voteplan_payload.clone(),
            chain_vote_encryption_key: self.chain_vote_encryption_key.clone(),
            fund_id: self.fund_id,
        }
    }
}

/// The raw bytes of an API credential.
#[derive(Debug, PartialEq, Eq)]
pub struct APIToken(Vec<u8>);

impl View for APIToken {
    type V = Seq<u8>;

    closed spec fn view(&self) -> Seq<u8> {
        self.0@
    }
}

impl Clone for APIToken {
    fn clone(&self) -> (copy: Self)
        ensures
            copy@ == self@,
    {
        let bytes = self.0.clone();
        assert(bytes@ =~= self.0@);
        APIToken(bytes)
    }
}

impl APIToken {
    /// The credential of the given bytes.
    pub fn new(data: Vec<u8>) -> (token: APIToken)
        ensures
            token@ == data@,
    {
        APIToken(data)
    }

    /// The bytes of the credential.
    pub fn as_bytes(&self) -> (bytes: &Vec<u8>)
        ensures
            bytes@ == self@,
    {
        &self.0
    }
}

/// A credential with the span of time in which it is valid, in seconds since
/// the epoch.
#[derive(Debug, PartialEq, Eq)]
pub struct APITokenData {
    pub token: APIToken,
    pub creation_time: i64,
    pub expire_time: i64,
}

pub struct APITokenDataView {
    pub token: Seq<u8>,
    pub creation_time: int,
    pub expire_time: int,
}

impl View for APITokenData {
    type V = APITokenDataView;

    open spec fn view(&self) -> APITokenDataView {
        APITokenDataView {
            token: self.token@,
            creation_time: self.creation_time as int,
            expire_time: self.expire_time as int,
        }
    }
}

impl Clone for APITokenData {
    fn clone(&self) -> (copy: Self)
        ensures
            copy@ == self@,
    {
        APITokenData {
            token: self.token.clone(),
            creation_time: self.creation_time,
            expire_time: self.expire_time,
        }
    }
}

} // verus!
