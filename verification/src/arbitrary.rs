//! The generator: it draws, and hands what it drew to the factories.

use crate::clock::reference_time;
use crate::encoding::{encode_standard, encode_url_safe_no_pad, standard, url_safe_no_pad};
use crate::entropy::{fill_bytes, next_u32, next_u64, os_rng};
use crate::coherence::{
    fund_is_sound, is_hash_text, is_http_address, is_token_key, pool_holds, pool_is_sound,
    proposal_is_drawn, proposer_is_sound, snapshot_is_coherent, token_entry_is_sound,
    voteplan_is_sound,
};
use crate::factories::{
    category_of, http_address, http_address_of, make_category, make_fund, make_proposal,
    make_proposer, make_token, make_voteplan, proposal_follows_fund, proposal_is_sound,
    to_funds, to_impact_score, to_pool_size, to_signed, to_size, voting_power_info_of, FundDraw,
    ProposalDraw,
};
use crate::fakers::{
    buzzword, catch_phrase, company_name, domain_suffix, industry, number_with_format,
    person_name, safe_email, sentence,
};
use crate::models::{APITokenData, Category, Fund, Proposal, Proposer, Voteplan};
use crate::snapshot::Snapshot;
use crate::text::{decimal, lowercase};
use crate::token_pool::{
    lemma_pool_of_keeps_keys_distinct, lemma_with_entry, pool_of, EntryView, TokenPool,
};
use crate::windows::{consecutive, consecutive_windows, windowed};
use rand::rngs::OsRng;
use vstd::prelude::*;
use vstd::slice::slice_to_vec;
use vstd::utf8::encode_utf8;

verus! {

/// A generator of fixtures that owns its source of chance.
pub struct ArbitraryGenerator {
    id_generator: OsRng,
}

impl Default for ArbitraryGenerator {
    fn default() -> Self {
        ArbitraryGenerator::new()
    }
}

impl ArbitraryGenerator {
    pub fn new() -> Self {
        Self { id_generator: os_rng() }
    }

    fn random_size(&mut self) -> (size: usize)
        ensures
            1 <= size <= 100,
    {
        to_size(next_u32(&mut self.id_generator))
    }

    fn bytes(&mut self) -> [u8; 32] {
        let mut block: [u8; 32] = [0; 32];
        fill_bytes(&mut self.id_generator, &mut block);
        block
    }

    /// The text that would be the key of a token of fresh bytes.
    pub fn token_hash(&mut self) -> (text: String)
        ensures
            is_token_key(text@),
    {
        let block = self.bytes();
        let data = slice_to_vec(block.as_slice());
        let text = encode_url_safe_no_pad(&data);
        assert(text@ == url_safe_no_pad(data@));
        text
    }

    /// An identifier with a sign, as drawn.
    pub fn id(&mut self) -> i32 {
        to_signed(next_u32(&mut self.id_generator))
    }

    /// A token with its key.
    pub fn token(&mut self) -> (entry: (String, APITokenData))
        ensures
            token_entry_is_sound((entry.0@, entry.1@)),
    {
        let block = self.bytes();
        let data = slice_to_vec(block.as_slice());
        let reference = reference_time();
        let text = encode_url_safe_no_pad(&data);
        make_token(text, data, reference)
    }

    /// A pool of tokens. From 2 to 11 tokens are made and put into the pool
    /// one after the other; two that came out with the same key would share
    /// one entry.
    pub fn tokens(&mut self) -> (pool: TokenPool)
        ensures
            exists|made: Seq<EntryView>| #[trigger] pool_holds(pool.order(), made),
            pool_is_sound(pool.order()),
    {
        let size = to_pool_size(self.random_size());
        let mut pool = TokenPool::new();
        let ghost mut made = Seq::<EntryView>::empty();
        for count in 0..size
            invariant
                2 <= size <= 11,
                made.len() == count,
                pool.order() == pool_of(made),
                forall|i: int| 0 <= i < made.len() ==> token_entry_is_sound(#[trigger] made[i]),
                forall|i: int|
                    0 <= i < pool.order().len() ==> token_entry_is_sound(#[trigger] pool.order()[i]),
        {
            let entry = self.token();
            proof {
                lemma_pool_of_keeps_keys_distinct(made);
                lemma_with_entry(pool.order(), (entry.0@, entry.1@));
                assert(made.push((entry.0@, entry.1@)).drop_last() =~= made);
                made = made.push((entry.0@, entry.1@));
            }
            pool.insert(entry.0, entry.1);
        }
        proof {
            lemma_pool_of_keeps_keys_distinct(made);
            assert(pool_holds(pool.order(), made));
        }
        pool
    }

    /// From 1 to 100 funds, each with its vote plan.
    pub fn funds(&mut self) -> (funds: Vec<Fund>)
        ensures
            1 <= funds.len() <= 100,
            forall|i: int| 0 <= i < funds.len() ==> fund_is_sound(#[trigger] funds[i]@),
    {
        let size = self.random_size();
        let mut funds: Vec<Fund> = Vec::new();
        for made in 0..size
            invariant
                funds.len() == made,
                forall|i: int| 0 <= i < funds.len() ==> fund_is_sound(#[trigger] funds[i]@),
        {
            funds.push(self.gen_single_fund());
        }
        funds
    }

    fn gen_single_fund(&mut self) -> (fund: Fund)
        ensures
            fund_is_sound(fund@),
    {
        let id = self.id();
        let dates = self.consecutive_dates();
        let voteplan_id = self.id();
        let chain_voteplan_id = self.hash();
        let draw = FundDraw {
            id,
            fund_name: catch_phrase(),
            fund_goal: buzzword(),
            threshold_digits: number_with_format("^###"),
            voting_power_threshold: next_u64(&mut self.id_generator),
            rewards_info: sentence(3, 5),
            dates,
            voteplan_id,
            chain_voteplan_id,
        };
        let ghost info = voting_power_info_of(draw.threshold_digits@);
        let fund = make_fund(draw);
        assert(fund@.voting_power_info == info);
        fund
    }

    /// The web address of a made-up company.
    pub fn gen_http_address(&self) -> (address: String)
        ensures
            is_http_address(address@),
    {
        let company = company_name();
        let words = company.as_str().to_lowercase();
        let suffix = domain_suffix();
        let address = http_address(words.as_str(), suffix.as_str());
        assert(address@ == http_address_of(lowercase(company@), suffix@));
        address
    }

    /// A proposer. The relevant experience is a drawn number in decimal.
    pub fn proposer(&mut self) -> (proposer: Proposer)
        ensures
            proposer_is_sound(proposer@),
    {
        let experience = next_u64(&mut self.id_generator);
        let name = person_name();
        let email = safe_email();
        let url = self.gen_http_address();
        let proposer = make_proposer(name, email, url, experience);
        assert(proposer@.proposer_relevant_experience == decimal(experience as nat));
        proposer
    }

    /// An impact score: from 100 to 499.
    pub fn impact_score(&mut self) -> (score: i64)
        ensures
            100 <= score < 500,
    {
        to_impact_score(next_u64(&mut self.id_generator))
    }

    /// A category with a made-up name and nothing else.
    pub fn proposal_category(&mut self) -> (category: Category)
        ensures
            category@ == category_of(category@.category_name),
    {
        make_category(industry())
    }

    /// The money a proposal asks for: from 5000 up to, not including, 205000.
    pub fn proposal_fund(&mut self) -> (funds: i64)
        ensures
            5_000 <= funds < 205_000,
    {
        to_funds(next_u64(&mut self.id_generator))
    }

    fn gen_single_proposal(&mut self, fund: &Fund) -> (proposal: Proposal)
        requires
            fund.chain_vote_plans.len() > 0,
        ensures
            proposal_follows_fund(proposal@, fund@),
            proposal_is_sound(proposal@),
            proposal_is_drawn(proposal@),
    {
        let id = self.id();
        let url = self.gen_http_address();
        let draw = ProposalDraw {
            id,
            category: self.proposal_category(),
            title: catch_phrase(),
            summary: catch_phrase(),
            problem: buzzword(),
            solution: catch_phrase(),
            public_key: self.hash(),
            funds: next_u64(&mut self.id_generator),
            url,
            impact_score: next_u64(&mut self.id_generator),
            proposer: self.proposer(),
            chain_proposal_hash: self.hash(),
            chain_proposal_index: next_u32(&mut self.id_generator),
        };
        let ghost hash = draw.chain_proposal_hash@;
        let proposal = make_proposal(draw, fund);
        assert(proposal@.chain_proposal_id == encode_utf8(hash));
        proposal
    }

    fn consecutive_dates(&self) -> (dates: (i64, i64, i64))
        ensures
            windowed(dates),
            consecutive(dates),
    {
        consecutive_windows(reference_time())
    }

    /// The standard base64 text of a fresh block of 32 bytes.
    pub fn hash(&mut self) -> (text: String)
        ensures
            is_hash_text(text@),
    {
        let block = self.bytes();
        let text = encode_standard(&block);
        assert(text@ == standard(block@));
        text
    }

    /// A fresh vote plan for each fund, at the fund's place. It is no copy of
    /// the vote plan that the fund carries: it has an identifier, a chain
    /// identifier and timestamps of its own.
    pub fn voteplans(&mut self, funds: &[Fund]) -> (plans: Vec<Voteplan>)
        ensures
            plans.len() == funds.len(),
            forall|i: int|
                0 <= i < plans.len() ==> voteplan_is_sound(#[trigger] plans[i]@) && plans[i]@.fund_id
                    == funds[i]@.id,
    {
        let mut plans: Vec<Voteplan> = Vec::new();
        for at in 0..funds.len()
            invariant
                plans.len() == at,
                forall|i: int|
                    0 <= i < plans.len() ==> voteplan_is_sound(#[trigger] plans[i]@)
                        && plans[i]@.fund_id == funds[i]@.id,
        {
            plans.push(self.voteplan_with_fund_id(funds[at].id));
        }
        plans
    }

    /// A proposal for each fund, at the fund's place. Every fund must have a
    /// vote plan.
    pub fn proposals(&mut self, funds: &[Fund]) -> (proposals: Vec<Proposal>)
        requires
            forall|i: int| 0 <= i < funds.len() ==> (#[trigger] funds[i]).chain_vote_plans.len() > 0,
        ensures
            proposals.len() == funds.len(),
            forall|i: int|
                0 <= i < proposals.len() ==> {
                    &&& proposal_follows_fund(#[trigger] proposals[i]@, funds[i]@)
                    &&& proposal_is_sound(proposals[i]@)
                    &&& proposal_is_drawn(proposals[i]@)
                },
    {
        let mut proposals: Vec<Proposal> = Vec::new();
        for at in 0..funds.len()
            invariant
                proposals.len() == at,
                forall|i: int|
                    0 <= i < funds.len() ==> (#[trigger] funds[i]).chain_vote_plans.len() > 0,
                forall|i: int|
                    0 <= i < proposals.len() ==> {
                        &&& proposal_follows_fund(#[trigger] proposals[i]@, funds[i]@)
                        &&& proposal_is_sound(proposals[i]@)
                        &&& proposal_is_drawn(proposals[i]@)
                    },
        {
            proposals.push(self.gen_single_proposal(&funds[at]));
        }
        proposals
    }

    /// A fresh vote plan that names the given fund.
    pub fn voteplan_with_fund_id(&mut self, fund_id: i32) -> (plan: Voteplan)
        ensures
            voteplan_is_sound(plan@),
            plan@.fund_id == fund_id,
    {
        let id = self.id();
        let dates = self.consecutive_dates();
        let chain_voteplan_id = self.hash();
        make_voteplan(id, chain_voteplan_id, dates, fund_id)
    }

    /// A snapshot: funds, a proposal and a vote plan for each of them, and a
    /// pool of tokens.
    pub fn snapshot(&mut self) -> (snapshot: Snapshot)
        ensures
            snapshot_is_coherent(snapshot@),
    {
        let funds = self.funds();
        proof {
            assert forall|i: int| 0 <= i < funds.len() implies (#[trigger] funds[i]).chain_vote_plans.len()
                > 0 by {
                assert(fund_is_sound(funds[i]@));
            }
        }
        let proposals = self.proposals(funds.as_slice());
        let voteplans = self.voteplans(funds.as_slice());
        let tokens = self.tokens();
        Snapshot::new(funds, proposals, tokens, voteplans)
    }
}

} // verus!
