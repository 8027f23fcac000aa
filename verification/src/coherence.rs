//! What holds of everything that is generated, whatever was drawn.

use crate::clock::{present_reference, ONE_DAY};
use crate::encoding::{standard, url_safe_no_pad};
use crate::factories::{
    category_of, fund_carries_its_voteplan, fund_is_ordered, http_address_of,
    proposal_follows_fund, proposal_is_sound, voting_power_info_of,
};
use crate::fakers::fills_format;
use crate::models::{APITokenDataView, FundView, ProposalView, ProposerView, VoteplanView};
use crate::snapshot::SnapshotView;
use crate::text::{decimal, lowercase};
use crate::token_pool::{distinct_keys, lemma_distinct_entries_all_stay, pool_of, EntryView};
use crate::windows::windowed;
use vstd::prelude::*;
use vstd::utf8::encode_utf8;

verus! {

/// `text` is the standard base64 text of some block of 32 bytes.
pub open spec fn is_hash_text(text: Seq<char>) -> bool {
    exists|block: Seq<u8>| block.len() == 32 && text == #[trigger] standard(block)
}

/// `text` is the URL-safe base64 text, without padding, of some block of 32
/// bytes.
pub open spec fn is_token_key(text: Seq<char>) -> bool {
    exists|data: Seq<u8>| data.len() == 32 && text == #[trigger] url_safe_no_pad(data)
}

/// `address` is the web address of some company under some domain: the host
/// is the name of the company in lowercase, hyphenated.
pub open spec fn is_http_address(address: Seq<char>) -> bool {
    exists|company: Seq<char>, suffix: Seq<char>|
        address == #[trigger] http_address_of(lowercase(company), suffix)
}

/// `info` describes a threshold of four digits, the first of them not zero.
pub open spec fn is_voting_power_info(info: Seq<char>) -> bool {
    exists|digits: Seq<char>|
        fills_format(digits, "^###"@) && info == #[trigger] voting_power_info_of(digits)
}

/// What holds of every proposer that is generated: the address is a web
/// address and the relevant experience a number in decimal.
pub open spec fn proposer_is_sound(proposer: ProposerView) -> bool {
    &&& is_http_address(proposer.proposer_url)
    &&& exists|experience: u64|
        proposer.proposer_relevant_experience == #[trigger] decimal(experience as nat)
}

/// What holds of every proposal that is generated, besides what holds of a
/// proposal by itself: its address is a web address, its public key is a hash
/// text and its identifier on the chain the bytes of one, its category has a
/// name only, and its proposer is sound.
pub open spec fn proposal_is_drawn(proposal: ProposalView) -> bool {
    &&& is_http_address(proposal.proposal_url)
    &&& is_hash_text(proposal.proposal_public_key)
    &&& exists|hash: Seq<char>|
        is_hash_text(hash) && proposal.chain_proposal_id == #[trigger] encode_utf8(hash)
    &&& proposal.proposal_category == category_of(proposal.proposal_category.category_name)
    &&& proposer_is_sound(proposal.proposer)
}

/// What holds of every vote plan that is generated: its identifier is not
/// negative, its three timestamps lie in consecutive windows and so are in
/// order, it is public and has no key, and its chain identifier is a hash
/// text.
pub open spec fn voteplan_is_sound(plan: VoteplanView) -> bool {
    &&& plan.id >= 0
    &&& plan.chain_vote_start_time < plan.chain_vote_end_time < plan.chain_committee_end_time
    &&& exists|dates: (i64, i64, i64)|
        {
            &&& #[trigger] windowed(dates)
            &&& plan.chain_vote_start_time == dates.0
            &&& plan.chain_vote_end_time == dates.1
            &&& plan.chain_committee_end_time == dates.2
        }
    &&& plan.chain_voteplan_payload == "public"@
    &&& plan.chain_vote_encryption_key == Seq::<char>::empty()
    &&& is_hash_text(plan.chain_voteplan_id)
}

/// What holds of every fund that is generated: it is ordered, it carries its
/// one vote plan, which is sound, and the description of its threshold is
/// well formed.
pub open spec fn fund_is_sound(fund: FundView) -> bool {
    &&& fund_is_ordered(fund)
    &&& fund_carries_its_voteplan(fund)
    &&& voteplan_is_sound(fund.chain_vote_plans[0])
    &&& is_voting_power_info(fund.voting_power_info)
}

/// What holds of every entry of a generated pool: the token has 32 bytes, its
/// key is their URL-safe base64 text without padding, and it is valid from
/// one day before a reading of the clock to one day after it.
pub open spec fn token_entry_is_sound(entry: (Seq<char>, APITokenDataView)) -> bool {
    &&& entry.1.token.len() == 32
    &&& entry.0 == url_safe_no_pad(entry.1.token)
    &&& present_reference(entry.1.creation_time + ONE_DAY)
    &&& entry.1.expire_time == entry.1.creation_time + 2 * ONE_DAY
}

/// What holds of every snapshot that is generated.
///
/// There are from 1 to 100 funds, and one proposal and one vote plan of its
/// own for each of them, at the same place. Each fund is sound; each proposal
/// is sound, has the drawn fields of a generated one and follows the fund at
/// its place; each vote plan is sound and names the fund at its place. The pool is that of 2 to 11 sound tokens, so
/// it has from 1 to 11 tokens under distinct keys.
pub open spec fn snapshot_is_coherent(snapshot: SnapshotView) -> bool {
    &&& 1 <= snapshot.funds.len() <= 100
    &&& snapshot.proposals.len() == snapshot.funds.len()
    &&& snapshot.voteplans.len() == snapshot.funds.len()
    &&& forall|i: int|
        0 <= i < snapshot.funds.len() ==> {
            &&& fund_is_sound(#[trigger] snapshot.funds[i])
            &&& proposal_is_sound(snapshot.proposals[i])
            &&& proposal_is_drawn(snapshot.proposals[i])
            &&& proposal_follows_fund(snapshot.proposals[i], snapshot.funds[i])
            &&& voteplan_is_sound(snapshot.voteplans[i])
            &&& snapshot.voteplans[i].fund_id == snapshot.funds[i].id
        }
    &&& pool_is_sound(snapshot.tokens)
    &&& exists|made: Seq<EntryView>| #[trigger] pool_holds(snapshot.tokens, made)
}

/// What holds of every pool that is generated: from 1 to 11 tokens under
/// distinct keys, each of them sound.
pub open spec fn pool_is_sound(entries: Seq<EntryView>) -> bool {
    &&& 1 <= entries.len() <= 11
    &&& distinct_keys(entries)
    &&& forall|i: int| 0 <= i < entries.len() ==> token_entry_is_sound(#[trigger] entries[i])
}

/// `entries` is the pool of the tokens `made`: from 2 to 11 sound tokens, put
/// into the pool one after the other.
pub open spec fn pool_holds(entries: Seq<EntryView>, made: Seq<EntryView>) -> bool {
    &&& 2 <= made.len() <= 11
    &&& forall|i: int| 0 <= i < made.len() ==> token_entry_is_sound(#[trigger] made[i])
    &&& entries == pool_of(made)
}

/// Where the tokens that were made have distinct keys, the pool holds every
/// one of them: it has as many entries as tokens were made, at least 2.
pub proof fn lemma_pool_without_collision(entries: Seq<EntryView>, made: Seq<EntryView>)
    requires
        pool_holds(entries, made),
        distinct_keys(made),
    ensures
        entries == made,
        2 <= entries.len() <= 11,
{
    lemma_distinct_entries_all_stay(made);
}

/// Every generated fund starts before it ends and ends before the next one
/// starts; its one vote plan has these three timestamps and names it.
pub proof fn lemma_sound_fund_keeps_time(fund: FundView)
    requires
        fund_is_sound(fund),
    ensures
        fund.fund_start_time < fund.fund_end_time < fund.next_fund_start_time,
        fund.chain_vote_plans.len() == 1,
        fund.chain_vote_plans[0].chain_vote_start_time == fund.fund_start_time,
        fund.chain_vote_plans[0].chain_vote_end_time == fund.fund_end_time,
        fund.chain_vote_plans[0].chain_committee_end_time == fund.next_fund_start_time,
        fund.chain_vote_plans[0].fund_id == fund.id,
{
}

/// Every generated proposal has each field about the vote plan from the first
/// vote plan of its fund, names its fund, has its internal identifier in
/// decimal for external one, asks for 5000 to 204999 and scores 100 to 499.
pub proof fn lemma_sound_proposal_follows(proposal: ProposalView, fund: FundView)
    requires
        proposal_follows_fund(proposal, fund),
        proposal_is_sound(proposal),
    ensures
        proposal.fund_id == fund.id,
        proposal.chain_voteplan_id == fund.chain_vote_plans[0].chain_voteplan_id,
        proposal.chain_vote_start_time == fund.chain_vote_plans[0].chain_vote_start_time,
        proposal.chain_vote_end_time == fund.chain_vote_plans[0].chain_vote_end_time,
        proposal.chain_committee_end_time == fund.chain_vote_plans[0].chain_committee_end_time,
        proposal.chain_voteplan_payload == fund.chain_vote_plans[0].chain_voteplan_payload,
        proposal.chain_vote_encryption_key
            == fund.chain_vote_plans[0].chain_vote_encryption_key,
        proposal.internal_id >= 0,
        proposal.proposal_id == decimal(proposal.internal_id as nat),
        5_000 <= proposal.proposal_funds < 205_000,
        100 <= proposal.proposal_impact_score < 500,
{
}

/// A coherent snapshot has as many proposals as funds, and as many vote plans
/// of their own, and at every place the three belong together.
pub proof fn lemma_coherent_snapshot_is_aligned(snapshot: SnapshotView, i: int)
    requires
        snapshot_is_coherent(snapshot),
        0 <= i < snapshot.funds.len(),
    ensures
        snapshot.proposals.len() == snapshot.funds.len(),
        snapshot.voteplans.len() == snapshot.funds.len(),
        snapshot.proposals[i].fund_id == snapshot.funds[i].id,
        snapshot.voteplans[i].fund_id == snapshot.funds[i].id,
        snapshot.proposals[i].chain_voteplan_id
            == snapshot.funds[i].chain_vote_plans[0].chain_voteplan_id,
{
    assert(fund_is_sound(snapshot.funds[i]));
}

/// In a coherent snapshot every proposal finds the fund that it follows among
/// the funds of the same snapshot.
pub proof fn lemma_proposals_find_their_funds(snapshot: SnapshotView, i: int)
    requires
        snapshot_is_coherent(snapshot),
        0 <= i < snapshot.proposals.len(),
    ensures
        exists|j: int|
            0 <= j < snapshot.funds.len() && proposal_follows_fund(
                snapshot.proposals[i],
                #[trigger] snapshot.funds[j],
            ),
{
    assert(fund_is_sound(snapshot.funds[i]));
}

} // verus!
