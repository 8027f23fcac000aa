//! How an entity is made of what was drawn for it.
//!
//! Each function here takes the drawn material as arguments and is exact
//! about what it builds, so the rules hold for every draw.

use crate::clock::ONE_DAY;
use crate::models::{
    APIToken, APITokenData, APITokenDataView, Category, CategoryView, Fund, FundView, Proposal,
    ProposalView, Proposer, ProposerView, VoteOptions, Voteplan, VoteplanView,
};
use crate::text::{
    decimal, decimal_string, hyphenated, is_split, joined, lemma_split_is_unique, replace_spaces,
};
use crate::windows::consecutive;
use vstd::prelude::*;
use vstd::string::StringExecFns;
use vstd::string::StrSliceExecFns;
use vstd::utf8::encode_utf8;

verus! {

/// The signed number that has the bits of `draw`.
pub open spec fn signed(draw: u32) -> int {
    if draw < 0x8000_0000 {
        draw as int
    } else {
        draw - 0x1_0000_0000
    }
}

/// The magnitude of an identifier drawn with a sign. The one number whose
/// magnitude does not fit is taken to the largest that does.
pub open spec fn magnitude(id: int) -> int {
    if id <= -0x8000_0000 {
        0x7fff_ffff
    } else if id < 0 {
        -id
    } else {
        id
    }
}

/// The size of a collection for a draw: from 1 to 100.
pub open spec fn size_for(draw: u32) -> int {
    draw % 100 + 1
}

/// The number of tokens to make for a collection size: from 2 to 11.
pub open spec fn pool_size_for(size: int) -> int {
    size % 10 + 2
}

/// The money a proposal asks for: from 5000 up to, not including, 205000.
pub open spec fn funds_for(draw: u64) -> int {
    draw % 200_000 + 5_000
}

/// The impact score of a proposal: from 100 to 499.
pub open spec fn impact_score_for(draw: u64) -> int {
    draw % 400 + 100
}

/// The signed number that has the bits of `draw`.
pub open spec fn threshold_for(draw: u64) -> int {
    if draw < 0x8000_0000_0000_0000 {
        draw as int
    } else {
        draw - 0x1_0000_0000_0000_0000
    }
}

/// Reads a draw as a number with a sign.
pub fn to_signed(draw: u32) -> (id: i32)
    ensures
        id == signed(draw),
{
    if draw < 0x8000_0000 {
        draw as i32
    } else {
        let low: u32 = draw - 0x8000_0000;
        low as i32 + i32::MIN
    }
}

/// Takes the sign off an identifier.
pub fn to_magnitude(id: i32) -> (size: i32)
    ensures
        size == magnitude(id as int),
        size >= 0,
{
    if id == i32::MIN {
        i32::MAX
    } else if id < 0 {
        -id
    } else {
        id
    }
}

/// The size of a collection for a draw.
pub fn to_size(draw: u32) -> (size: usize)
    ensures
        size == size_for(draw),
        1 <= size <= 100,
{
    let rest: u32 = draw % 100;
    rest as usize + 1
}

/// The number of tokens to make for a collection size.
pub fn to_pool_size(size: usize) -> (count: usize)
    ensures
        count == pool_size_for(size as int),
        2 <= count <= 11,
{
    size % 10 + 2
}

/// The money a proposal asks for, for a draw.
pub fn to_funds(draw: u64) -> (funds: i64)
    ensures
        funds == funds_for(draw),
        5_000 <= funds < 205_000,
{
    let rest: u64 = draw % 200_000 + 5_000;
    rest as i64
}

/// The impact score of a proposal, for a draw.
pub fn to_impact_score(draw: u64) -> (score: i64)
    ensures
        score == impact_score_for(draw),
        100 <= score < 500,
{
    let rest: u64 = draw % 400 + 100;
    rest as i64
}

/// Reads a draw as a threshold of voting power, which has a sign.
pub fn to_threshold(draw: u64) -> (threshold: i64)
    ensures
        threshold == threshold_for(draw),
{
    if draw < 0x8000_0000_0000_0000 {
        draw as i64
    } else {
        let low: u64 = draw - 0x8000_0000_0000_0000;
        low as i64 + i64::MIN
    }
}

/// The web address of a host named by `words`, under the domain `suffix`.
pub open spec fn http_address_of(words: Seq<char>, suffix: Seq<char>) -> Seq<char> {
    "http://"@ + hyphenated(words) + "."@ + suffix
}

/// Writes the web address of a host named by `words`: its spaces become
/// hyphens, the scheme goes before it and the domain after it.
pub fn http_address(words: &str, suffix: &str) -> (address: String)
    ensures
        address@ == http_address_of(words@, suffix@),
{
    let host = replace_spaces(words);
    let mut address = String::from_str("http://");
    address.append(host.as_str());
    address.append(".");
    address.append(suffix);
    address
}

/// The address under which the files of a proposal are found.
pub open spec fn files_url_of(url: Seq<char>) -> Seq<char> {
    url + "/files"@
}

/// The description of the threshold of voting power, for its drawn digits.
pub open spec fn voting_power_info_of(digits: Seq<char>) -> Seq<char> {
    ">"@ + digits
}

/// The vote plan made of what was drawn for it, for the fund `fund_id`.
pub open spec fn voteplan_of(
    id: i32,
    chain_voteplan_id: Seq<char>,
    dates: (i64, i64, i64),
    fund_id: i32,
) -> VoteplanView {
    VoteplanView {
        id: magnitude(id as int),
        chain_voteplan_id,
        chain_vote_start_time: dates.0 as int,
        chain_vote_end_time: dates.1 as int,
        chain_committee_end_time: dates.2 as int,
        chain_voteplan_payload: "public"@,
        chain_vote_encryption_key: Seq::empty(),
        fund_id: fund_id as int,
    }
}

/// Makes the vote plan of the fund `fund_id`: public, without encryption key,
/// its three timestamps being `dates`.
pub fn make_voteplan(
    id: i32,
    chain_voteplan_id: String,
    dates: (i64, i64, i64),
    fund_id: i32,
) -> (plan: Voteplan)
    ensures
        plan@ == voteplan_of(id, chain_voteplan_id@, dates, fund_id),
{
    Voteplan {
        id: to_magnitude(id),
        chain_voteplan_id,
        chain_vote_start_time: dates.0,
        chain_vote_end_time: dates.1,
        chain_committee_end_time: dates.2,
        chain_voteplan_payload: String::from_str("public"),
        chain_vote_encryption_key: String::new(),
        fund_id,
    }
}

/// What was drawn for a fund and for the vote plan that comes with it.
pub struct FundDraw {
    pub id: i32,
    pub fund_name: String,
    pub fund_goal: String,
    pub threshold_digits: String,
    pub voting_power_threshold: u64,
    pub rewards_info: String,
    pub dates: (i64, i64, i64),
    pub voteplan_id: i32,
    pub chain_voteplan_id: String,
}

/// The fund made of a draw. Its one vote plan carries the fund's identifier
/// and the fund's own three timestamps.
pub open spec fn fund_of(draw: FundDraw) -> FundView {
    FundView {
        id: magnitude(draw.id as int),
        fund_name: draw.fund_name@,
        fund_goal: draw.fund_goal@,
        voting_power_info: voting_power_info_of(draw.threshold_digits@),
        voting_power_threshold: threshold_for(draw.voting_power_threshold),
        rewards_info: draw.rewards_info@,
        fund_start_time: draw.dates.0 as int,
        fund_end_time: draw.dates.1 as int,
        next_fund_start_time: draw.dates.2 as int,
        chain_vote_plans: seq![
            voteplan_of(
                draw.voteplan_id,
                draw.chain_voteplan_id@,
                draw.dates,
                magnitude(draw.id as int) as i32,
            ),
        ],
    }
}

/// A fund has exactly one vote plan, which names the fund and has the fund's
/// three timestamps; its identifier is not negative.
pub open spec fn fund_carries_its_voteplan(fund: FundView) -> bool {
    &&& fund.id >= 0
    &&& fund.chain_vote_plans.len() == 1
    &&& fund.chain_vote_plans[0].fund_id == fund.id
    &&& fund.chain_vote_plans[0].chain_vote_start_time == fund.fund_start_time
    &&& fund.chain_vote_plans[0].chain_vote_end_time == fund.fund_end_time
    &&& fund.chain_vote_plans[0].chain_committee_end_time == fund.next_fund_start_time
}

/// A fund starts before it ends, and ends before the next one starts.
pub open spec fn fund_is_ordered(fund: FundView) -> bool {
    fund.fund_start_time < fund.fund_end_time < fund.next_fund_start_time
}

/// Makes a fund together with its vote plan.
pub fn make_fund(draw: FundDraw) -> (fund: Fund)
    ensures
        fund@ == fund_of(draw),
        fund_carries_its_voteplan(fund@),
        consecutive(draw.dates) ==> fund_is_ordered(fund@),
{
    let id = to_magnitude(draw.id);
    let plan = make_voteplan(draw.voteplan_id, draw.chain_voteplan_id, draw.dates, id);
    let mut voting_power_info = String::from_str(">");
    voting_power_info.append(draw.threshold_digits.as_str());
    let mut chain_vote_plans: Vec<Voteplan> = Vec::new();
    chain_vote_plans.push(plan);
    let fund = Fund {
        id,
        fund_name: draw.fund_name,
        fund_goal: draw.fund_goal,
        voting_power_info,
        voting_power_threshold: to_threshold(draw.voting_power_threshold),
        rewards_info: draw.rewards_info,
        fund_start_time: draw.dates.0,
        fund_end_time: draw.dates.1,
        next_fund_start_time: draw.dates.2,
        chain_vote_plans,
    };
    assert(fund@.chain_vote_plans =~= fund_of(draw).chain_vote_plans);
    fund
}

/// The proposer made of what was drawn for it.
pub open spec fn proposer_of(
    name: Seq<char>,
    email: Seq<char>,
    url: Seq<char>,
    experience: u64,
) -> ProposerView {
    ProposerView {
        proposer_name: name,
        proposer_email: email,
        proposer_url: url,
        proposer_relevant_experience: decimal(experience as nat),
    }
}

/// Makes a proposer. The relevant experience is a drawn number, written in
/// decimal.
pub fn make_proposer(
    name: String,
    email: String,
    url: String,
    experience: u64,
) -> (proposer: Proposer)
    ensures
        proposer@ == proposer_of(name@, email@, url@, experience),
{
    Proposer {
        proposer_name: name,
        proposer_email: email,
        proposer_url: url,
        proposer_relevant_experience: decimal_string(experience),
    }
}

/// The category of the given name: it has neither identifier nor description.
pub open spec fn category_of(name: Seq<char>) -> CategoryView {
    CategoryView {
        category_id: Seq::empty(),
        category_name: name,
        category_description: Seq::empty(),
    }
}

/// Makes a category from its name.
pub fn make_category(name: String) -> (category: Category)
    ensures
        category@ == category_of(name@),
{
    Category {
        category_id: String::new(),
        category_name: name,
        category_description: String::new(),
    }
}

/// The choices on the ballot of every proposal, in order.
pub open spec fn ballot() -> Seq<Seq<char>> {
    seq!["yes"@, "no"@]
}

/// The ballot is what the list `yes,no` holds.
pub proof fn lemma_ballot_is_read_from_list()
    ensures
        is_split(ballot(), "yes,no"@, ','),
{
    reveal_strlit("yes,no");
    reveal_strlit("yes");
    reveal_strlit("no");
    let pieces = ballot();
    assert(pieces.drop_last() =~= seq!["yes"@]);
    assert(joined(pieces.drop_last(), ',') == "yes"@);
    assert(joined(pieces, ',') =~= "yes,no"@);
    assert forall|i: int| 0 <= i < pieces.len() implies !(#[trigger] pieces[i]).contains(',') by {
        if pieces[i].contains(',') {
            let j = choose|j: int| 0 <= j < pieces[i].len() && pieces[i][j] == ',';
            assert(false);
        }
    }
}

/// What was drawn for a proposal, apart from what it takes from its fund.
pub struct ProposalDraw {
    pub id: i32,
    pub category: Category,
    pub title: String,
    pub summary: String,
    pub problem: String,
    pub solution: String,
    pub public_key: String,
    pub funds: u64,
    pub url: String,
    pub impact_score: u64,
    pub proposer: Proposer,
    pub chain_proposal_hash: String,
    pub chain_proposal_index: u32,
}

/// The proposal made of a draw for a fund that has a vote plan. The vote
/// plan's identifier, timestamps, payload kind and key are those of the
/// fund's first vote plan.
pub open spec fn proposal_of(draw: ProposalDraw, fund: FundView) -> ProposalView {
    ProposalView {
        internal_id: magnitude(draw.id as int),
        proposal_id: decimal(magnitude(draw.id as int) as nat),
        proposal_category: draw.category@,
        proposal_title: draw.title@,
        proposal_summary: draw.summary@,
        proposal_problem: draw.problem@,
        proposal_solution: draw.solution@,
        proposal_public_key: draw.public_key@,
        proposal_funds: funds_for(draw.funds),
        proposal_url: draw.url@,
        proposal_files_url: files_url_of(draw.url@),
        proposal_impact_score: impact_score_for(draw.impact_score),
        proposer: draw.proposer@,
        chain_proposal_id: encode_utf8(draw.chain_proposal_hash@),
        chain_proposal_index: draw.chain_proposal_index as int,
        chain_vote_options: ballot(),
        chain_voteplan_id: fund.chain_vote_plans[0].chain_voteplan_id,
        chain_vote_start_time: fund.chain_vote_plans[0].chain_vote_start_time,
        chain_vote_end_time: fund.chain_vote_plans[0].chain_vote_end_time,
        chain_committee_end_time: fund.chain_vote_plans[0].chain_committee_end_time,
        chain_voteplan_payload: fund.chain_vote_plans[0].chain_voteplan_payload,
        chain_vote_encryption_key: fund.chain_vote_plans[0].chain_vote_encryption_key,
        fund_id: fund.id,
    }
}

/// A proposal names the fund, and what it says of the vote plan is what the
/// fund's first vote plan says.
pub open spec fn proposal_follows_fund(proposal: ProposalView, fund: FundView) -> bool {
    &&& fund.chain_vote_plans.len() > 0
    &&& proposal.fund_id == fund.id
    &&& proposal.chain_voteplan_id == fund.chain_vote_plans[0].chain_voteplan_id
    &&& proposal.chain_vote_start_time == fund.chain_vote_plans[0].chain_vote_start_time
    &&& proposal.chain_vote_end_time == fund.chain_vote_plans[0].chain_vote_end_time
    &&& proposal.chain_committee_end_time == fund.chain_vote_plans[0].chain_committee_end_time
    &&& proposal.chain_voteplan_payload == fund.chain_vote_plans[0].chain_voteplan_payload
    &&& proposal.chain_vote_encryption_key
        == fund.chain_vote_plans[0].chain_vote_encryption_key
}

/// What holds of a proposal by itself, whatever was drawn for it: its
/// external identifier is its internal one in decimal, the money it asks for
/// and its impact score are in their ranges, the address of its files derives
/// from its own, its index on the chain fits 32 bits, and its ballot has the
/// two choices.
pub open spec fn proposal_is_sound(proposal: ProposalView) -> bool {
    &&& proposal.internal_id >= 0
    &&& proposal.proposal_id == decimal(proposal.internal_id as nat)
    &&& 5_000 <= proposal.proposal_funds < 205_000
    &&& 100 <= proposal.proposal_impact_score < 500
    &&& proposal.proposal_files_url == files_url_of(proposal.proposal_url)
    &&& 0 <= proposal.chain_proposal_index < 0x1_0000_0000
    &&& proposal.chain_vote_options == ballot()
}

/// A proposal that follows a fund which carries its vote plan has the fund's
/// own three timestamps, so its voting starts before it ends, and ends before
/// the committee does, wherever the fund is ordered.
pub proof fn lemma_proposal_keeps_time_with_its_fund(proposal: ProposalView, fund: FundView)
    requires
        proposal_follows_fund(proposal, fund),
        fund_carries_its_voteplan(fund),
    ensures
        proposal.chain_vote_start_time == fund.fund_start_time,
        proposal.chain_vote_end_time == fund.fund_end_time,
        proposal.chain_committee_end_time == fund.next_fund_start_time,
        fund_is_ordered(fund) ==> proposal.chain_vote_start_time < proposal.chain_vote_end_time
            < proposal.chain_committee_end_time,
{
}

/// Makes the proposal of a draw for `fund`, which must have a vote plan.
pub fn make_proposal(draw: ProposalDraw, fund: &Fund) -> (proposal: Proposal)
    requires
        fund.chain_vote_plans.len() > 0,
    ensures
        proposal@ == proposal_of(draw, fund@),
        proposal_follows_fund(proposal@, fund@),
        proposal_is_sound(proposal@),
{
    let id = to_magnitude(draw.id);
    let plan = &fund.chain_vote_plans[0];
    let mut proposal_files_url = draw.url.clone();
    proposal_files_url.append("/files");
    let chain_vote_options = VoteOptions::parse_coma_separated_value("yes,no");
    proof {
        lemma_ballot_is_read_from_list();
        lemma_split_is_unique(chain_vote_options@, ballot(), "yes,no"@, ',');
    }
    Proposal {
        internal_id: id,
        proposal_id: decimal_string(id as u64),
        proposal_category: draw.category,
        proposal_title: draw.title,
        proposal_summary: draw.summary,
        proposal_problem: draw.problem,
        proposal_solution: draw.solution,
        proposal_public_key: draw.public_key,
        proposal_funds: to_funds(draw.funds),
        proposal_url: draw.url,
        proposal_files_url,
        proposal_impact_score: to_impact_score(draw.impact_score),
        proposer: draw.proposer,
        chain_proposal_id: draw.chain_proposal_hash.as_str().as_bytes_vec(),
        chain_proposal_index: draw.chain_proposal_index as i64,
        chain_vote_options,
        chain_voteplan_id: plan.chain_voteplan_id.clone(),
        chain_vote_start_time: plan.chain_vote_start_time,
        chain_vote_end_time: plan.chain_vote_end_time,
        chain_committee_end_time: plan.chain_committee_end_time,
        chain_voteplan_payload: plan.chain_voteplan_payload.clone(),
        chain_vote_encryption_key: plan.chain_vote_encryption_key.clone(),
        fund_id: fund.id,
    }
}

/// The token made of its bytes for a reference time: valid from one day
/// before it to one day after it.
pub open spec fn token_of(data: Seq<u8>, reference: int) -> APITokenDataView {
    APITokenDataView {
        token: data,
        creation_time: reference - ONE_DAY,
        expire_time: reference + ONE_DAY,
    }
}

/// Makes the entry of a token in a pool: the text that is its key, and the
/// token with its span of validity around `reference`.
pub fn make_token(text: String, data: Vec<u8>, reference: i64) -> (entry: (String, APITokenData))
    requires
        i64::MIN + ONE_DAY <= reference <= i64::MAX - ONE_DAY,
    ensures
        entry.0@ == text@,
        entry.1@ == token_of(data@, reference as int),
        entry.1@.creation_time < reference < entry.1@.expire_time,
{
    let token = APITokenData {
        token: APIToken::new(data),
        creation_time: reference - ONE_DAY,
        expire_time: reference + ONE_DAY,
    };
    (text, token)
}

} // verus!
