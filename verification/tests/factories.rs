use vit_servicing_station_tests::factories::{
    http_address, make_category, make_fund, make_proposal, make_proposer, make_token,
    make_voteplan, to_funds, to_impact_score, to_magnitude, to_pool_size, to_signed, to_size,
    to_threshold, FundDraw, ProposalDraw,
};
use vit_servicing_station_tests::models::{Fund, Voteplan};

fn sample_fund_draw() -> FundDraw {
    FundDraw {
        id: -12,
        fund_name: "Open-source holistic matrix".to_string(),
        fund_goal: "Synergistic".to_string(),
        threshold_digits: "4071".to_string(),
        voting_power_threshold: u64::MAX,
        rewards_info: "lorem ipsum dolor.".to_string(),
        dates: (1_000, 2_000, 3_000),
        voteplan_id: 77,
        chain_voteplan_id: "plan-hash".to_string(),
    }
}

fn sample_fund() -> Fund {
    make_fund(sample_fund_draw())
}

fn sample_proposal_draw() -> ProposalDraw {
    ProposalDraw {
        id: -305,
        category: make_category("Energy".to_string()),
        title: "title".to_string(),
        summary: "summary".to_string(),
        problem: "problem".to_string(),
        solution: "solution".to_string(),
        public_key: "key".to_string(),
        funds: 200_001,
        url: "http://hills-and-sons.com".to_string(),
        impact_score: 401,
        proposer: make_proposer(
            "Ada".to_string(),
            "ada@example.com".to_string(),
            "http://ada.org".to_string(),
            18,
        ),
        chain_proposal_hash: "QUJD".to_string(),
        chain_proposal_index: 4_000_000_000,
    }
}

#[test]
fn signed_numbers_have_the_bits_of_the_draw() {
    assert_eq!(to_signed(0), 0);
    assert_eq!(to_signed(0x7fff_ffff), i32::MAX);
    assert_eq!(to_signed(0x8000_0000), i32::MIN);
    assert_eq!(to_signed(u32::MAX), -1);
    for draw in [1u32, 99, 0x8000_0001, 0xdead_beef, 0xffff_fffe] {
        assert_eq!(to_signed(draw), draw as i32);
    }
}

#[test]
fn magnitude_is_never_negative() {
    assert_eq!(to_magnitude(0), 0);
    assert_eq!(to_magnitude(5), 5);
    assert_eq!(to_magnitude(-5), 5);
    assert_eq!(to_magnitude(i32::MAX), i32::MAX);
    assert_eq!(to_magnitude(i32::MIN + 1), i32::MAX);
    assert_eq!(to_magnitude(i32::MIN), i32::MAX);
}

#[test]
fn sizes_run_from_one_to_a_hundred() {
    assert_eq!(to_size(0), 1);
    assert_eq!(to_size(99), 100);
    assert_eq!(to_size(100), 1);
    assert_eq!(to_size(u32::MAX), 96);
}

#[test]
fn pool_sizes_run_from_two_to_eleven() {
    assert_eq!(to_pool_size(1), 3);
    assert_eq!(to_pool_size(9), 11);
    assert_eq!(to_pool_size(10), 2);
    assert_eq!(to_pool_size(100), 2);
}

#[test]
fn funds_run_from_5000_to_204999() {
    assert_eq!(to_funds(0), 5_000);
    assert_eq!(to_funds(199_999), 204_999);
    assert_eq!(to_funds(200_000), 5_000);
    assert_eq!(to_funds(u64::MAX), 156_615);
}

#[test]
fn impact_scores_run_from_100_to_499() {
    assert_eq!(to_impact_score(0), 100);
    assert_eq!(to_impact_score(399), 499);
    assert_eq!(to_impact_score(400), 100);
    assert_eq!(to_impact_score(u64::MAX), 115);
}

#[test]
fn thresholds_have_the_bits_of_the_draw() {
    assert_eq!(to_threshold(5), 5);
    assert_eq!(to_threshold(u64::MAX), -1);
    assert_eq!(to_threshold(1 << 63), i64::MIN);
    assert_eq!(to_threshold((1 << 63) - 1), i64::MAX);
    assert_eq!(to_threshold(0xdead_beef_dead_beef), 0xdead_beef_dead_beef_u64 as i64);
}

#[test]
fn http_address_hyphenates_the_host() {
    assert_eq!(http_address("hills and sons", "com"), "http://hills-and-sons.com");
    assert_eq!(http_address("acme", "org"), "http://acme.org");
    assert_eq!(http_address("", ""), "http://.");
}

#[test]
fn voteplan_is_public_and_without_key() {
    let plan = make_voteplan(-7, "abc".to_string(), (1, 2, 3), 9);
    assert_eq!(
        plan,
        Voteplan {
            id: 7,
            chain_voteplan_id: "abc".to_string(),
            chain_vote_start_time: 1,
            chain_vote_end_time: 2,
            chain_committee_end_time: 3,
            chain_voteplan_payload: "public".to_string(),
            chain_vote_encryption_key: "".to_string(),
            fund_id: 9,
        }
    );
}

#[test]
fn fund_comes_with_its_voteplan() {
    let fund = sample_fund();
    assert_eq!(fund.id, 12);
    assert_eq!(fund.fund_name, "Open-source holistic matrix");
    assert_eq!(fund.fund_goal, "Synergistic");
    assert_eq!(fund.voting_power_info, ">4071");
    assert_eq!(fund.voting_power_threshold, -1);
    assert_eq!(fund.rewards_info, "lorem ipsum dolor.");
    assert_eq!(fund.fund_start_time, 1_000);
    assert_eq!(fund.fund_end_time, 2_000);
    assert_eq!(fund.next_fund_start_time, 3_000);
    assert_eq!(
        fund.chain_vote_plans,
        vec![make_voteplan(77, "plan-hash".to_string(), (1_000, 2_000, 3_000), 12)]
    );
}

#[test]
fn fund_with_the_least_identifier_is_not_negative() {
    let mut draw = sample_fund_draw();
    draw.id = i32::MIN;
    let fund = make_fund(draw);
    assert_eq!(fund.id, i32::MAX);
    assert_eq!(fund.chain_vote_plans[0].fund_id, i32::MAX);
}

#[test]
fn proposal_copies_from_the_first_voteplan_of_its_fund() {
    let fund = sample_fund();
    let proposal = make_proposal(sample_proposal_draw(), &fund);
    assert_eq!(proposal.internal_id, 305);
    assert_eq!(proposal.proposal_id, "305");
    assert_eq!(proposal.proposal_category, make_category("Energy".to_string()));
    assert_eq!(proposal.proposal_title, "title");
    assert_eq!(proposal.proposal_summary, "summary");
    assert_eq!(proposal.proposal_problem, "problem");
    assert_eq!(proposal.proposal_solution, "solution");
    assert_eq!(proposal.proposal_public_key, "key");
    assert_eq!(proposal.proposal_funds, 5_001);
    assert_eq!(proposal.proposal_url, "http://hills-and-sons.com");
    assert_eq!(proposal.proposal_files_url, "http://hills-and-sons.com/files");
    assert_eq!(proposal.proposal_impact_score, 101);
    assert_eq!(proposal.proposer.proposer_relevant_experience, "18");
    assert_eq!(proposal.chain_proposal_id, b"QUJD".to_vec());
    assert_eq!(proposal.chain_proposal_index, 4_000_000_000);
    assert_eq!(proposal.chain_vote_options.0, vec!["yes".to_string(), "no".to_string()]);
    assert_eq!(proposal.chain_voteplan_id, "plan-hash");
    assert_eq!(proposal.chain_vote_start_time, 1_000);
    assert_eq!(proposal.chain_vote_end_time, 2_000);
    assert_eq!(proposal.chain_committee_end_time, 3_000);
    assert_eq!(proposal.chain_voteplan_payload, "public");
    assert_eq!(proposal.chain_vote_encryption_key, "");
    assert_eq!(proposal.fund_id, 12);
}

#[test]
fn proposal_follows_the_first_of_several_voteplans() {
    let mut fund = sample_fund();
    fund.chain_vote_plans.push(make_voteplan(1, "second".to_string(), (7, 8, 9), 12));
    let proposal = make_proposal(sample_proposal_draw(), &fund);
    assert_eq!(proposal.chain_voteplan_id, "plan-hash");
    assert_eq!(proposal.chain_vote_start_time, 1_000);
}

#[test]
fn proposer_experience_is_a_decimal_number() {
    let proposer = make_proposer(
        "Ada".to_string(),
        "ada@example.com".to_string(),
        "http://ada.org".to_string(),
        u64::MAX,
    );
    assert_eq!(proposer.proposer_name, "Ada");
    assert_eq!(proposer.proposer_email, "ada@example.com");
    assert_eq!(proposer.proposer_url, "http://ada.org");
    assert_eq!(proposer.proposer_relevant_experience, "18446744073709551615");
}

#[test]
fn category_has_a_name_only() {
    let category = make_category("Energy".to_string());
    assert_eq!(category.category_id, "");
    assert_eq!(category.category_name, "Energy");
    assert_eq!(category.category_description, "");
}

#[test]
fn token_is_valid_a_day_each_way() {
    let (key, token) = make_token("key".to_string(), vec![1, 2, 3], 1_000_000);
    assert_eq!(key, "key");
    assert_eq!(token.token.as_bytes(), &vec![1u8, 2, 3]);
    assert_eq!(token.creation_time, 1_000_000 - 86_400);
    assert_eq!(token.expire_time, 1_000_000 + 86_400);
}

#[test]
fn clones_are_equal() {
    let fund = sample_fund();
    assert_eq!(fund.clone(), fund);
    let proposal = make_proposal(sample_proposal_draw(), &fund);
    assert_eq!(proposal.clone(), proposal);
    let (_, token) = make_token("key".to_string(), vec![9; 32], 0);
    assert_eq!(token.clone(), token);
}
