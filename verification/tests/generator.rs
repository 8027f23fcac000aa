use vit_servicing_station_tests::clock::{ONE_DAY, TEN_DAYS};
use vit_servicing_station_tests::models::{Fund, Proposal, Voteplan};
use vit_servicing_station_tests::token_pool::TokenPool;
use vit_servicing_station_tests::ArbitraryGenerator;

fn now() -> i64 {
    chrono::Utc::now().timestamp()
}

fn check_hash(text: &str) {
    assert_eq!(text.len(), 44);
    assert_eq!(base64::decode(text).unwrap().len(), 32);
}

fn check_address(address: &str) {
    assert!(address.starts_with("http://"));
    assert!(!address.contains(' '));
    assert_eq!(address.to_lowercase(), address);
    let host = &address["http://".len()..];
    assert!(host.contains('.'));
    assert!(!host.starts_with('.'));
}

fn check_voteplan(plan: &Voteplan, earliest: i64, latest: i64) {
    assert!(plan.id >= 0);
    check_hash(&plan.chain_voteplan_id);
    assert!(plan.chain_vote_start_time < plan.chain_vote_end_time);
    assert!(plan.chain_vote_end_time < plan.chain_committee_end_time);
    assert!(earliest - TEN_DAYS <= plan.chain_vote_start_time);
    assert!(plan.chain_vote_start_time < latest);
    assert!(earliest <= plan.chain_vote_end_time);
    assert!(plan.chain_vote_end_time < latest + TEN_DAYS);
    assert!(earliest + TEN_DAYS <= plan.chain_committee_end_time);
    assert!(plan.chain_committee_end_time < latest + 2 * TEN_DAYS);
    assert_eq!(plan.chain_voteplan_payload, "public");
    assert_eq!(plan.chain_vote_encryption_key, "");
}

fn check_fund(fund: &Fund, earliest: i64, latest: i64) {
    assert!(fund.id >= 0);
    assert!(fund.fund_start_time < fund.fund_end_time);
    assert!(fund.fund_end_time < fund.next_fund_start_time);
    assert_eq!(fund.chain_vote_plans.len(), 1);
    let plan = &fund.chain_vote_plans[0];
    check_voteplan(plan, earliest, latest);
    assert_eq!(plan.fund_id, fund.id);
    assert_eq!(plan.chain_vote_start_time, fund.fund_start_time);
    assert_eq!(plan.chain_vote_end_time, fund.fund_end_time);
    assert_eq!(plan.chain_committee_end_time, fund.next_fund_start_time);
    let info: Vec<char> = fund.voting_power_info.chars().collect();
    assert_eq!(info.len(), 5);
    assert_eq!(info[0], '>');
    assert!(('1'..='9').contains(&info[1]));
    assert!(info[2..].iter().all(|c| c.is_ascii_digit()));
    assert!(!fund.fund_name.is_empty());
    assert!(!fund.fund_goal.is_empty());
    assert!(fund.rewards_info.ends_with('.'));
    let words = fund.rewards_info.split(' ').count();
    assert!(words == 3 || words == 4);
}

fn check_proposal(proposal: &Proposal, fund: &Fund) {
    let plan = &fund.chain_vote_plans[0];
    assert!(proposal.internal_id >= 0);
    assert_eq!(proposal.proposal_id, proposal.internal_id.to_string());
    assert!(5_000 <= proposal.proposal_funds && proposal.proposal_funds < 205_000);
    assert!(100 <= proposal.proposal_impact_score && proposal.proposal_impact_score < 500);
    check_address(&proposal.proposal_url);
    assert_eq!(proposal.proposal_files_url, format!("{}/files", proposal.proposal_url));
    check_hash(&proposal.proposal_public_key);
    let chain_id = String::from_utf8(proposal.chain_proposal_id.clone()).unwrap();
    check_hash(&chain_id);
    assert!(0 <= proposal.chain_proposal_index && proposal.chain_proposal_index <= u32::MAX as i64);
    assert_eq!(proposal.chain_vote_options.0, vec!["yes".to_string(), "no".to_string()]);
    assert_eq!(proposal.proposal_category.category_id, "");
    assert_eq!(proposal.proposal_category.category_description, "");
    assert!(!proposal.proposal_category.category_name.is_empty());
    check_address(&proposal.proposer.proposer_url);
    assert!(proposal.proposer.proposer_relevant_experience.parse::<u64>().is_ok());
    assert!(proposal.proposer.proposer_email.contains('@'));
    assert_eq!(proposal.fund_id, fund.id);
    assert_eq!(proposal.chain_voteplan_id, plan.chain_voteplan_id);
    assert_eq!(proposal.chain_vote_start_time, plan.chain_vote_start_time);
    assert_eq!(proposal.chain_vote_end_time, plan.chain_vote_end_time);
    assert_eq!(proposal.chain_committee_end_time, plan.chain_committee_end_time);
    assert_eq!(proposal.chain_voteplan_payload, plan.chain_voteplan_payload);
    assert_eq!(proposal.chain_vote_encryption_key, plan.chain_vote_encryption_key);
}

fn check_pool(pool: &TokenPool, earliest: i64, latest: i64) {
    assert!(2 <= pool.len() && pool.len() <= 11);
    for (key, token) in pool.entries() {
        assert_eq!(token.token.as_bytes().len(), 32);
        assert_eq!(key, base64::encode_config(token.token.as_bytes(), base64::URL_SAFE_NO_PAD));
        assert_eq!(key.len(), 43);
        assert!(earliest - ONE_DAY <= token.creation_time);
        assert!(token.creation_time <= latest - ONE_DAY);
        assert_eq!(token.expire_time, token.creation_time + 2 * ONE_DAY);
    }
}

#[test]
fn default_generator_generates() {
    let mut generator = ArbitraryGenerator::default();
    assert!(generator.impact_score() >= 100);
}

#[test]
fn token_hash_is_url_safe_text_of_32_bytes() {
    let mut generator = ArbitraryGenerator::new();
    for _ in 0..100 {
        let text = generator.token_hash();
        assert_eq!(text.len(), 43);
        let bytes = base64::decode_config(&text, base64::URL_SAFE_NO_PAD).unwrap();
        assert_eq!(bytes.len(), 32);
        assert!(!text.contains('+') && !text.contains('/') && !text.contains('='));
    }
}

#[test]
fn hash_is_standard_text_of_32_bytes() {
    let mut generator = ArbitraryGenerator::new();
    let first = generator.hash();
    let second = generator.hash();
    check_hash(&first);
    check_hash(&second);
    assert!(first.ends_with('='));
    assert_ne!(first, second);
}

#[test]
fn ids_are_drawn_afresh() {
    let mut generator = ArbitraryGenerator::new();
    let ids: Vec<i32> = (0..16).map(|_| generator.id()).collect();
    assert!(ids.iter().any(|id| *id != ids[0]));
}

#[test]
fn token_key_is_the_text_of_its_bytes() {
    let mut generator = ArbitraryGenerator::new();
    let earliest = now();
    let (key, token) = generator.token();
    let latest = now();
    assert_eq!(token.token.as_bytes().len(), 32);
    assert_eq!(key, base64::encode_config(token.token.as_bytes(), base64::URL_SAFE_NO_PAD));
    assert_ne!(key.as_bytes(), token.token.as_bytes().as_slice());
    assert!(earliest - ONE_DAY <= token.creation_time && token.creation_time <= latest - ONE_DAY);
    assert!(earliest + ONE_DAY <= token.expire_time && token.expire_time <= latest + ONE_DAY);
    assert!(token.creation_time < earliest && latest < token.expire_time);
}

#[test]
fn tokens_make_a_pool_of_two_to_eleven() {
    let mut generator = ArbitraryGenerator::new();
    for _ in 0..50 {
        let earliest = now();
        let pool = generator.tokens();
        check_pool(&pool, earliest, now());
    }
}

#[test]
fn token_keys_do_not_collide() {
    let mut generator = ArbitraryGenerator::new();
    for round in 0..10_000 {
        let size = round % 10 + 2;
        let mut pool = TokenPool::new();
        for _ in 0..size {
            let (key, token) = generator.token();
            pool.insert(key, token);
        }
        assert_eq!(pool.len(), size);
    }
}

#[test]
fn generated_pools_hold_every_token_made() {
    let mut generator = ArbitraryGenerator::new();
    let mut sizes = std::collections::HashSet::new();
    for _ in 0..10_000 {
        let pool = generator.tokens();
        assert!(2 <= pool.len() && pool.len() <= 11);
        let keys: std::collections::HashSet<String> =
            pool.entries().into_iter().map(|entry| entry.0).collect();
        assert_eq!(keys.len(), pool.len());
        sizes.insert(pool.len());
    }
    assert!(sizes.len() > 1);
}

#[test]
fn funds_are_ordered_and_carry_their_voteplan() {
    let mut generator = ArbitraryGenerator::new();
    for _ in 0..20 {
        let earliest = now();
        let funds = generator.funds();
        let latest = now();
        assert!(1 <= funds.len() && funds.len() <= 100);
        for fund in &funds {
            check_fund(fund, earliest, latest);
        }
    }
}

#[test]
fn http_address_is_lowercase_and_hyphenated() {
    let generator = ArbitraryGenerator::new();
    for _ in 0..200 {
        check_address(&generator.gen_http_address());
    }
}

#[test]
fn proposer_is_descriptive() {
    let mut generator = ArbitraryGenerator::new();
    let proposer = generator.proposer();
    assert!(!proposer.proposer_name.is_empty());
    assert!(proposer.proposer_email.contains('@'));
    check_address(&proposer.proposer_url);
    let experience: u64 = proposer.proposer_relevant_experience.parse().unwrap();
    assert_eq!(experience.to_string(), proposer.proposer_relevant_experience);
}

#[test]
fn impact_score_is_in_range() {
    let mut generator = ArbitraryGenerator::new();
    for _ in 0..1_000 {
        let score = generator.impact_score();
        assert!(100 <= score && score < 500);
    }
}

#[test]
fn proposal_fund_is_in_range() {
    let mut generator = ArbitraryGenerator::new();
    for _ in 0..1_000 {
        let funds = generator.proposal_fund();
        assert!(5_000 <= funds && funds < 205_000);
    }
}

#[test]
fn proposal_category_has_a_name_only() {
    let mut generator = ArbitraryGenerator::new();
    let category = generator.proposal_category();
    assert_eq!(category.category_id, "");
    assert!(!category.category_name.is_empty());
    assert_eq!(category.category_description, "");
}

#[test]
fn voteplan_names_the_given_fund() {
    let mut generator = ArbitraryGenerator::new();
    for fund_id in [0, 1, -4, i32::MAX, i32::MIN] {
        let earliest = now();
        let plan = generator.voteplan_with_fund_id(fund_id);
        check_voteplan(&plan, earliest, now());
        assert_eq!(plan.fund_id, fund_id);
    }
}

#[test]
fn voteplans_are_made_one_for_each_fund() {
    let mut generator = ArbitraryGenerator::new();
    let funds = generator.funds();
    let earliest = now();
    let plans = generator.voteplans(&funds);
    let latest = now();
    assert_eq!(plans.len(), funds.len());
    for (plan, fund) in plans.iter().zip(&funds) {
        check_voteplan(plan, earliest, latest);
        assert_eq!(plan.fund_id, fund.id);
        assert_ne!(plan.chain_voteplan_id, fund.chain_vote_plans[0].chain_voteplan_id);
    }
    assert!(generator.voteplans(&[]).is_empty());
}

#[test]
fn proposals_are_made_one_for_each_fund() {
    let mut generator = ArbitraryGenerator::new();
    let funds = generator.funds();
    let proposals = generator.proposals(&funds);
    assert_eq!(proposals.len(), funds.len());
    for (proposal, fund) in proposals.iter().zip(&funds) {
        check_proposal(proposal, fund);
    }
    assert!(generator.proposals(&[]).is_empty());
}

#[test]
fn snapshot_is_coherent() {
    let mut generator = ArbitraryGenerator::new();
    for _ in 0..20 {
        let earliest = now();
        let snapshot = generator.snapshot();
        let latest = now();
        let funds = snapshot.funds();
        let proposals = snapshot.proposals();
        let voteplans = snapshot.voteplans();
        assert!(1 <= funds.len() && funds.len() <= 100);
        assert_eq!(funds.len(), proposals.len());
        assert_eq!(funds.len(), voteplans.len());
        for i in 0..funds.len() {
            check_fund(&funds[i], earliest, latest);
            check_proposal(&proposals[i], &funds[i]);
            check_voteplan(&voteplans[i], earliest, latest);
            assert_eq!(voteplans[i].fund_id, funds[i].id);
            assert!(funds.iter().any(|fund| fund.id == proposals[i].fund_id));
        }
        check_pool(&snapshot.tokens(), earliest, latest);
    }
}

#[test]
fn first_proposal_references_first_fund() {
    let snapshot = ArbitraryGenerator::new().snapshot();
    let fund = snapshot.funds().into_iter().next().unwrap();
    let proposal = snapshot.proposals().into_iter().next().unwrap();
    let voteplan = snapshot.voteplans().into_iter().next().unwrap();
    assert_eq!(proposal.fund_id, fund.id);
    assert_eq!(proposal.chain_voteplan_id, fund.chain_vote_plans[0].chain_voteplan_id);
    assert_eq!(voteplan.fund_id, fund.id);
}
