use taskfund::voting::finalize_budget;
use taskfund::voting::submit_vote;
use taskfund::voting::BudgetAggregate;
use taskfund::voting::BudgetVote;
use taskfund::voting::BudgetVoteError;
use taskfund::voting::MIN_CONTRIBUTION_FOR_VOTE;
use taskfund::AccountId;

fn fresh_poll(task: AccountId) -> (Vec<BudgetVote>, BudgetAggregate) {
    (Vec::new(), BudgetAggregate { task, total_voters: 0, total_weight: 0 })
}

#[test]
fn test_submit_vote_minimum_stake() {
    let task = AccountId::from_u64(1);
    let (mut votes, mut agg) = fresh_poll(task);

    let r = submit_vote(
        &mut votes,
        &mut agg,
        AccountId::from_u64(2),
        500,
        MIN_CONTRIBUTION_FOR_VOTE - 1,
        10,
    );
    assert!(matches!(r, Err(BudgetVoteError::ContributionTooSmall)));
    assert_eq!(agg.total_voters, 0);
    assert!(votes.is_empty());
}

#[test]
fn test_submit_vote_counts_distinct_voters() {
    let task = AccountId::from_u64(1);
    let (mut votes, mut agg) = fresh_poll(task);
    let alice = AccountId::from_u64(2);
    let bob = AccountId::from_u64(3);

    submit_vote(&mut votes, &mut agg, alice, 500, 10_000_000, 10).unwrap();
    assert_eq!(agg.total_voters, 1);
    assert_eq!(agg.total_weight, 10_000_000);

    submit_vote(&mut votes, &mut agg, bob, 700, 20_000_000, 11).unwrap();
    assert_eq!(agg.total_voters, 2);
    assert_eq!(agg.total_weight, 30_000_000);
    assert_eq!(votes.len(), 2);
}

#[test]
fn test_revote_replaces_instead_of_double_counting() {
    let task = AccountId::from_u64(1);
    let (mut votes, mut agg) = fresh_poll(task);
    let alice = AccountId::from_u64(2);

    submit_vote(&mut votes, &mut agg, alice, 500, 10_000_000, 10).unwrap();
    submit_vote(&mut votes, &mut agg, alice, 900, 25_000_000, 11).unwrap();

    assert_eq!(agg.total_voters, 1, "re-voting must not inflate the voter count");
    assert_eq!(agg.total_weight, 25_000_000, "re-voting must not double-count weight");
    assert_eq!(votes.len(), 1);
    assert_eq!(votes[0].proposed_budget, 900);
    assert_eq!(votes[0].vote_weight, 25_000_000);
    assert_eq!(votes[0].voted_at, 11);
}

#[test]
fn test_identical_revote_leaves_aggregate_unchanged() {
    let task = AccountId::from_u64(1);
    let (mut votes, mut agg) = fresh_poll(task);
    let alice = AccountId::from_u64(2);

    submit_vote(&mut votes, &mut agg, alice, 500, 10_000_000, 10).unwrap();
    let before = agg;
    submit_vote(&mut votes, &mut agg, alice, 500, 10_000_000, 99).unwrap();
    assert_eq!(agg, before);
    assert_eq!(votes.len(), 1);
}

#[test]
fn test_finalize_budget_needs_three_voters() {
    let task = AccountId::from_u64(1);
    let (mut votes, mut agg) = fresh_poll(task);

    submit_vote(&mut votes, &mut agg, AccountId::from_u64(2), 500, 50_000_000, 10).unwrap();
    submit_vote(&mut votes, &mut agg, AccountId::from_u64(3), 600, 50_000_000, 11).unwrap();

    let r = finalize_budget(&votes, &agg, 100_000_000);
    assert!(matches!(r, Err(BudgetVoteError::QuorumNotMet)));
}

#[test]
fn test_finalize_budget_needs_sixty_percent_weight() {
    let task = AccountId::from_u64(1);
    let (mut votes, mut agg) = fresh_poll(task);

    submit_vote(&mut votes, &mut agg, AccountId::from_u64(2), 500, 10_000_000, 10).unwrap();
    submit_vote(&mut votes, &mut agg, AccountId::from_u64(3), 600, 10_000_000, 11).unwrap();
    submit_vote(&mut votes, &mut agg, AccountId::from_u64(4), 700, 10_000_000, 12).unwrap();

    // 30_000_000 voted out of 100_000_000 contributed: 30% < 60%.
    let r = finalize_budget(&votes, &agg, 100_000_000);
    assert!(matches!(r, Err(BudgetVoteError::QuorumNotMet)));

    // 30_000_000 out of 50_000_000 is exactly 60%: quorum met.
    let median = finalize_budget(&votes, &agg, 50_000_000).unwrap();
    assert_eq!(median, 600);
}

#[test]
fn test_finalize_budget_returns_weighted_median() {
    let task = AccountId::from_u64(1);
    let (mut votes, mut agg) = fresh_poll(task);

    submit_vote(&mut votes, &mut agg, AccountId::from_u64(2), 900_000_000, 50_000_000, 10)
        .unwrap();
    submit_vote(&mut votes, &mut agg, AccountId::from_u64(3), 1_000_000_000, 50_000_000, 11)
        .unwrap();
    submit_vote(&mut votes, &mut agg, AccountId::from_u64(4), 1_100_000_000, 50_000_000, 12)
        .unwrap();

    let median = finalize_budget(&votes, &agg, 150_000_000).unwrap();
    assert_eq!(median, 1_000_000_000);
}

#[test]
fn test_finalize_budget_zero_contributed() {
    // With nothing contributed the weight condition holds trivially; three
    // voters alone meet the quorum.
    let task = AccountId::from_u64(1);
    let (mut votes, mut agg) = fresh_poll(task);

    submit_vote(&mut votes, &mut agg, AccountId::from_u64(2), 10, 10_000_000, 1).unwrap();
    submit_vote(&mut votes, &mut agg, AccountId::from_u64(3), 20, 10_000_000, 2).unwrap();
    submit_vote(&mut votes, &mut agg, AccountId::from_u64(4), 30, 10_000_000, 3).unwrap();

    let median = finalize_budget(&votes, &agg, 0).unwrap();
    assert_eq!(median, 20);
}
