//! Budget voting and finalization.
//!
//! One vote per `(task, voter)`: re-submission replaces the earlier vote,
//! never double-counts it.  A vote's weight is the voter's cumulative
//! contribution to the task, so influence is bought with stake, not with
//! identities.  Finalization needs a quorum — at least three distinct
//! voters and voted weight covering 60% of the contributed value — and
//! returns the weighted median of the stored votes.

use vstd::prelude::*;

use crate::median::calculate_weighted_median;
use crate::median::is_weighted_median;
use crate::median::total_weight_of;
use crate::median::WeightedVote;
use crate::AccountId;

verus! {

/// Minimum stake that gives voting power: 10 units of the 6-decimal token.
pub const MIN_CONTRIBUTION_FOR_VOTE: u64 = 10_000_000;

/// Voted weight must cover this share of the contributed value.
pub const QUORUM_PERCENTAGE: u8 = 60;

/// Minimum number of distinct voters.
pub const MIN_VOTERS: u32 = 3;

#[derive(Clone, Copy, PartialEq, Eq, Structural, Debug)]
pub enum BudgetVoteError {
    ContributionTooSmall,
    QuorumNotMet,
    VotingNotActive,
}

/// One voter's current budget proposal for one task.
#[derive(Clone, Copy, PartialEq, Eq, Structural, Debug)]
pub struct BudgetVote {
    pub task: AccountId,
    pub voter: AccountId,
    pub proposed_budget: u64,
    pub vote_weight: u64,
    pub voted_at: i64,
}

/// Per-task tally over the distinct voters who have voted.
#[derive(Clone, Copy, PartialEq, Eq, Structural, Debug)]
pub struct BudgetAggregate {
    pub task: AccountId,
    pub total_voters: u32,
    pub total_weight: u64,
}

/// Sum of the stored votes' weights.
pub open spec fn sum_weights(s: Seq<BudgetVote>) -> int
    decreases s.len(),
{
    if s.len() == 0 {
        0
    } else {
        s[0].vote_weight + sum_weights(s.drop_first())
    }
}

/// No voter occurs twice.
pub open spec fn distinct_voters(s: Seq<BudgetVote>) -> bool {
    forall|i: int, j: int| #![trigger s[i], s[j]] 0 <= i < j < s.len() ==> s[i].voter != s[j].voter
}

/// Some stored vote belongs to `voter`.
pub open spec fn has_voter(s: Seq<BudgetVote>, voter: AccountId) -> bool {
    exists|i: int| 0 <= i < s.len() && (#[trigger] s[i]).voter == voter
}

/// The index of `voter`'s vote; unique when voters are distinct.
pub open spec fn voter_index(s: Seq<BudgetVote>, voter: AccountId) -> int {
    choose|i: int| 0 <= i < s.len() && (#[trigger] s[i]).voter == voter
}

/// The vote store and its aggregate agree: distinct voters, every vote on
/// the aggregate's task with at least the minimum stake, and the tally
/// equal to the count and summed weight of the distinct voters.
pub open spec fn votes_wf(votes: Seq<BudgetVote>, agg: BudgetAggregate) -> bool {
    &&& distinct_voters(votes)
    &&& forall|i: int|
        0 <= i < votes.len() ==> (#[trigger] votes[i]).vote_weight >= MIN_CONTRIBUTION_FOR_VOTE
    &&& forall|i: int| 0 <= i < votes.len() ==> (#[trigger] votes[i]).task == agg.task
    &&& agg.total_voters == votes.len()
    &&& agg.total_weight == sum_weights(votes)
}

proof fn lemma_sum_nonneg(s: Seq<BudgetVote>)
    ensures
        0 <= sum_weights(s),
    decreases s.len(),
{
    if s.len() > 0 {
        lemma_sum_nonneg(s.drop_first());
    }
}

proof fn lemma_sum_element(s: Seq<BudgetVote>, i: int)
    requires
        0 <= i < s.len(),
    ensures
        s[i].vote_weight <= sum_weights(s),
    decreases s.len(),
{
    if i == 0 {
        lemma_sum_nonneg(s.drop_first());
    } else {
        lemma_sum_element(s.drop_first(), i - 1);
    }
}

proof fn lemma_sum_push(s: Seq<BudgetVote>, x: BudgetVote)
    ensures
        sum_weights(s.push(x)) == sum_weights(s) + x.vote_weight,
    decreases s.len(),
{
    if s.len() == 0 {
        assert(s.push(x)[0] == x);
        assert(s.push(x).drop_first() =~= Seq::<BudgetVote>::empty());
        assert(sum_weights(Seq::<BudgetVote>::empty()) == 0);
    } else {
        assert(s.push(x)[0] == s[0]);
        assert(s.push(x).drop_first() =~= s.drop_first().push(x));
        lemma_sum_push(s.drop_first(), x);
    }
}

proof fn lemma_sum_update(s: Seq<BudgetVote>, i: int, v: BudgetVote)
    requires
        0 <= i < s.len(),
    ensures
        sum_weights(s.update(i, v)) == sum_weights(s) - s[i].vote_weight + v.vote_weight,
    decreases s.len(),
{
    if i == 0 {
        assert(s.update(0, v)[0] == v);
        assert(s.update(0, v).drop_first() =~= s.drop_first());
    } else {
        assert(s.update(i, v)[0] == s[0]);
        assert(s.update(i, v).drop_first() =~= s.drop_first().update(i - 1, v));
        lemma_sum_update(s.drop_first(), i - 1, v);
    }
}

/// Submit or replace a budget vote.
///
/// A new voter extends the tally; a returning voter's earlier weight is
/// first taken out, so re-voting never double-counts (and re-submitting an
/// identical vote leaves the aggregate unchanged).  The caller passes the
/// voter's cumulative contribution as the weight and keeps the summed
/// weight within `u64`.
pub fn submit_vote(
    votes: &mut Vec<BudgetVote>,
    aggregate: &mut BudgetAggregate,
    voter: AccountId,
    proposed_budget: u64,
    contribution_amount: u64,
    now: i64,
) -> (r: Result<(), BudgetVoteError>)
    requires
        votes_wf(old(votes)@, *old(aggregate)),
        old(aggregate).total_weight + contribution_amount <= u64::MAX,
        old(aggregate).total_voters < u32::MAX,
    ensures
        r == Err::<(), BudgetVoteError>(BudgetVoteError::ContributionTooSmall)
            <==> contribution_amount < MIN_CONTRIBUTION_FOR_VOTE,
        r is Ok <==> contribution_amount >= MIN_CONTRIBUTION_FOR_VOTE,
        r is Err ==> final(votes)@ == old(votes)@ && *final(aggregate) == *old(aggregate),
        votes_wf(final(votes)@, *final(aggregate)),
        final(aggregate).task == old(aggregate).task,
        r is Ok && !has_voter(old(votes)@, voter) ==> final(votes)@ == old(votes)@.push(
            BudgetVote {
                task: old(aggregate).task,
                voter: voter,
                proposed_budget: proposed_budget,
                vote_weight: contribution_amount,
                voted_at: now,
            },
        ) && final(aggregate).total_voters == old(aggregate).total_voters + 1
            && final(aggregate).total_weight == old(aggregate).total_weight
            + contribution_amount,
        r is Ok && has_voter(old(votes)@, voter) ==> final(votes)@ == old(votes)@.update(
            voter_index(old(votes)@, voter),
            BudgetVote {
                task: old(aggregate).task,
                voter: voter,
                proposed_budget: proposed_budget,
                vote_weight: contribution_amount,
                voted_at: now,
            },
        ) && final(aggregate).total_voters == old(aggregate).total_voters
            && final(aggregate).total_weight == old(aggregate).total_weight - old(
            votes)@[voter_index(old(votes)@, voter)].vote_weight + contribution_amount,
        r is Ok && has_voter(old(votes)@, voter) && old(votes)@[voter_index(
            old(votes)@,
            voter,
        )].proposed_budget == proposed_budget && old(votes)@[voter_index(
            old(votes)@,
            voter,
        )].vote_weight == contribution_amount ==> *final(aggregate) == *old(aggregate),
{
    if contribution_amount < MIN_CONTRIBUTION_FOR_VOTE {
        return Err(BudgetVoteError::ContributionTooSmall);
    }
    let ghost s = votes@;
    let new_vote = BudgetVote {
        task: aggregate.task,
        voter,
        proposed_budget,
        vote_weight: contribution_amount,
        voted_at: now,
    };
    let mut i: usize = 0;
    let n = votes.len();
    while i < n
        invariant
            0 <= i <= s.len(),
            n == s.len(),
            s == votes@,
            s == old(votes)@,
            *aggregate == *old(aggregate),
            votes_wf(s, *aggregate),
            new_vote == (BudgetVote {
                task: old(aggregate).task,
                voter: voter,
                proposed_budget: proposed_budget,
                vote_weight: contribution_amount,
                voted_at: now,
            }),
            contribution_amount >= MIN_CONTRIBUTION_FOR_VOTE,
            old(aggregate).total_weight + contribution_amount <= u64::MAX,
            old(aggregate).total_voters < u32::MAX,
            forall|j: int| 0 <= j < i ==> (#[trigger] s[j]).voter != voter,
        decreases s.len() - i,
    {
        if votes[i].voter == voter {
            let old_weight = votes[i].vote_weight;
            proof {
                lemma_sum_element(s, i as int);
                lemma_sum_nonneg(s);
                lemma_sum_update(s, i as int, new_vote);
                assert(s[i as int].voter == voter);
                assert(has_voter(s, voter));
                // The found index is the unique index holding this voter.
                let k = voter_index(s, voter);
                assert(0 <= k < s.len() && s[k].voter == voter);
                assert(k == i as int);
            }
            votes.set(i, new_vote);
            aggregate.total_weight = aggregate.total_weight - old_weight + contribution_amount;
            proof {
                let t = s.update(i as int, new_vote);
                assert forall|p: int, q: int| #![trigger t[p], t[q]] 0 <= p < q
                    < t.len() implies t[p].voter != t[q].voter by {
                    assert(t[p].voter == s[p].voter && t[q].voter == s[q].voter);
                }
                assert(forall|j: int|
                    0 <= j < t.len() ==> (#[trigger] t[j]).vote_weight
                        >= MIN_CONTRIBUTION_FOR_VOTE);
                assert(forall|j: int| 0 <= j < t.len() ==> (#[trigger] t[j]).task == aggregate.task);
            }
            return Ok(());
        }
        i = i + 1;
    }
    proof {
        lemma_sum_push(s, new_vote);
        if has_voter(s, voter) {
            let k = voter_index(s, voter);
            assert(0 <= k < s.len() && s[k].voter == voter);
            assert(false);
        }
    }
    votes.push(new_vote);
    aggregate.total_voters = aggregate.total_voters + 1;
    aggregate.total_weight = aggregate.total_weight + contribution_amount;
    proof {
        let t = s.push(new_vote);
        assert forall|p: int, q: int| #![trigger t[p], t[q]] 0 <= p < q < t.len() implies t[p].voter
            != t[q].voter by {
            if q < s.len() {
                assert(t[p] == s[p] && t[q] == s[q]);
            } else {
                assert(t[q] == new_vote && t[p] == s[p]);
            }
        }
        assert(forall|j: int|
            0 <= j < t.len() ==> (#[trigger] t[j]).vote_weight >= MIN_CONTRIBUTION_FOR_VOTE);
        assert(forall|j: int| 0 <= j < t.len() ==> (#[trigger] t[j]).task == aggregate.task);
    }
    Ok(())
}

/// Quorum: at least `MIN_VOTERS` distinct voters and voted weight covering
/// `QUORUM_PERCENTAGE` percent of the contributed value.
pub open spec fn spec_quorum_met(agg: BudgetAggregate, total_contributed: u64) -> bool {
    agg.total_voters >= MIN_VOTERS && 100 * agg.total_weight >= (QUORUM_PERCENTAGE as int)
        * total_contributed
}

/// The stored votes as weighted median samples.
pub open spec fn weighted_view(s: Seq<BudgetVote>) -> Seq<WeightedVote> {
    Seq::new(
        s.len(),
        |i: int|
            WeightedVote { proposed_budget: s[i].proposed_budget, weight: s[i].vote_weight },
    )
}

proof fn lemma_weighted_view_total(s: Seq<BudgetVote>)
    ensures
        total_weight_of(weighted_view(s)) == sum_weights(s),
    decreases s.len(),
{
    if s.len() == 0 {
        assert(weighted_view(s) =~= Seq::<WeightedVote>::empty());
    } else {
        assert(weighted_view(s).drop_first() =~= weighted_view(s.drop_first()));
        lemma_weighted_view_total(s.drop_first());
    }
}

/// Finalize the budget: succeeds exactly when the quorum is met, and then
/// returns the weighted median of the stored votes.
pub fn finalize_budget(
    votes: &Vec<BudgetVote>,
    aggregate: &BudgetAggregate,
    total_contributed: u64,
) -> (r: Result<u64, BudgetVoteError>)
    requires
        votes_wf(votes@, *aggregate),
    ensures
        r is Ok <==> spec_quorum_met(*aggregate, total_contributed),
        r == Err::<u64, BudgetVoteError>(BudgetVoteError::QuorumNotMet) <==> !spec_quorum_met(
            *aggregate,
            total_contributed,
        ),
        r is Ok ==> is_weighted_median(weighted_view(votes@), r->Ok_0),
{
    if aggregate.total_voters < MIN_VOTERS {
        return Err(BudgetVoteError::QuorumNotMet);
    }
    let voted: u128 = (aggregate.total_weight as u128) * 100;
    proof {
        assert(QUORUM_PERCENTAGE as u128 == 60);
    }
    let needed: u128 = (total_contributed as u128) * (QUORUM_PERCENTAGE as u128);
    if voted < needed {
        return Err(BudgetVoteError::QuorumNotMet);
    }
    let ghost s = votes@;
    proof {
        lemma_weighted_view_total(s);
        lemma_sum_nonneg(s);
    }
    let mut samples: Vec<WeightedVote> = Vec::new();
    let mut i: usize = 0;
    let n = votes.len();
    while i < n
        invariant
            0 <= i <= s.len(),
            n == s.len(),
            s == votes@,
            samples@.len() == i,
            forall|j: int| 0 <= j < i ==> samples@[j] == weighted_view(s)[j],
        decreases s.len() - i,
    {
        samples.push(
            WeightedVote {
                proposed_budget: votes[i].proposed_budget,
                weight: votes[i].vote_weight,
            },
        );
        i = i + 1;
    }
    proof {
        assert(samples@ =~= weighted_view(s));
    }
    let median = calculate_weighted_median(samples);
    Ok(median)
}

/// Bounded per-voter weight: every recorded vote in a well-formed vote set
/// carries at least the minimum voting stake.
pub proof fn lemma_vote_weights_bounded(votes: Seq<BudgetVote>, agg: BudgetAggregate, i: int)
    requires
        votes_wf(votes, agg),
        0 <= i < votes.len(),
    ensures
        votes[i].vote_weight >= MIN_CONTRIBUTION_FOR_VOTE,
{
}

} // verus!
