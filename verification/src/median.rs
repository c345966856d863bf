//! Weighted-median budget aggregation.
//!
//! Each vote carries the stake (cumulative contribution) behind it, so
//! moving the median costs real capital, not identities.  The median of a
//! collection of samples is the least proposed budget whose cumulative
//! weight from below reaches half of the total weight — exactly the value
//! found by sorting the samples ascending by budget and walking them until
//! the running weight reaches half the total (the lower-median convention).

use vstd::prelude::*;

verus! {

/// One budget sample: a proposed budget and the stake weight behind it.
#[derive(Clone, Copy, PartialEq, Eq, Structural, Debug)]
pub struct WeightedVote {
    pub proposed_budget: u64,
    pub weight: u64,
}

/// Total weight of the samples whose proposed budget is at most `b`.
pub open spec fn weight_at_most(s: Seq<WeightedVote>, b: u64) -> int
    decreases s.len(),
{
    if s.len() == 0 {
        0
    } else {
        (if s[0].proposed_budget <= b {
            s[0].weight as int
        } else {
            0
        }) + weight_at_most(s.drop_first(), b)
    }
}

/// Total weight of all samples.
pub open spec fn total_weight_of(s: Seq<WeightedVote>) -> int {
    weight_at_most(s, u64::MAX)
}

/// Half the total weight, rounded down.
pub open spec fn half_weight_of(s: Seq<WeightedVote>) -> int {
    total_weight_of(s) / 2
}

/// `r` is the weighted median of `s`: a proposed budget occurring in `s`
/// whose cumulative weight from below reaches half the total, and the least
/// such budget.  For a non-empty `s` exactly one value satisfies this.
pub open spec fn is_weighted_median(s: Seq<WeightedVote>, r: u64) -> bool {
    &&& exists|i: int| 0 <= i < s.len() && s[i].proposed_budget == r
    &&& weight_at_most(s, r) >= half_weight_of(s)
    &&& forall|i: int|
        0 <= i < s.len() && s[i].proposed_budget < r ==> weight_at_most(
            s,
            s[i].proposed_budget,
        ) < half_weight_of(s)
}

pub proof fn lemma_wam_nonneg(s: Seq<WeightedVote>, b: u64)
    ensures
        0 <= weight_at_most(s, b),
    decreases s.len(),
{
    if s.len() > 0 {
        lemma_wam_nonneg(s.drop_first(), b);
    }
}

pub proof fn lemma_wam_mono(s: Seq<WeightedVote>, b1: u64, b2: u64)
    requires
        b1 <= b2,
    ensures
        weight_at_most(s, b1) <= weight_at_most(s, b2),
    decreases s.len(),
{
    if s.len() > 0 {
        lemma_wam_mono(s.drop_first(), b1, b2);
    }
}

pub proof fn lemma_wam_concat(s1: Seq<WeightedVote>, s2: Seq<WeightedVote>, b: u64)
    ensures
        weight_at_most(s1 + s2, b) == weight_at_most(s1, b) + weight_at_most(s2, b),
    decreases s1.len(),
{
    if s1.len() == 0 {
        assert(s1 + s2 =~= s2);
    } else {
        assert((s1 + s2).drop_first() =~= s1.drop_first() + s2);
        lemma_wam_concat(s1.drop_first(), s2, b);
    }
}

/// When every sample's budget is at most `b`, all the weight is below `b`.
pub proof fn lemma_wam_all(s: Seq<WeightedVote>, b: u64)
    requires
        forall|i: int| 0 <= i < s.len() ==> s[i].proposed_budget <= b,
    ensures
        weight_at_most(s, b) == total_weight_of(s),
    decreases s.len(),
{
    if s.len() > 0 {
        assert(forall|i: int|
            0 <= i < s.drop_first().len() ==> s.drop_first()[i] == s[i + 1]);
        lemma_wam_all(s.drop_first(), b);
    }
}

/// When every sample's budget exceeds `b`, no weight is below `b`.
pub proof fn lemma_wam_none(s: Seq<WeightedVote>, b: u64)
    requires
        forall|i: int| 0 <= i < s.len() ==> s[i].proposed_budget > b,
    ensures
        weight_at_most(s, b) == 0,
    decreases s.len(),
{
    if s.len() > 0 {
        assert(forall|i: int|
            0 <= i < s.drop_first().len() ==> s.drop_first()[i] == s[i + 1]);
        lemma_wam_none(s.drop_first(), b);
    }
}

proof fn lemma_wam_push(s: Seq<WeightedVote>, x: WeightedVote, b: u64)
    ensures
        weight_at_most(s.push(x), b) == weight_at_most(s, b) + (if x.proposed_budget <= b {
            x.weight as int
        } else {
            0
        }),
    decreases s.len(),
{
    if s.len() == 0 {
        assert(s.push(x)[0] == x);
        assert(s.push(x).drop_first() =~= Seq::<WeightedVote>::empty());
        assert(weight_at_most(Seq::<WeightedVote>::empty(), b) == 0);
        assert(weight_at_most(s.push(x), b) == (if x.proposed_budget <= b {
            x.weight as int
        } else {
            0
        }) + weight_at_most(s.push(x).drop_first(), b));
    } else {
        assert(s.push(x)[0] == s[0]);
        assert(s.push(x).drop_first() =~= s.drop_first().push(x));
        lemma_wam_push(s.drop_first(), x, b);
    }
}

/// `s[j]` carries a budget at least as large as every sample's.
spec fn is_max_budget_at(s: Seq<WeightedVote>, j: int) -> bool {
    forall|k: int| 0 <= k < s.len() ==> s[k].proposed_budget <= s[j].proposed_budget
}

/// Some sample carries the largest budget.
proof fn lemma_exists_max_budget(s: Seq<WeightedVote>)
    requires
        s.len() > 0,
    ensures
        exists|j: int| 0 <= j < s.len() && #[trigger] is_max_budget_at(s, j),
    decreases s.len(),
{
    if s.len() == 1 {
        assert(is_max_budget_at(s, 0));
    } else {
        let t = s.drop_last();
        lemma_exists_max_budget(t);
        let j = choose|j: int| 0 <= j < t.len() && #[trigger] is_max_budget_at(t, j);
        assert(forall|k: int| 0 <= k < t.len() ==> t[k] == s[k]);
        if s[s.len() - 1].proposed_budget >= s[j].proposed_budget {
            assert(is_max_budget_at(s, s.len() - 1));
        } else {
            assert(is_max_budget_at(s, j));
        }
    }
}

/// Weight of a prefix never exceeds the weight of the whole sequence.
proof fn lemma_wam_prefix_bound(s: Seq<WeightedVote>, b: u64, j: int)
    requires
        0 <= j <= s.len(),
    ensures
        weight_at_most(s.take(j), b) <= weight_at_most(s, b),
{
    assert(s.take(j) + s.skip(j) =~= s);
    lemma_wam_concat(s.take(j), s.skip(j), b);
    lemma_wam_nonneg(s.skip(j), b);
}

/// Sum the weight of the samples whose budget is at most `b`.
fn sum_weight_at_most(votes: &Vec<WeightedVote>, b: u64) -> (r: u64)
    requires
        total_weight_of(votes@) <= u64::MAX,
    ensures
        r as int == weight_at_most(votes@, b),
{
    let ghost s = votes@;
    let mut acc: u64 = 0;
    let mut i: usize = 0;
    while i < votes.len()
        invariant
            0 <= i <= s.len(),
            s == votes@,
            total_weight_of(s) <= u64::MAX,
            acc as int == weight_at_most(s.take(i as int), b),
        decreases s.len() - i,
    {
        proof {
            assert(s.take(i as int + 1) =~= s.take(i as int).push(s[i as int]));
            lemma_wam_push(s.take(i as int), s[i as int], b);
            lemma_wam_prefix_bound(s, b, i as int + 1);
            lemma_wam_mono(s, b, u64::MAX);
            lemma_wam_nonneg(s.take(i as int + 1), b);
        }
        if votes[i].proposed_budget <= b {
            acc = acc + votes[i].weight;
        }
        i = i + 1;
    }
    proof {
        assert(s.take(s.len() as int) =~= s);
    }
    acc
}

/// Weighted median over the given samples.
///
/// Returns `0` on an empty input.  Otherwise returns the least proposed
/// budget whose cumulative weight from below reaches half the total weight
/// — the budget at which a walk over the budget-sorted samples first
/// accumulates half the total.  The caller keeps the summed weight within
/// `u64` (stakes are capped by the token supply, far below `2^64`).
pub fn calculate_weighted_median(votes: Vec<WeightedVote>) -> (r: u64)
    requires
        total_weight_of(votes@) <= u64::MAX,
    ensures
        votes@.len() == 0 ==> r == 0,
        votes@.len() > 0 ==> is_weighted_median(votes@, r),
{
    let ghost s = votes@;
    if votes.len() == 0 {
        return 0;
    }
    let total = sum_weight_at_most(&votes, u64::MAX);
    let half = total / 2;
    proof {
        lemma_wam_nonneg(s, u64::MAX);
    }
    let mut best: u64 = 0;
    let mut have: bool = false;
    let mut i: usize = 0;
    while i < votes.len()
        invariant
            0 <= i <= s.len(),
            s == votes@,
            s.len() > 0,
            total_weight_of(s) <= u64::MAX,
            total as int == total_weight_of(s),
            half as int == half_weight_of(s),
            have ==> exists|j: int| 0 <= j < s.len() && s[j].proposed_budget == best,
            have ==> weight_at_most(s, best) >= half_weight_of(s),
            have ==> forall|j: int|
                0 <= j < i && weight_at_most(s, s[j].proposed_budget) >= half_weight_of(s)
                    ==> best <= s[j].proposed_budget,
            !have ==> forall|j: int|
                0 <= j < i ==> weight_at_most(s, s[j].proposed_budget) < half_weight_of(s),
        decreases s.len() - i,
    {
        let b = votes[i].proposed_budget;
        let w = sum_weight_at_most(&votes, b);
        if w >= half {
            if !have || b < best {
                best = b;
                have = true;
            }
        }
        i = i + 1;
    }
    proof {
        if !have {
            lemma_exists_max_budget(s);
            let j = choose|j: int| 0 <= j < s.len() && #[trigger] is_max_budget_at(s, j);
            lemma_wam_all(s, s[j].proposed_budget);
            assert(weight_at_most(s, s[j].proposed_budget) >= half_weight_of(s));
            assert(false);
        }
    }
    best
}

/// The weighted median is unique: the characterization pins one value.
pub proof fn lemma_median_unique(s: Seq<WeightedVote>, r1: u64, r2: u64)
    requires
        is_weighted_median(s, r1),
        is_weighted_median(s, r2),
    ensures
        r1 == r2,
{
    if r1 < r2 {
        let i = choose|i: int| 0 <= i < s.len() && s[i].proposed_budget == r1;
        assert(weight_at_most(s, s[i].proposed_budget) < half_weight_of(s));
    }
    if r2 < r1 {
        let i = choose|i: int| 0 <= i < s.len() && s[i].proposed_budget == r2;
        assert(weight_at_most(s, s[i].proposed_budget) < half_weight_of(s));
    }
}

/// The median lies between any lower and upper bound on the voted budgets;
/// in particular it lies in `[min budget, max budget]`.
pub proof fn lemma_median_bounds(s: Seq<WeightedVote>, r: u64, lo: u64, hi: u64)
    requires
        s.len() > 0,
        is_weighted_median(s, r),
        forall|i: int| 0 <= i < s.len() ==> lo <= #[trigger] s[i].proposed_budget <= hi,
    ensures
        lo <= r <= hi,
{
    let i = choose|i: int| 0 <= i < s.len() && s[i].proposed_budget == r;
    assert(lo <= s[i].proposed_budget <= hi);
}

/// Sybil resistance: an adversary holding strictly less than half the total
/// stake cannot move the median off a budget the remaining voters agree on.
/// If every vote outside the adversary's subset proposes `bstar` and the
/// adversary's stake is below half the total, the median is `bstar`.
///
/// The strict bound is needed: with votes `(10, 3)` adversarial and
/// `(200, 4)` honest, half the total weight is `3`, the adversary's weight
/// reaches it, and the lower-median convention returns `10`.
pub proof fn lemma_sybil_resistance(
    adv: Seq<WeightedVote>,
    rest: Seq<WeightedVote>,
    all: Seq<WeightedVote>,
    bstar: u64,
    r: u64,
)
    requires
        all == adv + rest,
        rest.len() > 0,
        forall|i: int| 0 <= i < rest.len() ==> rest[i].proposed_budget == bstar,
        total_weight_of(adv) < half_weight_of(all),
        is_weighted_median(all, r),
    ensures
        r == bstar,
{
    let h = half_weight_of(all);
    let w = total_weight_of(all);
    lemma_wam_concat(adv, rest, u64::MAX);
    assert(w == total_weight_of(adv) + total_weight_of(rest));
    lemma_wam_nonneg(adv, u64::MAX);
    lemma_wam_nonneg(rest, u64::MAX);
    // The honest side alone reaches half the total.
    lemma_wam_concat(adv, rest, bstar);
    lemma_wam_all(rest, bstar);
    lemma_wam_nonneg(adv, bstar);
    assert(total_weight_of(rest) == w - total_weight_of(adv));
    assert(w - half_weight_of(all) >= h);
    assert(weight_at_most(all, bstar) >= h);
    // Below bstar only adversary stake accumulates, which stays short of half.
    assert forall|b: u64| b < bstar implies weight_at_most(all, b) < h by {
        lemma_wam_concat(adv, rest, b);
        lemma_wam_none(rest, b);
        lemma_wam_mono(adv, b, u64::MAX);
    }
    // bstar occurs in the combined sequence.
    assert(all[adv.len() as int] == rest[0]);
    assert(all[adv.len() as int].proposed_budget == bstar);
    if r < bstar {
        // r qualifies by definition, yet everything below bstar falls short.
        assert(weight_at_most(all, r) < h);
        assert(false);
    }
    if r > bstar {
        // bstar occurs below r and qualifies, contradicting minimality.
        assert(weight_at_most(all, bstar) < h);
        assert(false);
    }
}

} // verus!
