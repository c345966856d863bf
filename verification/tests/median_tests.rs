use taskfund::median::calculate_weighted_median;
use taskfund::median::WeightedVote;

#[test]
fn test_weighted_median_equal_weights() {
    let votes = vec![
        WeightedVote { proposed_budget: 100, weight: 10 },
        WeightedVote { proposed_budget: 200, weight: 10 },
        WeightedVote { proposed_budget: 300, weight: 10 },
    ];

    let median = calculate_weighted_median(votes);
    assert_eq!(median, 200);
}

#[test]
fn test_weighted_median_unequal_weights() {
    // Sybil attack scenario: ten cheap votes against one funded vote.
    let votes = vec![
        WeightedVote { proposed_budget: 50, weight: 1 },
        WeightedVote { proposed_budget: 50, weight: 1 },
        WeightedVote { proposed_budget: 50, weight: 1 },
        WeightedVote { proposed_budget: 50, weight: 1 },
        WeightedVote { proposed_budget: 50, weight: 1 },
        WeightedVote { proposed_budget: 50, weight: 1 },
        WeightedVote { proposed_budget: 50, weight: 1 },
        WeightedVote { proposed_budget: 50, weight: 1 },
        WeightedVote { proposed_budget: 50, weight: 1 },
        WeightedVote { proposed_budget: 50, weight: 1 },
        WeightedVote { proposed_budget: 200, weight: 100 },
    ];

    let median = calculate_weighted_median(votes);
    assert_eq!(median, 200);
}

#[test]
fn test_weighted_median_resistance_to_outliers() {
    let votes = vec![
        WeightedVote { proposed_budget: 100, weight: 50 },
        WeightedVote { proposed_budget: 150, weight: 50 },
        WeightedVote { proposed_budget: 200, weight: 50 },
        WeightedVote { proposed_budget: 10000, weight: 1 },
    ];

    let median = calculate_weighted_median(votes);
    assert!(median >= 150 && median <= 200);
}

#[test]
fn test_single_vote() {
    let votes = vec![WeightedVote { proposed_budget: 500, weight: 100 }];

    let median = calculate_weighted_median(votes);
    assert_eq!(median, 500);
}

#[test]
fn test_weighted_median_simple() {
    let votes = vec![
        WeightedVote { proposed_budget: 100, weight: 10 },
        WeightedVote { proposed_budget: 200, weight: 10 },
        WeightedVote { proposed_budget: 300, weight: 10 },
    ];

    let median = calculate_weighted_median(votes);
    assert_eq!(median, 200, "Median of equal weights should be middle value");
}

#[test]
fn test_weighted_median_heavy_weight() {
    let votes = vec![
        WeightedVote { proposed_budget: 100, weight: 1 },
        WeightedVote { proposed_budget: 200, weight: 100 },
        WeightedVote { proposed_budget: 300, weight: 1 },
    ];

    let median = calculate_weighted_median(votes);
    assert_eq!(median, 200, "Heavy weight should dominate median");
}

#[test]
fn test_weighted_median_sybil_attack() {
    // One funded donor against ten bots holding the same total stake.
    let mut votes = vec![WeightedVote { proposed_budget: 1000, weight: 100_000_000 }];

    for _ in 0..10 {
        votes.push(WeightedVote {
            proposed_budget: 100,
            weight: 10_000_000,
        });
    }

    let median = calculate_weighted_median(votes);

    // Total weight is 200_000_000, half is 100_000_000, and the bots'
    // cumulative weight reaches exactly half: under the lower-median
    // convention the bots' budget wins.  Equal stake gives equal say; only
    // a strict stake majority pins the median (see the Sybil lemma).
    assert_eq!(median, 100, "Equal stake resolves to the lower budget. Got: {}", median);
}

#[test]
fn test_weighted_median_anti_sybil() {
    // Three donors of 50_000_000 each against one hundred fake wallets of
    // 10_000_000 each: the fakes hold more total stake and win.
    let mut votes = vec![
        WeightedVote { proposed_budget: 5000_000_000, weight: 50_000_000 },
        WeightedVote { proposed_budget: 4800_000_000, weight: 50_000_000 },
        WeightedVote { proposed_budget: 5200_000_000, weight: 50_000_000 },
    ];

    for _ in 0..100 {
        votes.push(WeightedVote {
            proposed_budget: 100_000_000,
            weight: 10_000_000,
        });
    }

    let median = calculate_weighted_median(votes);

    println!("Median with Sybil attack: {}", median);
    assert!(median < 5000_000_000, "Sybils with more money should influence result");
}

#[test]
fn test_weighted_median_single_vote() {
    let votes = vec![WeightedVote { proposed_budget: 500, weight: 100 }];

    let median = calculate_weighted_median(votes);
    assert_eq!(median, 500, "Single vote should return that value");
}

#[test]
fn test_weighted_median_two_equal_weights() {
    let votes = vec![
        WeightedVote { proposed_budget: 100, weight: 50 },
        WeightedVote { proposed_budget: 200, weight: 50 },
    ];

    let median = calculate_weighted_median(votes);
    assert_eq!(median, 100, "With equal weights, should return first value at 50% threshold");
}

#[test]
fn test_weighted_median_outlier_resistance() {
    let votes = vec![
        WeightedVote { proposed_budget: 100, weight: 10 },
        WeightedVote { proposed_budget: 110, weight: 10 },
        WeightedVote { proposed_budget: 105, weight: 10 },
        WeightedVote { proposed_budget: 1_000_000, weight: 1 },
    ];

    let median = calculate_weighted_median(votes);
    assert!(
        median < 200,
        "Outlier with low weight should not affect median significantly. Got: {}",
        median
    );
}

#[test]
fn test_weighted_median_empty_returns_zero() {
    let votes: Vec<WeightedVote> = Vec::new();
    assert_eq!(calculate_weighted_median(votes), 0);
}

#[test]
fn test_weighted_median_outlier_lower_convention() {
    // Total weight 151, half 75; the walk reaches 100 of cumulative weight
    // at the 150 sample, so the lower-median convention picks 150 exactly.
    let votes = vec![
        WeightedVote { proposed_budget: 100, weight: 50 },
        WeightedVote { proposed_budget: 150, weight: 50 },
        WeightedVote { proposed_budget: 200, weight: 50 },
        WeightedVote { proposed_budget: 10_000, weight: 1 },
    ];

    assert_eq!(calculate_weighted_median(votes), 150);
}

#[test]
fn test_weighted_median_odd_total_first_sample() {
    // Total weight 1 gives half 0, so the smallest budget wins at once.
    let votes = vec![
        WeightedVote { proposed_budget: 700, weight: 1 },
        WeightedVote { proposed_budget: 900, weight: 0 },
    ];

    assert_eq!(calculate_weighted_median(votes), 700);
}

#[test]
fn test_weighted_median_unsorted_input() {
    // Input order must not matter.
    let votes = vec![
        WeightedVote { proposed_budget: 300, weight: 10 },
        WeightedVote { proposed_budget: 100, weight: 10 },
        WeightedVote { proposed_budget: 200, weight: 10 },
    ];

    assert_eq!(calculate_weighted_median(votes), 200);
}
