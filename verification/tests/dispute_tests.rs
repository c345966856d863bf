use taskfund::dispute::expire_dispute;
use taskfund::dispute::open_dispute;
use taskfund::dispute::partial_payout_amount;
use taskfund::dispute::refund_bps_for;
use taskfund::dispute::resolve_dispute;
use taskfund::dispute::DisputeError;
use taskfund::dispute::DisputeResolution;
use taskfund::dispute::DisputeStatus;
use taskfund::dispute::DISPUTE_WINDOW_SECS;
use taskfund::escrow::contribute;
use taskfund::escrow::execute_payout;
use taskfund::escrow::execute_refund;
use taskfund::escrow::initialize_escrow;
use taskfund::escrow::Contribution;
use taskfund::task::Task;
use taskfund::task::TaskState;
use taskfund::AccountId;

fn task_in(state: TaskState, creator: AccountId) -> Task {
    Task {
        task_id: "t".to_string(),
        campaign: AccountId::from_u64(0),
        creator,
        recipient: None,
        title: "T".to_string(),
        deliverables: "D".to_string(),
        deadline: None,
        target_budget: 0,
        finalized_budget: None,
        state,
        created_at: 0,
        updated_at: 0,
        budget_voting_started_at: None,
        budget_finalized_at: None,
        funding_opened_at: None,
        work_started_at: None,
        proof_hash: None,
        proof_uri: None,
        proof_submitted_at: None,
        approved_at: None,
        paid_out_at: None,
    }
}

#[test]
fn test_open_dispute_freezes_and_remembers() {
    let task_key = AccountId::from_u64(1);
    let mut task = task_in(TaskState::InProgress, AccountId::from_u64(2));
    let mut escrow = initialize_escrow(task_key);

    let d = open_dispute(&mut task, &mut escrow, AccountId::from_u64(5), "late".to_string(), 100)
        .unwrap();
    assert_eq!(d.status, DisputeStatus::Open);
    assert_eq!(d.opened_at, 100);
    assert_eq!(d.resolution_deadline, 100 + DISPUTE_WINDOW_SECS);
    assert_eq!(d.pre_dispute_state, TaskState::InProgress);
    assert_eq!(d.task, task_key);
    assert_eq!(task.state, TaskState::Disputed);
    assert!(escrow.is_frozen);
}

#[test]
fn test_open_dispute_rejected_on_terminal_task() {
    let mut task = task_in(TaskState::PaidOut, AccountId::from_u64(2));
    let mut escrow = initialize_escrow(AccountId::from_u64(1));

    let r = open_dispute(&mut task, &mut escrow, AccountId::from_u64(5), "x".to_string(), 100);
    assert!(matches!(r, Err(DisputeError::InvalidTaskState)));
    assert_eq!(task.state, TaskState::PaidOut);
    assert!(!escrow.is_frozen);
}

#[test]
fn test_resolve_dispute_payout_route() {
    let authority = AccountId::from_u64(9);
    let mut task = task_in(TaskState::SubmittedForReview, AccountId::from_u64(2));
    let mut escrow = initialize_escrow(AccountId::from_u64(1));
    let mut d = open_dispute(&mut task, &mut escrow, AccountId::from_u64(5), "q".to_string(), 100)
        .unwrap();

    let r = resolve_dispute(
        &mut d,
        &mut task,
        &mut escrow,
        authority,
        AccountId::from_u64(4),
        DisputeResolution::PayoutToRecipient,
        200,
    );
    assert!(matches!(r, Err(DisputeError::UnauthorizedResolver)));
    assert_eq!(d.status, DisputeStatus::Open);

    resolve_dispute(
        &mut d,
        &mut task,
        &mut escrow,
        authority,
        authority,
        DisputeResolution::PayoutToRecipient,
        200,
    )
    .unwrap();
    assert_eq!(d.status, DisputeStatus::Resolved);
    assert_eq!(d.resolution, Some(DisputeResolution::PayoutToRecipient));
    assert_eq!(d.resolved_at, Some(200));
    assert!(!escrow.is_frozen);
    assert_eq!(task.state, TaskState::Approved);

    let r = resolve_dispute(
        &mut d,
        &mut task,
        &mut escrow,
        authority,
        authority,
        DisputeResolution::RefundToDonors,
        201,
    );
    assert!(matches!(r, Err(DisputeError::DisputeNotOpen)));
}

#[test]
fn test_resolve_dispute_refund_route() {
    let authority = AccountId::from_u64(9);
    let mut task = task_in(TaskState::SubmittedForReview, AccountId::from_u64(2));
    let mut escrow = initialize_escrow(AccountId::from_u64(1));
    let mut d = open_dispute(&mut task, &mut escrow, AccountId::from_u64(5), "q".to_string(), 100)
        .unwrap();

    resolve_dispute(
        &mut d,
        &mut task,
        &mut escrow,
        authority,
        authority,
        DisputeResolution::RefundToDonors,
        200,
    )
    .unwrap();
    assert_eq!(task.state, TaskState::Refunding);
    assert!(!escrow.is_frozen);
    assert_eq!(refund_bps_for(&DisputeResolution::RefundToDonors), 10_000);
}

#[test]
fn test_expire_dispute_restores_state() {
    let mut task = task_in(TaskState::FundingOpen, AccountId::from_u64(2));
    let mut escrow = initialize_escrow(AccountId::from_u64(1));
    let mut d = open_dispute(&mut task, &mut escrow, AccountId::from_u64(5), "q".to_string(), 100)
        .unwrap();

    let r = expire_dispute(&mut d, &mut task, &mut escrow, 100 + DISPUTE_WINDOW_SECS);
    assert!(matches!(r, Err(DisputeError::DeadlineNotReached)));
    assert_eq!(d.status, DisputeStatus::Open);

    expire_dispute(&mut d, &mut task, &mut escrow, 101 + DISPUTE_WINDOW_SECS).unwrap();
    assert_eq!(d.status, DisputeStatus::Expired);
    assert!(!escrow.is_frozen);
    assert_eq!(task.state, TaskState::FundingOpen);

    let r = expire_dispute(&mut d, &mut task, &mut escrow, 200 + DISPUTE_WINDOW_SECS);
    assert!(matches!(r, Err(DisputeError::DisputeNotOpen)));
}

#[test]
fn test_settlement_shares() {
    assert_eq!(refund_bps_for(&DisputeResolution::PayoutToRecipient), 0);
    assert_eq!(refund_bps_for(&DisputeResolution::RefundToDonors), 10_000);
    assert_eq!(
        refund_bps_for(&DisputeResolution::PartialPayoutPartialRefund { payout_percent: 40 }),
        6_000
    );
    assert_eq!(partial_payout_amount(1_000_000_000, 40), 400_000_000);
    assert_eq!(partial_payout_amount(99, 50), 49);
    assert_eq!(partial_payout_amount(0, 100), 0);
}

#[test]
fn test_dispute_partial_split() {
    // Contributions total 1_000_000_000; the dispute resolves into a 40%
    // payout, 60% refunds, and the rounding residue is swept to the
    // recipient so that conservation holds with an empty vault.
    let authority = AccountId::from_u64(9);
    let task_key = AccountId::from_u64(1);
    let mut task = task_in(TaskState::SubmittedForReview, AccountId::from_u64(2));
    let mut escrow = initialize_escrow(task_key);
    let mut c1 = Contribution::new(task_key, AccountId::from_u64(11));
    let mut c2 = Contribution::new(task_key, AccountId::from_u64(12));
    let mut c3 = Contribution::new(task_key, AccountId::from_u64(13));

    contribute(&mut escrow, &mut c1, 333_333_333, 1).unwrap();
    contribute(&mut escrow, &mut c2, 333_333_333, 2).unwrap();
    contribute(&mut escrow, &mut c3, 333_333_334, 3).unwrap();
    assert_eq!(escrow.total_contributed, 1_000_000_000);
    let mut vault: u64 = 1_000_000_000;

    let mut d = open_dispute(&mut task, &mut escrow, AccountId::from_u64(11), "q".to_string(), 10)
        .unwrap();
    let resolution = DisputeResolution::PartialPayoutPartialRefund { payout_percent: 40 };
    resolve_dispute(&mut d, &mut task, &mut escrow, authority, authority, resolution, 20)
        .unwrap();
    assert_eq!(task.state, TaskState::Approved);

    // The recipient's share goes out in a single payout.
    let payout = partial_payout_amount(escrow.total_contributed, 40);
    assert_eq!(payout, 400_000_000);
    execute_payout(&mut escrow, payout).unwrap();
    vault -= payout;

    // Each contributor gets 60% of their cumulative amount, floored.
    let bps = refund_bps_for(&resolution);
    assert_eq!(bps, 6_000);
    let r1 = execute_refund(&mut escrow, &mut c1, bps, 30).unwrap();
    let r2 = execute_refund(&mut escrow, &mut c2, bps, 31).unwrap();
    let r3 = execute_refund(&mut escrow, &mut c3, bps, 32).unwrap();
    vault -= r1 + r2 + r3;
    assert_eq!(r1, 199_999_999);
    assert_eq!(r2, 199_999_999);
    assert_eq!(r3, 200_000_000);

    // Conservation holds throughout; the division residue is still vaulted.
    assert!(escrow.check_invariant(vault));
    let residue = escrow.available();
    assert_eq!(residue, 2);

    // The residue is credited to the recipient on the final payout.
    execute_payout(&mut escrow, residue).unwrap();
    vault -= residue;
    assert_eq!(vault, 0);
    assert!(escrow.check_invariant(0));
    assert_eq!(escrow.total_paid_out, 400_000_002);
    assert_eq!(escrow.total_refunded, 599_999_998);
}
