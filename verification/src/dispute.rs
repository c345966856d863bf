//! Dispute controller: freeze, arbitrate, settle.
//!
//! Opening a dispute freezes the task's escrow, remembers the state the
//! task was in, and parks the task in `Disputed`.  Resolution unfreezes and
//! routes the outcome: pay the recipient, refund the donors, or split by a
//! payout percentage; an unresolved dispute expires after fourteen days and
//! restores the remembered state.

use vstd::prelude::*;

use crate::escrow::apply_op;
use crate::escrow::freeze_escrow;
use crate::escrow::unfreeze_escrow;
use crate::escrow::Escrow;
use crate::escrow::EscrowOp;
use crate::task::spec_can_transition;
use crate::task::Task;
use crate::task::TaskState;
use crate::AccountId;

verus! {

/// How long a dispute stays open before it can be expired: fourteen days.
pub const DISPUTE_WINDOW_SECS: i64 = 14 * 86400;

#[derive(Clone, Copy, PartialEq, Eq, Structural, Debug)]
pub enum DisputeStatus {
    Open,
    Resolved,
    Expired,
}

/// The closed set of settlement modes; the controller branches on the tag.
#[derive(Clone, Copy, PartialEq, Eq, Structural, Debug)]
pub enum DisputeResolution {
    PayoutToRecipient,
    RefundToDonors,
    PartialPayoutPartialRefund { payout_percent: u8 },
}

#[derive(Clone, Copy, PartialEq, Eq, Structural, Debug)]
pub enum DisputeError {
    DisputeNotOpen,
    UnauthorizedResolver,
    DeadlineNotReached,
    InvalidTaskState,
}

/// The dispute record for a task; at most one is active at a time.
#[derive(Debug)]
pub struct Dispute {
    pub task: AccountId,
    pub initiator: AccountId,
    pub reason: String,
    pub opened_at: i64,
    pub resolution_deadline: i64,
    pub status: DisputeStatus,
    pub resolution: Option<DisputeResolution>,
    pub resolved_at: Option<i64>,
    pub pre_dispute_state: TaskState,
}

/// A partial payout is given as a whole percentage.
pub open spec fn spec_valid_resolution(res: DisputeResolution) -> bool {
    match res {
        DisputeResolution::PartialPayoutPartialRefund { payout_percent } => payout_percent <= 100,
        _ => true,
    }
}

/// The task state a resolution routes to: payouts (full or partial) go
/// through `Approved`; a donor refund goes through `Rejected` into
/// `Refunding`.
pub open spec fn spec_resolution_target(res: DisputeResolution) -> TaskState {
    match res {
        DisputeResolution::PayoutToRecipient => TaskState::Approved,
        DisputeResolution::RefundToDonors => TaskState::Refunding,
        DisputeResolution::PartialPayoutPartialRefund { .. } => TaskState::Approved,
    }
}

/// The refund share a settlement grants each contributor, in basis points.
pub open spec fn spec_refund_bps(res: DisputeResolution) -> int {
    match res {
        DisputeResolution::PayoutToRecipient => 0,
        DisputeResolution::RefundToDonors => 10_000,
        DisputeResolution::PartialPayoutPartialRefund { payout_percent } => 10_000 - 100
            * payout_percent,
    }
}

/// Open a dispute on a live task: record the pre-dispute state, freeze the
/// escrow and park the task in `Disputed`.  The caller keeps `now` far
/// enough from the end of time for the deadline to exist.
pub fn open_dispute(
    task: &mut Task,
    escrow: &mut Escrow,
    initiator: AccountId,
    reason: String,
    now: i64,
) -> (r: Result<Dispute, DisputeError>)
    requires
        now + DISPUTE_WINDOW_SECS <= i64::MAX,
    ensures
        r is Ok <==> spec_can_transition(old(task).state, TaskState::Disputed),
        r == Err::<Dispute, DisputeError>(DisputeError::InvalidTaskState)
            <==> !spec_can_transition(old(task).state, TaskState::Disputed),
        r is Err ==> *final(task) == *old(task) && *final(escrow) == *old(escrow),
        r is Ok ==> r->Ok_0 == (Dispute {
            task: old(escrow).task,
            initiator: initiator,
            reason: reason,
            opened_at: now,
            resolution_deadline: (now + DISPUTE_WINDOW_SECS) as i64,
            status: DisputeStatus::Open,
            resolution: None,
            resolved_at: None,
            pre_dispute_state: old(task).state,
        }),
        r is Ok ==> *final(task) == (Task {
            state: TaskState::Disputed,
            updated_at: now,
            ..*old(task)
        }),
        r is Ok ==> *final(escrow) == apply_op(*old(escrow), EscrowOp::Freeze),
        r is Ok ==> final(escrow).is_frozen,
{
    if !task.can_transition_to(&TaskState::Disputed) {
        return Err(DisputeError::InvalidTaskState);
    }
    let dispute = Dispute {
        task: escrow.task,
        initiator,
        reason,
        opened_at: now,
        resolution_deadline: now + DISPUTE_WINDOW_SECS,
        status: DisputeStatus::Open,
        resolution: None,
        resolved_at: None,
        pre_dispute_state: task.state,
    };
    freeze_escrow(escrow);
    task.state = TaskState::Disputed;
    task.updated_at = now;
    Ok(dispute)
}

/// Resolve an open dispute: authority only.  Records the resolution,
/// unfreezes the escrow and routes the task toward the settlement — the
/// payout and refunds themselves then run as escrow operations.
pub fn resolve_dispute(
    dispute: &mut Dispute,
    task: &mut Task,
    escrow: &mut Escrow,
    authority: AccountId,
    caller: AccountId,
    resolution: DisputeResolution,
    now: i64,
) -> (r: Result<(), DisputeError>)
    requires
        spec_valid_resolution(resolution),
        old(dispute).status == DisputeStatus::Open ==> old(task).state == TaskState::Disputed,
    ensures
        r == Err::<(), DisputeError>(DisputeError::UnauthorizedResolver) <==> caller != authority,
        r == Err::<(), DisputeError>(DisputeError::DisputeNotOpen) <==> caller == authority && old(
            dispute,
        ).status != DisputeStatus::Open,
        r is Ok <==> caller == authority && old(dispute).status == DisputeStatus::Open,
        r is Err ==> *final(dispute) == *old(dispute) && *final(task) == *old(task)
            && *final(escrow) == *old(escrow),
        r is Ok ==> *final(dispute) == (Dispute {
            status: DisputeStatus::Resolved,
            resolution: Some(resolution),
            resolved_at: Some(now),
            ..*old(dispute)
        }),
        r is Ok ==> *final(escrow) == apply_op(*old(escrow), EscrowOp::Unfreeze),
        r is Ok ==> !final(escrow).is_frozen,
        r is Ok ==> *final(task) == (Task {
            state: spec_resolution_target(resolution),
            approved_at: if spec_resolution_target(resolution) == TaskState::Approved {
                Some(now)
            } else {
                old(task).approved_at
            },
            updated_at: now,
            ..*old(task)
        }),
{
    if caller != authority {
        return Err(DisputeError::UnauthorizedResolver);
    }
    if !(dispute.status == DisputeStatus::Open) {
        return Err(DisputeError::DisputeNotOpen);
    }
    dispute.status = DisputeStatus::Resolved;
    dispute.resolution = Some(resolution);
    dispute.resolved_at = Some(now);
    unfreeze_escrow(escrow);
    match resolution {
        DisputeResolution::PayoutToRecipient => {
            task.state = TaskState::Approved;
            task.approved_at = Some(now);
        },
        DisputeResolution::RefundToDonors => {
            task.state = TaskState::Refunding;
        },
        DisputeResolution::PartialPayoutPartialRefund { .. } => {
            task.state = TaskState::Approved;
            task.approved_at = Some(now);
        },
    }
    task.updated_at = now;
    Ok(())
}

/// Expire an open dispute once its deadline has passed: unfreeze the
/// escrow and restore the task to its pre-dispute state.
pub fn expire_dispute(dispute: &mut Dispute, task: &mut Task, escrow: &mut Escrow, now: i64) -> (r:
    Result<(), DisputeError>)
    ensures
        r == Err::<(), DisputeError>(DisputeError::DisputeNotOpen) <==> old(dispute).status
            != DisputeStatus::Open,
        r == Err::<(), DisputeError>(DisputeError::DeadlineNotReached) <==> old(dispute).status
            == DisputeStatus::Open && now <= old(dispute).resolution_deadline,
        r is Ok <==> old(dispute).status == DisputeStatus::Open && now > old(
            dispute,
        ).resolution_deadline,
        r is Err ==> *final(dispute) == *old(dispute) && *final(task) == *old(task)
            && *final(escrow) == *old(escrow),
        r is Ok ==> *final(dispute) == (Dispute { status: DisputeStatus::Expired, ..*old(dispute) }),
        r is Ok ==> *final(escrow) == apply_op(*old(escrow), EscrowOp::Unfreeze),
        r is Ok ==> *final(task) == (Task {
            state: old(dispute).pre_dispute_state,
            updated_at: now,
            ..*old(task)
        }),
{
    if !(dispute.status == DisputeStatus::Open) {
        return Err(DisputeError::DisputeNotOpen);
    }
    if now <= dispute.resolution_deadline {
        return Err(DisputeError::DeadlineNotReached);
    }
    dispute.status = DisputeStatus::Expired;
    unfreeze_escrow(escrow);
    task.state = dispute.pre_dispute_state;
    task.updated_at = now;
    Ok(())
}

/// The refund share of a settlement in basis points: a full refund grants
/// 10 000, a full payout 0, and a partial payout of `p` percent grants
/// `10_000 - 100 * p` to each contributor.
pub fn refund_bps_for(resolution: &DisputeResolution) -> (r: u16)
    requires
        spec_valid_resolution(*resolution),
    ensures
        r as int == spec_refund_bps(*resolution),
        r <= 10_000,
{
    match resolution {
        DisputeResolution::PayoutToRecipient => 0,
        DisputeResolution::RefundToDonors => 10_000,
        DisputeResolution::PartialPayoutPartialRefund { payout_percent } => 10_000 - 100 * (
        *payout_percent as u16),
    }
}

/// The recipient's share of a partial settlement:
/// `floor(total_contributed * payout_percent / 100)`, sent in a single
/// payout; rounding residue from the per-contributor refunds stays in the
/// vault and is swept to the recipient by the final payout.
pub fn partial_payout_amount(total_contributed: u64, payout_percent: u8) -> (r: u64)
    requires
        payout_percent <= 100,
    ensures
        r as int == (total_contributed * payout_percent) / 100,
        r <= total_contributed,
{
    proof {
        assert((total_contributed as int) * (payout_percent as int) <= (total_contributed as int)
            * 100 && 0 <= (total_contributed as int) * (payout_percent as int))
            by (nonlinear_arith)
            requires
                payout_percent <= 100,
        ;
        assert(((total_contributed as int) * 100) / 100 == total_contributed as int)
            by (nonlinear_arith);
        assert(((total_contributed as int) * (payout_percent as int)) / 100 <= ((
        total_contributed as int) * 100) / 100) by (nonlinear_arith)
            requires
                (total_contributed as int) * (payout_percent as int) <= (total_contributed as int)
                    * 100,
        ;
    }
    let wide: u128 = (total_contributed as u128) * (payout_percent as u128) / 100;
    wide as u64
}

} // verus!
