//! Escrow ledger: per-task accounting of contributed, paid-out and refunded
//! value, with a freeze bit for disputes.
//!
//! The master conservation invariant (E) says the vault backing a task
//! always holds exactly `total_contributed - total_paid_out -
//! total_refunded`.  Every mutation here is an [`EscrowOp`]; the lemmas at
//! the end show that a vault which moves exactly each operation's amount
//! satisfies (E) after any allowed sequence of operations, and that the
//! three counters never decrease.  The token transfers themselves are the
//! ledger's transfer primitive; the caller performs the movement this
//! module accounts for.

use vstd::prelude::*;

use crate::AccountId;

verus! {

/// Smallest accepted deposit: 10 units of the 6-decimal stable token.
pub const MIN_CONTRIBUTION: u64 = 10_000_000;

#[derive(Clone, Copy, PartialEq, Eq, Structural, Debug)]
pub enum EscrowError {
    ContributionTooSmall,
    InsufficientFunds,
    EscrowFrozen,
    AlreadyRefunded,
    InvariantViolation,
    UnauthorizedPayout,
    UnauthorizedRefund,
}

/// Per-task escrow counters and freeze bit.
#[derive(Clone, Copy, PartialEq, Eq, Structural, Debug)]
pub struct Escrow {
    pub task: AccountId,
    pub total_contributed: u64,
    pub total_refunded: u64,
    pub total_paid_out: u64,
    pub is_frozen: bool,
}

/// Cumulative record of one contributor's deposits to one task.
#[derive(Clone, Copy, PartialEq, Eq, Structural, Debug)]
pub struct Contribution {
    pub task: AccountId,
    pub contributor: AccountId,
    pub amount: u64,
    pub contributed_at: i64,
    pub refunded: bool,
    pub refund_amount: u64,
}

impl Escrow {
    /// The counters are consistent: nothing left the vault that never
    /// entered it.
    pub open spec fn wf(self) -> bool {
        self.total_paid_out + self.total_refunded <= self.total_contributed
    }

    /// Value still held in the vault according to the counters.
    pub open spec fn spec_available(self) -> int {
        self.total_contributed - self.total_paid_out - self.total_refunded
    }

    /// Expected vault balance, computed with saturating subtraction so it
    /// is defined for any counter values; equal to `spec_available`
    /// whenever the counters are consistent.
    pub open spec fn spec_expected_balance(self) -> int {
        let after_payout = if self.total_contributed >= self.total_paid_out {
            self.total_contributed - self.total_paid_out
        } else {
            0
        };
        if after_payout >= self.total_refunded {
            after_payout - self.total_refunded
        } else {
            0
        }
    }

    /// Value still available for payouts and refunds.
    pub fn available(&self) -> (r: u64)
        requires
            self.wf(),
        ensures
            r as int == self.spec_available(),
    {
        self.total_contributed - self.total_paid_out - self.total_refunded
    }

    /// Conservation check (E): does the actual vault balance match the
    /// counters?
    pub fn check_invariant(&self, actual_vault_balance: u64) -> (r: bool)
        ensures
            r <==> actual_vault_balance as int == self.spec_expected_balance(),
            self.wf() ==> (r <==> actual_vault_balance as int == self.spec_available()),
    {
        let after_payout = if self.total_contributed >= self.total_paid_out {
            self.total_contributed - self.total_paid_out
        } else {
            0
        };
        let expected = if after_payout >= self.total_refunded {
            after_payout - self.total_refunded
        } else {
            0
        };
        actual_vault_balance == expected
    }
}

/// Fresh escrow for a task: zero counters, unfrozen.
pub fn initialize_escrow(task: AccountId) -> (e: Escrow)
    ensures
        e == (Escrow {
            task: task,
            total_contributed: 0,
            total_refunded: 0,
            total_paid_out: 0,
            is_frozen: false,
        }),
        e.wf(),
        e.spec_available() == 0,
{
    Escrow { task, total_contributed: 0, total_refunded: 0, total_paid_out: 0, is_frozen: false }
}

impl Contribution {
    /// Fresh record for a contributor who has not deposited yet.
    pub fn new(task: AccountId, contributor: AccountId) -> (c: Contribution)
        ensures
            c == (Contribution {
                task: task,
                contributor: contributor,
                amount: 0,
                contributed_at: 0,
                refunded: false,
                refund_amount: 0,
            }),
    {
        Contribution {
            task,
            contributor,
            amount: 0,
            contributed_at: 0,
            refunded: false,
            refund_amount: 0,
        }
    }
}

/// One escrow mutation, for stating what holds across sequences of
/// operations.
#[derive(Clone, Copy, PartialEq, Eq, Structural, Debug)]
pub enum EscrowOp {
    Contribute { amount: u64 },
    Payout { amount: u64 },
    Refund { amount: u64 },
    Freeze,
    Unfreeze,
}

/// The preconditions under which an operation commits.
pub open spec fn op_allowed(e: Escrow, op: EscrowOp) -> bool {
    match op {
        EscrowOp::Contribute { amount } => !e.is_frozen && amount >= MIN_CONTRIBUTION
            && e.total_contributed + amount <= u64::MAX,
        EscrowOp::Payout { amount } => !e.is_frozen && amount as int <= e.spec_available(),
        EscrowOp::Refund { amount } => !e.is_frozen && amount as int <= e.spec_available(),
        EscrowOp::Freeze => true,
        EscrowOp::Unfreeze => true,
    }
}

/// The escrow counters after an operation commits.
pub open spec fn apply_op(e: Escrow, op: EscrowOp) -> Escrow {
    match op {
        EscrowOp::Contribute { amount } => Escrow {
            total_contributed: (e.total_contributed + amount) as u64,
            ..e
        },
        EscrowOp::Payout { amount } => Escrow {
            total_paid_out: (e.total_paid_out + amount) as u64,
            ..e
        },
        EscrowOp::Refund { amount } => Escrow {
            total_refunded: (e.total_refunded + amount) as u64,
            ..e
        },
        EscrowOp::Freeze => Escrow { is_frozen: true, ..e },
        EscrowOp::Unfreeze => Escrow { is_frozen: false, ..e },
    }
}

/// Net movement into the vault that an operation asks the token primitive
/// to perform.
pub open spec fn op_vault_delta(op: EscrowOp) -> int {
    match op {
        EscrowOp::Contribute { amount } => amount as int,
        EscrowOp::Payout { amount } => -(amount as int),
        EscrowOp::Refund { amount } => -(amount as int),
        EscrowOp::Freeze => 0,
        EscrowOp::Unfreeze => 0,
    }
}

/// Conservation invariant (E): the vault holds exactly what the counters
/// say.
pub open spec fn conserves(e: Escrow, vault_balance: int) -> bool {
    vault_balance == e.spec_available()
}

/// Accept a deposit: move `amount` into the vault, raise
/// `total_contributed`, and fold the deposit into the contributor's
/// cumulative record.
pub fn contribute(
    escrow: &mut Escrow,
    contribution: &mut Contribution,
    amount: u64,
    now: i64,
) -> (r: Result<(), EscrowError>)
    requires
        old(escrow).wf(),
        old(contribution).amount <= old(escrow).total_contributed,
        old(escrow).total_contributed + amount <= u64::MAX,
    ensures
        r is Ok <==> amount >= MIN_CONTRIBUTION && !old(escrow).is_frozen,
        r == Err::<(), EscrowError>(EscrowError::ContributionTooSmall) <==> amount
            < MIN_CONTRIBUTION,
        r == Err::<(), EscrowError>(EscrowError::EscrowFrozen) <==> amount >= MIN_CONTRIBUTION
            && old(escrow).is_frozen,
        r is Err ==> *final(escrow) == *old(escrow) && *final(contribution) == *old(
            contribution,
        ),
        r is Ok ==> *final(escrow) == apply_op(
            *old(escrow),
            EscrowOp::Contribute { amount },
        ) && op_allowed(*old(escrow), EscrowOp::Contribute { amount }),
        r is Ok ==> *final(contribution) == (Contribution {
            task: old(contribution).task,
            contributor: old(contribution).contributor,
            amount: (old(contribution).amount + amount) as u64,
            contributed_at: now,
            refunded: false,
            refund_amount: 0,
        }),
        final(escrow).wf(),
        final(escrow).total_contributed >= old(escrow).total_contributed,
        final(escrow).total_paid_out == old(escrow).total_paid_out,
        final(escrow).total_refunded == old(escrow).total_refunded,
{
    if amount < MIN_CONTRIBUTION {
        return Err(EscrowError::ContributionTooSmall);
    }
    if escrow.is_frozen {
        return Err(EscrowError::EscrowFrozen);
    }
    contribution.amount = contribution.amount + amount;
    contribution.contributed_at = now;
    contribution.refunded = false;
    contribution.refund_amount = 0;
    escrow.total_contributed = escrow.total_contributed + amount;
    Ok(())
}

/// Release `amount` from the vault to the recipient.  The caller gates this
/// on the task being `Approved`.
pub fn execute_payout(escrow: &mut Escrow, amount: u64) -> (r: Result<(), EscrowError>)
    requires
        old(escrow).wf(),
    ensures
        r is Ok <==> !old(escrow).is_frozen && amount as int <= old(escrow).spec_available(),
        r == Err::<(), EscrowError>(EscrowError::EscrowFrozen) <==> old(escrow).is_frozen,
        r == Err::<(), EscrowError>(EscrowError::InsufficientFunds) <==> !old(escrow).is_frozen
            && amount as int > old(escrow).spec_available(),
        r is Err ==> *final(escrow) == *old(escrow),
        r is Ok ==> *final(escrow) == apply_op(*old(escrow), EscrowOp::Payout { amount })
            && op_allowed(*old(escrow), EscrowOp::Payout { amount }),
        final(escrow).wf(),
        final(escrow).total_paid_out >= old(escrow).total_paid_out,
        final(escrow).total_contributed == old(escrow).total_contributed,
        final(escrow).total_refunded == old(escrow).total_refunded,
{
    if escrow.is_frozen {
        return Err(EscrowError::EscrowFrozen);
    }
    let available = escrow.available();
    if amount > available {
        return Err(EscrowError::InsufficientFunds);
    }
    escrow.total_paid_out = escrow.total_paid_out + amount;
    Ok(())
}

/// The refund owed on a cumulative contribution at `refund_bps` basis
/// points: `floor(amount * refund_bps / 10_000)`.
pub open spec fn spec_refund_amount(amount: u64, refund_bps: u16) -> int {
    (amount * refund_bps) / 10_000
}

/// Refund a contributor pro-rata: `refund_bps` is 10 000 for a full refund
/// and `10_000 - 100 * payout_percent` after a partial-payout settlement.
/// Returns the amount moved back to the contributor and marks the record
/// refunded, so a second attempt fails.
pub fn execute_refund(
    escrow: &mut Escrow,
    contribution: &mut Contribution,
    refund_bps: u16,
    now: i64,
) -> (r: Result<u64, EscrowError>)
    requires
        old(escrow).wf(),
        refund_bps <= 10_000,
    ensures
        r is Ok <==> !old(contribution).refunded && !old(escrow).is_frozen
            && spec_refund_amount(old(contribution).amount, refund_bps) <= old(
            escrow,
        ).spec_available(),
        r == Err::<u64, EscrowError>(EscrowError::AlreadyRefunded) <==> old(
            contribution,
        ).refunded,
        r == Err::<u64, EscrowError>(EscrowError::EscrowFrozen) <==> !old(contribution).refunded
            && old(escrow).is_frozen,
        r == Err::<u64, EscrowError>(EscrowError::InsufficientFunds) <==> !old(
            contribution,
        ).refunded && !old(escrow).is_frozen && spec_refund_amount(
            old(contribution).amount,
            refund_bps,
        ) > old(escrow).spec_available(),
        r is Err ==> *final(escrow) == *old(escrow) && *final(contribution) == *old(
            contribution,
        ),
        r is Ok ==> r->Ok_0 as int == spec_refund_amount(old(contribution).amount, refund_bps),
        r is Ok ==> r->Ok_0 <= old(contribution).amount,
        r is Ok ==> *final(escrow) == apply_op(
            *old(escrow),
            EscrowOp::Refund { amount: r->Ok_0 },
        ) && op_allowed(*old(escrow), EscrowOp::Refund { amount: r->Ok_0 }),
        r is Ok ==> *final(contribution) == (Contribution {
            task: old(contribution).task,
            contributor: old(contribution).contributor,
            amount: old(contribution).amount,
            contributed_at: old(contribution).contributed_at,
            refunded: true,
            refund_amount: r->Ok_0,
        }),
        final(escrow).wf(),
        final(escrow).total_refunded >= old(escrow).total_refunded,
        final(escrow).total_contributed == old(escrow).total_contributed,
        final(escrow).total_paid_out == old(escrow).total_paid_out,
{
    if contribution.refunded {
        return Err(EscrowError::AlreadyRefunded);
    }
    if escrow.is_frozen {
        return Err(EscrowError::EscrowFrozen);
    }
    proof {
        assert((contribution.amount as int) * (refund_bps as int) <= (contribution.amount as int)
            * 10_000 && 0 <= (contribution.amount as int) * (refund_bps as int)) by (nonlinear_arith)
            requires
                refund_bps <= 10_000,
        ;
        assert(((contribution.amount as int) * 10_000) / 10_000 == contribution.amount as int)
            by (nonlinear_arith);
        assert(((contribution.amount as int) * (refund_bps as int)) / 10_000 <= ((
        contribution.amount as int) * 10_000) / 10_000) by (nonlinear_arith)
            requires
                (contribution.amount as int) * (refund_bps as int) <= (contribution.amount as int)
                    * 10_000,
        ;
    }
    let refund_wide: u128 = (contribution.amount as u128) * (refund_bps as u128) / 10_000;
    let refund: u64 = refund_wide as u64;
    let available = escrow.available();
    if refund > available {
        return Err(EscrowError::InsufficientFunds);
    }
    contribution.refunded = true;
    contribution.refund_amount = refund;
    escrow.total_refunded = escrow.total_refunded + refund;
    Ok(refund)
}

/// Freeze the escrow while a dispute is open; the dispute controller calls
/// this.
pub fn freeze_escrow(escrow: &mut Escrow)
    ensures
        *final(escrow) == apply_op(*old(escrow), EscrowOp::Freeze),
        final(escrow).is_frozen,
{
    escrow.is_frozen = true;
}

/// Unfreeze the escrow once the dispute is settled or expired.
pub fn unfreeze_escrow(escrow: &mut Escrow)
    ensures
        *final(escrow) == apply_op(*old(escrow), EscrowOp::Unfreeze),
        !final(escrow).is_frozen,
{
    escrow.is_frozen = false;
}

/// One step preserves conservation: if the vault matched the counters and
/// then moves by exactly the operation's amount, it matches again.
pub proof fn lemma_step_conservation(e: Escrow, vault_balance: int, op: EscrowOp)
    requires
        e.wf(),
        conserves(e, vault_balance),
        op_allowed(e, op),
    ensures
        apply_op(e, op).wf(),
        conserves(apply_op(e, op), vault_balance + op_vault_delta(op)),
{
}

pub open spec fn ops_allowed(e: Escrow, ops: Seq<EscrowOp>) -> bool
    decreases ops.len(),
{
    ops.len() == 0 || (op_allowed(e, ops[0]) && ops_allowed(apply_op(e, ops[0]), ops.drop_first()))
}

pub open spec fn apply_ops(e: Escrow, ops: Seq<EscrowOp>) -> Escrow
    decreases ops.len(),
{
    if ops.len() == 0 {
        e
    } else {
        apply_ops(apply_op(e, ops[0]), ops.drop_first())
    }
}

/// Net vault movement of a whole sequence of operations.
pub open spec fn vault_delta_sum(ops: Seq<EscrowOp>) -> int
    decreases ops.len(),
{
    if ops.len() == 0 {
        0
    } else {
        op_vault_delta(ops[0]) + vault_delta_sum(ops.drop_first())
    }
}

/// Conservation (E) over sequences: after any allowed sequence of escrow
/// operations, a vault that moved exactly each operation's amount holds
/// `total_contributed - total_paid_out - total_refunded`.
pub proof fn lemma_conservation(e: Escrow, vault_balance: int, ops: Seq<EscrowOp>)
    requires
        e.wf(),
        conserves(e, vault_balance),
        ops_allowed(e, ops),
    ensures
        apply_ops(e, ops).wf(),
        conserves(apply_ops(e, ops), vault_balance + vault_delta_sum(ops)),
    decreases ops.len(),
{
    if ops.len() > 0 {
        lemma_step_conservation(e, vault_balance, ops[0]);
        lemma_conservation(
            apply_op(e, ops[0]),
            vault_balance + op_vault_delta(ops[0]),
            ops.drop_first(),
        );
    }
}

/// Monotonicity: `total_contributed`, `total_paid_out` and `total_refunded`
/// never decrease, whatever allowed operations run.
pub proof fn lemma_monotonicity(e: Escrow, ops: Seq<EscrowOp>)
    requires
        ops_allowed(e, ops),
    ensures
        apply_ops(e, ops).total_contributed >= e.total_contributed,
        apply_ops(e, ops).total_paid_out >= e.total_paid_out,
        apply_ops(e, ops).total_refunded >= e.total_refunded,
    decreases ops.len(),
{
    if ops.len() > 0 {
        lemma_monotonicity(apply_op(e, ops[0]), ops.drop_first());
    }
}

} // verus!
