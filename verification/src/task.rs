//! Task lifecycle: the primary state machine.
//!
//! A task moves from `Draft` through budget voting, funding, execution and
//! review to a payout or a refund; a dispute can interrupt any live state.
//! [`spec_can_transition`] is the exhaustive legal-transition relation; the
//! lemmas at the end show that `PaidOut` and `Refunded` are terminal, that
//! each is reachable only through its one predecessor, and that a legal
//! path can contain a terminal state only as its last element.

use vstd::prelude::*;
use crate::bytes_of;
use crate::is_valid_identifier;
use crate::validate_identifier;
use crate::AccountId;

verus! {

pub const MAX_TASK_ID_LEN: usize = 64;

pub const MAX_TASK_TITLE_LEN: usize = 100;

pub const MAX_DELIVERABLES_LEN: usize = 2000;

pub const MAX_PROOF_HASH_LEN: usize = 64;

pub const MAX_PROOF_URI_LEN: usize = 200;

#[derive(Clone, Copy, PartialEq, Eq, Structural, Debug)]
pub enum TaskState {
    Draft,
    VotingBudget,
    BudgetFinalized,
    FundingOpen,
    Funded,
    InProgress,
    SubmittedForReview,
    Approved,
    PaidOut,
    Rejected,
    Refunding,
    Refunded,
    Disputed,
}

#[derive(Clone, Copy, PartialEq, Eq, Structural, Debug)]
pub enum TaskError {
    InvalidTaskId,
    InvalidTitle,
    InvalidDeliverables,
    InvalidStateTransition,
    DeadlinePassed,
    UnauthorizedCreator,
    UnauthorizedRecipient,
    UnauthorizedAuthority,
    BudgetNotFinalized,
    NotFullyFunded,
    ProofAlreadySubmitted,
    NoProofSubmitted,
    InvalidState,
    RecipientNotSet,
    ContributionTooSmall,
}

/// States with no outgoing transition.
pub open spec fn spec_is_terminal(s: TaskState) -> bool {
    s == TaskState::PaidOut || s == TaskState::Refunded
}

/// The exhaustive legal-transition relation.  A dispute can be opened from
/// any non-terminal state; everything not listed is illegal.
pub open spec fn spec_can_transition(from: TaskState, to: TaskState) -> bool {
    match (from, to) {
        (TaskState::Draft, TaskState::VotingBudget) => true,
        (TaskState::VotingBudget, TaskState::BudgetFinalized) => true,
        (TaskState::BudgetFinalized, TaskState::FundingOpen) => true,
        (TaskState::FundingOpen, TaskState::Funded) => true,
        (TaskState::FundingOpen, TaskState::Refunding) => true,
        (TaskState::Funded, TaskState::InProgress) => true,
        (TaskState::InProgress, TaskState::SubmittedForReview) => true,
        (TaskState::InProgress, TaskState::Refunding) => true,
        (TaskState::SubmittedForReview, TaskState::Approved) => true,
        (TaskState::SubmittedForReview, TaskState::Rejected) => true,
        (TaskState::Approved, TaskState::PaidOut) => true,
        (TaskState::Rejected, TaskState::Refunding) => true,
        (TaskState::Refunding, TaskState::Refunded) => true,
        (TaskState::Disputed, TaskState::Approved) => true,
        (TaskState::Disputed, TaskState::Rejected) => true,
        (f, TaskState::Disputed) => !spec_is_terminal(f),
        _ => false,
    }
}

pub open spec fn valid_task_title_bytes(s: Seq<u8>) -> bool {
    1 <= s.len() <= MAX_TASK_TITLE_LEN
}

pub open spec fn valid_deliverables_bytes(s: Seq<u8>) -> bool {
    1 <= s.len() <= MAX_DELIVERABLES_LEN
}

/// A task inside a campaign, identified by `(campaign, task_id)`.
#[derive(Debug)]
pub struct Task {
    pub task_id: String,
    pub campaign: AccountId,
    pub creator: AccountId,
    pub recipient: Option<AccountId>,
    pub title: String,
    pub deliverables: String,
    pub deadline: Option<i64>,
    pub target_budget: u64,
    pub finalized_budget: Option<u64>,
    pub state: TaskState,
    pub created_at: i64,
    pub updated_at: i64,
    pub budget_voting_started_at: Option<i64>,
    pub budget_finalized_at: Option<i64>,
    pub funding_opened_at: Option<i64>,
    pub work_started_at: Option<i64>,
    pub proof_hash: Option<String>,
    pub proof_uri: Option<String>,
    pub proof_submitted_at: Option<i64>,
    pub approved_at: Option<i64>,
    pub paid_out_at: Option<i64>,
}

/// The deadline, if any, lies strictly in the past.
pub open spec fn spec_past_deadline(t: Task, current_time: i64) -> bool {
    t.deadline is Some && current_time > t.deadline->0
}

impl Task {
    /// May the task move from its current state to `new_state`?
    pub fn can_transition_to(&self, new_state: &TaskState) -> (r: bool)
        ensures
            r == spec_can_transition(self.state, *new_state),
    {
        match (&self.state, new_state) {
            (TaskState::Draft, TaskState::VotingBudget) => true,
            (TaskState::VotingBudget, TaskState::BudgetFinalized) => true,
            (TaskState::BudgetFinalized, TaskState::FundingOpen) => true,
            (TaskState::FundingOpen, TaskState::Funded) => true,
            (TaskState::FundingOpen, TaskState::Refunding) => true,
            (TaskState::Funded, TaskState::InProgress) => true,
            (TaskState::InProgress, TaskState::SubmittedForReview) => true,
            (TaskState::InProgress, TaskState::Refunding) => true,
            (TaskState::SubmittedForReview, TaskState::Approved) => true,
            (TaskState::SubmittedForReview, TaskState::Rejected) => true,
            (TaskState::Approved, TaskState::PaidOut) => true,
            (TaskState::Rejected, TaskState::Refunding) => true,
            (TaskState::Refunding, TaskState::Refunded) => true,
            (TaskState::Disputed, TaskState::Approved) => true,
            (TaskState::Disputed, TaskState::Rejected) => true,
            (f, TaskState::Disputed) => !(*f == TaskState::PaidOut || *f == TaskState::Refunded),
            _ => false,
        }
    }

    /// Has the task's deadline passed?
    pub fn is_past_deadline(&self, current_time: i64) -> (r: bool)
        ensures
            r == spec_past_deadline(*self, current_time),
    {
        if let Some(deadline) = self.deadline {
            current_time > deadline
        } else {
            false
        }
    }

    /// A task identifier is 1 to 64 bytes of letters, digits, dash and
    /// underscore.
    pub fn validate_task_id(id: &str) -> (r: bool)
        ensures
            r == is_valid_identifier(bytes_of(id@), MAX_TASK_ID_LEN as int),
    {
        validate_identifier(id, MAX_TASK_ID_LEN)
    }

    /// A title is 1 to 100 bytes.
    pub fn validate_title(title: &str) -> (r: bool)
        ensures
            r == valid_task_title_bytes(bytes_of(title@)),
    {
        let n = title.as_bytes().len();
        n >= 1 && n <= MAX_TASK_TITLE_LEN
    }

    /// A deliverables description is 1 to 2000 bytes.
    pub fn validate_deliverables(deliverables: &str) -> (r: bool)
        ensures
            r == valid_deliverables_bytes(bytes_of(deliverables@)),
    {
        let n = deliverables.as_bytes().len();
        n >= 1 && n <= MAX_DELIVERABLES_LEN
    }
}

/// Create a task in `Draft` after validating the creator-chosen fields.
pub fn create_task(
    campaign: AccountId,
    creator: AccountId,
    task_id: String,
    title: String,
    deliverables: String,
    target_budget: u64,
    recipient: Option<AccountId>,
    deadline: Option<i64>,
    now: i64,
) -> (r: Result<Task, TaskError>)
    ensures
        r is Ok <==> is_valid_identifier(bytes_of(task_id@), MAX_TASK_ID_LEN as int)
            && valid_task_title_bytes(bytes_of(title@)) && valid_deliverables_bytes(
            bytes_of(deliverables@),
        ),
        r == Err::<Task, TaskError>(TaskError::InvalidTaskId) <==> !is_valid_identifier(
            bytes_of(task_id@),
            MAX_TASK_ID_LEN as int,
        ),
        r == Err::<Task, TaskError>(TaskError::InvalidTitle) <==> is_valid_identifier(
            bytes_of(task_id@),
            MAX_TASK_ID_LEN as int,
        ) && !valid_task_title_bytes(bytes_of(title@)),
        r == Err::<Task, TaskError>(TaskError::InvalidDeliverables) <==> is_valid_identifier(
            bytes_of(task_id@),
            MAX_TASK_ID_LEN as int,
        ) && valid_task_title_bytes(bytes_of(title@)) && !valid_deliverables_bytes(
            bytes_of(deliverables@),
        ),
        r is Ok ==> r->Ok_0 == (Task {
            task_id: task_id,
            campaign: campaign,
            creator: creator,
            recipient: recipient,
            title: title,
            deliverables: deliverables,
            deadline: deadline,
            target_budget: target_budget,
            finalized_budget: None,
            state: TaskState::Draft,
            created_at: now,
            updated_at: now,
            budget_voting_started_at: None,
            budget_finalized_at: None,
            funding_opened_at: None,
            work_started_at: None,
            proof_hash: None,
            proof_uri: None,
            proof_submitted_at: None,
            approved_at: None,
            paid_out_at: None,
        }),
{
    if !Task::validate_task_id(task_id.as_str()) {
        return Err(TaskError::InvalidTaskId);
    }
    if !Task::validate_title(title.as_str()) {
        return Err(TaskError::InvalidTitle);
    }
    if !Task::validate_deliverables(deliverables.as_str()) {
        return Err(TaskError::InvalidDeliverables);
    }
    Ok(
        Task {
            task_id,
            campaign,
            creator,
            recipient,
            title,
            deliverables,
            deadline,
            target_budget,
            finalized_budget: None,
            state: TaskState::Draft,
            created_at: now,
            updated_at: now,
            budget_voting_started_at: None,
            budget_finalized_at: None,
            funding_opened_at: None,
            work_started_at: None,
            proof_hash: None,
            proof_uri: None,
            proof_submitted_at: None,
            approved_at: None,
            paid_out_at: None,
        },
    )
}

/// Open budget voting: `Draft -> VotingBudget`, creator only.
pub fn start_budget_voting(task: &mut Task, caller: AccountId, now: i64) -> (r: Result<
    (),
    TaskError,
>)
    ensures
        r == Err::<(), TaskError>(TaskError::UnauthorizedCreator) <==> caller != old(task).creator,
        r == Err::<(), TaskError>(TaskError::InvalidStateTransition) <==> caller == old(
            task,
        ).creator && !spec_can_transition(old(task).state, TaskState::VotingBudget),
        r is Ok <==> caller == old(task).creator && spec_can_transition(
            old(task).state,
            TaskState::VotingBudget,
        ),
        r is Err ==> *final(task) == *old(task),
        r is Ok ==> *final(task) == (Task {
            state: TaskState::VotingBudget,
            budget_voting_started_at: Some(now),
            updated_at: now,
            ..*old(task)
        }),
{
    if caller != task.creator {
        return Err(TaskError::UnauthorizedCreator);
    }
    if !task.can_transition_to(&TaskState::VotingBudget) {
        return Err(TaskError::InvalidStateTransition);
    }
    task.state = TaskState::VotingBudget;
    task.budget_voting_started_at = Some(now);
    task.updated_at = now;
    Ok(())
}

/// Record the voted budget: `VotingBudget -> BudgetFinalized`.  The budget
/// aggregation engine supplies `finalized_budget` after checking quorum.
pub fn finalize_budget(task: &mut Task, finalized_budget: u64, now: i64) -> (r: Result<
    (),
    TaskError,
>)
    ensures
        r is Ok <==> spec_can_transition(old(task).state, TaskState::BudgetFinalized),
        r == Err::<(), TaskError>(TaskError::InvalidStateTransition) <==> !spec_can_transition(
            old(task).state,
            TaskState::BudgetFinalized,
        ),
        r is Err ==> *final(task) == *old(task),
        r is Ok ==> *final(task) == (Task {
            finalized_budget: Some(finalized_budget),
            state: TaskState::BudgetFinalized,
            budget_finalized_at: Some(now),
            updated_at: now,
            ..*old(task)
        }),
        r is Ok ==> final(task).finalized_budget is Some,
{
    if !task.can_transition_to(&TaskState::BudgetFinalized) {
        return Err(TaskError::InvalidStateTransition);
    }
    task.finalized_budget = Some(finalized_budget);
    task.state = TaskState::BudgetFinalized;
    task.budget_finalized_at = Some(now);
    task.updated_at = now;
    Ok(())
}

/// Open funding: `BudgetFinalized -> FundingOpen`, gated on the platform's
/// governance authority.
pub fn open_funding(task: &mut Task, authority: AccountId, caller: AccountId, now: i64) -> (r:
    Result<(), TaskError>)
    ensures
        r == Err::<(), TaskError>(TaskError::UnauthorizedAuthority) <==> caller != authority,
        r == Err::<(), TaskError>(TaskError::InvalidStateTransition) <==> caller == authority
            && !spec_can_transition(old(task).state, TaskState::FundingOpen),
        r is Ok <==> caller == authority && spec_can_transition(
            old(task).state,
            TaskState::FundingOpen,
        ),
        r is Err ==> *final(task) == *old(task),
        r is Ok ==> *final(task) == (Task {
            state: TaskState::FundingOpen,
            funding_opened_at: Some(now),
            updated_at: now,
            ..*old(task)
        }),
{
    if caller != authority {
        return Err(TaskError::UnauthorizedAuthority);
    }
    if !task.can_transition_to(&TaskState::FundingOpen) {
        return Err(TaskError::InvalidStateTransition);
    }
    task.state = TaskState::FundingOpen;
    task.funding_opened_at = Some(now);
    task.updated_at = now;
    Ok(())
}

/// Mark the task funded: `FundingOpen -> Funded`, once the contributed
/// value covers the finalized budget.
pub fn mark_funded(task: &mut Task, total_contributed: u64, now: i64) -> (r: Result<
    (),
    TaskError,
>)
    ensures
        r == Err::<(), TaskError>(TaskError::InvalidStateTransition) <==> !spec_can_transition(
            old(task).state,
            TaskState::Funded,
        ),
        r == Err::<(), TaskError>(TaskError::BudgetNotFinalized) <==> spec_can_transition(
            old(task).state,
            TaskState::Funded,
        ) && old(task).finalized_budget is None,
        r == Err::<(), TaskError>(TaskError::NotFullyFunded) <==> spec_can_transition(
            old(task).state,
            TaskState::Funded,
        ) && old(task).finalized_budget is Some && total_contributed < old(
            task,
        ).finalized_budget->0,
        r is Ok <==> spec_can_transition(old(task).state, TaskState::Funded) && old(
            task,
        ).finalized_budget is Some && total_contributed >= old(task).finalized_budget->0,
        r is Err ==> *final(task) == *old(task),
        r is Ok ==> *final(task) == (Task {
            state: TaskState::Funded,
            updated_at: now,
            ..*old(task)
        }),
{
    if !task.can_transition_to(&TaskState::Funded) {
        return Err(TaskError::InvalidStateTransition);
    }
    match task.finalized_budget {
        None => Err(TaskError::BudgetNotFinalized),
        Some(budget) => {
            if total_contributed < budget {
                return Err(TaskError::NotFullyFunded);
            }
            task.state = TaskState::Funded;
            task.updated_at = now;
            Ok(())
        },
    }
}

/// Start the work: `Funded -> InProgress`, never after the deadline.
pub fn start_work(task: &mut Task, now: i64) -> (r: Result<(), TaskError>)
    ensures
        r == Err::<(), TaskError>(TaskError::InvalidStateTransition) <==> !spec_can_transition(
            old(task).state,
            TaskState::InProgress,
        ),
        r == Err::<(), TaskError>(TaskError::DeadlinePassed) <==> spec_can_transition(
            old(task).state,
            TaskState::InProgress,
        ) && spec_past_deadline(*old(task), now),
        r is Ok <==> spec_can_transition(old(task).state, TaskState::InProgress)
            && !spec_past_deadline(*old(task), now),
        r is Err ==> *final(task) == *old(task),
        r is Ok ==> *final(task) == (Task {
            state: TaskState::InProgress,
            work_started_at: Some(now),
            updated_at: now,
            ..*old(task)
        }),
{
    if !task.can_transition_to(&TaskState::InProgress) {
        return Err(TaskError::InvalidStateTransition);
    }
    if task.is_past_deadline(now) {
        return Err(TaskError::DeadlinePassed);
    }
    task.state = TaskState::InProgress;
    task.work_started_at = Some(now);
    task.updated_at = now;
    Ok(())
}

/// Record the payout: `Approved -> PaidOut`, only for an escrow payout of
/// exactly the finalized budget.
pub fn mark_paid_out(task: &mut Task, paid_amount: u64, now: i64) -> (r: Result<(), TaskError>)
    ensures
        r == Err::<(), TaskError>(TaskError::InvalidStateTransition) <==> !spec_can_transition(
            old(task).state,
            TaskState::PaidOut,
        ),
        r == Err::<(), TaskError>(TaskError::BudgetNotFinalized) <==> spec_can_transition(
            old(task).state,
            TaskState::PaidOut,
        ) && old(task).finalized_budget is None,
        r == Err::<(), TaskError>(TaskError::InvalidState) <==> spec_can_transition(
            old(task).state,
            TaskState::PaidOut,
        ) && old(task).finalized_budget is Some && paid_amount != old(task).finalized_budget->0,
        r is Ok <==> spec_can_transition(old(task).state, TaskState::PaidOut) && old(
            task,
        ).finalized_budget == Some(paid_amount),
        r is Err ==> *final(task) == *old(task),
        r is Ok ==> *final(task) == (Task {
            state: TaskState::PaidOut,
            paid_out_at: Some(now),
            updated_at: now,
            ..*old(task)
        }),
{
    if !task.can_transition_to(&TaskState::PaidOut) {
        return Err(TaskError::InvalidStateTransition);
    }
    match task.finalized_budget {
        None => Err(TaskError::BudgetNotFinalized),
        Some(budget) => {
            if paid_amount != budget {
                return Err(TaskError::InvalidState);
            }
            task.state = TaskState::PaidOut;
            task.paid_out_at = Some(now);
            task.updated_at = now;
            Ok(())
        },
    }
}

/// Close the refund round: `Refunding -> Refunded`, once every contribution
/// has been refunded (`all_refunded` is the caller's scan of the records).
pub fn mark_refunded(task: &mut Task, all_refunded: bool, now: i64) -> (r: Result<(), TaskError>)
    ensures
        r == Err::<(), TaskError>(TaskError::InvalidStateTransition) <==> !spec_can_transition(
            old(task).state,
            TaskState::Refunded,
        ),
        r == Err::<(), TaskError>(TaskError::InvalidState) <==> spec_can_transition(
            old(task).state,
            TaskState::Refunded,
        ) && !all_refunded,
        r is Ok <==> spec_can_transition(old(task).state, TaskState::Refunded) && all_refunded,
        r is Err ==> *final(task) == *old(task),
        r is Ok ==> *final(task) == (Task {
            state: TaskState::Refunded,
            updated_at: now,
            ..*old(task)
        }),
{
    if !task.can_transition_to(&TaskState::Refunded) {
        return Err(TaskError::InvalidStateTransition);
    }
    if !all_refunded {
        return Err(TaskError::InvalidState);
    }
    task.state = TaskState::Refunded;
    task.updated_at = now;
    Ok(())
}

/// Begin the refund round: `FundingOpen | InProgress | Rejected ->
/// Refunding`.
pub fn start_refunding(task: &mut Task, now: i64) -> (r: Result<(), TaskError>)
    ensures
        r == Err::<(), TaskError>(TaskError::InvalidStateTransition) <==> !spec_can_transition(
            old(task).state,
            TaskState::Refunding,
        ),
        r is Ok <==> spec_can_transition(old(task).state, TaskState::Refunding),
        r is Err ==> *final(task) == *old(task),
        r is Ok ==> *final(task) == (Task {
            state: TaskState::Refunding,
            updated_at: now,
            ..*old(task)
        }),
{
    if !task.can_transition_to(&TaskState::Refunding) {
        return Err(TaskError::InvalidStateTransition);
    }
    task.state = TaskState::Refunding;
    task.updated_at = now;
    Ok(())
}

/// Submit proof of work: `InProgress -> SubmittedForReview`, recipient
/// only, and only before the deadline.
pub fn submit_proof(
    task: &mut Task,
    caller: AccountId,
    proof_hash: String,
    proof_uri: String,
    now: i64,
) -> (r: Result<(), TaskError>)
    ensures
        r == Err::<(), TaskError>(TaskError::RecipientNotSet) <==> old(task).recipient is None,
        r == Err::<(), TaskError>(TaskError::UnauthorizedRecipient) <==> old(task).recipient
            is Some && old(task).recipient->0 != caller,
        r == Err::<(), TaskError>(TaskError::InvalidStateTransition) <==> old(task).recipient
            == Some(caller) && !spec_can_transition(old(task).state, TaskState::SubmittedForReview),
        r == Err::<(), TaskError>(TaskError::DeadlinePassed) <==> old(task).recipient == Some(
            caller,
        ) && spec_can_transition(old(task).state, TaskState::SubmittedForReview)
            && spec_past_deadline(*old(task), now),
        r is Ok <==> old(task).recipient == Some(caller) && spec_can_transition(
            old(task).state,
            TaskState::SubmittedForReview,
        ) && !spec_past_deadline(*old(task), now),
        r is Err ==> *final(task) == *old(task),
        r is Ok ==> *final(task) == (Task {
            proof_hash: Some(proof_hash),
            proof_uri: Some(proof_uri),
            proof_submitted_at: Some(now),
            state: TaskState::SubmittedForReview,
            updated_at: now,
            ..*old(task)
        }),
{
    match task.recipient {
        None => {
            return Err(TaskError::RecipientNotSet);
        },
        Some(recipient) => {
            if recipient != caller {
                return Err(TaskError::UnauthorizedRecipient);
            }
        },
    }
    if !task.can_transition_to(&TaskState::SubmittedForReview) {
        return Err(TaskError::InvalidStateTransition);
    }
    if task.is_past_deadline(now) {
        return Err(TaskError::DeadlinePassed);
    }
    task.proof_hash = Some(proof_hash);
    task.proof_uri = Some(proof_uri);
    task.proof_submitted_at = Some(now);
    task.state = TaskState::SubmittedForReview;
    task.updated_at = now;
    Ok(())
}

/// Approve the submitted work: `SubmittedForReview -> Approved` (or out of
/// a dispute), gated on the platform's governance authority.
pub fn approve_task(task: &mut Task, authority: AccountId, caller: AccountId, now: i64) -> (r:
    Result<(), TaskError>)
    ensures
        r == Err::<(), TaskError>(TaskError::UnauthorizedAuthority) <==> caller != authority,
        r == Err::<(), TaskError>(TaskError::InvalidStateTransition) <==> caller == authority
            && !spec_can_transition(old(task).state, TaskState::Approved),
        r is Ok <==> caller == authority && spec_can_transition(
            old(task).state,
            TaskState::Approved,
        ),
        r is Err ==> *final(task) == *old(task),
        r is Ok ==> *final(task) == (Task {
            state: TaskState::Approved,
            approved_at: Some(now),
            updated_at: now,
            ..*old(task)
        }),
{
    if caller != authority {
        return Err(TaskError::UnauthorizedAuthority);
    }
    if !task.can_transition_to(&TaskState::Approved) {
        return Err(TaskError::InvalidStateTransition);
    }
    task.state = TaskState::Approved;
    task.approved_at = Some(now);
    task.updated_at = now;
    Ok(())
}

/// Reject the submitted work: `SubmittedForReview -> Rejected` (or out of a
/// dispute), gated on the platform's governance authority.
pub fn reject_task(task: &mut Task, authority: AccountId, caller: AccountId, now: i64) -> (r:
    Result<(), TaskError>)
    ensures
        r == Err::<(), TaskError>(TaskError::UnauthorizedAuthority) <==> caller != authority,
        r == Err::<(), TaskError>(TaskError::InvalidStateTransition) <==> caller == authority
            && !spec_can_transition(old(task).state, TaskState::Rejected),
        r is Ok <==> caller == authority && spec_can_transition(
            old(task).state,
            TaskState::Rejected,
        ),
        r is Err ==> *final(task) == *old(task),
        r is Ok ==> *final(task) == (Task {
            state: TaskState::Rejected,
            updated_at: now,
            ..*old(task)
        }),
{
    if caller != authority {
        return Err(TaskError::UnauthorizedAuthority);
    }
    if !task.can_transition_to(&TaskState::Rejected) {
        return Err(TaskError::InvalidStateTransition);
    }
    task.state = TaskState::Rejected;
    task.updated_at = now;
    Ok(())
}

/// A transition sequence that starts at `Draft` and only takes legal steps.
pub open spec fn is_legal_path(p: Seq<TaskState>) -> bool {
    &&& p.len() > 0
    &&& p[0] == TaskState::Draft
    &&& forall|i: int| 0 <= i < p.len() - 1 ==> spec_can_transition(#[trigger] p[i], p[i + 1])
}

/// Terminal states have no outgoing transition, not even into `Disputed`.
pub proof fn lemma_terminal_no_exit(s: TaskState, t: TaskState)
    ensures
        spec_is_terminal(s) ==> !spec_can_transition(s, t),
{
}

/// `PaidOut` is reachable only from `Approved`, and `Refunded` only from
/// `Refunding`: no path skips a predecessor into a terminal state.
pub proof fn lemma_terminal_predecessors(s: TaskState)
    ensures
        spec_can_transition(s, TaskState::PaidOut) ==> s == TaskState::Approved,
        spec_can_transition(s, TaskState::Refunded) ==> s == TaskState::Refunding,
{
}

/// Every non-terminal state has an outgoing transition (at worst into a
/// dispute): a legal path ends only at `PaidOut` or `Refunded`, otherwise
/// the task remains alive.
pub proof fn lemma_nonterminal_can_move(s: TaskState)
    ensures
        !spec_is_terminal(s) ==> spec_can_transition(s, TaskState::Disputed),
{
}

/// On a legal path a terminal state can only be the last element: once a
/// task reaches `PaidOut` or `Refunded` the path cannot continue, so every
/// legal path reaches at most one terminal state or remains alive.
pub proof fn lemma_terminal_is_last(p: Seq<TaskState>, i: int)
    requires
        is_legal_path(p),
        0 <= i < p.len(),
        spec_is_terminal(p[i]),
    ensures
        i == p.len() - 1,
{
    if i < p.len() - 1 {
        assert(spec_can_transition(p[i], p[i + 1]));
    }
}

} // verus!
