//! Proof registry: the deliverable evidence a recipient attaches to a
//! task.
//!
//! One record per task: a content hash of the deliverable and the URI it
//! lives behind.  Only the recipient who submitted a proof may update it.

use vstd::prelude::*;

use crate::task::TaskError;
use crate::AccountId;

verus! {

/// Evidence of delivered work: `proof_hash` is expected to be the
/// hex-encoded digest of the blob at `proof_uri`.
#[derive(Debug)]
pub struct Proof {
    pub task: AccountId,
    pub recipient: AccountId,
    pub proof_hash: String,
    pub proof_uri: String,
    pub submitted_at: i64,
    pub updated_at: Option<i64>,
}

/// Record a recipient's proof of work for a task.
pub fn submit_proof(
    task: AccountId,
    recipient: AccountId,
    proof_hash: String,
    proof_uri: String,
    now: i64,
) -> (p: Proof)
    ensures
        p == (Proof {
            task: task,
            recipient: recipient,
            proof_hash: proof_hash,
            proof_uri: proof_uri,
            submitted_at: now,
            updated_at: None,
        }),
{
    Proof { task, recipient, proof_hash, proof_uri, submitted_at: now, updated_at: None }
}

/// Replace the recorded proof; only its recipient may do so.
pub fn update_proof(
    proof: &mut Proof,
    caller: AccountId,
    proof_hash: String,
    proof_uri: String,
    now: i64,
) -> (r: Result<(), TaskError>)
    ensures
        r is Ok <==> caller == old(proof).recipient,
        r == Err::<(), TaskError>(TaskError::UnauthorizedRecipient) <==> caller != old(
            proof,
        ).recipient,
        r is Err ==> *final(proof) == *old(proof),
        r is Ok ==> *final(proof) == (Proof {
            proof_hash: proof_hash,
            proof_uri: proof_uri,
            updated_at: Some(now),
            ..*old(proof)
        }),
{
    if caller != proof.recipient {
        return Err(TaskError::UnauthorizedRecipient);
    }
    proof.proof_hash = proof_hash;
    proof.proof_uri = proof_uri;
    proof.updated_at = Some(now);
    Ok(())
}

} // verus!
