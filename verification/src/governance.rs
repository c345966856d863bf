//! Governance-token mint accounting.
//!
//! A thin collaborator: tracks how much of the fixed total supply has been
//! minted and refuses to cross the cap.  The mint itself is the token
//! primitive's job; this module decides whether it may happen.

use vstd::prelude::*;

use crate::AccountId;

verus! {

/// Fixed total supply: 100 million governance tokens in 6-decimal units.
pub const TOTAL_SUPPLY: u64 = 100_000_000_000_000;

#[derive(Clone, Copy, PartialEq, Eq, Structural, Debug)]
pub enum GovernanceError {
    ExceedsTotalSupply,
    Unauthorized,
}

/// Who a tranche of the initial distribution goes to.
#[derive(Clone, Copy, PartialEq, Eq, Structural, Debug)]
pub enum RecipientType {
    EarlyContributor,
    CommunityAirdrop,
    DaoTreasury,
    EcosystemFund,
    FutureContributor,
}

/// Mint bookkeeping and the authority allowed to mint.
#[derive(Clone, Copy, PartialEq, Eq, Structural, Debug)]
pub struct GovernanceState {
    pub total_minted: u64,
    pub authority: AccountId,
}

impl GovernanceState {
    /// Minting never crossed the cap.
    pub open spec fn wf(self) -> bool {
        self.total_minted <= TOTAL_SUPPLY
    }
}

/// Set up the governance token with nothing minted yet.
pub fn initialize(authority: AccountId) -> (s: GovernanceState)
    ensures
        s == (GovernanceState { total_minted: 0, authority: authority }),
        s.wf(),
{
    GovernanceState { total_minted: 0, authority }
}

/// Count a mint of `amount` toward the supply cap: authority only, and
/// never past `TOTAL_SUPPLY`.  The caller performs the mint this call
/// admits.
pub fn mint_tokens(
    state: &mut GovernanceState,
    caller: AccountId,
    amount: u64,
    recipient_type: RecipientType,
) -> (r: Result<(), GovernanceError>)
    requires
        old(state).wf(),
    ensures
        r == Err::<(), GovernanceError>(GovernanceError::Unauthorized) <==> caller != old(
            state,
        ).authority,
        r == Err::<(), GovernanceError>(GovernanceError::ExceedsTotalSupply) <==> caller == old(
            state,
        ).authority && old(state).total_minted + amount > TOTAL_SUPPLY,
        r is Ok <==> caller == old(state).authority && old(state).total_minted + amount
            <= TOTAL_SUPPLY,
        r is Err ==> *final(state) == *old(state),
        r is Ok ==> *final(state) == (GovernanceState {
            total_minted: (old(state).total_minted + amount) as u64,
            authority: old(state).authority,
        }),
        final(state).wf(),
        final(state).total_minted >= old(state).total_minted,
{
    if caller != state.authority {
        return Err(GovernanceError::Unauthorized);
    }
    if amount > TOTAL_SUPPLY - state.total_minted {
        return Err(GovernanceError::ExceedsTotalSupply);
    }
    state.total_minted = state.total_minted + amount;
    Ok(())
}

} // verus!
