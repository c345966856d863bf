use taskfund::governance::initialize;
use taskfund::governance::mint_tokens;
use taskfund::governance::GovernanceError;
use taskfund::governance::RecipientType;
use taskfund::governance::TOTAL_SUPPLY;
use taskfund::proofs::submit_proof;
use taskfund::proofs::update_proof;
use taskfund::task::TaskError;
use taskfund::AccountId;

#[test]
fn test_initialize_governance() {
    let authority = AccountId::from_u64(9);
    let s = initialize(authority);
    assert_eq!(s.total_minted, 0);
    assert_eq!(s.authority, authority);
}

#[test]
fn test_mint_tokens_tracks_supply() {
    let authority = AccountId::from_u64(9);
    let mut s = initialize(authority);

    mint_tokens(&mut s, authority, 20_000_000_000_000, RecipientType::EarlyContributor).unwrap();
    mint_tokens(&mut s, authority, 30_000_000_000_000, RecipientType::CommunityAirdrop).unwrap();
    assert_eq!(s.total_minted, 50_000_000_000_000);
}

#[test]
fn test_mint_tokens_unauthorized() {
    let authority = AccountId::from_u64(9);
    let stranger = AccountId::from_u64(4);
    let mut s = initialize(authority);

    let r = mint_tokens(&mut s, stranger, 1, RecipientType::DaoTreasury);
    assert!(matches!(r, Err(GovernanceError::Unauthorized)));
    assert_eq!(s.total_minted, 0);
}

#[test]
fn test_mint_tokens_supply_cap() {
    let authority = AccountId::from_u64(9);
    let mut s = initialize(authority);

    mint_tokens(&mut s, authority, TOTAL_SUPPLY - 1, RecipientType::EcosystemFund).unwrap();

    let r = mint_tokens(&mut s, authority, 2, RecipientType::FutureContributor);
    assert!(matches!(r, Err(GovernanceError::ExceedsTotalSupply)));
    assert_eq!(s.total_minted, TOTAL_SUPPLY - 1);

    // The last unit up to the cap still mints.
    mint_tokens(&mut s, authority, 1, RecipientType::FutureContributor).unwrap();
    assert_eq!(s.total_minted, TOTAL_SUPPLY);

    let r = mint_tokens(&mut s, authority, 1, RecipientType::FutureContributor);
    assert!(matches!(r, Err(GovernanceError::ExceedsTotalSupply)));
}

#[test]
fn test_submit_and_update_proof() {
    let task = AccountId::from_u64(1);
    let recipient = AccountId::from_u64(3);
    let stranger = AccountId::from_u64(4);

    let mut p = submit_proof(task, recipient, "cafe".to_string(), "ipfs://blob".to_string(), 40);
    assert_eq!(p.task, task);
    assert_eq!(p.recipient, recipient);
    assert_eq!(p.proof_hash, "cafe");
    assert_eq!(p.proof_uri, "ipfs://blob");
    assert_eq!(p.submitted_at, 40);
    assert_eq!(p.updated_at, None);

    let r = update_proof(&mut p, stranger, "beef".to_string(), "ipfs://other".to_string(), 41);
    assert!(matches!(r, Err(TaskError::UnauthorizedRecipient)));
    assert_eq!(p.proof_hash, "cafe");

    update_proof(&mut p, recipient, "beef".to_string(), "ipfs://other".to_string(), 41).unwrap();
    assert_eq!(p.proof_hash, "beef");
    assert_eq!(p.proof_uri, "ipfs://other");
    assert_eq!(p.updated_at, Some(41));
    assert_eq!(p.submitted_at, 40);
}
