use poe::claim::{Claim, ClaimError, ClaimEvent};
use poe::registry::ClaimRegistry;

const MAX_CLAIM_LENGTH: usize = 6;

fn new_registry() -> ClaimRegistry {
    ClaimRegistry::new(MAX_CLAIM_LENGTH)
}

// create_claim

#[test]
fn create_claim_works() {
    let mut reg = new_registry();
    let claim = vec![0, 1];
    assert!(reg.create_claim(1, claim.clone()).is_ok());
    assert_eq!(
        reg.get(&claim),
        Some(Claim { owner: 1, registered_at: reg.block_number() })
    );
}

#[test]
fn create_claim_failed_when_claim_already_exist() {
    let mut reg = new_registry();
    let claim = vec![0, 1];
    let _ = reg.create_claim(1, claim.clone());
    let before = reg.get(&claim);

    assert_eq!(reg.create_claim(1, claim.clone()), Err(ClaimError::ProofAlreadyExist));
    assert_eq!(reg.get(&claim), before);
}

#[test]
fn create_claim_failed_when_claim_is_too_long() {
    let mut reg = new_registry();
    let claim = vec![0, 1, 2, 4, 5, 6, 7, 8];

    assert_eq!(reg.create_claim(1, claim.clone()), Err(ClaimError::ProofTooLong));
    assert_eq!(reg.get(&claim), None);
}

// revoke_claim

#[test]
fn revoke_claim_works() {
    let mut reg = new_registry();
    let claim = vec![0, 1];
    let _ = reg.create_claim(1, claim.clone());

    assert!(reg.revoke_claim(1, claim.clone()).is_ok());
}

#[test]
fn revoke_claim_failed_when_is_not_exist() {
    let mut reg = new_registry();
    let claim = vec![0, 1];

    assert_eq!(reg.revoke_claim(1, claim.clone()), Err(ClaimError::ClaimNotExist));
    assert_eq!(reg.get(&claim), None);
}

#[test]
fn revoke_claim_failed_with_wrong_owner() {
    let mut reg = new_registry();
    let claim = vec![0, 1];
    let _ = reg.create_claim(1, claim.clone());
    let before = reg.get(&claim);

    assert_eq!(reg.revoke_claim(2, claim.clone()), Err(ClaimError::NotClaimOwner));
    assert_eq!(reg.get(&claim), before);
}

// transfer_claim

#[test]
fn transfer_claim_works() {
    let mut reg = new_registry();
    let claim = vec![0, 1];
    let _ = reg.create_claim(1, claim.clone());

    assert!(reg.transfer_claim(1, claim.clone(), 2u64).is_ok());
    assert_eq!(
        reg.get(&claim),
        Some(Claim { owner: 2, registered_at: reg.block_number() })
    );
}

#[test]
fn transfer_claim_failed_when_is_not_exist() {
    let mut reg = new_registry();
    let claim = vec![0];
    let _ = reg.create_claim(1, claim.clone());
    let before = reg.get(&claim);

    assert_eq!(reg.transfer_claim(2, claim.clone(), 2u64), Err(ClaimError::NotClaimOwner));
    assert_eq!(reg.get(&claim), before);
}

#[test]
fn transfer_claim_failed_with_wrong_owner() {
    let mut reg = new_registry();
    let claim = vec![0];

    assert_eq!(reg.transfer_claim(1, claim.clone(), 2u64), Err(ClaimError::ClaimNotExist));
    assert_eq!(reg.get(&claim), None);
}

// further cases

#[test]
fn second_create_by_other_caller_is_rejected() {
    let mut reg = new_registry();
    let claim = vec![9, 9, 9];
    assert!(reg.create_claim(1, claim.clone()).is_ok());
    assert_eq!(reg.create_claim(2, claim.clone()), Err(ClaimError::ProofAlreadyExist));
    assert_eq!(reg.get(&claim), Some(Claim { owner: 1, registered_at: 0 }));
}

#[test]
fn create_stamps_current_height() {
    let mut reg = new_registry();
    reg.set_block_number(42);
    assert!(reg.create_claim(1, vec![0, 1]).is_ok());
    assert_eq!(reg.get(&[0, 1]), Some(Claim { owner: 1, registered_at: 42 }));
}

#[test]
fn create_emits_event_with_caller_and_fingerprint() {
    let mut reg = new_registry();
    assert_eq!(
        reg.create_claim(7, vec![3, 4]),
        Ok(ClaimEvent::ClaimCreated(7, vec![3, 4]))
    );
}

#[test]
fn create_accepts_length_at_bound_and_empty() {
    let mut reg = new_registry();
    assert!(reg.create_claim(1, vec![1; MAX_CLAIM_LENGTH]).is_ok());
    assert!(reg.create_claim(1, Vec::new()).is_ok());
    assert!(reg.contains(&[]));
    assert!(reg.contains(&[1; MAX_CLAIM_LENGTH]));
}

#[test]
fn create_rejects_one_past_bound() {
    let mut reg = new_registry();
    let claim = vec![1; MAX_CLAIM_LENGTH + 1];
    assert_eq!(reg.create_claim(1, claim.clone()), Err(ClaimError::ProofTooLong));
    assert!(!reg.contains(&claim));
}

#[test]
fn zero_bound_accepts_only_empty_fingerprint() {
    let mut reg = ClaimRegistry::new(0);
    assert_eq!(reg.max_len(), 0);
    assert_eq!(reg.create_claim(1, vec![0]), Err(ClaimError::ProofTooLong));
    assert!(reg.create_claim(1, Vec::new()).is_ok());
}

#[test]
fn prefix_fingerprints_are_distinct_keys() {
    let mut reg = new_registry();
    assert!(reg.create_claim(1, vec![0]).is_ok());
    assert!(reg.create_claim(2, vec![0, 1]).is_ok());
    assert_eq!(reg.get(&[0]), Some(Claim { owner: 1, registered_at: 0 }));
    assert_eq!(reg.get(&[0, 1]), Some(Claim { owner: 2, registered_at: 0 }));
    assert!(reg.revoke_claim(1, vec![0]).is_ok());
    assert_eq!(reg.get(&[0]), None);
    assert_eq!(reg.get(&[0, 1]), Some(Claim { owner: 2, registered_at: 0 }));
}

#[test]
fn revoke_removes_entry_and_emits_event() {
    let mut reg = new_registry();
    let claim = vec![5, 6];
    let _ = reg.create_claim(3, claim.clone());
    assert_eq!(
        reg.revoke_claim(3, claim.clone()),
        Ok(ClaimEvent::ClaimRevoked(3, vec![5, 6]))
    );
    assert_eq!(reg.get(&claim), None);
    assert!(!reg.contains(&claim));
}

#[test]
fn revoked_fingerprint_can_be_claimed_again() {
    let mut reg = new_registry();
    let claim = vec![1, 2];
    let _ = reg.create_claim(1, claim.clone());
    let _ = reg.revoke_claim(1, claim.clone());
    reg.set_block_number(3);
    assert!(reg.create_claim(2, claim.clone()).is_ok());
    assert_eq!(reg.get(&claim), Some(Claim { owner: 2, registered_at: 3 }));
}

#[test]
fn transfer_restamps_with_transfer_height() {
    let mut reg = new_registry();
    let claim = vec![0, 1];
    reg.set_block_number(3);
    let _ = reg.create_claim(1, claim.clone());
    reg.set_block_number(7);
    assert_eq!(
        reg.transfer_claim(1, claim.clone(), 2),
        Ok(ClaimEvent::ClaimTransferred(1, 2, vec![0, 1]))
    );
    assert_eq!(reg.get(&claim), Some(Claim { owner: 2, registered_at: 7 }));
    assert_eq!(reg.revoke_claim(1, claim.clone()), Err(ClaimError::NotClaimOwner));
    assert!(reg.revoke_claim(2, claim.clone()).is_ok());
}

#[test]
fn transfer_to_self_restamps() {
    let mut reg = new_registry();
    let claim = vec![8];
    let _ = reg.create_claim(4, claim.clone());
    reg.set_block_number(11);
    assert!(reg.transfer_claim(4, claim.clone(), 4).is_ok());
    assert_eq!(reg.get(&claim), Some(Claim { owner: 4, registered_at: 11 }));
}

#[test]
fn repeated_failures_change_nothing() {
    let mut reg = new_registry();
    let claim = vec![0, 1];
    let _ = reg.create_claim(1, claim.clone());
    let before = reg.get(&claim);
    for _ in 0..2 {
        assert_eq!(reg.create_claim(2, claim.clone()), Err(ClaimError::ProofAlreadyExist));
        assert_eq!(reg.revoke_claim(2, claim.clone()), Err(ClaimError::NotClaimOwner));
        assert_eq!(reg.transfer_claim(2, claim.clone(), 3), Err(ClaimError::NotClaimOwner));
        assert_eq!(reg.revoke_claim(1, vec![7]), Err(ClaimError::ClaimNotExist));
        assert_eq!(reg.transfer_claim(1, vec![7], 3), Err(ClaimError::ClaimNotExist));
        assert_eq!(reg.create_claim(1, vec![0; 9]), Err(ClaimError::ProofTooLong));
        assert_eq!(reg.get(&claim), before);
        assert_eq!(reg.get(&[7]), None);
        assert_eq!(reg.get(&[0; 9]), None);
    }
}

#[test]
fn repeated_get_gives_same_answer() {
    let mut reg = new_registry();
    let _ = reg.create_claim(1, vec![2]);
    let first = reg.get(&[2]);
    let second = reg.get(&[2]);
    assert_eq!(first, second);
    assert_eq!(second, Some(Claim { owner: 1, registered_at: 0 }));
}
