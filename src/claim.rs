//! The claim entity and the error kinds of the registry.
use vstd::prelude::*;

verus! {

/// An identity resolved by the host's authenticator.
pub type AccountId = u64;

/// A height supplied by the host's clock source.
pub type BlockNumber = u64;

/// What the registry records for an occupied fingerprint.
#[derive(Clone, Copy, Debug, PartialEq, Eq, Structural)]
pub struct Claim {
    /// The identity allowed to revoke or transfer the claim.
    pub owner: AccountId,
    /// The height at which the claim was last created or transferred.
    pub registered_at: BlockNumber,
}

/// Why an operation was rejected. A rejected operation changes nothing.
#[derive(Clone, Copy, Debug, PartialEq, Eq, Structural)]
pub enum ClaimError {
    /// The fingerprint is longer than the configured maximum.
    ProofTooLong,
    /// A claim for the fingerprint already exists.
    ProofAlreadyExist,
    /// No claim for the fingerprint exists.
    ClaimNotExist,
    /// The caller does not own the claim.
    NotClaimOwner,
}

/// A notification of a state change, for observers outside the registry.
#[derive(Debug, PartialEq, Eq)]
pub enum ClaimEvent {
    /// The account claimed the fingerprint.
    ClaimCreated(AccountId, Vec<u8>),
    /// The account revoked its claim on the fingerprint.
    ClaimRevoked(AccountId, Vec<u8>),
    /// The first account handed the fingerprint to the second.
    ClaimTransferred(AccountId, AccountId, Vec<u8>),
}

} // verus!
