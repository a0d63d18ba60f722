//! Properties of the registry that relate several operations, proved over
//! the transition functions that the operations' contracts speak of.
use vstd::prelude::*;

use crate::claim::{AccountId, BlockNumber, Claim, ClaimError};
use crate::registry::{
    advance_spec, after, create_spec, lookup_spec, model_wf, revoke_spec, transfer_spec,
    RegistryModel,
};

verus! {

/// Once a fingerprint within the bound has been offered for claiming, a
/// second claim on it is refused as already existing, whoever makes it.
pub proof fn lemma_second_create_rejected(
    m: RegistryModel,
    c: AccountId,
    c2: AccountId,
    f: Seq<u8>,
)
    requires
        f.len() <= m.max_len,
    ensures
        create_spec(after(m, create_spec(m, c, f)), c2, f) == Err::<RegistryModel, ClaimError>(
            ClaimError::ProofAlreadyExist,
        ),
{
}

/// A fingerprint over the bound is refused as too long, the state stays as
/// it was, and the fingerprint stays unclaimed.
pub proof fn lemma_overlong_create_rejected(m: RegistryModel, c: AccountId, f: Seq<u8>)
    requires
        model_wf(m),
        f.len() > m.max_len,
    ensures
        create_spec(m, c, f) == Err::<RegistryModel, ClaimError>(ClaimError::ProofTooLong),
        after(m, create_spec(m, c, f)) == m,
        !after(m, create_spec(m, c, f)).claims.contains_key(f),
{
}

/// A successful claim is found afterwards, owned by the caller and stamped
/// with the height at which it was made.
pub proof fn lemma_create_then_lookup(m: RegistryModel, c: AccountId, f: Seq<u8>)
    requires
        f.len() <= m.max_len,
        !m.claims.contains_key(f),
    ensures
        create_spec(m, c, f) is Ok,
        lookup_spec(after(m, create_spec(m, c, f)), f) == Some(
            Claim { owner: c, registered_at: m.height },
        ),
{
}

/// Someone other than the owner cannot revoke a claim, and the claim is left
/// as it was.
pub proof fn lemma_revoke_by_other_rejected(
    m: RegistryModel,
    c: AccountId,
    c2: AccountId,
    f: Seq<u8>,
)
    requires
        create_spec(m, c, f) is Ok,
        c2 != c,
    ensures
        ({
            let m1 = after(m, create_spec(m, c, f));
            &&& revoke_spec(m1, c2, f) == Err::<RegistryModel, ClaimError>(
                ClaimError::NotClaimOwner,
            )
            &&& after(m1, revoke_spec(m1, c2, f)) == m1
            &&& lookup_spec(after(m1, revoke_spec(m1, c2, f)), f) == lookup_spec(m1, f)
        }),
{
}

/// Revoking an unclaimed fingerprint is refused as not existing, and changes
/// nothing.
pub proof fn lemma_revoke_missing_rejected(m: RegistryModel, c: AccountId, f: Seq<u8>)
    requires
        !m.claims.contains_key(f),
    ensures
        revoke_spec(m, c, f) == Err::<RegistryModel, ClaimError>(ClaimError::ClaimNotExist),
        after(m, revoke_spec(m, c, f)) == m,
{
}

/// After a successful claim and a later move of the clock, the owner can
/// hand the claim over; it is then owned by the new owner and stamped with
/// the height of the transfer.
pub proof fn lemma_transfer_after_create(
    m: RegistryModel,
    c: AccountId,
    f: Seq<u8>,
    new_owner: AccountId,
    h: BlockNumber,
)
    requires
        create_spec(m, c, f) is Ok,
        m.height <= h,
    ensures
        ({
            let m2 = advance_spec(after(m, create_spec(m, c, f)), h);
            &&& transfer_spec(m2, c, f, new_owner) is Ok
            &&& lookup_spec(after(m2, transfer_spec(m2, c, f, new_owner)), f) == Some(
                Claim { owner: new_owner, registered_at: h },
            )
        }),
{
}

/// A transfer of an unclaimed fingerprint is refused as not existing; one
/// by someone other than the owner is refused as not the owner.
pub proof fn lemma_transfer_rejections(
    m: RegistryModel,
    c: AccountId,
    f: Seq<u8>,
    new_owner: AccountId,
)
    ensures
        !m.claims.contains_key(f) ==> transfer_spec(m, c, f, new_owner) == Err::<
            RegistryModel,
            ClaimError,
        >(ClaimError::ClaimNotExist),
        m.claims.contains_key(f) && m.claims[f].owner != c ==> transfer_spec(m, c, f, new_owner)
            == Err::<RegistryModel, ClaimError>(ClaimError::NotClaimOwner),
{
}

/// A failed operation leaves the state as it was, so repeating it fails the
/// same way and still changes nothing.
pub proof fn lemma_failures_repeat(
    m: RegistryModel,
    c: AccountId,
    f: Seq<u8>,
    new_owner: AccountId,
)
    ensures
        create_spec(m, c, f) is Err ==> after(m, create_spec(m, c, f)) == m && create_spec(
            after(m, create_spec(m, c, f)),
            c,
            f,
        ) == create_spec(m, c, f),
        revoke_spec(m, c, f) is Err ==> after(m, revoke_spec(m, c, f)) == m && revoke_spec(
            after(m, revoke_spec(m, c, f)),
            c,
            f,
        ) == revoke_spec(m, c, f),
        transfer_spec(m, c, f, new_owner) is Err ==> after(m, transfer_spec(m, c, f, new_owner))
            == m && transfer_spec(after(m, transfer_spec(m, c, f, new_owner)), c, f, new_owner)
            == transfer_spec(m, c, f, new_owner),
{
}

/// Every operation and every forward move of the clock keeps the invariant:
/// claimed fingerprints fit the bound and no claim is stamped in the future.
pub proof fn lemma_operations_keep_invariant(
    m: RegistryModel,
    c: AccountId,
    f: Seq<u8>,
    new_owner: AccountId,
    h: BlockNumber,
)
    requires
        model_wf(m),
    ensures
        model_wf(after(m, create_spec(m, c, f))),
        model_wf(after(m, revoke_spec(m, c, f))),
        model_wf(after(m, transfer_spec(m, c, f, new_owner))),
        m.height <= h ==> model_wf(advance_spec(m, h)),
{
}

/// A transfer never moves a claim's stamp back in time.
pub proof fn lemma_transfer_stamp_monotone(
    m: RegistryModel,
    c: AccountId,
    f: Seq<u8>,
    new_owner: AccountId,
)
    requires
        model_wf(m),
        transfer_spec(m, c, f, new_owner) is Ok,
    ensures
        after(m, transfer_spec(m, c, f, new_owner)).claims[f].registered_at
            >= m.claims[f].registered_at,
{
}

} // verus!
