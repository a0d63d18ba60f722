//! The claim operation processor: create, revoke and transfer claims,
//! each either applied whole or rejected with the state unchanged.
use vstd::prelude::*;

use crate::claim::{AccountId, BlockNumber, Claim, ClaimError, ClaimEvent};
use crate::store::ClaimsStore;

verus! {

/// The abstract state of a registry.
pub struct RegistryModel {
    /// The claim recorded for each occupied fingerprint.
    pub claims: Map<Seq<u8>, Claim>,
    /// The longest fingerprint that may be claimed.
    pub max_len: nat,
    /// The current height, used to stamp claims.
    pub height: BlockNumber,
}

/// Every claimed fingerprint fits the bound, and no claim is stamped later
/// than the current height.
pub open spec fn model_wf(m: RegistryModel) -> bool {
    forall|f: Seq<u8>|
        #[trigger] m.claims.contains_key(f) ==> f.len() <= m.max_len
            && m.claims[f].registered_at <= m.height
}

/// The state after an operation whose outcome is `r`: the new state on
/// success, the old one on failure.
pub open spec fn after(m: RegistryModel, r: Result<RegistryModel, ClaimError>) -> RegistryModel {
    match r {
        Ok(n) => n,
        Err(_) => m,
    }
}

/// The state with the claims replaced.
pub open spec fn with_claims(m: RegistryModel, claims: Map<Seq<u8>, Claim>) -> RegistryModel {
    RegistryModel { claims, ..m }
}

/// Outcome of `caller` claiming `f`.
pub open spec fn create_spec(m: RegistryModel, caller: AccountId, f: Seq<u8>) -> Result<
    RegistryModel,
    ClaimError,
> {
    if f.len() > m.max_len {
        Err(ClaimError::ProofTooLong)
    } else if m.claims.contains_key(f) {
        Err(ClaimError::ProofAlreadyExist)
    } else {
        Ok(with_claims(m, m.claims.insert(f, Claim { owner: caller, registered_at: m.height })))
    }
}

/// Outcome of `caller` revoking its claim on `f`.
pub open spec fn revoke_spec(m: RegistryModel, caller: AccountId, f: Seq<u8>) -> Result<
    RegistryModel,
    ClaimError,
> {
    if !m.claims.contains_key(f) {
        Err(ClaimError::ClaimNotExist)
    } else if m.claims[f].owner != caller {
        Err(ClaimError::NotClaimOwner)
    } else {
        Ok(with_claims(m, m.claims.remove(f)))
    }
}

/// Outcome of `caller` handing its claim on `f` to `new_owner`.
pub open spec fn transfer_spec(
    m: RegistryModel,
    caller: AccountId,
    f: Seq<u8>,
    new_owner: AccountId,
) -> Result<RegistryModel, ClaimError> {
    if !m.claims.contains_key(f) {
        Err(ClaimError::ClaimNotExist)
    } else if m.claims[f].owner != caller {
        Err(ClaimError::NotClaimOwner)
    } else {
        Ok(
            with_claims(
                m,
                m.claims.insert(f, Claim { owner: new_owner, registered_at: m.height }),
            ),
        )
    }
}

/// The state once the clock has moved to height `h`.
pub open spec fn advance_spec(m: RegistryModel, h: BlockNumber) -> RegistryModel {
    RegistryModel { height: h, ..m }
}

/// What a lookup of `f` returns.
pub open spec fn lookup_spec(m: RegistryModel, f: Seq<u8>) -> Option<Claim> {
    if m.claims.contains_key(f) {
        Some(m.claims[f])
    } else {
        None
    }
}

/// A claims registry: the store, its key-length bound and the current height.
pub struct ClaimRegistry {
    store: ClaimsStore,
    max_len: usize,
    height: BlockNumber,
}

impl View for ClaimRegistry {
    type V = RegistryModel;

    closed spec fn view(&self) -> RegistryModel {
        RegistryModel { claims: self.store@, max_len: self.max_len as nat, height: self.height }
    }
}

impl ClaimRegistry {
    /// The store is well formed and the abstract state keeps its invariant.
    pub closed spec fn wf(&self) -> bool {
        self.store.wf() && model_wf(self@)
    }

    /// An empty registry at height zero that accepts fingerprints of at most
    /// `max_len` bytes.
    pub fn new(max_len: usize) -> (r: ClaimRegistry)
        ensures
            r.wf(),
            r@ == (RegistryModel {
                claims: Map::empty(),
                max_len: max_len as nat,
                height: 0,
            }),
    {
        ClaimRegistry { store: ClaimsStore::new(), max_len, height: 0 }
    }

    /// The longest fingerprint that may be claimed.
    pub fn max_len(&self) -> (r: usize)
        ensures
            r as nat == self@.max_len,
    {
        self.max_len
    }

    /// The current height.
    pub fn block_number(&self) -> (r: BlockNumber)
        ensures
            r == self@.height,
    {
        self.height
    }

    /// Moves the clock to height `h`; heights never go back.
    pub fn set_block_number(&mut self, h: BlockNumber)
        requires
            old(self).wf(),
            old(self)@.height <= h,
        ensures
            final(self).wf(),
            final(self)@ == advance_spec(old(self)@, h),
    {
        self.height = h;
    }

    /// The claim recorded for `fingerprint`, if any.
    pub fn get(&self, fingerprint: &[u8]) -> (r: Option<Claim>)
        requires
            self.wf(),
        ensures
            r == lookup_spec(self@, fingerprint@),
    {
        self.store.get(fingerprint)
    }

    /// Whether `fingerprint` is claimed.
    pub fn contains(&self, fingerprint: &[u8]) -> (r: bool)
        requires
            self.wf(),
        ensures
            r == self@.claims.contains_key(fingerprint@),
    {
        self.store.contains(fingerprint)
    }

    /// Claims `fingerprint` for `caller` at the current height.
    pub fn create_claim(&mut self, caller: AccountId, fingerprint: Vec<u8>) -> (r: Result<
        ClaimEvent,
        ClaimError,
    >)
        requires
            old(self).wf(),
        ensures
            final(self).wf(),
            final(self)@ == after(old(self)@, create_spec(old(self)@, caller, fingerprint@)),
            r == (match create_spec(old(self)@, caller, fingerprint@) {
                Ok(_) => Ok(ClaimEvent::ClaimCreated(caller, fingerprint)),
                Err(e) => Err(e),
            }),
    {
        if fingerprint.len() > self.max_len {
            return Err(ClaimError::ProofTooLong);
        }
        if self.store.contains(fingerprint.as_slice()) {
            return Err(ClaimError::ProofAlreadyExist);
        }
        self.store.insert(fingerprint.clone(), caller, self.height);
        Ok(ClaimEvent::ClaimCreated(caller, fingerprint))
    }

    /// Revokes `caller`'s claim on `fingerprint`.
    pub fn revoke_claim(&mut self, caller: AccountId, fingerprint: Vec<u8>) -> (r: Result<
        ClaimEvent,
        ClaimError,
    >)
        requires
            old(self).wf(),
        ensures
            final(self).wf(),
            final(self)@ == after(old(self)@, revoke_spec(old(self)@, caller, fingerprint@)),
            r == (match revoke_spec(old(self)@, caller, fingerprint@) {
                Ok(_) => Ok(ClaimEvent::ClaimRevoked(caller, fingerprint)),
                Err(e) => Err(e),
            }),
    {
        match self.store.get(fingerprint.as_slice()) {
            None => Err(ClaimError::ClaimNotExist),
            Some(claim) => {
                if claim.owner != caller {
                    return Err(ClaimError::NotClaimOwner);
                }
                self.store.remove(fingerprint.as_slice());
                Ok(ClaimEvent::ClaimRevoked(caller, fingerprint))
            },
        }
    }

    /// Hands `caller`'s claim on `fingerprint` to `new_owner`, stamped with
    /// the current height.
    pub fn transfer_claim(
        &mut self,
        caller: AccountId,
        fingerprint: Vec<u8>,
        new_owner: AccountId,
    ) -> (r: Result<ClaimEvent, ClaimError>)
        requires
            old(self).wf(),
        ensures
            final(self).wf(),
            final(self)@ == after(
                old(self)@,
                transfer_spec(old(self)@, caller, fingerprint@, new_owner),
            ),
            r == (match transfer_spec(old(self)@, caller, fingerprint@, new_owner) {
                Ok(_) => Ok(ClaimEvent::ClaimTransferred(caller, new_owner, fingerprint)),
                Err(e) => Err(e),
            }),
    {
        match self.store.get(fingerprint.as_slice()) {
            None => Err(ClaimError::ClaimNotExist),
            Some(claim) => {
                if claim.owner != caller {
                    return Err(ClaimError::NotClaimOwner);
                }
                self.store.insert(fingerprint.clone(), new_owner, self.height);
                Ok(ClaimEvent::ClaimTransferred(caller, new_owner, fingerprint))
            },
        }
    }
}

} // verus!
