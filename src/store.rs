//! The claims store: a keyed table from fingerprint to claim, with exact
//! byte-sequence equality on keys.
use vstd::prelude::*;

use crate::claim::{AccountId, BlockNumber, Claim};

verus! {

/// One row of the store.
struct Entry {
    fingerprint: Vec<u8>,
    claim: Claim,
}

/// A keyed container of claims. At most one row per distinct fingerprint.
pub struct ClaimsStore {
    entries: Vec<Entry>,
    contents: Ghost<Map<Seq<u8>, Claim>>,
}

/// Whether two byte sequences are equal.
fn bytes_equal(a: &[u8], b: &[u8]) -> (r: bool)
    ensures
        r == (a@ == b@),
{
    if a.len() != b.len() {
        return false;
    }
    let mut i: usize = 0;
    while i < a.len()
        invariant
            a@.len() == b@.len(),
            i <= a@.len(),
            forall|j: int| 0 <= j < i ==> a@[j] == b@[j],
        decreases a@.len() - i,
    {
        if a[i] != b[i] {
            return false;
        }
        i = i + 1;
    }
    assert(a@ =~= b@);
    true
}

impl View for ClaimsStore {
    type V = Map<Seq<u8>, Claim>;

    closed spec fn view(&self) -> Map<Seq<u8>, Claim> {
        self.contents@
    }
}

impl ClaimsStore {
    /// The rows hold distinct fingerprints and agree with the abstract map.
    pub closed spec fn wf(&self) -> bool {
        &&& forall|i: int, j: int|
            0 <= i < j < self.entries@.len() ==> self.entries@[i].fingerprint@
                != self.entries@[j].fingerprint@
        &&& forall|i: int|
            0 <= i < self.entries@.len() ==> #[trigger] self.contents@.contains_key(
                self.entries@[i].fingerprint@,
            ) && self.contents@[self.entries@[i].fingerprint@] == self.entries@[i].claim
        &&& forall|k: Seq<u8>|
            #[trigger] self.contents@.contains_key(k) ==> exists|i: int|
                0 <= i < self.entries@.len() && self.entries@[i].fingerprint@ == k
    }

    /// An empty store.
    pub fn new() -> (r: ClaimsStore)
        ensures
            r.wf(),
            r@ == Map::<Seq<u8>, Claim>::empty(),
    {
        ClaimsStore { entries: Vec::new(), contents: Ghost(Map::empty()) }
    }

    /// The row holding `fingerprint`, if any.
    fn position(&self, fingerprint: &[u8]) -> (r: Option<usize>)
        requires
            self.wf(),
        ensures
            match r {
                Some(i) => i < self.entries@.len() && self.entries@[i as int].fingerprint@
                    == fingerprint@,
                None => !self@.contains_key(fingerprint@),
            },
    {
        let mut i: usize = 0;
        while i < self.entries.len()
            invariant
                self.wf(),
                i <= self.entries@.len(),
                forall|j: int| 0 <= j < i ==> self.entries@[j].fingerprint@ != fingerprint@,
            decreases self.entries@.len() - i,
        {
            if bytes_equal(self.entries[i].fingerprint.as_slice(), fingerprint) {
                return Some(i);
            }
            i = i + 1;
        }
        None
    }

    /// The claim recorded for `fingerprint`, if any.
    pub fn get(&self, fingerprint: &[u8]) -> (r: Option<Claim>)
        requires
            self.wf(),
        ensures
            r == (if self@.contains_key(fingerprint@) {
                Some(self@[fingerprint@])
            } else {
                None
            }),
    {
        match self.position(fingerprint) {
            Some(i) => Some(self.entries[i].claim),
            None => None,
        }
    }

    /// Whether a claim is recorded for `fingerprint`.
    pub fn contains(&self, fingerprint: &[u8]) -> (r: bool)
        requires
            self.wf(),
        ensures
            r == self@.contains_key(fingerprint@),
    {
        self.position(fingerprint).is_some()
    }

    /// Records `(owner, height)` for `fingerprint`, replacing any earlier claim.
    pub fn insert(&mut self, fingerprint: Vec<u8>, owner: AccountId, height: BlockNumber)
        requires
            old(self).wf(),
        ensures
            final(self).wf(),
            final(self)@ == old(self)@.insert(
                fingerprint@,
                Claim { owner, registered_at: height },
            ),
    {
        let claim = Claim { owner, registered_at: height };
        let ghost key = fingerprint@;
        let ghost mut at: int = 0;
        match self.position(fingerprint.as_slice()) {
            Some(i) => {
                self.entries.set(i, Entry { fingerprint, claim });
                proof {
                    at = i as int;
                }
            },
            None => {
                self.entries.push(Entry { fingerprint, claim });
                proof {
                    at = self.entries@.len() - 1;
                }
            },
        }
        assert(self.entries@[at].fingerprint@ == key);
        self.contents = Ghost(self.contents@.insert(key, claim));
        assert forall|k: Seq<u8>| #[trigger] self.contents@.contains_key(k) implies exists|i: int|
            0 <= i < self.entries@.len() && self.entries@[i].fingerprint@ == k by {
            if k != key {
                assert(old(self).contents@.contains_key(k));
                let i = choose|i: int|
                    0 <= i < old(self).entries@.len() && old(self).entries@[i].fingerprint@ == k;
                assert(self.entries@[i].fingerprint@ == k);
            } else {
                assert(0 <= at < self.entries@.len());
            }
        }
    }

    /// Deletes the claim for `fingerprint`, if any.
    pub fn remove(&mut self, fingerprint: &[u8])
        requires
            old(self).wf(),
        ensures
            final(self).wf(),
            final(self)@ == old(self)@.remove(fingerprint@),
    {
        match self.position(fingerprint) {
            Some(i) => {
                let _ = self.entries.remove(i);
                self.contents = Ghost(self.contents@.remove(fingerprint@));
                assert forall|k: Seq<u8>| #[trigger] self.contents@.contains_key(k) implies exists|
                    j: int,
                | 0 <= j < self.entries@.len() && self.entries@[j].fingerprint@ == k by {
                    let j = choose|j: int|
                        0 <= j < old(self).entries@.len() && old(self).entries@[j].fingerprint@
                            == k;
                    if j < i {
                        assert(self.entries@[j].fingerprint@ == k);
                    } else {
                        assert(self.entries@[j - 1].fingerprint@ == k);
                    }
                }
            },
            None => {
                assert(self.contents@.remove(fingerprint@) =~= self.contents@);
                self.contents = Ghost(self.contents@.remove(fingerprint@));
            },
        }
    }
}

} // verus!
