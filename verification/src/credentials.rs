//! The credential store: append-only persistence of finalized public-key
//! credentials.

use vstd::prelude::*;

use crate::errors::RegistrationError;

verus! {

/// A finalized registered public key: immutable once written.
#[derive(Clone, Debug)]
pub struct Credential {
    /// Unique identifier of this credential record.
    pub id: u128,
    /// The owning user.
    pub user_id: u128,
    /// The authenticator-issued credential identifier.
    pub credential_id: Vec<u8>,
    /// Opaque serialized public-key material and metadata.
    pub public_key: Vec<u8>,
}

/// Whether `s` already holds a credential with this authenticator-issued
/// identifier for this user. Such a write must be rejected, not silently
/// accepted, to prevent credential confusion across ceremonies.
pub open spec fn has_duplicate(s: Seq<Credential>, user_id: u128, credential_id: Seq<u8>) -> bool {
    exists|i: int|
        0 <= i < s.len() && s[i].user_id == user_id && s[i].credential_id@ == credential_id
}

/// Byte-for-byte equality of two slices.
pub fn bytes_eq(a: &[u8], b: &[u8]) -> (r: bool)
    ensures
        r == (a@ == b@),
{
    if a.len() != b.len() {
        return false;
    }
    let n = a.len();
    let mut i: usize = 0;
    while i < n
        invariant
            i <= n,
            n == a@.len() == b@.len(),
            forall|j: int| 0 <= j < i ==> a@[j] == b@[j],
        decreases n - i,
    {
        if a[i] != b[i] {
            return false;
        }
        i += 1;
    }
    proof {
        assert(a@ =~= b@);
    }
    true
}

/// Append-only storage of finalized credentials. Records are never
/// updated or deleted.
pub struct CredentialStore {
    records: Vec<Credential>,
}

impl CredentialStore {
    /// The credentials written so far, oldest first.
    pub closed spec fn view(&self) -> Seq<Credential> {
        self.records@
    }

    /// An empty store.
    pub fn new() -> (s: CredentialStore)
        ensures
            s@ == Seq::<Credential>::empty(),
    {
        CredentialStore { records: Vec::new() }
    }

    /// Inserts a credential. A duplicate `(user, credential id)` pair is
    /// rejected as a persistence failure, exactly when one is already
    /// present; otherwise the record is appended unchanged.
    pub fn save(&mut self, cred: Credential) -> (r: Result<(), RegistrationError>)
        ensures
            has_duplicate(old(self)@, cred.user_id, cred.credential_id@) ==> r == Err::<
                (),
                RegistrationError,
            >(RegistrationError::PersistenceFailed) && final(self)@ == old(self)@,
            !has_duplicate(old(self)@, cred.user_id, cred.credential_id@) ==> r == Ok::<
                (),
                RegistrationError,
            >(()) && final(self)@ == old(self)@.push(cred),
    {
        let n = self.records.len();
        let mut i: usize = 0;
        while i < n
            invariant
                i <= n,
                n == self.records@.len(),
                self.records@ == old(self).records@,
                forall|j: int|
                    0 <= j < i ==> !(self.records@[j].user_id == cred.user_id
                        && self.records@[j].credential_id@ == cred.credential_id@),
            decreases n - i,
        {
            if self.records[i].user_id == cred.user_id && bytes_eq(
                self.records[i].credential_id.as_slice(),
                cred.credential_id.as_slice(),
            ) {
                return Err(RegistrationError::PersistenceFailed);
            }
            i += 1;
        }
        self.records.push(cred);
        Ok(())
    }

    /// How many credentials have been written.
    pub fn len(&self) -> (n: usize)
        ensures
            n == self@.len(),
    {
        self.records.len()
    }

    /// The `i`-th credential, in insertion order.
    pub fn get(&self, i: usize) -> (c: &Credential)
        requires
            i < self@.len(),
        ensures
            *c == self@[i as int],
    {
        &self.records[i]
    }

    /// How many of the stored credentials belong to `user_id`.
    pub fn count_for_user(&self, user_id: u128) -> (n: usize)
        ensures
            n == Set::new(
                |i: int| 0 <= i < self@.len() && self@[i].user_id == user_id,
            ).len(),
    {
        let total = self.records.len();
        let mut n: usize = 0;
        let mut i: usize = 0;
        proof {
            assert(Set::new(|j: int| 0 <= j < 0 && self@[j].user_id == user_id)
                =~= Set::<int>::empty());
        }
        while i < total
            invariant
                i <= total,
                total == self@.len(),
                n == Set::new(|j: int| 0 <= j < i && self@[j].user_id == user_id).len(),
                n <= i,
            decreases total - i,
        {
            proof {
                let before = Set::new(|j: int| 0 <= j < i && self@[j].user_id == user_id);
                let after = Set::new(|j: int| 0 <= j < i + 1 && self@[j].user_id == user_id);
                lemma_index_set_finite(before, i as int);
                lemma_index_set_finite(after, i + 1);
                if self@[i as int].user_id == user_id {
                    assert(after =~= before.insert(i as int));
                } else {
                    assert(after =~= before);
                }
            }
            if self.records[i].user_id == user_id {
                n += 1;
            }
            i += 1;
        }
        proof {
            assert(Set::new(|j: int| 0 <= j < total && self@[j].user_id == user_id) =~= Set::new(
                |j: int| 0 <= j < self@.len() && self@[j].user_id == user_id,
            ));
        }
        n
    }
}

proof fn lemma_index_set_finite(s: Set<int>, bound: int)
    requires
        0 <= bound,
        forall|j: int| s.contains(j) ==> 0 <= j < bound,
    ensures
        s.finite(),
        s.len() <= bound,
{
    vstd::set_lib::lemma_int_range(0, bound);
    assert(s.subset_of(vstd::set_lib::set_int_range(0, bound)));
    vstd::set_lib::lemma_len_subset(s, vstd::set_lib::set_int_range(0, bound));
}

} // verus!
