//! The ceremony state store: keyed, time-bounded storage of in-flight
//! registration ceremonies, with an atomic take that enforces single use
//! and expiry.

use vstd::map::*;
use vstd::prelude::*;

use crate::errors::RegistrationError;

verus! {

/// One in-flight registration ceremony, as persisted between `begin` and
/// `complete`: the opaque server-side protocol state, the user it will
/// produce a credential for, and an absolute expiry timestamp (seconds).
#[derive(Clone, Debug)]
pub struct CeremonyRecord {
    /// The opaque ceremony identifier this record is keyed by.
    pub id: u128,
    /// The user the ceremony will produce a credential for.
    pub user_id: u128,
    /// The serialized protocol state; never introspected by this core.
    pub state_blob: Vec<u8>,
    /// Absolute expiry timestamp; the record is dead once `now` reaches it.
    pub expires_at: u64,
}

/// The records of `s`, keyed by their ceremony id.
pub open spec fn map_of(s: Seq<CeremonyRecord>) -> Map<u128, CeremonyRecord>
    decreases s.len(),
{
    if s.len() == 0 {
        Map::empty()
    } else {
        map_of(s.drop_last()).insert(s.last().id, s.last())
    }
}

/// No two records share a ceremony id.
pub open spec fn ids_unique(s: Seq<CeremonyRecord>) -> bool {
    forall|i: int, j: int| 0 <= i < j < s.len() ==> s[i].id != s[j].id
}

/// A take of `id` at time `now` succeeds exactly when the ceremony is
/// present and not yet expired.
pub open spec fn take_succeeds(m: Map<u128, CeremonyRecord>, id: u128, now: u64) -> bool {
    m.contains_key(id) && m[id].expires_at > now
}

/// The store contents after a take of `id` at time `now`: the record is
/// gone exactly when the take succeeded; an expired or absent record
/// leaves the store as it was.
pub open spec fn after_take(m: Map<u128, CeremonyRecord>, id: u128, now: u64) -> Map<
    u128,
    CeremonyRecord,
> {
    if take_succeeds(m, id, now) {
        m.remove(id)
    } else {
        m
    }
}

proof fn lemma_map_of_contains(s: Seq<CeremonyRecord>, k: u128)
    ensures
        map_of(s).contains_key(k) <==> (exists|i: int| 0 <= i < s.len() && s[i].id == k),
    decreases s.len(),
{
    if s.len() == 0 {
    } else {
        let dl = s.drop_last();
        lemma_map_of_contains(dl, k);
        if s.last().id == k {
            assert(s[s.len() - 1].id == k);
        } else if map_of(s).contains_key(k) {
            let i = choose|i: int| 0 <= i < dl.len() && dl[i].id == k;
            assert(s[i].id == k);
        } else {
            if exists|i: int| 0 <= i < s.len() && s[i].id == k {
                let i = choose|i: int| 0 <= i < s.len() && s[i].id == k;
                assert(dl[i].id == k);
            }
        }
    }
}

proof fn lemma_map_of_get(s: Seq<CeremonyRecord>, i: int)
    requires
        ids_unique(s),
        0 <= i < s.len(),
    ensures
        map_of(s).contains_key(s[i].id),
        map_of(s)[s[i].id] == s[i],
    decreases s.len(),
{
    let dl = s.drop_last();
    if i == s.len() - 1 {
    } else {
        assert(ids_unique(dl));
        assert(dl[i] == s[i]);
        lemma_map_of_get(dl, i);
        assert(s.last().id != s[i].id);
    }
}

proof fn lemma_ids_unique_remove(s: Seq<CeremonyRecord>, i: int)
    requires
        ids_unique(s),
        0 <= i < s.len(),
    ensures
        ids_unique(s.remove(i)),
{
    let t = s.remove(i);
    assert forall|a: int, b: int| 0 <= a < b < t.len() implies t[a].id != t[b].id by {
        let a0 = if a < i {
            a
        } else {
            a + 1
        };
        let b0 = if b < i {
            b
        } else {
            b + 1
        };
        assert(t[a] == s[a0]);
        assert(t[b] == s[b0]);
    }
}

proof fn lemma_map_of_remove(s: Seq<CeremonyRecord>, i: int)
    requires
        ids_unique(s),
        0 <= i < s.len(),
    ensures
        map_of(s.remove(i)) == map_of(s).remove(s[i].id),
{
    let t = s.remove(i);
    let k0 = s[i].id;
    lemma_ids_unique_remove(s, i);
    assert_maps_equal!(map_of(t), map_of(s).remove(k0), k: u128 => {
        lemma_map_of_contains(t, k);
        lemma_map_of_contains(s, k);
        if k == k0 {
            // k0 occurs only at index i in s, so it is gone from t.
            if exists|j: int| 0 <= j < t.len() && t[j].id == k {
                let j = choose|j: int| 0 <= j < t.len() && t[j].id == k;
                let j0 = if j < i {
                    j
                } else {
                    j + 1
                };
                assert(t[j] == s[j0]);
                assert(s[j0].id == s[i].id && j0 != i);
            }
        } else {
            if exists|j: int| 0 <= j < s.len() && s[j].id == k {
                let j = choose|j: int| 0 <= j < s.len() && s[j].id == k;
                // j != i, so the record survives into t.
                let j1 = if j < i {
                    j
                } else {
                    j - 1
                };
                assert(t[j1] == s[j]);
                lemma_map_of_get(t, j1);
                lemma_map_of_get(s, j);
            }
            if exists|j: int| 0 <= j < t.len() && t[j].id == k {
                let j = choose|j: int| 0 <= j < t.len() && t[j].id == k;
                let j0 = if j < i {
                    j
                } else {
                    j + 1
                };
                assert(t[j] == s[j0]);
                lemma_map_of_get(t, j);
                lemma_map_of_get(s, j0);
            }
        }
    });
}

proof fn lemma_map_of_push(s: Seq<CeremonyRecord>, r: CeremonyRecord)
    ensures
        map_of(s.push(r)) == map_of(s).insert(r.id, r),
{
    assert(s.push(r).drop_last() =~= s);
    assert(s.push(r).last() == r);
}

/// Keyed storage of in-flight ceremonies. Every read enforces expiry, and
/// a successful take deletes the record in the same operation, so a
/// ceremony can be consumed at most once.
pub struct CeremonyStore {
    records: Vec<CeremonyRecord>,
}

impl CeremonyStore {
    /// The store's contents, as a map from ceremony id to record.
    pub closed spec fn view(&self) -> Map<u128, CeremonyRecord> {
        map_of(self.records@)
    }

    /// Well-formedness: ceremony ids are unique, so the map view is
    /// faithful to the stored records.
    pub closed spec fn wf(&self) -> bool {
        ids_unique(self.records@)
    }

    /// An empty store.
    pub fn new() -> (s: CeremonyStore)
        ensures
            s.wf(),
            s@ == Map::<u128, CeremonyRecord>::empty(),
    {
        CeremonyStore { records: Vec::new() }
    }

    /// Inserts a new ceremony record under `id`. The id must be unique: a
    /// collision is rejected as a persistence failure and never silently
    /// overwrites, exactly when `id` is already present.
    pub fn put(&mut self, id: u128, user_id: u128, state_blob: Vec<u8>, expires_at: u64) -> (r:
        Result<(), RegistrationError>)
        requires
            old(self).wf(),
        ensures
            final(self).wf(),
            old(self)@.contains_key(id) ==> r == Err::<(), RegistrationError>(
                RegistrationError::PersistenceFailed,
            ) && final(self)@ == old(self)@,
            !old(self)@.contains_key(id) ==> r == Ok::<(), RegistrationError>(()) && final(self)@
                == old(self)@.insert(
                id,
                (CeremonyRecord { id, user_id, state_blob, expires_at }),
            ),
    {
        let n = self.records.len();
        let mut i: usize = 0;
        while i < n
            invariant
                i <= n,
                n == self.records@.len(),
                self.records@ == old(self).records@,
                ids_unique(self.records@),
                forall|j: int| 0 <= j < i ==> self.records@[j].id != id,
            decreases n - i,
        {
            if self.records[i].id == id {
                proof {
                    lemma_map_of_get(self.records@, i as int);
                }
                return Err(RegistrationError::PersistenceFailed);
            }
            i += 1;
        }
        proof {
            lemma_map_of_contains(self.records@, id);
        }
        let rec = CeremonyRecord { id, user_id, state_blob, expires_at };
        let ghost before = self.records@;
        self.records.push(rec);
        proof {
            lemma_map_of_push(before, CeremonyRecord { id, user_id, state_blob, expires_at });
            assert forall|a: int, b: int|
                0 <= a < b < self.records@.len() implies self.records@[a].id
                != self.records@[b].id by {
                if b < before.len() {
                    assert(self.records@[a] == before[a] && self.records@[b] == before[b]);
                } else {
                    assert(self.records@[a] == before[a]);
                }
            }
        }
        Ok(())
    }

    /// Atomically deletes and returns the protocol state and bound user of
    /// the ceremony `id`, but only while it is unexpired. Returns nothing —
    /// and changes nothing — whether the id never existed, was already
    /// taken, or has expired; the three cases are indistinguishable to the
    /// caller by design.
    pub fn take_if_valid(&mut self, id: u128, now: u64) -> (r: Option<(Vec<u8>, u128)>)
        requires
            old(self).wf(),
        ensures
            final(self).wf(),
            final(self)@ == after_take(old(self)@, id, now),
            take_succeeds(old(self)@, id, now) ==> (r matches Some(p) && p.0@ == old(
                self,
            )@[id].state_blob@ && p.1 == old(self)@[id].user_id),
            !take_succeeds(old(self)@, id, now) ==> r is None,
    {
        let n = self.records.len();
        let mut i: usize = 0;
        while i < n
            invariant
                i <= n,
                n == self.records@.len(),
                self.records@ == old(self).records@,
                ids_unique(self.records@),
                forall|j: int| 0 <= j < i ==> self.records@[j].id != id,
            decreases n - i,
        {
            if self.records[i].id == id {
                proof {
                    lemma_map_of_get(self.records@, i as int);
                }
                if self.records[i].expires_at > now {
                    proof {
                        lemma_map_of_remove(self.records@, i as int);
                        lemma_ids_unique_remove(self.records@, i as int);
                    }
                    let rec = self.records.remove(i);
                    return Some((rec.state_blob, rec.user_id));
                } else {
                    return None;
                }
            }
            i += 1;
        }
        proof {
            lemma_map_of_contains(self.records@, id);
        }
        None
    }
}

/// A ceremony is consumable at most once: after a take of `id` succeeds,
/// no later take of the same id can succeed, whatever time it runs at.
/// A second `complete` with the same ceremony id therefore observes
/// "not found".
pub proof fn law_single_use(m: Map<u128, CeremonyRecord>, id: u128, now1: u64, now2: u64)
    requires
        take_succeeds(m, id, now1),
    ensures
        !take_succeeds(after_take(m, id, now1), id, now2),
{
}

/// An expired ceremony is never returned by a take, and the failed take
/// leaves the store untouched — expiry is enforced purely by the
/// `expires_at` predicate evaluated inside the take.
pub proof fn law_expired_never_taken(m: Map<u128, CeremonyRecord>, id: u128, now: u64)
    requires
        m.contains_key(id),
        m[id].expires_at <= now,
    ensures
        !take_succeeds(m, id, now),
        after_take(m, id, now) == m,
{
}

/// Two takes racing on the same valid, unexpired ceremony id: whichever
/// runs first succeeds, and the other then fails, in either order — so
/// exactly one of the two can succeed.
pub proof fn law_race_one_winner(m: Map<u128, CeremonyRecord>, id: u128, now1: u64, now2: u64)
    requires
        take_succeeds(m, id, now1),
        take_succeeds(m, id, now2),
    ensures
        !take_succeeds(after_take(m, id, now1), id, now2),
        !take_succeeds(after_take(m, id, now2), id, now1),
{
}

/// Read-your-writes round trip through the store: a ceremony written under
/// a fresh id is returned by an unexpired take exactly as it was stored —
/// the protocol state reaches `complete` byte-for-byte as `begin` wrote it.
pub proof fn law_store_round_trip(
    m: Map<u128, CeremonyRecord>,
    rec: CeremonyRecord,
    now: u64,
)
    requires
        !m.contains_key(rec.id),
        rec.expires_at > now,
    ensures
        take_succeeds(m.insert(rec.id, rec), rec.id, now),
        m.insert(rec.id, rec)[rec.id] == rec,
        after_take(m.insert(rec.id, rec), rec.id, now) == m,
{
    assert(m.insert(rec.id, rec).remove(rec.id) =~= m);
}

} // verus!
