//! The bounded result cache and the invariant it keeps under its lock.
//!
//! The cache maps query strings to resolved records. Its size is bounded:
//! when an insert finds the cache at capacity, it evicts half of the entries
//! (in arbitrary key order — a size-bound sweep, not LRU) before inserting.
//! Behind the engine's reader/writer lock every cached record is, by the lock
//! predicate [`CachePred`], the exact value resolution computes for its key.

use vstd::prelude::*;
use vstd::rwlock::RwLockPredicate;

use crate::model::{resolve_spec, DbView, RecordView};
use crate::record::PhoneNoInfo;

verus! {

/// The smallest bound the cache keeps regardless of its configured capacity:
/// a capacity below two cannot be enforced by the halving sweep, which on a
/// single entry evicts nothing.
pub open spec fn cap_limit(cap: nat) -> nat {
    if cap >= 2 {
        cap
    } else {
        2
    }
}

/// The key and record character sequences of a sequence of entries.
pub open spec fn entries_view(es: Seq<(String, PhoneNoInfo)>) -> Seq<(Seq<char>, RecordView)> {
    Seq::new(es.len(), |i: int| (es[i].0@, es[i].1@))
}

/// A bounded mapping from query strings to resolved records.
///
/// Entries are owned by the cache; callers receive copies. Keys are unique,
/// and the entry count never exceeds `cap_limit` of the configured capacity.
pub struct ResultCache {
    entries: Vec<(String, PhoneNoInfo)>,
    max_size: usize,
}

impl View for ResultCache {
    type V = Seq<(Seq<char>, RecordView)>;

    closed spec fn view(&self) -> Seq<(Seq<char>, RecordView)> {
        entries_view(self.entries@)
    }
}

impl ResultCache {
    /// The capacity fixed at construction.
    pub closed spec fn cap(&self) -> nat {
        self.max_size as nat
    }

    #[verifier::type_invariant]
    spec fn wf(&self) -> bool {
        &&& forall|i: int, j: int|
            0 <= i < j < self.entries@.len() ==> (#[trigger] self.entries@[i]).0@ != (
            #[trigger] self.entries@[j]).0@
        &&& self.entries@.len() <= cap_limit(self.max_size as nat)
    }

    /// An empty cache with the given capacity.
    pub fn new(max_size: usize) -> (r: ResultCache)
        ensures
            r@ == Seq::<(Seq<char>, RecordView)>::empty(),
            r.cap() == max_size,
    {
        let r = ResultCache { entries: Vec::new(), max_size };
        proof {
            assert(r@ =~= Seq::<(Seq<char>, RecordView)>::empty());
        }
        r
    }

    /// How many entries the cache holds: never more than `cap_limit` of the
    /// configured capacity.
    pub fn len(&self) -> (r: usize)
        ensures
            r == self@.len(),
            r <= cap_limit(self.cap()),
    {
        proof {
            use_type_invariant(self);
        }
        self.entries.len()
    }

    /// Look the key up; a hit returns a reference to the stored record.
    pub fn get(&self, key: &str) -> (r: Option<&PhoneNoInfo>)
        ensures
            match r {
                Some(v) => exists|i: int|
                    0 <= i < self@.len() && #[trigger] self@[i] == (key@, v@),
                None => forall|i: int| 0 <= i < self@.len() ==> (#[trigger] self@[i]).0 != key@,
            },
    {
        let n = self.entries.len();
        let mut i: usize = 0;
        while i < n
            invariant
                0 <= i <= n == self@.len() == self.entries@.len(),
                forall|j: int| 0 <= j < i ==> (#[trigger] self@[j]).0 != key@,
            decreases n - i,
        {
            if crate::text::str_eq(self.entries[i].0.as_str(), key) {
                assert(self@[i as int] == (key@, self.entries@[i as int].1@));
                return Some(&self.entries[i].1);
            }
            i = i + 1;
        }
        None
    }

    /// Insert the pair unless the key is already present; evict half of the
    /// entries first when the cache is at capacity. Every surviving entry is
    /// one of the old entries or the new pair, and the size bound holds
    /// afterwards.
    pub fn put(&mut self, key: String, value: PhoneNoInfo)
        ensures
            final(self).cap() == old(self).cap(),
            final(self)@.len() <= cap_limit(old(self).cap()),
            exists|i: int| 0 <= i < final(self)@.len() && (#[trigger] final(self)@[i]).0 == key@,
            forall|i: int|
                0 <= i < final(self)@.len() ==> (#[trigger] final(self)@[i]) == (key@, value@)
                    || old(self)@.contains(final(self)@[i]),
            (forall|i: int| 0 <= i < old(self)@.len() ==> (#[trigger] old(self)@[i]).0 != key@)
                && old(self)@.len() < old(self).cap() ==> final(self)@ == old(self)@.push(
                (key@, value@),
            ),
    {
        proof {
            use_type_invariant(&*self);
        }
        let ghost pre = self@;
        // re-check for a concurrent duplicate insert: if the key is already
        // cached, leave the cache unchanged
        match self.get(key.as_str()) {
            Some(_) => {
                return ;
            },
            None => {},
        }
        let mut es: Vec<(String, PhoneNoInfo)> = Vec::new();
        std::mem::swap(&mut es, &mut self.entries);
        assert forall|j: int| 0 <= j < es@.len() implies (#[trigger] es@[j]).0@ != key@ by {
            assert(pre[j] == (es@[j].0@, es@[j].1@));
            assert(pre[j].0 != key@);
        }
        if es.len() >= self.max_size {
            // size-bound sweep: drop the first half of the entries
            let keep = es.split_off(es.len() / 2);
            es = keep;
        }
        let ghost kept = es@;
        let ghost shift = pre.len() - kept.len();
        assert(forall|k: int| 0 <= k < kept.len() ==> #[trigger] kept[k] == old(
            self,
        ).entries@[k + shift]);
        es.push((key, value));
        self.entries = es;
        proof {
            assert(forall|k: int|
                0 <= k < self@.len() - 1 ==> #[trigger] self@[k] == pre[k + shift]);
            assert((self@[self@.len() - 1]) == (key@, value@));
            assert(forall|k: int|
                0 <= k < self@.len() - 1 ==> pre.contains(#[trigger] self@[k]));
            if pre.len() < old(self).cap() {
                assert(self@ =~= pre.push((key@, value@)));
            }
        }
    }

    /// Remove every entry; the capacity is unchanged.
    pub fn clear(&mut self)
        ensures
            final(self)@ == Seq::<(Seq<char>, RecordView)>::empty(),
            final(self).cap() == old(self).cap(),
    {
        self.entries = Vec::new();
        proof {
            assert(self@ =~= Seq::<(Seq<char>, RecordView)>::empty());
        }
    }
}

/// The invariant the engine's lock imposes on the cache it protects: the
/// capacity is the engine's configured capacity, and every cached record is
/// exactly what resolution against the engine's database returns for its key.
pub struct CachePred {
    pub db: DbView,
    pub cap: nat,
}

impl RwLockPredicate<ResultCache> for CachePred {
    open spec fn inv(self, c: ResultCache) -> bool {
        &&& c.cap() == self.cap
        &&& forall|i: int|
            0 <= i < c@.len() ==> resolve_spec(self.db, (#[trigger] c@[i]).0) == Ok::<
                RecordView,
                crate::errors::ErrorKind,
            >(c@[i].1)
    }
}

} // verus!
