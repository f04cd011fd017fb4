//! Engine-wide laws, stated over the model that the public contracts use.

use vstd::prelude::*;

use crate::cache::cap_limit;
use crate::errors::ErrorKind;
use crate::model::{
    all_digits, index_sorted, lemma_bsearch_complete, prefix_value, query_prefix, resolve_spec,
    DbView, RecordView,
};

verus! {

/// Resolution depends only on a query's first seven characters: two queries
/// of accepted length (7 to 11 characters) with the same 7-character prefix
/// resolve to the same result — the trailing characters never matter.
pub proof fn lemma_resolve_prefix_determines(db: DbView, q1: Seq<char>, q2: Seq<char>)
    requires
        7 <= q1.len() <= 11,
        7 <= q2.len() <= 11,
        query_prefix(q1) == query_prefix(q2),
    ensures
        resolve_spec(db, q1) == resolve_spec(db, q2),
{
}

/// Resolution is a function of the database and the query alone: two calls
/// with the same query against the same database return identical results.
/// (`PhoneData::find` ensures each call returns exactly `resolve_spec`.)
pub proof fn lemma_resolve_idempotent(
    db: DbView,
    q: Seq<char>,
    r1: Result<RecordView, ErrorKind>,
    r2: Result<RecordView, ErrorKind>,
)
    requires
        r1 == resolve_spec(db, q),
        r2 == resolve_spec(db, q),
    ensures
        r1 == r2,
{
}

/// On a sorted index, a digit query of accepted length resolves to
/// `NotFound` exactly when no index entry carries its prefix: binary search
/// misses nothing and invents nothing.
pub proof fn lemma_resolve_not_found(db: DbView, q: Seq<char>)
    requires
        index_sorted(db.index),
        7 <= q.len() <= 11,
        all_digits(query_prefix(q)),
    ensures
        (resolve_spec(db, q) == Err::<RecordView, ErrorKind>(ErrorKind::NotFound)) <==> (forall|
            i: int,
        |
            0 <= i < db.index.len() ==> (#[trigger] db.index[i]).phone_no_prefix != prefix_value(
                q,
            )),
{
    lemma_bsearch_complete(db.index, prefix_value(q));
}

/// For a configured capacity of at least two, the bound that
/// `ResultCache::put` and `ResultCache::len` promise is the capacity itself:
/// after any insert completes, the cache holds at most `capacity` entries.
/// (Below two the halving sweep cannot enforce the bound, and two is kept.)
pub proof fn lemma_cache_bound_is_capacity(cap: nat)
    requires
        cap >= 2,
    ensures
        cap_limit(cap) == cap,
{
}

} // verus!
