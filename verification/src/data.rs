//! The lookup engine: decoding the database image, resolving queries by
//! binary search, and the shared statistics and cache plumbing.

use std::sync::atomic::{AtomicU64, Ordering};
use std::sync::Arc;

use vstd::prelude::*;
use vstd::rwlock::RwLock;
use vstd::slice::{slice_index_get, slice_subrange, slice_to_vec};
use vstd::string::StrSliceExecFns;

use crate::cache::{cap_limit, CachePred, ResultCache};
use crate::card::CardType;
use crate::errors::ErrorKind;
use crate::index::{locate, Index};
use crate::model::{
    all_digits, byte_at, digits_value, entry_at, image_of, le_i32_val, le_u32_val,
    lemma_pow10_mono, parse_record_spec, pow10, prefix_value, query_prefix, resolve_spec, DbView,
    PhoneDataView, RecordView,
};
use crate::record::{bytes_to_string, parse_record_at, PhoneNoInfo, Records};

verus! {

/// The phone-number database engine.
///
/// Created once by [`PhoneData::decode`]; the records blob and the index are
/// immutable and shared (reference-counted) thereafter, so clones observe the
/// identical bytes. The cache is the only mutable state, guarded by a
/// reader/writer lock; the statistics counters are independent atomics.
pub struct PhoneData {
    /// Database version tag, informational only.
    version: String,
    /// The raw records blob, shared read-only.
    records: Arc<Vec<u8>>,
    /// The sorted prefix index, shared read-only.
    index: Arc<Vec<Index>>,
    /// The result cache, shared and lock-protected.
    cache: Arc<RwLock<ResultCache, CachePred>>,
    /// Whether resolution consults and fills the cache.
    cache_enabled: bool,
    /// The configured cache capacity.
    cache_max_size: usize,
    /// How many queries were attempted, successful or not.
    query_count: AtomicU64,
    /// How many queries were answered from the cache.
    cache_hits: AtomicU64,
}

impl View for PhoneData {
    type V = PhoneDataView;

    closed spec fn view(&self) -> PhoneDataView {
        PhoneDataView {
            version: self.version@,
            db: DbView { records: self.records@, index: self.index@ },
            cache_enabled: self.cache_enabled,
            cache_max_size: self.cache_max_size as nat,
        }
    }
}

/// Share a reference-counted handle.
///
/// Relies on `Arc::clone`: the returned handle points to the same value.
#[verifier::external_body]
fn share_arc<T>(a: &Arc<T>) -> (r: Arc<T>)
    ensures
        r == *a,
{
    a.clone()
}

impl PhoneData {
    #[verifier::type_invariant]
    spec fn wf(&self) -> bool {
        (*self.cache).pred() == (CachePred {
            db: DbView { records: self.records@, index: self.index@ },
            cap: self.cache_max_size as nat,
        })
    }

    /// The little-endian signed 32-bit value of the first four bytes,
    /// padding missing trailing bytes with zero.
    pub fn four_u8_to_i32(s: &[u8]) -> (r: i32)
        ensures
            r as int == le_i32_val(s@),
    {
        let b0 = if s.len() > 0 { *slice_index_get(s, 0) } else { 0 };
        let b1 = if s.len() > 1 { *slice_index_get(s, 1) } else { 0 };
        let b2 = if s.len() > 2 { *slice_index_get(s, 2) } else { 0 };
        let b3 = if s.len() > 3 { *slice_index_get(s, 3) } else { 0 };
        let u: u32 = b0 as u32 + 0x100u32 * (b1 as u32) + 0x1_0000u32 * (b2 as u32)
            + 0x100_0000u32 * (b3 as u32);
        assert(u as int == le_u32_val(s@));
        if u < 0x8000_0000u32 {
            u as i32
        } else {
            ((u as i64) - 0x1_0000_0000i64) as i32
        }
    }

    /// Decode a database image and construct an engine over it.
    ///
    /// The engine starts only on a fully decoded image: any failure to read
    /// the declared layout is a fatal `InvalidPhoneDatabase` error.
    pub fn decode(bytes: &[u8], cache_enabled: bool, cache_max_size: usize) -> (r: Result<
        PhoneData,
        ErrorKind,
    >)
        ensures
            match r {
                Ok(pd) => image_of(bytes@) matches Some(img) && pd@.version == img.version
                    && pd@.db.records == img.records && pd@.db.index == img.index
                    && pd@.cache_enabled == cache_enabled && pd@.cache_max_size
                    == cache_max_size,
                Err(e) => image_of(bytes@) is None && e is InvalidPhoneDatabase,
            },
    {
        if bytes.len() < 8 {
            return Err(ErrorKind::InvalidPhoneDatabase);
        }
        let version = match bytes_to_string(slice_to_vec(slice_subrange(bytes, 0, 4))) {
            Some(s) => s,
            None => {
                return Err(ErrorKind::InvalidPhoneDatabase);
            },
        };
        let off_raw = Self::four_u8_to_i32(slice_subrange(bytes, 4, 8));
        if off_raw < 8 {
            return Err(ErrorKind::InvalidPhoneDatabase);
        }
        let off = off_raw as usize;
        if off > bytes.len() {
            return Err(ErrorKind::InvalidPhoneDatabase);
        }
        let records = slice_to_vec(slice_subrange(bytes, 8, off));
        let n = (bytes.len() - off) / 9;
        let ghost expected = Seq::new(n as nat, |i: int| entry_at(bytes@, off + 9 * i));
        let mut index: Vec<Index> = Vec::new();
        let mut i: usize = 0;
        while i < n
            invariant
                0 <= i <= n,
                off + 9 * n <= bytes@.len(),
                index@ == expected.take(i as int),
            decreases n - i,
        {
            let p = off + 9 * i;
            let prefix = Self::four_u8_to_i32(slice_subrange(bytes, p, p + 4));
            let offset_field = Self::four_u8_to_i32(slice_subrange(bytes, p + 4, p + 8));
            let card = *slice_index_get(bytes, p + 8);
            index.push(Index { phone_no_prefix: prefix, records_offset: offset_field, card_type: card });
            proof {
                assert(prefix as int == le_i32_val(bytes@.subrange(p as int, p + 4)));
                assert(card == byte_at(bytes@, p + 8));
                assert(index@ =~= expected.take(i + 1));
            }
            i = i + 1;
        }
        proof {
            assert(index@ =~= expected);
        }
        let records = Arc::new(records);
        let index = Arc::new(index);
        let ghost db = DbView { records: records@, index: index@ };
        let cache = Arc::new(
            RwLock::new(
                ResultCache::new(cache_max_size),
                Ghost(CachePred { db, cap: cache_max_size as nat }),
            ),
        );
        let pd = PhoneData {
            version,
            records,
            index,
            cache,
            cache_enabled,
            cache_max_size,
            query_count: AtomicU64::new(0),
            cache_hits: AtomicU64::new(0),
        };
        proof {
            let img = image_of(bytes@).unwrap();
            assert(pd@.db.records =~= img.records);
            assert(pd@.db.index =~= img.index);
        }
        Ok(pd)
    }

    /// Database version tag.
    pub fn version(&self) -> (r: &str)
        ensures
            r@ == self@.version,
    {
        self.version.as_str()
    }

    /// How many index entries the database holds.
    pub fn index_count(&self) -> (r: usize)
        ensures
            r == self@.db.index.len(),
    {
        self.index.len()
    }

    /// Total queries attempted so far. Advisory: the counter is a relaxed
    /// atomic updated outside any lock.
    pub fn query_count(&self) -> u64 {
        self.query_count.load(Ordering::Relaxed)
    }

    /// Queries answered from the cache so far. Advisory, like
    /// [`Self::query_count`].
    pub fn cache_hits(&self) -> u64 {
        self.cache_hits.load(Ordering::Relaxed)
    }

    /// How many records can be resolved: the index entry count.
    pub fn get_total_records(&self) -> (r: usize)
        ensures
            r == self@.db.index.len(),
    {
        self.index.len()
    }

    /// The integer value of the query's first seven characters; they must
    /// all be decimal digits.
    pub fn parse_phone_prefix(&self, no: &str) -> (r: Result<i32, ErrorKind>)
        ensures
            no@.len() < 7 ==> (r matches Err(e) && e is InvalidLength),
            no@.len() >= 7 && all_digits(query_prefix(no@)) ==> (r matches Ok(v) && v as int
                == prefix_value(no@)),
            no@.len() >= 7 && !all_digits(query_prefix(no@)) ==> (r matches Err(e)
                && e is InvalidPhoneDatabase),
    {
        let len = no.unicode_len();
        if len < 7 {
            return Err(ErrorKind::InvalidLength);
        }
        let ghost pref = query_prefix(no@);
        let mut value: u32 = 0;
        let mut i: usize = 0;
        while i < 7
            invariant
                0 <= i <= 7,
                no@.len() >= 7,
                all_digits(pref.take(i as int)),
                value as int == digits_value(pref.take(i as int)),
                (value as int) < pow10(i as nat),
            decreases 7 - i,
        {
            let c = no.get_char(i);
            let u = c as u32;
            if u < 48 || u > 57 {
                proof {
                    assert(pref[i as int] == no@[i as int]);
                    assert(!crate::model::is_digit(pref[i as int]));
                }
                return Err(ErrorKind::InvalidPhoneDatabase);
            }
            proof {
                lemma_pow10_mono(i as nat, 6);
                assert(pow10(6) == 1000000) by {
                    reveal_with_fuel(pow10, 7);
                }
                assert(pref.take(i + 1).drop_last() =~= pref.take(i as int));
                assert(pref.take(i + 1).last() == pref[i as int]);
                assert(pref[i as int] == no@[i as int]);
            }
            value = value * 10 + (u - 48);
            i = i + 1;
        }
        proof {
            assert(pref.take(7) =~= pref);
            assert(pow10(7) == 10000000) by {
                reveal_with_fuel(pow10, 8);
            }
        }
        Ok(value as i32)
    }

    /// Extract the record at absolute offset `offset` from the shared
    /// records blob. Safe to call concurrently: the blob is immutable.
    pub fn parse_to_record(&self, offset: usize) -> (r: Result<Records, ErrorKind>)
        ensures
            match r {
                Ok(rec) => parse_record_spec(self@.db.records, offset as int) == Some(rec@),
                Err(e) => parse_record_spec(self@.db.records, offset as int) is None
                    && e is InvalidPhoneDatabase,
            },
    {
        match parse_record_at(&self.records, offset) {
            Some(rec) => Ok(rec),
            None => Err(ErrorKind::InvalidPhoneDatabase),
        }
    }

    /// Resolve a phone number to its attribution record.
    ///
    /// The result is exactly what `resolve_spec` computes for the query
    /// against this engine's immutable database — on the cached path as much
    /// as on the computed path, and so identically across repeated calls.
    /// Queries shorter than 7 or longer than 11 characters fail with
    /// `InvalidLength` before anything else is consulted.
    pub fn find(&self, no: &str) -> (r: Result<PhoneNoInfo, ErrorKind>)
        ensures
            match r {
                Ok(info) => resolve_spec(self@.db, no@) == Ok::<RecordView, ErrorKind>(info@),
                Err(e) => resolve_spec(self@.db, no@) == Err::<RecordView, ErrorKind>(e),
            },
            !(7 <= no@.len() <= 11) ==> (r matches Err(e) && e is InvalidLength),
    {
        proof {
            use_type_invariant(&*self);
        }
        self.query_count.fetch_add(1, Ordering::Relaxed);

        let len = no.unicode_len();
        if len < 7 || len > 11 {
            return Err(ErrorKind::InvalidLength);
        }

        // read path: concurrent cache hits never block each other
        if self.cache_enabled {
            let read_handle = (&*self.cache).acquire_read();
            let cached = read_handle.borrow().get(no);
            match cached {
                Some(info) => {
                    let out = info.clone();
                    self.cache_hits.fetch_add(1, Ordering::Relaxed);
                    read_handle.release_read();
                    return Ok(out);
                },
                None => {
                    read_handle.release_read();
                },
            }
        }

        let no_parsed = match self.parse_phone_prefix(no) {
            Ok(v) => v,
            Err(e) => {
                return Err(e);
            },
        };

        let pos = match locate(&self.index, no_parsed) {
            Some(p) => p,
            None => {
                return Err(ErrorKind::NotFound);
            },
        };

        let entry = self.index[pos];
        if entry.records_offset < 8 {
            return Err(ErrorKind::InvalidPhoneDatabase);
        }
        let record = match self.parse_to_record(entry.records_offset as usize) {
            Ok(rec) => rec,
            Err(e) => {
                return Err(e);
            },
        };
        let card_type = match CardType::from_u8(entry.card_type) {
            Ok(ct) => ct,
            Err(e) => {
                return Err(e);
            },
        };
        let result = PhoneNoInfo {
            province: record.province,
            city: record.city,
            zip_code: record.zip_code,
            area_code: record.area_code,
            card_type: card_type.get_description().to_owned(),
        };
        assert(resolve_spec(self@.db, no@) == Ok::<RecordView, ErrorKind>(result@));

        // write path: re-check for a concurrent duplicate insert, evict when
        // at capacity, and publish the result for later queries
        if self.cache_enabled {
            let (mut cache, write_handle) = (&*self.cache).acquire_write();
            cache.put(no.to_owned(), result.clone());
            write_handle.release_write(cache);
        }

        Ok(result)
    }

    /// Size, capacity, and the two advisory counters, in one snapshot.
    pub fn get_cache_stats(&self) -> (r: CacheStats)
        ensures
            r.max_size == self@.cache_max_size,
            r.size <= cap_limit(self@.cache_max_size),
    {
        proof {
            use_type_invariant(&*self);
        }
        let read_handle = (&*self.cache).acquire_read();
        let size = read_handle.borrow().len();
        read_handle.release_read();
        CacheStats {
            size,
            max_size: self.cache_max_size,
            hits: self.cache_hits(),
            total_queries: self.query_count(),
        }
    }

    /// Remove every cached entry. Fails with a configuration error when the
    /// cache was disabled at construction; the counters are not reset.
    pub fn clear_cache(&self) -> (r: Result<(), ErrorKind>)
        ensures
            self@.cache_enabled <==> r is Ok,
            !self@.cache_enabled ==> (r matches Err(e) && e is ConfigError),
    {
        proof {
            use_type_invariant(&*self);
        }
        if !self.cache_enabled {
            return Err(ErrorKind::ConfigError);
        }
        let (mut cache, write_handle) = (&*self.cache).acquire_write();
        cache.clear();
        write_handle.release_write(cache);
        Ok(())
    }

    /// Accepted for interface compatibility, but implemented only as a full
    /// clear: the capacity fixed at construction does not change.
    pub fn set_cache_size(&self, _new_size: usize) -> (r: Result<(), ErrorKind>)
        ensures
            self@.cache_enabled <==> r is Ok,
            !self@.cache_enabled ==> (r matches Err(e) && e is ConfigError),
    {
        proof {
            use_type_invariant(&*self);
        }
        if !self.cache_enabled {
            return Err(ErrorKind::ConfigError);
        }
        let (mut cache, write_handle) = (&*self.cache).acquire_write();
        cache.clear();
        write_handle.release_write(cache);
        Ok(())
    }
}

impl Clone for PhoneData {
    /// A clone shares the records blob, the index, and the cache with the
    /// original; the counters start from the values last observed.
    fn clone(&self) -> (r: Self)
        ensures
            r@ == self@,
    {
        proof {
            use_type_invariant(&*self);
        }
        PhoneData {
            version: self.version.clone(),
            records: share_arc(&self.records),
            index: share_arc(&self.index),
            cache: share_arc(&self.cache),
            cache_enabled: self.cache_enabled,
            cache_max_size: self.cache_max_size,
            query_count: AtomicU64::new(self.query_count.load(Ordering::Relaxed)),
            cache_hits: AtomicU64::new(self.cache_hits.load(Ordering::Relaxed)),
        }
    }
}

/// A point-in-time snapshot of cache usage.
#[derive(Debug, Clone)]
pub struct CacheStats {
    /// Entries currently cached.
    pub size: usize,
    /// The configured capacity.
    pub max_size: usize,
    /// Queries answered from the cache.
    pub hits: u64,
    /// Queries attempted in total.
    pub total_queries: u64,
}

} // verus!
