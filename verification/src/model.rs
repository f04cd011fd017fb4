//! The mathematical model of the engine.
//!
//! Everything the executable code promises is stated over these spec
//! functions: little-endian byte values, digit parsing, the zero-terminated
//! record grammar, binary search over the index, and the end-to-end
//! resolution function `resolve_spec`.

use vstd::prelude::*;
use vstd::utf8::{decode_utf8, valid_utf8};

use crate::card::carrier_text;
use crate::errors::ErrorKind;
use crate::index::Index;

verus! {

/// The immutable decoded database: the records blob and the prefix index.
pub struct DbView {
    pub records: Seq<u8>,
    pub index: Seq<Index>,
}

/// The engine as contracts see it: the decoded database plus the cache
/// configuration fixed at construction.
pub struct PhoneDataView {
    pub version: Seq<char>,
    pub db: DbView,
    pub cache_enabled: bool,
    pub cache_max_size: nat,
}

/// The text fields extracted from one delimited record.
pub struct RecordsView {
    pub province: Seq<char>,
    pub city: Seq<char>,
    pub zip_code: Seq<char>,
    pub area_code: Seq<char>,
}

/// A fully resolved lookup result: the four record fields plus the carrier
/// description.
pub struct RecordView {
    pub province: Seq<char>,
    pub city: Seq<char>,
    pub zip_code: Seq<char>,
    pub area_code: Seq<char>,
    pub card_type: Seq<char>,
}

// ---------------------------------------------------------------------------
// Little-endian byte values
// ---------------------------------------------------------------------------
/// The byte at position `i`, reading positions past the end as zero (short
/// trailing input is padded with zeros).
pub open spec fn byte_at(s: Seq<u8>, i: int) -> u8 {
    if 0 <= i < s.len() {
        s[i]
    } else {
        0
    }
}

/// The unsigned value of the first four bytes read little-endian.
pub open spec fn le_u32_val(s: Seq<u8>) -> int {
    byte_at(s, 0) + 0x100 * byte_at(s, 1) + 0x10000 * byte_at(s, 2) + 0x1000000 * byte_at(s, 3)
}

/// The signed (two's complement) value of the first four bytes read
/// little-endian.
pub open spec fn le_i32_val(s: Seq<u8>) -> int {
    if le_u32_val(s) < 0x8000_0000 {
        le_u32_val(s)
    } else {
        le_u32_val(s) - 0x1_0000_0000
    }
}

// ---------------------------------------------------------------------------
// Digits and prefixes
// ---------------------------------------------------------------------------
/// Whether `c` is an ASCII decimal digit.
pub open spec fn is_digit(c: char) -> bool {
    '0' as int <= c as int <= '9' as int
}

/// Whether every character of `s` is an ASCII decimal digit.
pub open spec fn all_digits(s: Seq<char>) -> bool {
    forall|i: int| 0 <= i < s.len() ==> is_digit(#[trigger] s[i])
}

/// The base-10 value of a digit string.
pub open spec fn digits_value(s: Seq<char>) -> int
    decreases s.len(),
{
    if s.len() == 0 {
        0
    } else {
        digits_value(s.drop_last()) * 10 + (s.last() as int - '0' as int)
    }
}

/// The first seven characters of a query: its lookup prefix.
pub open spec fn query_prefix(q: Seq<char>) -> Seq<char>
    recommends
        q.len() >= 7,
{
    q.subrange(0, 7)
}

/// The integer value of a query's 7-digit prefix.
pub open spec fn prefix_value(q: Seq<char>) -> int
    recommends
        q.len() >= 7,
{
    digits_value(query_prefix(q))
}

/// Ten to the `n`.
pub open spec fn pow10(n: nat) -> int
    decreases n,
{
    if n == 0 {
        1
    } else {
        10 * pow10((n - 1) as nat)
    }
}

/// Powers of ten are positive.
pub proof fn lemma_pow10_pos(n: nat)
    ensures
        pow10(n) >= 1,
    decreases n,
{
    if n > 0 {
        lemma_pow10_pos((n - 1) as nat);
    }
}

/// Powers of ten grow with the exponent.
pub proof fn lemma_pow10_mono(a: nat, b: nat)
    requires
        a <= b,
    ensures
        pow10(a) <= pow10(b),
    decreases b,
{
    lemma_pow10_pos(a);
    if a < b {
        lemma_pow10_mono(a, (b - 1) as nat);
    }
}

// ---------------------------------------------------------------------------
// The record grammar: zero-terminated, '|'-delimited
// ---------------------------------------------------------------------------
/// The bytes of `s` up to, and excluding, the first zero byte; all of `s`
/// when no zero byte occurs.
pub open spec fn until_zero(s: Seq<u8>) -> Seq<u8>
    decreases s.len(),
{
    if s.len() == 0 {
        s
    } else if s[0] == 0 {
        Seq::empty()
    } else {
        seq![s[0]] + until_zero(s.drop_first())
    }
}

/// `s` split at every occurrence of `d`. The result always has at least one
/// element; the delimiters themselves are dropped.
pub open spec fn split_bytes(s: Seq<u8>, d: u8) -> Seq<Seq<u8>>
    decreases s.len(),
{
    if s.len() == 0 {
        seq![s]
    } else if s[0] == d {
        seq![Seq::<u8>::empty()] + split_bytes(s.drop_first(), d)
    } else {
        let rest = split_bytes(s.drop_first(), d);
        seq![seq![s[0]] + rest[0]] + rest.drop_first()
    }
}

/// `until_zero` returns the longest zero-free prefix: scanning forward to the
/// first zero byte (or the end) yields exactly it.
pub proof fn lemma_until_zero_scan(s: Seq<u8>, k: int)
    requires
        0 <= k <= s.len(),
        forall|j: int| 0 <= j < k ==> s[j] != 0,
        k < s.len() ==> s[k] == 0,
    ensures
        until_zero(s) == s.subrange(0, k),
    decreases k,
{
    if k == 0 {
        assert(until_zero(s) =~= s.subrange(0, 0));
    } else {
        assert(s[0] != 0);
        lemma_until_zero_scan(s.drop_first(), k - 1);
        assert(s.drop_first().subrange(0, k - 1) =~= s.subrange(1, k));
        assert(until_zero(s) =~= s.subrange(0, k));
    }
}

/// One splitting step: if the first `k` bytes are free of the delimiter and
/// byte `k` (when present) is the delimiter, the first field is exactly those
/// `k` bytes and the remaining fields are the split of what follows.
pub proof fn lemma_split_scan(s: Seq<u8>, d: u8, k: int)
    requires
        0 <= k <= s.len(),
        forall|j: int| 0 <= j < k ==> s[j] != d,
        k < s.len() ==> s[k] == d,
    ensures
        k == s.len() ==> split_bytes(s, d) =~~= seq![s],
        k < s.len() ==> split_bytes(s, d) =~~= seq![s.subrange(0, k)] + split_bytes(
            s.subrange(k + 1, s.len() as int),
            d,
        ),
    decreases k,
{
    if k == 0 {
        if k < s.len() {
            assert(s[0] == d);
            assert(s.drop_first() =~= s.subrange(1, s.len() as int));
            assert(split_bytes(s, d) =~~= seq![s.subrange(0, 0)] + split_bytes(
                s.subrange(1, s.len() as int),
                d,
            ));
        } else {
            assert(s.len() == 0);
        }
    } else {
        assert(s[0] != d);
        let t = s.drop_first();
        lemma_split_scan(t, d, k - 1);
        let rest = split_bytes(t, d);
        if k == s.len() {
            // rest == seq![t], so the whole of s is one field
            assert(rest =~~= seq![t]);
            assert(seq![s[0]] + rest[0] =~= s);
            assert(split_bytes(s, d) =~~= seq![s]);
        } else {
            assert(t.subrange(0, k - 1) =~= s.subrange(1, k));
            assert(rest =~~= seq![t.subrange(0, k - 1)] + split_bytes(
                t.subrange(k - 1 + 1, t.len() as int),
                d,
            ));
            assert(seq![s[0]] + rest[0] =~= s.subrange(0, k));
            assert(t.subrange(k, t.len() as int) =~= s.subrange(k + 1, s.len() as int));
            assert(rest.drop_first() =~~= split_bytes(s.subrange(k + 1, s.len() as int), d));
            assert(split_bytes(s, d) =~~= seq![s.subrange(0, k)] + split_bytes(
                s.subrange(k + 1, s.len() as int),
                d,
            ));
        }
    }
}

// ---------------------------------------------------------------------------
// Record parsing
// ---------------------------------------------------------------------------
/// The delimiter between the four fields of a record.
pub open spec fn field_delimiter() -> u8 {
    124
}

/// The four byte fields of the record at absolute offset `off` (the stored
/// offset includes the 8-byte file header), or `None` when the offset lies
/// outside the blob or the record does not hold exactly four fields.
pub open spec fn record_fields(records: Seq<u8>, off: int) -> Option<Seq<Seq<u8>>> {
    if off < 8 || off - 8 > records.len() {
        None
    } else {
        let rec = until_zero(records.subrange(off - 8, records.len() as int));
        let fields = split_bytes(rec, field_delimiter());
        if fields.len() == 4 {
            Some(fields)
        } else {
            None
        }
    }
}

/// The decoded text fields of the record at absolute offset `off`, or `None`
/// when the record is missing, malformed, or not valid UTF-8.
pub open spec fn parse_record_spec(records: Seq<u8>, off: int) -> Option<RecordsView> {
    match record_fields(records, off) {
        None => None,
        Some(fields) => if forall|j: int| 0 <= j < 4 ==> valid_utf8(#[trigger] fields[j]) {
            Some(
                RecordsView {
                    province: decode_utf8(fields[0]),
                    city: decode_utf8(fields[1]),
                    zip_code: decode_utf8(fields[2]),
                    area_code: decode_utf8(fields[3]),
                },
            )
        } else {
            None
        },
    }
}

// ---------------------------------------------------------------------------
// Binary search
// ---------------------------------------------------------------------------
/// Binary search for `key` in `s[lo..hi]` by the entries' prefix field; the
/// deterministic search the engine performs, whatever order `s` is in.
pub open spec fn bsearch(s: Seq<Index>, key: int, lo: int, hi: int) -> Option<int>
    recommends
        0 <= lo <= hi <= s.len(),
    decreases hi - lo,
{
    if lo >= hi {
        None
    } else {
        let mid = lo + (hi - lo) / 2;
        if s[mid].phone_no_prefix < key {
            bsearch(s, key, mid + 1, hi)
        } else if key < s[mid].phone_no_prefix {
            bsearch(s, key, lo, mid)
        } else {
            Some(mid)
        }
    }
}

/// Whether the index is sorted strictly ascending (and hence unique) by
/// prefix, as the file format guarantees for well-formed databases.
pub open spec fn index_sorted(s: Seq<Index>) -> bool {
    forall|i: int, j: int|
        0 <= i < j < s.len() ==> (#[trigger] s[i]).phone_no_prefix < (#[trigger] s[j]).phone_no_prefix
}

/// What binary search returns: an entry with the exact key when one exists in
/// the searched range; on a sorted index nothing is missed.
pub proof fn lemma_bsearch_range(s: Seq<Index>, key: int, lo: int, hi: int)
    requires
        0 <= lo <= hi <= s.len(),
    ensures
        match bsearch(s, key, lo, hi) {
            Some(i) => lo <= i < hi && s[i].phone_no_prefix == key,
            None => index_sorted(s) ==> forall|i: int|
                lo <= i < hi ==> (#[trigger] s[i]).phone_no_prefix != key,
        },
    decreases hi - lo,
{
    if lo < hi {
        let mid = lo + (hi - lo) / 2;
        if s[mid].phone_no_prefix < key {
            lemma_bsearch_range(s, key, mid + 1, hi);
            if bsearch(s, key, lo, hi) is None && index_sorted(s) {
                assert forall|i: int| lo <= i < hi implies (#[trigger] s[i]).phone_no_prefix
                    != key by {
                    if i <= mid {
                        if i < mid {
                            assert(s[i].phone_no_prefix < s[mid].phone_no_prefix);
                        }
                    }
                }
            }
        } else if key < s[mid].phone_no_prefix {
            lemma_bsearch_range(s, key, lo, mid);
            if bsearch(s, key, lo, hi) is None && index_sorted(s) {
                assert forall|i: int| lo <= i < hi implies (#[trigger] s[i]).phone_no_prefix
                    != key by {
                    if i >= mid {
                        if i > mid {
                            assert(s[mid].phone_no_prefix < s[i].phone_no_prefix);
                        }
                    }
                }
            }
        }
    }
}

/// On a sorted index, the search over the whole index finds an entry if and
/// only if one with that key is present.
pub proof fn lemma_bsearch_complete(s: Seq<Index>, key: int)
    requires
        index_sorted(s),
    ensures
        match bsearch(s, key, 0, s.len() as int) {
            Some(i) => 0 <= i < s.len() && s[i].phone_no_prefix == key,
            None => forall|i: int|
                0 <= i < s.len() ==> (#[trigger] s[i]).phone_no_prefix != key,
        },
{
    lemma_bsearch_range(s, key, 0, s.len() as int);
}

// ---------------------------------------------------------------------------
// The database image
// ---------------------------------------------------------------------------
/// The decoded database file: version tag, records blob, and index.
pub struct ImageView {
    pub version: Seq<char>,
    pub records: Seq<u8>,
    pub index: Seq<Index>,
}

/// The index entry stored in the 9 bytes at position `p`: two little-endian
/// signed 32-bit integers followed by the carrier code byte.
pub open spec fn entry_at(bytes: Seq<u8>, p: int) -> Index
    recommends
        0 <= p,
        p + 9 <= bytes.len(),
{
    Index {
        phone_no_prefix: le_i32_val(bytes.subrange(p, p + 4)) as i32,
        records_offset: le_i32_val(bytes.subrange(p + 4, p + 8)) as i32,
        card_type: byte_at(bytes, p + 8),
    }
}

/// What a byte stream decodes to: 4 bytes of UTF-8 version tag, 4 bytes of
/// little-endian index offset, the records blob up to that offset, and
/// 9-byte index entries to the end (a short trailing chunk is ignored).
/// `None` is a fatal decode failure: the engine must not start on it.
pub open spec fn image_of(bytes: Seq<u8>) -> Option<ImageView> {
    if bytes.len() < 8 {
        None
    } else {
        let ver = bytes.subrange(0, 4);
        let off = le_i32_val(bytes.subrange(4, 8));
        if !valid_utf8(ver) {
            None
        } else if off < 8 || off > bytes.len() {
            None
        } else {
            Some(
                ImageView {
                    version: decode_utf8(ver),
                    records: bytes.subrange(8, off),
                    index: Seq::new(
                        ((bytes.len() - off) / 9) as nat,
                        |i: int| entry_at(bytes, off + 9 * i),
                    ),
                },
            )
        }
    }
}

// ---------------------------------------------------------------------------
// End-to-end resolution
// ---------------------------------------------------------------------------
/// The value `resolve` computes for query `q` against database `db`: the
/// length check, the 7-digit prefix, the index search, the record parse and
/// the carrier decoding, in that order, with the error each step yields.
pub open spec fn resolve_spec(db: DbView, q: Seq<char>) -> Result<RecordView, ErrorKind> {
    if !(7 <= q.len() <= 11) {
        Err(ErrorKind::InvalidLength)
    } else if !all_digits(query_prefix(q)) {
        Err(ErrorKind::InvalidPhoneDatabase)
    } else {
        match bsearch(db.index, prefix_value(q), 0, db.index.len() as int) {
            None => Err(ErrorKind::NotFound),
            Some(i) => {
                let entry = db.index[i];
                match parse_record_spec(db.records, entry.records_offset as int) {
                    None => Err(ErrorKind::InvalidPhoneDatabase),
                    Some(rec) => if !(1 <= entry.card_type <= 8) {
                        Err(ErrorKind::InvalidOpNo)
                    } else {
                        Ok(
                            RecordView {
                                province: rec.province,
                                city: rec.city,
                                zip_code: rec.zip_code,
                                area_code: rec.area_code,
                                card_type: carrier_text(entry.card_type),
                            },
                        )
                    },
                }
            },
        }
    }
}

} // verus!
