//! The prefix index: fixed 9-byte entries and binary search over them.

use vstd::prelude::*;

verus! {

/// One index entry: a 7-digit phone prefix, the absolute byte offset of its
/// record (header included), and the carrier code.
#[derive(Debug, Clone, Copy, PartialEq, Eq, PartialOrd, Ord, Structural)]
pub struct Index {
    /// The leading seven digits of a phone number, as an integer.
    pub phone_no_prefix: i32,
    /// Absolute offset of the record in the database file.
    pub records_offset: i32,
    /// Carrier code, 1..=8 in a well-formed database.
    pub card_type: u8,
}

/// Binary search `index` for an entry whose prefix equals `key`; the
/// deterministic equal-key resolution of `crate::model::bsearch`.
pub fn locate(index: &Vec<Index>, key: i32) -> (r: Option<usize>)
    ensures
        match r {
            Some(p) => p < index@.len() && crate::model::bsearch(
                index@,
                key as int,
                0,
                index@.len() as int,
            ) == Some(p as int),
            None => crate::model::bsearch(index@, key as int, 0, index@.len() as int) is None,
        },
{
    let mut lo: usize = 0;
    let mut hi: usize = index.len();
    while lo < hi
        invariant
            0 <= lo <= hi <= index@.len(),
            crate::model::bsearch(index@, key as int, lo as int, hi as int)
                == crate::model::bsearch(index@, key as int, 0, index@.len() as int),
        decreases hi - lo,
    {
        let mid = lo + (hi - lo) / 2;
        if index[mid].phone_no_prefix < key {
            lo = mid + 1;
        } else if key < index[mid].phone_no_prefix {
            hi = mid;
        } else {
            return Some(mid);
        }
    }
    None
}

} // verus!
