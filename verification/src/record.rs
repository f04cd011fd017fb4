//! Records blob parsing: zero-terminated, '|'-delimited text records.

use vstd::prelude::*;
use vstd::utf8::{decode_utf8, valid_utf8};

use crate::model::{field_delimiter, split_bytes, until_zero, RecordsView, RecordView};

verus! {

/// The text fields of one attribution record.
pub struct Records {
    pub province: String,
    pub city: String,
    pub zip_code: String,
    pub area_code: String,
}

impl View for Records {
    type V = RecordsView;

    open spec fn view(&self) -> RecordsView {
        RecordsView {
            province: self.province@,
            city: self.city@,
            zip_code: self.zip_code@,
            area_code: self.area_code@,
        }
    }
}

/// A resolved lookup result: region, city, postal code, area code, and the
/// carrier description. Cheap to clone and safe to share once constructed.
#[derive(Debug)]
pub struct PhoneNoInfo {
    /// 省
    pub province: String,
    /// 市
    pub city: String,
    /// 邮政编码
    pub zip_code: String,
    /// 长途区号
    pub area_code: String,
    /// 卡类型
    pub card_type: String,
}

impl View for PhoneNoInfo {
    type V = RecordView;

    open spec fn view(&self) -> RecordView {
        RecordView {
            province: self.province@,
            city: self.city@,
            zip_code: self.zip_code@,
            area_code: self.area_code@,
            card_type: self.card_type@,
        }
    }
}

impl Clone for PhoneNoInfo {
    fn clone(&self) -> (r: Self)
        ensures
            r == *self,
    {
        PhoneNoInfo {
            province: self.province.clone(),
            city: self.city.clone(),
            zip_code: self.zip_code.clone(),
            area_code: self.area_code.clone(),
            card_type: self.card_type.clone(),
        }
    }
}

/// Decode a byte buffer as UTF-8 text.
///
/// Relies on `String::from_utf8`: it succeeds exactly on valid UTF-8 input
/// and returns the string those bytes encode.
#[verifier::external_body]
pub(crate) fn bytes_to_string(v: Vec<u8>) -> (r: Option<String>)
    ensures
        r is Some <==> valid_utf8(v@),
        r matches Some(s) ==> s@ == decode_utf8(v@),
{
    match String::from_utf8(v) {
        Ok(s) => Some(s),
        Err(_) => None,
    }
}

/// Copy `v[from..to]` into a fresh vector.
pub(crate) fn copy_range(v: &Vec<u8>, from: usize, to: usize) -> (r: Vec<u8>)
    requires
        from <= to <= v@.len(),
    ensures
        r@ == v@.subrange(from as int, to as int),
{
    let mut out: Vec<u8> = Vec::new();
    let mut i = from;
    while i < to
        invariant
            from <= i <= to <= v@.len(),
            out@ == v@.subrange(from as int, i as int),
        decreases to - i,
    {
        out.push(v[i]);
        i = i + 1;
        proof {
            assert(out@ =~= v@.subrange(from as int, i as int));
        }
    }
    out
}

/// The length of the zero-free run of `v` starting at `from`: scanning stops
/// at the first zero byte or the end of the buffer.
pub(crate) fn scan_to_zero(v: &Vec<u8>, from: usize) -> (end: usize)
    requires
        from <= v@.len(),
    ensures
        from <= end <= v@.len(),
        until_zero(v@.subrange(from as int, v@.len() as int)) == v@.subrange(
            from as int,
            end as int,
        ),
{
    let mut end = from;
    while end < v.len() && v[end] != 0
        invariant
            from <= end <= v@.len(),
            forall|j: int| from <= j < end ==> v@[j] != 0,
        decreases v@.len() - end,
    {
        end = end + 1;
    }
    proof {
        let tail = v@.subrange(from as int, v@.len() as int);
        crate::model::lemma_until_zero_scan(tail, end - from);
        assert(tail.subrange(0, end - from) =~= v@.subrange(from as int, end as int));
    }
    end
}

/// Split `rec[from..]` at every occurrence of `d`, dropping the delimiters.
pub(crate) fn split_vec(rec: &Vec<u8>, from: usize, d: u8) -> (r: Vec<Vec<u8>>)
    requires
        from <= rec@.len(),
    ensures
        r.deep_view() == split_bytes(rec@.subrange(from as int, rec@.len() as int), d),
        r@.len() >= 1,
    decreases rec@.len() - from,
{
    let ghost s = rec@.subrange(from as int, rec@.len() as int);
    let mut i = from;
    while i < rec.len() && rec[i] != d
        invariant
            from <= i <= rec@.len(),
            forall|j: int| from <= j < i ==> rec@[j] != d,
        decreases rec@.len() - i,
    {
        i = i + 1;
    }
    proof {
        assert(forall|j: int| 0 <= j < i - from ==> s[j] != d);
        if i < rec@.len() {
            assert(s[i - from] == d);
        }
        crate::model::lemma_split_scan(s, d, i - from);
    }
    if i == rec.len() {
        let field = copy_range(rec, from, rec.len());
        let mut out: Vec<Vec<u8>> = Vec::new();
        out.push(field);
        proof {
            assert(field@ =~= s);
            assert(out.deep_view() =~~= split_bytes(s, d));
        }
        out
    } else {
        let field = copy_range(rec, from, i);
        let mut rest = split_vec(rec, i + 1, d);
        rest.insert(0, field);
        proof {
            assert(field@ =~= s.subrange(0, i - from));
            assert(rec@.subrange(i + 1, rec@.len() as int) =~= s.subrange(
                i - from + 1,
                s.len() as int,
            ));
            assert(rest.deep_view() =~~= split_bytes(s, d));
        }
        rest
    }
}

/// Parse the record that starts at absolute offset `off` of the database
/// file, `off - 8` into the records blob `records`: bytes up to the first
/// zero, split into exactly four UTF-8 fields.
pub(crate) fn parse_record_at(records: &Vec<u8>, off: usize) -> (r: Option<Records>)
    ensures
        match r {
            Some(rec) => crate::model::parse_record_spec(records@, off as int) == Some(rec@),
            None => crate::model::parse_record_spec(records@, off as int) is None,
        },
{
    if off < 8 || off - 8 > records.len() {
        return None;
    }
    let rel = off - 8;
    let end = scan_to_zero(records, rel);
    let rec = copy_range(records, rel, end);
    proof {
        assert(rec@ == until_zero(records@.subrange(rel as int, records@.len() as int)));
    }
    let mut fields = split_vec(&rec, 0, 124);
    proof {
        assert(rec@.subrange(0, rec@.len() as int) =~= rec@);
        assert(fields.deep_view() == split_bytes(rec@, field_delimiter()));
    }
    if fields.len() != 4 {
        return None;
    }
    let f_area = fields.pop().unwrap();
    let f_zip = fields.pop().unwrap();
    let f_city = fields.pop().unwrap();
    let f_prov = fields.pop().unwrap();
    let ghost fs = split_bytes(rec@, field_delimiter());
    proof {
        assert(f_prov@ == fs[0]);
        assert(f_city@ == fs[1]);
        assert(f_zip@ == fs[2]);
        assert(f_area@ == fs[3]);
    }
    let province = match bytes_to_string(f_prov) {
        Some(s) => s,
        None => {
            return None;
        },
    };
    let city = match bytes_to_string(f_city) {
        Some(s) => s,
        None => {
            return None;
        },
    };
    let zip_code = match bytes_to_string(f_zip) {
        Some(s) => s,
        None => {
            return None;
        },
    };
    let area_code = match bytes_to_string(f_area) {
        Some(s) => s,
        None => {
            return None;
        },
    };
    Some(Records { province, city, zip_code, area_code })
}

} // verus!
