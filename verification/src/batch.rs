//! Batch lookups: per-item results tagged with their request position.
//!
//! Callers that fan a batch out over concurrent tasks pair each query with
//! its original index before dispatch and reassemble by that index
//! afterwards; the types and rules for that bookkeeping live here.

use vstd::prelude::*;
use vstd::string::StrSliceExecFns;

use crate::errors::{error_message, ErrorKind};
use crate::record::PhoneNoInfo;

verus! {

/// The outcome of one query of a batch, tagged with the position the query
/// held in the request so results can be reassembled in request order.
#[derive(Debug)]
pub struct BatchQueryResult {
    /// The query as submitted.
    pub phone: String,
    /// Position of the query in the request, from 0.
    pub index: usize,
    /// The record, when resolution succeeded.
    pub result: Option<PhoneNoInfo>,
    /// The error description, when it failed.
    pub error: Option<String>,
}

/// Application identity plus database statistics, as reported to a shell.
#[derive(Debug)]
pub struct AppInfo {
    pub name: String,
    pub version: String,
    pub author: String,
    pub database_info: DatabaseInfo,
}

/// A snapshot of database and cache statistics.
#[derive(Debug)]
pub struct DatabaseInfo {
    pub total_records: usize,
    pub cache_size: usize,
    pub cache_hits: u64,
    pub total_queries: u64,
}

impl BatchQueryResult {
    /// Package one resolution outcome: a success carries the record and no
    /// error, a failure carries the error's description and no record.
    pub fn from_outcome(phone: String, index: usize, outcome: Result<PhoneNoInfo, ErrorKind>) -> (r:
        BatchQueryResult)
        ensures
            r.phone == phone,
            r.index == index,
            outcome matches Ok(info) ==> (r.result matches Some(v) && v == info)
                && r.error is None,
            outcome matches Err(e) ==> r.result is None && (r.error matches Some(m) && m@
                == error_message(&e)),
    {
        match outcome {
            Ok(info) => BatchQueryResult { phone, index, result: Some(info), error: None },
            Err(e) => BatchQueryResult { phone, index, result: None, error: Some(e.message()) },
        }
    }
}

/// How many of the results carry a record.
pub open spec fn success_count(s: Seq<BatchQueryResult>) -> int
    decreases s.len(),
{
    if s.len() == 0 {
        0
    } else {
        success_count(s.drop_last()) + if s.last().result is Some {
            1int
        } else {
            0int
        }
    }
}

/// Count the successes and failures of a batch: a result counts as a
/// success exactly when it carries a record.
pub fn count_batch_results(results: &Vec<BatchQueryResult>) -> (r: (usize, usize))
    ensures
        r.0 == success_count(results@),
        r.0 + r.1 == results@.len(),
{
    let n = results.len();
    let mut success: usize = 0;
    let mut i: usize = 0;
    while i < n
        invariant
            0 <= i <= n == results@.len(),
            success == success_count(results@.take(i as int)),
            success <= i,
        decreases n - i,
    {
        proof {
            assert(results@.take(i + 1).drop_last() =~= results@.take(i as int));
        }
        if results[i].result.is_some() {
            success = success + 1;
        }
        i = i + 1;
    }
    proof {
        assert(results@.take(n as int) =~= results@);
    }
    (success, n - success)
}

/// Why a batch request is rejected before any query runs, if at all: it may
/// not be empty, not exceed 100 queries, and every query must be 7 to 11
/// characters long.
pub open spec fn batch_request_error(phones: Seq<String>) -> Option<Seq<char>> {
    if phones.len() == 0 {
        Some("手机号列表不能为空"@)
    } else if phones.len() > 100 {
        Some("批量查询最多支持100个手机号"@)
    } else if exists|i: int| 0 <= i < phones.len() && !(7 <= (#[trigger] phones[i])@.len() <= 11) {
        Some("手机号格式无效"@)
    } else {
        None
    }
}

/// Validate a batch request as a whole, before dispatching any query.
pub fn validate_batch_request(phones: &Vec<String>) -> (r: Result<(), String>)
    ensures
        match r {
            Ok(()) => batch_request_error(phones@) is None,
            Err(m) => batch_request_error(phones@) == Some(m@),
        },
{
    if phones.len() == 0 {
        return Err("手机号列表不能为空".to_owned());
    }
    if phones.len() > 100 {
        return Err("批量查询最多支持100个手机号".to_owned());
    }
    let n = phones.len();
    let mut i: usize = 0;
    while i < n
        invariant
            0 <= i <= n == phones@.len(),
            forall|j: int| 0 <= j < i ==> 7 <= (#[trigger] phones@[j])@.len() <= 11,
        decreases n - i,
    {
        let len = phones[i].as_str().unicode_len();
        if len < 7 || len > 11 {
            return Err("手机号格式无效".to_owned());
        }
        i = i + 1;
    }
    Ok(())
}

} // verus!
