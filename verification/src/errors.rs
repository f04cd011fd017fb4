//! Error kinds of the lookup engine.
//!
//! Every failure is returned to the immediate caller as a typed result; the
//! engine never logs-and-swallows an error and never panics on corrupt input.

use vstd::prelude::*;

verus! {

/// What can go wrong while loading the database or resolving a query.
#[derive(Debug)]
pub enum ErrorKind {
    /// The database file is malformed: bad layout, bad UTF-8, wrong field
    /// count in a record, or an index offset outside the records blob.
    InvalidPhoneDatabase,
    /// The query is not 7 to 11 characters long.
    InvalidLength,
    /// The query is well formed but no index entry matches its prefix.
    NotFound,
    /// The carrier code stored in the index entry is outside 1..=8.
    InvalidOpNo,
    /// An underlying file-system failure, reported by the loader.
    Io(String),
    /// An operation was attempted against a cache that was disabled at
    /// construction time.
    ConfigError,
}

impl ErrorKind {
    /// Human-readable description of the error.
    pub fn message(&self) -> (r: String)
        ensures
            r@ == error_message(self),
    {
        match self {
            ErrorKind::InvalidPhoneDatabase => "数据库文件格式无效".to_owned(),
            ErrorKind::InvalidLength => "手机号码长度无效，有效长度为7-11位".to_owned(),
            ErrorKind::NotFound => "在数据库中未找到此手机号码".to_owned(),
            ErrorKind::InvalidOpNo => "无效的运营商代码".to_owned(),
            ErrorKind::Io(detail) => "I/O 错误: ".to_owned().concat(detail.as_str()),
            ErrorKind::ConfigError => "缓存未启用".to_owned(),
        }
    }
}

/// The description `message` returns for each error kind.
pub open spec fn error_message(e: &ErrorKind) -> Seq<char> {
    match e {
        ErrorKind::InvalidPhoneDatabase => "数据库文件格式无效"@,
        ErrorKind::InvalidLength => "手机号码长度无效，有效长度为7-11位"@,
        ErrorKind::NotFound => "在数据库中未找到此手机号码"@,
        ErrorKind::InvalidOpNo => "无效的运营商代码"@,
        ErrorKind::Io(detail) => "I/O 错误: "@ + detail@,
        ErrorKind::ConfigError => "缓存未启用"@,
    }
}

} // verus!
