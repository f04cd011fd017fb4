//! Engine configuration and its validation rules.
//!
//! Loading the configuration from files or the environment is I/O and lives
//! with the callers; the defaults and the validity rules are the library's.

use vstd::prelude::*;
use vstd::string::StrSliceExecFns;

use crate::text::str_eq;

verus! {

/// Application identity.
#[derive(Debug, Clone)]
pub struct AppConfig {
    pub name: String,
    pub version: String,
}

/// Where the HTTP collaborator binds, and with how many workers.
#[derive(Debug, Clone)]
pub struct ServerConfig {
    pub host: String,
    pub port: u16,
    /// 0 = auto detect
    pub workers: usize,
}

/// Where the database file lives.
#[derive(Debug, Clone)]
pub struct DatabaseConfig {
    pub path: String,
}

/// Whether resolution caches results, and how many.
#[derive(Debug, Clone)]
pub struct CacheConfig {
    pub enabled: bool,
    pub max_size: usize,
}

/// Log verbosity and output format.
#[derive(Debug, Clone)]
pub struct LoggingConfig {
    pub level: String,
    pub format: String,
}

/// The complete engine configuration.
#[derive(Debug, Clone)]
pub struct Config {
    pub app: AppConfig,
    pub server: ServerConfig,
    pub database: DatabaseConfig,
    pub cache: CacheConfig,
    pub logging: LoggingConfig,
}

impl Default for AppConfig {
    fn default() -> (r: Self)
        ensures
            r.name@ == "phone-lookup-rs"@,
            r.version@ == "0.1.0"@,
    {
        AppConfig { name: "phone-lookup-rs".to_owned(), version: "0.1.0".to_owned() }
    }
}

impl Default for ServerConfig {
    fn default() -> (r: Self)
        ensures
            r.host@ == "0.0.0.0"@,
            r.port == 8080,
            r.workers == 0,
    {
        ServerConfig { host: "0.0.0.0".to_owned(), port: 8080, workers: 0 }
    }
}

impl Default for DatabaseConfig {
    fn default() -> (r: Self)
        ensures
            r.path@ == "phone.dat"@,
    {
        DatabaseConfig { path: "phone.dat".to_owned() }
    }
}

impl Default for CacheConfig {
    fn default() -> (r: Self)
        ensures
            r.enabled,
            r.max_size == 1000,
    {
        CacheConfig { enabled: true, max_size: 1000 }
    }
}

impl Default for LoggingConfig {
    fn default() -> (r: Self)
        ensures
            r.level@ == "info"@,
            r.format@ == "pretty"@,
    {
        LoggingConfig { level: "info".to_owned(), format: "pretty".to_owned() }
    }
}

impl Default for Config {
    fn default() -> (r: Self)
        ensures
            r.app.name@ == "phone-lookup-rs"@,
            r.server.port == 8080,
            r.database.path@ == "phone.dat"@,
            r.cache.enabled && r.cache.max_size == 1000,
            r.logging.level@ == "info"@,
            r.logging.format@ == "pretty"@,
    {
        Config {
            app: AppConfig::default(),
            server: ServerConfig::default(),
            database: DatabaseConfig::default(),
            cache: CacheConfig::default(),
            logging: LoggingConfig::default(),
        }
    }
}

/// The accepted log verbosity levels.
pub open spec fn is_valid_level(s: Seq<char>) -> bool {
    s == "error"@ || s == "warn"@ || s == "info"@ || s == "debug"@ || s == "trace"@
}

/// The accepted log output formats.
pub open spec fn is_valid_format(s: Seq<char>) -> bool {
    s == "json"@ || s == "pretty"@
}

/// The validation failure a configuration reports, if any: the first failed
/// check in order — server port, database path, cache size, log level, log
/// format.
pub open spec fn validate_error(c: &Config) -> Option<Seq<char>> {
    if c.server.port == 0 {
        Some("服务器端口不能为0"@)
    } else if c.database.path@.len() == 0 {
        Some("数据库文件路径不能为空"@)
    } else if c.cache.max_size == 0 && c.cache.enabled {
        Some("启用缓存时，缓存大小不能为0"@)
    } else if !is_valid_level(c.logging.level@) {
        Some("无效的日志级别"@)
    } else if !is_valid_format(c.logging.format@) {
        Some("无效的日志格式"@)
    } else {
        None
    }
}

impl Config {
    /// Check the configuration's own consistency rules. Whether the
    /// database file exists on disk is the loader's concern, not a rule of
    /// the configuration itself.
    pub fn validate(&self) -> (r: Result<(), String>)
        ensures
            match r {
                Ok(()) => validate_error(self) is None,
                Err(m) => validate_error(self) == Some(m@),
            },
    {
        if self.server.port == 0 {
            return Err("服务器端口不能为0".to_owned());
        }
        if self.database.path.as_str().unicode_len() == 0 {
            return Err("数据库文件路径不能为空".to_owned());
        }
        if self.cache.max_size == 0 && self.cache.enabled {
            return Err("启用缓存时，缓存大小不能为0".to_owned());
        }
        let level = self.logging.level.as_str();
        if !(str_eq(level, "error") || str_eq(level, "warn") || str_eq(level, "info") || str_eq(
            level,
            "debug",
        ) || str_eq(level, "trace")) {
            return Err("无效的日志级别".to_owned());
        }
        let format = self.logging.format.as_str();
        if !(str_eq(format, "json") || str_eq(format, "pretty")) {
            return Err("无效的日志格式".to_owned());
        }
        Ok(())
    }
}

} // verus!
