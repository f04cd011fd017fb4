//! Phone-number attribution lookup engine.
//!
//! A flat binary database is decoded once into an immutable records blob and a
//! sorted prefix index; repeated queries are answered by binary search plus a
//! bounded, lock-protected result cache shared across concurrent callers.

#![verifier::loop_isolation(false)]

pub mod batch;
pub mod cache;
pub mod card;
pub mod config;
pub mod data;
pub mod errors;
pub mod index;
pub mod laws;
pub mod model;
pub mod record;
pub mod text;

pub use batch::{AppInfo, BatchQueryResult, DatabaseInfo};
pub use cache::ResultCache;
pub use config::{AppConfig, CacheConfig, Config, DatabaseConfig, LoggingConfig, ServerConfig};
pub use card::CardType;
pub use data::{CacheStats, PhoneData};
pub use errors::ErrorKind;
pub use index::Index;
pub use record::PhoneNoInfo;
