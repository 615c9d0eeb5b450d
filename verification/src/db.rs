//! Database bookkeeping: identifiers, metrics, schema migrations and configuration.

pub mod helpers;
pub mod migration;
pub mod metrics;
pub mod error;
pub mod migrations;
pub mod config;
pub mod cache;
pub mod crud;
pub mod health;
pub use self::config::{CacheStats, DatabaseConfig, DbStats};
pub use self::error::DatabaseError;
