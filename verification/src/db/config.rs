//! Options the database is opened with, the settings they turn into, and the statistics
//! it reports.

use vstd::prelude::*;
use std::path::PathBuf;
use vstd::string::StringExecFns;
use crate::text::{decimal, write_decimal};

verus! {

/// Memory limit, in gigabytes, that a new configuration starts with.
pub const DEFAULT_MEMORY_LIMIT_GB: usize = 8;

/// Options the database is opened with.
#[derive(Debug)]
pub struct DatabaseConfig {
    /// Memory limit in gigabytes (`None` for the engine's default).
    pub memory_limit_gb: Option<usize>,
    /// Directory for data spilled to disk.
    pub temp_directory: Option<PathBuf>,
    /// Threads for query execution (`None` for automatic).
    pub threads: Option<usize>,
}

impl Default for DatabaseConfig {
    /// A memory limit of 8 GB, no spill directory, automatic threads.
    fn default() -> (c: Self)
        ensures
            c.memory_limit_gb == Some(DEFAULT_MEMORY_LIMIT_GB),
            c.temp_directory is None,
            c.threads is None,
    {
        Self { memory_limit_gb: Some(DEFAULT_MEMORY_LIMIT_GB), temp_directory: None, threads: None }
    }
}

impl DatabaseConfig {
    /// The default configuration.
    pub fn new() -> (c: Self)
        ensures
            c.memory_limit_gb == Some(DEFAULT_MEMORY_LIMIT_GB),
            c.temp_directory is None,
            c.threads is None,
    {
        Self::default()
    }

    /// The configuration with a memory limit of `gb` gigabytes.
    pub fn with_memory_limit(self, gb: usize) -> (c: Self)
        ensures
            c.memory_limit_gb == Some(gb),
            c.temp_directory == self.temp_directory,
            c.threads == self.threads,
    {
        let mut c = self;
        c.memory_limit_gb = Some(gb);
        c
    }

    /// The configuration with `path` as the spill directory.
    pub fn with_temp_directory(self, path: PathBuf) -> (c: Self)
        ensures
            c.memory_limit_gb == self.memory_limit_gb,
            c.temp_directory == Some(path),
            c.threads == self.threads,
    {
        let mut c = self;
        c.temp_directory = Some(path);
        c
    }

    /// The configuration with `threads` query threads.
    pub fn with_threads(self, threads: usize) -> (c: Self)
        ensures
            c.memory_limit_gb == self.memory_limit_gb,
            c.temp_directory == self.temp_directory,
            c.threads == Some(threads),
    {
        let mut c = self;
        c.threads = Some(threads);
        c
    }

    /// The statement setting the memory limit, when there is one.
    pub fn memory_limit_sql(&self) -> (r: Option<String>)
        ensures
            match self.memory_limit_gb {
                Some(gb) => r matches Some(s) && s@ == "SET memory_limit='"@ + decimal(gb as nat) + "GB'"@,
                None => r is None,
            },
    {
        match self.memory_limit_gb {
            Some(gb) => {
                let mut s = "SET memory_limit='".to_owned();
                write_decimal(&mut s, gb as u64);
                s.append("GB'");
                Some(s)
            },
            None => None,
        }
    }

    /// The statement setting the number of threads, when there is one.
    pub fn threads_sql(&self) -> (r: Option<String>)
        ensures
            match self.threads {
                Some(n) => r matches Some(s) && s@ == "SET threads="@ + decimal(n as nat),
                None => r is None,
            },
    {
        match self.threads {
            Some(n) => {
                let mut s = "SET threads=".to_owned();
                write_decimal(&mut s, n as u64);
                Some(s)
            },
            None => None,
        }
    }
}

/// The statement setting the spill directory, given the directory as shown.
pub fn temp_directory_sql(directory: &str) -> (s: String)
    ensures
        s@ == "SET temp_directory='"@ + directory@ + "'"@,
{
    let mut s = "SET temp_directory='".to_owned();
    s.append(directory);
    s.append("'");
    s
}

/// Statistics of the stored data.
#[derive(Debug, Clone, Copy)]
pub struct DbStats {
    /// Trades stored.
    pub total_trades: i64,
    /// Candles stored.
    pub total_klines: i64,
    /// Tickers known.
    pub total_tickers: i64,
    /// Size of the database file in bytes.
    pub database_size_bytes: i64,
    /// Current schema version.
    pub schema_version: i32,
}

/// Statistics of the query cache.
#[derive(Debug, Clone, Copy)]
pub struct CacheStats {
    pub timeseries_entries: usize,
    pub trades_entries: usize,
    pub max_entries: usize,
    pub ttl_seconds: u64,
}

} // verus!
