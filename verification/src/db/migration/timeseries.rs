//! Migration of candle series and their footprints: the migrator and how the outcomes of
//! its two steps make up its statistics.

use vstd::prelude::*;
use crate::db::error::{DatabaseError, error_text};
use crate::db::migration::{record_error, same_counts, MigrationConfig, MigrationStats, texts};

verus! {

/// Migrates candles and their footprints.
pub struct TimeSeriesMigrator {
    pub config: MigrationConfig,
}

impl TimeSeriesMigrator {
    /// A migrator with the given configuration.
    pub fn new(config: MigrationConfig) -> (m: Self)
        ensures
            m.config == config,
    {
        Self { config }
    }
}

/// Records the outcome of migrating the candles; `true` when the footprints are to follow.
pub fn record_klines_outcome(stats: &mut MigrationStats, outcome: Result<usize, DatabaseError>) -> (go_on: bool)
    ensures
        go_on == (outcome is Ok),
        match outcome {
            Ok(n) => final(stats).klines_migrated == n && final(stats).errors@ == old(stats).errors@
                && final(stats).files_processed == old(stats).files_processed
                && final(stats).trades_migrated == old(stats).trades_migrated
                && final(stats).footprints_migrated == old(stats).footprints_migrated
                && final(stats).runs_migrated == old(stats).runs_migrated,
            Err(e) => same_counts(*final(stats), *old(stats)) && texts(final(stats).errors@)
                == texts(old(stats).errors@).push("Failed to migrate klines: "@ + error_text(e)),
        },
{
    match outcome {
        Ok(n) => {
            stats.klines_migrated = n;
            true
        },
        Err(e) => {
            record_error(stats, "Failed to migrate klines: ", &e);
            false
        },
    }
}

/// Records the outcome of migrating the footprints.
pub fn record_footprints_outcome(stats: &mut MigrationStats, outcome: Result<usize, DatabaseError>)
    ensures
        match outcome {
            Ok(n) => final(stats).footprints_migrated == n && final(stats).errors@ == old(stats).errors@
                && final(stats).files_processed == old(stats).files_processed
                && final(stats).trades_migrated == old(stats).trades_migrated
                && final(stats).klines_migrated == old(stats).klines_migrated
                && final(stats).runs_migrated == old(stats).runs_migrated,
            Err(e) => same_counts(*final(stats), *old(stats)) && texts(final(stats).errors@)
                == texts(old(stats).errors@).push("Failed to migrate footprints: "@ + error_text(e)),
        },
{
    match outcome {
        Ok(n) => {
            stats.footprints_migrated = n;
        },
        Err(e) => {
            record_error(stats, "Failed to migrate footprints: ", &e);
        },
    }
}

} // verus!
