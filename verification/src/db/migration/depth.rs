//! Migration of order-book history: the migrator and how its outcome is counted.

use vstd::prelude::*;
use crate::db::error::{DatabaseError, error_text};
use crate::db::migration::{record_error, same_counts, texts, MigrationConfig, MigrationStats};

verus! {

/// Migrates the order runs of a price ladder's history.
pub struct DepthMigrator {
    pub config: MigrationConfig,
}

impl DepthMigrator {
    /// A migrator with the given configuration.
    pub fn new(config: MigrationConfig) -> (m: Self)
        ensures
            m.config == config,
    {
        Self { config }
    }
}

/// The number of runs over all price levels, given the number at each level.
pub open spec fn total_runs(level_sizes: Seq<usize>) -> nat
    decreases level_sizes.len(),
{
    if level_sizes.len() == 0 {
        0
    } else {
        total_runs(level_sizes.drop_last()) + level_sizes.last() as nat
    }
}

/// What a dry run reports as migrated: every run of every price level.
pub fn dry_run_total(level_sizes: &[usize]) -> (n: usize)
    requires
        total_runs(level_sizes@) <= usize::MAX,
    ensures
        n == total_runs(level_sizes@),
{
    let mut n: usize = 0;
    let mut i: usize = 0;
    while i < level_sizes.len()
        invariant
            i <= level_sizes@.len(),
            n == total_runs(level_sizes@.take(i as int)),
            total_runs(level_sizes@) <= usize::MAX,
        decreases level_sizes@.len() - i,
    {
        proof {
            assert(level_sizes@.take(i as int + 1).drop_last() =~= level_sizes@.take(i as int));
            lemma_total_runs_prefix(level_sizes@, i as int + 1);
        }
        n = n + level_sizes[i];
        i = i + 1;
    }
    proof {
        assert(level_sizes@.take(i as int) =~= level_sizes@);
    }
    n
}

/// A prefix of the levels holds no more runs than all of them.
proof fn lemma_total_runs_prefix(s: Seq<usize>, k: int)
    requires
        0 <= k <= s.len(),
    ensures
        total_runs(s.take(k)) <= total_runs(s),
    decreases s.len() - k,
{
    if k < s.len() {
        lemma_total_runs_prefix(s, k + 1);
        assert(s.take(k + 1).drop_last() =~= s.take(k));
    } else {
        assert(s.take(k) =~= s);
    }
}

/// Records the outcome of writing a batch of `batch_len` runs after `written` were written:
/// the new count when it was written, else `None` with the error noted (the last batch is
/// named as such).
pub fn record_batch_outcome(
    stats: &mut MigrationStats,
    written: usize,
    batch_len: usize,
    final_batch: bool,
    outcome: &Result<(), DatabaseError>,
) -> (r: Option<usize>)
    requires
        written + batch_len <= usize::MAX,
    ensures
        match outcome {
            Ok(_) => r == Some((written + batch_len) as usize) && *final(stats) == *old(stats),
            Err(e) => r is None && same_counts(*final(stats), *old(stats)) && texts(final(stats).errors@)
                == texts(old(stats).errors@).push(
                    (if final_batch {
                        "Failed to insert final batch: "@
                    } else {
                        "Failed to insert batch: "@
                    }) + error_text(*e),
                ),
        },
{
    match outcome {
        Ok(_) => Some(written + batch_len),
        Err(e) => {
            if final_batch {
                record_error(stats, "Failed to insert final batch: ", e);
            } else {
                record_error(stats, "Failed to insert batch: ", e);
            }
            None
        },
    }
}

} // verus!
