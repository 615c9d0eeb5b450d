//! Checks run on a migrated database, how their outcomes make up a health check, and
//! when a failed migration is rolled back.

use vstd::prelude::*;
use std::path::PathBuf;
use crate::db::error::{DatabaseError, error_text};
use crate::db::migration::backup::{BackupManager, BackupMetadata};
use crate::text::{concat_str, write_signed_decimal, signed_decimal};
use vstd::string::StringExecFns;

verus! {

/// Outcome of a health check, from best to worst.
#[derive(Debug, Clone, Copy, PartialEq, Eq, Structural)]
pub enum HealthCheckStatus {
    Passed,
    Warning,
    Failed,
}

/// Result of the checks on a migrated database.
#[derive(Debug, Clone)]
pub struct HealthCheck {
    pub status: HealthCheckStatus,
    pub messages: Vec<String>,
}

/// The texts of a list of messages.
pub open spec fn message_texts(v: Seq<String>) -> Seq<Seq<char>> {
    v.map_values(|s: String| s@)
}

impl HealthCheck {
    /// A passed check with no message.
    pub fn passed() -> (h: Self)
        ensures
            h.status == HealthCheckStatus::Passed,
            h.messages@.len() == 0,
    {
        Self { status: HealthCheckStatus::Passed, messages: Vec::new() }
    }

    /// A check with a warning and its one message.
    pub fn warning(message: &str) -> (h: Self)
        ensures
            h.status == HealthCheckStatus::Warning,
            message_texts(h.messages@) == seq![message@],
    {
        let mut messages = Vec::new();
        messages.push(String::from_str(message));
        proof {
            assert(message_texts(messages@) =~= seq![message@]);
        }
        Self { status: HealthCheckStatus::Warning, messages }
    }

    /// A failed check with its one message.
    pub fn failed(message: &str) -> (h: Self)
        ensures
            h.status == HealthCheckStatus::Failed,
            message_texts(h.messages@) == seq![message@],
    {
        let mut messages = Vec::new();
        messages.push(String::from_str(message));
        proof {
            assert(message_texts(messages@) =~= seq![message@]);
        }
        Self { status: HealthCheckStatus::Failed, messages }
    }

    /// Appends a message; the status is unchanged.
    pub fn add_message(&mut self, message: &str)
        ensures
            final(self).status == old(self).status,
            message_texts(final(self).messages@) == message_texts(old(self).messages@).push(message@),
    {
        let ghost before = self.messages@;
        self.messages.push(String::from_str(message));
        proof {
            assert(message_texts(self.messages@) =~= message_texts(before).push(message@));
        }
    }

    /// Whether the check failed.
    pub fn is_failed(&self) -> (r: bool)
        ensures
            r == (self.status == HealthCheckStatus::Failed),
    {
        self.status == HealthCheckStatus::Failed
    }

    /// Whether the check passed.
    pub fn is_passed(&self) -> (r: bool)
        ensures
            r == (self.status == HealthCheckStatus::Passed),
    {
        self.status == HealthCheckStatus::Passed
    }

    /// Marks the check failed, with the message `prefix` followed by the error's text.
    pub fn record_failure(&mut self, prefix: &str, error: &DatabaseError)
        ensures
            final(self).status == HealthCheckStatus::Failed,
            message_texts(final(self).messages@)
                == message_texts(old(self).messages@).push(prefix@ + error_text(*error)),
    {
        self.status = HealthCheckStatus::Failed;
        let text = error.to_message();
        let message = concat_str(prefix, text.as_str());
        self.add_message(message.as_str());
    }

    /// Records the outcome of the table-existence check; `true` when the checks go on.
    pub fn record_tables(&mut self, outcome: &Result<(), DatabaseError>) -> (go_on: bool)
        ensures
            go_on == (outcome is Ok),
            match outcome {
                Ok(_) => *final(self) == *old(self),
                Err(e) => final(self).status == HealthCheckStatus::Failed
                    && message_texts(final(self).messages@) == message_texts(old(self).messages@).push(
                        "Table existence check failed: "@ + error_text(*e)),
            },
    {
        match outcome {
            Ok(_) => true,
            Err(e) => {
                self.record_failure("Table existence check failed: ", e);
                false
            },
        }
    }

    /// Records the outcome of the row-count check: each warning is added, and a passed
    /// check becomes a warning when there is one; `true` when the checks go on.
    pub fn record_row_counts(&mut self, outcome: Result<Vec<String>, DatabaseError>) -> (go_on: bool)
        ensures
            go_on == (outcome is Ok),
            match outcome {
                Ok(w) => {
                    &&& message_texts(final(self).messages@) == message_texts(old(self).messages@)
                        + message_texts(w@)
                    &&& final(self).status == (if w@.len() > 0 && old(self).status
                        == HealthCheckStatus::Passed {
                        HealthCheckStatus::Warning
                    } else {
                        old(self).status
                    })
                },
                Err(e) => final(self).status == HealthCheckStatus::Failed
                    && message_texts(final(self).messages@) == message_texts(old(self).messages@).push(
                        "Row count check failed: "@ + error_text(e)),
            },
    {
        match outcome {
            Ok(warnings) => {
                let ghost start = message_texts(self.messages@);
                let ghost status0 = self.status;
                let mut i: usize = 0;
                while i < warnings.len()
                    invariant
                        i <= warnings@.len(),
                        message_texts(self.messages@) == start + message_texts(warnings@.take(i as int)),
                        self.status == (if i > 0 && status0 == HealthCheckStatus::Passed {
                            HealthCheckStatus::Warning
                        } else {
                            status0
                        }),
                    decreases warnings@.len() - i,
                {
                    self.add_message(warnings[i].as_str());
                    if self.status == HealthCheckStatus::Passed {
                        self.status = HealthCheckStatus::Warning;
                    }
                    proof {
                        assert(message_texts(warnings@.take(i + 1)) =~= message_texts(
                            warnings@.take(i as int),
                        ).push(warnings@[i as int]@));
                    }
                    i = i + 1;
                }
                proof {
                    assert(warnings@.take(i as int) =~= warnings@);
                }
                true
            },
            Err(e) => {
                self.record_failure("Row count check failed: ", &e);
                false
            },
        }
    }

    /// Records the outcome of the data-integrity check; `true` when it passed.
    pub fn record_integrity(&mut self, outcome: &Result<(), DatabaseError>) -> (go_on: bool)
        ensures
            go_on == (outcome is Ok),
            match outcome {
                Ok(_) => *final(self) == *old(self),
                Err(e) => final(self).status == HealthCheckStatus::Failed
                    && message_texts(final(self).messages@) == message_texts(old(self).messages@).push(
                        "Data integrity check failed: "@ + error_text(*e)),
            },
    {
        match outcome {
            Ok(_) => true,
            Err(e) => {
                self.record_failure("Data integrity check failed: ", e);
                false
            },
        }
    }

    /// Ends a check that went through: a check without messages gets one saying so.
    pub fn finish(&mut self)
        ensures
            final(self).status == old(self).status,
            message_texts(final(self).messages@) == (if old(self).messages@.len() == 0 {
                seq!["All verification checks passed"@]
            } else {
                message_texts(old(self).messages@)
            }),
    {
        if self.messages.len() == 0 {
            self.add_message("All verification checks passed");
            proof {
                assert(message_texts(self.messages@) =~= seq!["All verification checks passed"@]);
            }
        }
    }
}

/// Tables a migrated database must have.
pub open spec fn spec_required_tables() -> Seq<Seq<char>> {
    seq![
        "schema_version"@,
        "exchanges"@,
        "tickers"@,
        "trades"@,
        "klines"@,
        "depth_snapshots"@,
        "footprint_data"@,
        "order_runs"@,
    ]
}

/// The tables a migrated database must have, in the order they are checked.
pub fn required_tables() -> (r: Vec<&'static str>)
    ensures
        r@.len() == spec_required_tables().len(),
        forall|i: int| 0 <= i < r@.len() ==> #[trigger] r@[i]@ == spec_required_tables()[i],
{
    let r = vec![
        "schema_version",
        "exchanges",
        "tickers",
        "trades",
        "klines",
        "depth_snapshots",
        "footprint_data",
        "order_runs",
    ];
    proof {
        assert(r@[0]@ == "schema_version"@);
        assert(r@[1]@ == "exchanges"@);
        assert(r@[2]@ == "tickers"@);
        assert(r@[3]@ == "trades"@);
        assert(r@[4]@ == "klines"@);
        assert(r@[5]@ == "depth_snapshots"@);
        assert(r@[6]@ == "footprint_data"@);
        assert(r@[7]@ == "order_runs"@);
    }
    r
}

/// The error for a required table that the database lacks.
pub fn missing_table_error(table: &str) -> (e: DatabaseError)
    ensures
        e matches DatabaseError::Migration(m) && m@ == "Required table '"@ + table@ + "' does not exist"@,
{
    let mut m = concat_str("Required table '", table);
    m.append("' does not exist");
    DatabaseError::Migration(m)
}

/// Warnings for empty exchange and ticker tables, in that order.
pub fn row_count_warnings(exchange_count: i64, ticker_count: i64) -> (w: Vec<String>)
    ensures
        message_texts(w@) == (if exchange_count == 0 {
            seq!["No exchanges found in database"@]
        } else {
            Seq::empty()
        }) + (if ticker_count == 0 {
            seq!["No tickers found in database"@]
        } else {
            Seq::empty()
        }),
{
    let mut w: Vec<String> = Vec::new();
    if exchange_count == 0 {
        w.push("No exchanges found in database".to_owned());
    }
    let ghost mid = w@;
    if ticker_count == 0 {
        w.push("No tickers found in database".to_owned());
    }
    proof {
        assert(message_texts(w@) =~= (if exchange_count == 0 {
            seq!["No exchanges found in database"@]
        } else {
            Seq::empty()
        }) + (if ticker_count == 0 {
            seq!["No tickers found in database"@]
        } else {
            Seq::empty()
        }));
    }
    w
}

/// The outcome of the data-integrity check from the number of trades with a negative
/// price and of klines missing a price: trades are looked at first.
pub fn integrity_outcome(negative_prices: i64, null_klines: i64) -> (r: Result<(), DatabaseError>)
    ensures
        negative_prices > 0 ==> (r matches Err(DatabaseError::Migration(m)) && m@ == "Found "@
            + signed_decimal(negative_prices as int) + " trades with negative prices"@),
        negative_prices <= 0 && null_klines > 0 ==> (r matches Err(DatabaseError::Migration(m)) && m@
            == "Found "@ + signed_decimal(null_klines as int) + " klines with null price fields"@),
        negative_prices <= 0 && null_klines <= 0 ==> r is Ok,
{
    if negative_prices > 0 {
        let mut m = "Found ".to_owned();
        write_signed_decimal(&mut m, negative_prices);
        m.append(" trades with negative prices");
        return Err(DatabaseError::Migration(m));
    }
    if null_klines > 0 {
        let mut m = "Found ".to_owned();
        write_signed_decimal(&mut m, null_klines);
        m.append(" klines with null price fields");
        return Err(DatabaseError::Migration(m));
    }
    Ok(())
}

/// What to do after the checks.
#[derive(Debug, Clone, Copy, PartialEq, Eq, Structural)]
pub enum RollbackStep {
    /// The check did not fail: keep the migrated database.
    Keep,
    /// The check failed: remove the database and restore the backup.
    RestoreBackup,
}

/// Checks a migrated database and restores the backup when the check failed.
pub struct MigrationGuard {
    pub backup_metadata: Option<BackupMetadata>,
    pub db_path: PathBuf,
    pub backup_manager: BackupManager,
}

impl MigrationGuard {
    /// A guard over the database at `db_path`, with the backup taken before the migration.
    pub fn new(
        backup_metadata: Option<BackupMetadata>,
        db_path: PathBuf,
        backup_manager: BackupManager,
    ) -> (g: Self)
        ensures
            g.backup_metadata == backup_metadata,
            g.db_path == db_path,
            g.backup_manager == backup_manager,
    {
        Self { backup_metadata, db_path, backup_manager }
    }

    /// Whether to roll back after `health_check`: nothing unless it failed, and a failed
    /// check without a backup is an error.
    pub fn rollback_step(&self, health_check: &HealthCheck) -> (r: Result<RollbackStep, DatabaseError>)
        ensures
            health_check.status != HealthCheckStatus::Failed ==> r == Ok::<RollbackStep, DatabaseError>(
                RollbackStep::Keep),
            health_check.status == HealthCheckStatus::Failed && self.backup_metadata is Some ==> r
                == Ok::<RollbackStep, DatabaseError>(RollbackStep::RestoreBackup),
            health_check.status == HealthCheckStatus::Failed && self.backup_metadata is None ==> (r matches Err(
                DatabaseError::Migration(m)) && m@ == "No backup available for rollback"@),
    {
        if !health_check.is_failed() {
            return Ok(RollbackStep::Keep);
        }
        match &self.backup_metadata {
            Some(_) => Ok(RollbackStep::RestoreBackup),
            None => Err(DatabaseError::Migration("No backup available for rollback".to_owned())),
        }
    }
}

} // verus!
