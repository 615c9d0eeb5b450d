//! Migration of existing market data into the database: planning, bookkeeping and checks.

pub mod archive;
pub mod backup;
pub mod depth;
pub mod helpers;
pub mod progress;
pub mod timeseries;
pub mod verification;

use vstd::prelude::*;
use crate::db::error::{DatabaseError, error_text};
use crate::text::{concat_str, decimal, write_decimal};
use vstd::string::StringExecFns;

verus! {

/// Counts of what a migration moved, and the errors it met.
#[derive(Debug, Clone, Default)]
pub struct MigrationStats {
    pub files_processed: usize,
    pub trades_migrated: usize,
    pub klines_migrated: usize,
    pub footprints_migrated: usize,
    pub runs_migrated: usize,
    pub errors: Vec<String>,
}

/// The texts of a list of strings.
pub open spec fn texts(v: Seq<String>) -> Seq<Seq<char>> {
    v.map_values(|s: String| s@)
}

/// `a` and `b` have the same counts.
pub open spec fn same_counts(a: MigrationStats, b: MigrationStats) -> bool {
    &&& a.files_processed == b.files_processed
    &&& a.trades_migrated == b.trades_migrated
    &&& a.klines_migrated == b.klines_migrated
    &&& a.footprints_migrated == b.footprints_migrated
    &&& a.runs_migrated == b.runs_migrated
}

/// Adds the error `prefix` followed by the text of `e`.
pub fn record_error(stats: &mut MigrationStats, prefix: &str, e: &DatabaseError)
    ensures
        same_counts(*final(stats), *old(stats)),
        texts(final(stats).errors@) == texts(old(stats).errors@).push(prefix@ + error_text(*e)),
{
    let t = e.to_message();
    let m = concat_str(prefix, t.as_str());
    let ghost before = stats.errors@;
    stats.add_error(m);
    proof {
        assert(texts(stats.errors@) =~= texts(before).push(prefix@ + error_text(*e)));
    }
}

impl MigrationStats {
    /// Empty statistics.
    pub fn new() -> (s: Self)
        ensures
            s.files_processed == 0,
            s.trades_migrated == 0,
            s.klines_migrated == 0,
            s.footprints_migrated == 0,
            s.runs_migrated == 0,
            s.errors@.len() == 0,
    {
        MigrationStats {
            files_processed: 0,
            trades_migrated: 0,
            klines_migrated: 0,
            footprints_migrated: 0,
            runs_migrated: 0,
            errors: Vec::new(),
        }
    }

    /// Records an error.
    pub fn add_error(&mut self, error: String)
        ensures
            final(self).errors@ == old(self).errors@.push(error),
            final(self).files_processed == old(self).files_processed,
            final(self).trades_migrated == old(self).trades_migrated,
            final(self).klines_migrated == old(self).klines_migrated,
            final(self).footprints_migrated == old(self).footprints_migrated,
            final(self).runs_migrated == old(self).runs_migrated,
    {
        self.errors.push(error);
    }

    /// Adds the counts of `other` to these and appends its errors, in order.
    pub fn merge(&mut self, other: &MigrationStats)
        requires
            old(self).files_processed + other.files_processed <= usize::MAX,
            old(self).trades_migrated + other.trades_migrated <= usize::MAX,
            old(self).klines_migrated + other.klines_migrated <= usize::MAX,
            old(self).footprints_migrated + other.footprints_migrated <= usize::MAX,
            old(self).runs_migrated + other.runs_migrated <= usize::MAX,
        ensures
            final(self).files_processed == old(self).files_processed + other.files_processed,
            final(self).trades_migrated == old(self).trades_migrated + other.trades_migrated,
            final(self).klines_migrated == old(self).klines_migrated + other.klines_migrated,
            final(self).footprints_migrated == old(self).footprints_migrated + other.footprints_migrated,
            final(self).runs_migrated == old(self).runs_migrated + other.runs_migrated,
            texts(final(self).errors@) == texts(old(self).errors@) + texts(other.errors@),
    {
        self.files_processed = self.files_processed + other.files_processed;
        self.trades_migrated = self.trades_migrated + other.trades_migrated;
        self.klines_migrated = self.klines_migrated + other.klines_migrated;
        self.footprints_migrated = self.footprints_migrated + other.footprints_migrated;
        self.runs_migrated = self.runs_migrated + other.runs_migrated;
        let ghost start = self.errors@;
        let ghost counts = (self.files_processed, self.trades_migrated, self.klines_migrated,
            self.footprints_migrated, self.runs_migrated);
        let mut i: usize = 0;
        while i < other.errors.len()
            invariant
                i <= other.errors@.len(),
                counts == (self.files_processed, self.trades_migrated, self.klines_migrated,
                    self.footprints_migrated, self.runs_migrated),
                texts(self.errors@) =~= texts(start) + texts(other.errors@.take(i as int)),
            decreases other.errors@.len() - i,
        {
            let e = other.errors[i].clone();
            let ghost before = self.errors@;
            self.errors.push(e);
            i = i + 1;
            proof {
                assert(other.errors@.take(i as int) =~= other.errors@.take(i - 1).push(other.errors@[i - 1]));
                assert(texts(self.errors@) =~= texts(before).push(e@));
            }
        }
        proof {
            assert(other.errors@.take(i as int) =~= other.errors@);
        }
    }

    /// Whether any error was recorded.
    pub fn has_errors(&self) -> (r: bool)
        ensures
            r == (self.errors@.len() > 0),
    {
        !self.errors.is_empty()
    }

    /// The multi-line report of the statistics, listing the errors (numbered from 1) when
    /// there are any.
    pub fn report(&self) -> (r: String)
        ensures
            r@ == report_text(*self),
    {
        let mut s = "Migration Statistics:\n  Files processed: ".to_owned();
        write_decimal(&mut s, self.files_processed as u64);
        s.append("\n  Trades migrated: ");
        write_decimal(&mut s, self.trades_migrated as u64);
        s.append("\n  Klines migrated: ");
        write_decimal(&mut s, self.klines_migrated as u64);
        s.append("\n  Footprints migrated: ");
        write_decimal(&mut s, self.footprints_migrated as u64);
        s.append("\n  Order runs migrated: ");
        write_decimal(&mut s, self.runs_migrated as u64);
        s.append("\n");
        proof {
            assert(s@ =~= counts_text(*self));
        }
        if self.has_errors() {
            s.append("  Errors encountered: ");
            write_decimal(&mut s, self.errors.len() as u64);
            s.append("\n");
            let ghost head = s@;
            let mut i: usize = 0;
            while i < self.errors.len()
                invariant
                    i <= self.errors@.len(),
                    s@ =~= head + error_lines(texts(self.errors@.take(i as int)), 1),
                decreases self.errors@.len() - i,
            {
                s.append("    ");
                write_decimal(&mut s, (i + 1) as u64);
                s.append(": ");
                s.append(self.errors[i].as_str());
                s.append("\n");
                proof {
                    let t = texts(self.errors@.take(i as int));
                    let t2 = texts(self.errors@.take(i + 1));
                    assert(t2 =~= t.push(self.errors@[i as int]@));
                    lemma_error_lines_push(t, self.errors@[i as int]@, 1);
                }
                i = i + 1;
            }
            proof {
                assert(self.errors@.take(i as int) =~= self.errors@);
            }
        }
        s
    }
}

/// The counts part of the report.
pub open spec fn counts_text(s: MigrationStats) -> Seq<char> {
    "Migration Statistics:\n  Files processed: "@ + decimal(s.files_processed as nat)
        + "\n  Trades migrated: "@ + decimal(s.trades_migrated as nat)
        + "\n  Klines migrated: "@ + decimal(s.klines_migrated as nat)
        + "\n  Footprints migrated: "@ + decimal(s.footprints_migrated as nat)
        + "\n  Order runs migrated: "@ + decimal(s.runs_migrated as nat) + "\n"@
}

/// One report line per error, numbered from `first`.
pub open spec fn error_lines(errors: Seq<Seq<char>>, first: nat) -> Seq<char>
    decreases errors.len(),
{
    if errors.len() == 0 {
        Seq::empty()
    } else {
        error_lines(errors.drop_last(), first) + "    "@ + decimal((first + errors.len() - 1) as nat)
            + ": "@ + errors.last() + "\n"@
    }
}

proof fn lemma_error_lines_push(errors: Seq<Seq<char>>, e: Seq<char>, first: nat)
    ensures
        error_lines(errors.push(e), first) == error_lines(errors, first) + "    "@
            + decimal((first + errors.len()) as nat) + ": "@ + e + "\n"@,
{
    assert(errors.push(e).drop_last() =~= errors);
}

/// The report of migration statistics.
pub open spec fn report_text(s: MigrationStats) -> Seq<char> {
    if s.errors@.len() > 0 {
        counts_text(s) + "  Errors encountered: "@ + decimal(s.errors@.len()) + "\n"@
            + error_lines(texts(s.errors@), 1)
    } else {
        counts_text(s)
    }
}

/// Rows a batch holds before it is written: the configured size, or one when it is zero.
pub open spec fn effective_batch_size(batch_size: nat) -> nat {
    if batch_size == 0 {
        1
    } else {
        batch_size
    }
}

/// Lengths of the batches that `total` rows are written in, in order: rows are gathered
/// until a batch is full, and what is left at the end goes in a last, shorter batch.
pub open spec fn batch_plan(total: nat, batch_size: nat) -> Seq<nat>
    decreases total,
{
    let full = effective_batch_size(batch_size);
    if total == 0 {
        Seq::empty()
    } else if total <= full {
        seq![total]
    } else {
        seq![full] + batch_plan((total - full) as nat, batch_size)
    }
}

/// Sum of a sequence of counts.
pub open spec fn total_of(s: Seq<nat>) -> nat
    decreases s.len(),
{
    if s.len() == 0 {
        0
    } else {
        s[0] + total_of(s.drop_first())
    }
}

/// Batching writes every row once: the batches add up to the rows, none is empty, and
/// each but the last is full.
pub proof fn lemma_batch_plan_covers(total: nat, batch_size: nat)
    ensures
        total_of(batch_plan(total, batch_size)) == total,
        forall|i: int| 0 <= i < batch_plan(total, batch_size).len() ==> {
            &&& 0 < #[trigger] batch_plan(total, batch_size)[i] <= effective_batch_size(batch_size)
            &&& i + 1 < batch_plan(total, batch_size).len() ==> batch_plan(total, batch_size)[i]
                == effective_batch_size(batch_size)
        },
    decreases total,
{
    let full = effective_batch_size(batch_size);
    if total > full {
        let rest = batch_plan((total - full) as nat, batch_size);
        lemma_batch_plan_covers((total - full) as nat, batch_size);
        assert(batch_plan(total, batch_size) == seq![full] + rest);
        assert((seq![full] + rest).drop_first() =~= rest);
        assert((seq![full] + rest)[0] == full);
        assert forall|i: int| 0 <= i < batch_plan(total, batch_size).len() implies {
            &&& 0 < #[trigger] batch_plan(total, batch_size)[i] <= full
            &&& i + 1 < batch_plan(total, batch_size).len() ==> batch_plan(total, batch_size)[i] == full
        } by {
            if i > 0 {
                assert(batch_plan(total, batch_size)[i] == rest[i - 1]);
            }
        }
    } else if total > 0 {
        assert(batch_plan(total, batch_size) == seq![total]);
        assert(seq![total].drop_first() =~= Seq::<nat>::empty());
        assert(total_of(Seq::<nat>::empty()) == 0);
    }
}

/// Whether a batch of `batch_len` gathered rows is to be written now: it holds at least
/// `batch_size` rows.
pub fn flush_due(batch_len: usize, batch_size: usize) -> (r: bool)
    ensures
        r == (batch_len >= batch_size),
{
    batch_len >= batch_size
}

/// The batches written when `left` more rows arrive one by one into a batch already holding
/// `pending` rows: after each row the batch is written if `flush_due`, and what remains at
/// the end is written last.
pub open spec fn streamed_batches(left: nat, batch_size: nat, pending: nat) -> Seq<nat>
    decreases left,
{
    if left == 0 {
        if pending > 0 {
            seq![pending]
        } else {
            Seq::empty()
        }
    } else if pending + 1 >= batch_size {
        seq![pending + 1] + streamed_batches((left - 1) as nat, batch_size, 0)
    } else {
        streamed_batches((left - 1) as nat, batch_size, pending + 1)
    }
}

/// Writing rows as they arrive, whenever `flush_due`, gives the batches of `batch_plan`.
pub proof fn lemma_streamed_batches_follow_plan(total: nat, batch_size: nat)
    ensures
        streamed_batches(total, batch_size, 0) == batch_plan(total, batch_size),
{
    lemma_streamed_from(total, batch_size, 0);
}

proof fn lemma_streamed_from(left: nat, batch_size: nat, pending: nat)
    requires
        pending < effective_batch_size(batch_size),
    ensures
        streamed_batches(left, batch_size, pending) == batch_plan(left + pending, batch_size),
    decreases left,
{
    let full = effective_batch_size(batch_size);
    if left == 0 {
        if pending > 0 {
            assert(batch_plan(pending, batch_size) == seq![pending]);
        }
    } else if pending + 1 >= batch_size {
        assert(pending + 1 == full);
        lemma_streamed_from((left - 1) as nat, batch_size, 0);
        if left == 1 {
            assert(batch_plan(full, batch_size) == seq![full]);
            assert(batch_plan(0, batch_size) =~= Seq::<nat>::empty());
            assert(seq![full] + Seq::<nat>::empty() =~= seq![full]);
        } else {
            assert((left + pending - full) as nat == (left - 1) as nat);
        }
    } else {
        lemma_streamed_from((left - 1) as nat, batch_size, pending + 1);
        assert((left - 1) + (pending + 1) == left + pending);
    }
}

/// Options of a migration run.
#[derive(Debug, Clone, Copy)]
pub struct MigrationConfig {
    /// Rows per batch insert.
    pub batch_size: usize,
    /// Whether to skip the writes.
    pub dry_run: bool,
    /// Whether to back up before migrating.
    pub create_backup: bool,
    /// Whether to verify after migrating.
    pub verify_migration: bool,
}

impl Default for MigrationConfig {
    fn default() -> (c: Self)
        ensures
            c.batch_size == 1000,
            !c.dry_run,
            c.create_backup,
            c.verify_migration,
    {
        Self { batch_size: 1000, dry_run: false, create_backup: true, verify_migration: true }
    }
}

impl MigrationConfig {
    /// The default options: batches of 1000 rows, real writes, backup and verification.
    pub fn new() -> (c: Self)
        ensures
            c.batch_size == 1000,
            !c.dry_run,
            c.create_backup,
            c.verify_migration,
    {
        Self::default()
    }

    /// The options with another batch size.
    pub fn with_batch_size(self, batch_size: usize) -> (c: Self)
        ensures
            c == (MigrationConfig { batch_size, ..self }),
    {
        let mut c = self;
        c.batch_size = batch_size;
        c
    }

    /// The options with dry run switched on or off.
    pub fn with_dry_run(self, dry_run: bool) -> (c: Self)
        ensures
            c == (MigrationConfig { dry_run, ..self }),
    {
        let mut c = self;
        c.dry_run = dry_run;
        c
    }

    /// The options with the backup switched on or off.
    pub fn with_backup(self, create_backup: bool) -> (c: Self)
        ensures
            c == (MigrationConfig { create_backup, ..self }),
    {
        let mut c = self;
        c.create_backup = create_backup;
        c
    }

    /// The options with verification switched on or off.
    pub fn with_verification(self, verify: bool) -> (c: Self)
        ensures
            c == (MigrationConfig { verify_migration: verify, ..self }),
    {
        let mut c = self;
        c.verify_migration = verify;
        c
    }
}

} // verus!
