//! Counters of database operation latencies, and the snapshot reports made from them.

use vstd::prelude::*;
use std::time::{Duration, Instant};
use crate::clock::{duration_as_micros, spec_duration_micros, instant_now, duration_since, spec_duration_since};

verus! {

/// Thresholds above which latencies count as performance issues, in microseconds.
pub const SLOW_AVG_INSERT_US: u64 = 10_000;
pub const SLOW_MAX_INSERT_US: u64 = 100_000;
pub const SLOW_AVG_QUERY_US: u64 = 100_000;
pub const SLOW_MAX_QUERY_US: u64 = 1_000_000;

/// The counters of a [`PerformanceMetrics`].
pub struct MetricsCounters {
    pub insert_count: u64,
    pub query_count: u64,
    pub insert_latency_us: u64,
    pub query_latency_us: u64,
    pub max_insert_latency_us: u64,
    pub max_query_latency_us: u64,
}

/// Counts of insert and query operations with their total and largest latency.
/// Counts and totals wrap around on overflow. Handles that record into the same counters
/// share one value (the database manager holds it behind a lock).
pub struct PerformanceMetrics {
    insert_count: u64,
    query_count: u64,
    insert_latency_us: u64,
    query_latency_us: u64,
    max_insert_latency_us: u64,
    max_query_latency_us: u64,
}

impl View for PerformanceMetrics {
    type V = MetricsCounters;

    closed spec fn view(&self) -> MetricsCounters {
        MetricsCounters {
            insert_count: self.insert_count,
            query_count: self.query_count,
            insert_latency_us: self.insert_latency_us,
            query_latency_us: self.query_latency_us,
            max_insert_latency_us: self.max_insert_latency_us,
            max_query_latency_us: self.max_query_latency_us,
        }
    }
}

/// All counters are zero.
pub open spec fn counters_zero(c: MetricsCounters) -> bool {
    &&& c.insert_count == 0
    &&& c.query_count == 0
    &&& c.insert_latency_us == 0
    &&& c.query_latency_us == 0
    &&& c.max_insert_latency_us == 0
    &&& c.max_query_latency_us == 0
}

/// `a + b` wrapped into `u64`.
pub open spec fn wrap_add(a: u64, b: u64) -> u64 {
    if a + b > u64::MAX {
        (a + b - (u64::MAX + 1)) as u64
    } else {
        (a + b) as u64
    }
}

/// The larger of two values.
pub open spec fn max_u64(a: u64, b: u64) -> u64 {
    if a >= b {
        a
    } else {
        b
    }
}

/// The average `total / count`, zero when there were no operations.
pub open spec fn average(total: u64, count: u64) -> u64 {
    if count > 0 {
        total / count
    } else {
        0
    }
}

impl PerformanceMetrics {
    /// Metrics with every counter at zero.
    pub fn new() -> (m: Self)
        ensures
            counters_zero(m@),
    {
        Self {
            insert_count: 0,
            query_count: 0,
            insert_latency_us: 0,
            query_latency_us: 0,
            max_insert_latency_us: 0,
            max_query_latency_us: 0,
        }
    }

    /// Records an insert that took `latency_us` microseconds.
    pub fn record_insert_micros(&mut self, latency_us: u64)
        ensures
            final(self)@.insert_count == wrap_add(old(self)@.insert_count, 1),
            final(self)@.insert_latency_us == wrap_add(old(self)@.insert_latency_us, latency_us),
            final(self)@.max_insert_latency_us == max_u64(old(self)@.max_insert_latency_us, latency_us),
            final(self)@.query_count == old(self)@.query_count,
            final(self)@.query_latency_us == old(self)@.query_latency_us,
            final(self)@.max_query_latency_us == old(self)@.max_query_latency_us,
            final(self)@ == record_step(old(self)@, MetricOperation::Insert, latency_us),
    {
        self.insert_count = self.insert_count.wrapping_add(1);
        self.insert_latency_us = self.insert_latency_us.wrapping_add(latency_us);
        if latency_us > self.max_insert_latency_us {
            self.max_insert_latency_us = latency_us;
        }
    }

    /// Records a query that took `latency_us` microseconds.
    pub fn record_query_micros(&mut self, latency_us: u64)
        ensures
            final(self)@.query_count == wrap_add(old(self)@.query_count, 1),
            final(self)@.query_latency_us == wrap_add(old(self)@.query_latency_us, latency_us),
            final(self)@.max_query_latency_us == max_u64(old(self)@.max_query_latency_us, latency_us),
            final(self)@.insert_count == old(self)@.insert_count,
            final(self)@.insert_latency_us == old(self)@.insert_latency_us,
            final(self)@.max_insert_latency_us == old(self)@.max_insert_latency_us,
            final(self)@ == record_step(old(self)@, MetricOperation::Query, latency_us),
    {
        self.query_count = self.query_count.wrapping_add(1);
        self.query_latency_us = self.query_latency_us.wrapping_add(latency_us);
        if latency_us > self.max_query_latency_us {
            self.max_query_latency_us = latency_us;
        }
    }

    /// Records an insert that took `latency`, counted in whole microseconds (the low 64 bits).
    pub fn record_insert_latency(&mut self, latency: Duration)
        ensures
            final(self)@.insert_count == wrap_add(old(self)@.insert_count, 1),
            final(self)@.insert_latency_us == wrap_add(old(self)@.insert_latency_us, spec_duration_micros(latency) as u64),
            final(self)@.max_insert_latency_us == max_u64(old(self)@.max_insert_latency_us, spec_duration_micros(latency) as u64),
            final(self)@.query_count == old(self)@.query_count,
            final(self)@.query_latency_us == old(self)@.query_latency_us,
            final(self)@.max_query_latency_us == old(self)@.max_query_latency_us,
            final(self)@ == record_step(old(self)@, MetricOperation::Insert, spec_duration_micros(latency) as u64),
    {
        let latency_us = duration_as_micros(&latency) as u64;
        self.record_insert_micros(latency_us);
    }

    /// Records a query that took `latency`, counted in whole microseconds (the low 64 bits).
    pub fn record_query_latency(&mut self, latency: Duration)
        ensures
            final(self)@.query_count == wrap_add(old(self)@.query_count, 1),
            final(self)@.query_latency_us == wrap_add(old(self)@.query_latency_us, spec_duration_micros(latency) as u64),
            final(self)@.max_query_latency_us == max_u64(old(self)@.max_query_latency_us, spec_duration_micros(latency) as u64),
            final(self)@.insert_count == old(self)@.insert_count,
            final(self)@.insert_latency_us == old(self)@.insert_latency_us,
            final(self)@.max_insert_latency_us == old(self)@.max_insert_latency_us,
            final(self)@ == record_step(old(self)@, MetricOperation::Query, spec_duration_micros(latency) as u64),
    {
        let latency_us = duration_as_micros(&latency) as u64;
        self.record_query_micros(latency_us);
    }

    /// A snapshot of the counters, with averages over the recorded operations.
    pub fn get_statistics(&self) -> (s: MetricsSnapshot)
        ensures
            s.insert_count == self@.insert_count,
            s.query_count == self@.query_count,
            s.avg_insert_latency_us == average(self@.insert_latency_us, self@.insert_count),
            s.avg_query_latency_us == average(self@.query_latency_us, self@.query_count),
            s.max_insert_latency_us == self@.max_insert_latency_us,
            s.max_query_latency_us == self@.max_query_latency_us,
    {
        let avg_insert_latency_us = if self.insert_count > 0 {
            self.insert_latency_us / self.insert_count
        } else {
            0
        };
        let avg_query_latency_us = if self.query_count > 0 {
            self.query_latency_us / self.query_count
        } else {
            0
        };
        MetricsSnapshot {
            insert_count: self.insert_count,
            query_count: self.query_count,
            avg_insert_latency_us,
            avg_query_latency_us,
            max_insert_latency_us: self.max_insert_latency_us,
            max_query_latency_us: self.max_query_latency_us,
        }
    }

    /// Sets every counter back to zero.
    pub fn reset(&mut self)
        ensures
            counters_zero(final(self)@),
    {
        self.insert_count = 0;
        self.query_count = 0;
        self.insert_latency_us = 0;
        self.query_latency_us = 0;
        self.max_insert_latency_us = 0;
        self.max_query_latency_us = 0;
    }
}

impl Default for PerformanceMetrics {
    fn default() -> (m: Self)
        ensures
            counters_zero(m@),
    {
        Self::new()
    }
}

/// A point-in-time report of the metrics.
#[derive(Debug, Clone, Copy)]
pub struct MetricsSnapshot {
    pub insert_count: u64,
    pub query_count: u64,
    pub avg_insert_latency_us: u64,
    pub avg_query_latency_us: u64,
    pub max_insert_latency_us: u64,
    pub max_query_latency_us: u64,
}

/// Whether a snapshot shows slow inserts (average above 10ms or maximum above 100ms) or slow
/// queries (average above 100ms or maximum above 1s).
pub open spec fn spec_has_issues(s: MetricsSnapshot) -> bool {
    ||| s.avg_insert_latency_us > SLOW_AVG_INSERT_US
    ||| s.max_insert_latency_us > SLOW_MAX_INSERT_US
    ||| s.avg_query_latency_us > SLOW_AVG_QUERY_US
    ||| s.max_query_latency_us > SLOW_MAX_QUERY_US
}

/// A threshold that a snapshot exceeds, with the latency that exceeds it, in microseconds.
#[derive(Debug, Clone, Copy, PartialEq, Eq, Structural)]
pub enum PerformanceWarning {
    /// The average insert latency is above 10ms.
    HighAverageInsert(u64),
    /// The largest insert latency is above 100ms.
    HighMaxInsert(u64),
    /// The average query latency is above 100ms.
    HighAverageQuery(u64),
    /// The largest query latency is above 1s.
    HighMaxQuery(u64),
}

/// `w` when `cond` holds, otherwise nothing.
pub open spec fn warning_if(cond: bool, w: PerformanceWarning) -> Seq<PerformanceWarning> {
    if cond {
        seq![w]
    } else {
        Seq::empty()
    }
}

/// The warnings of a snapshot, one per exceeded threshold, in the order average insert,
/// maximum insert, average query, maximum query.
pub open spec fn warning_list(s: MetricsSnapshot) -> Seq<PerformanceWarning> {
    warning_if(s.avg_insert_latency_us > SLOW_AVG_INSERT_US, PerformanceWarning::HighAverageInsert(s.avg_insert_latency_us))
        + warning_if(s.max_insert_latency_us > SLOW_MAX_INSERT_US, PerformanceWarning::HighMaxInsert(s.max_insert_latency_us))
        + warning_if(s.avg_query_latency_us > SLOW_AVG_QUERY_US, PerformanceWarning::HighAverageQuery(s.avg_query_latency_us))
        + warning_if(s.max_query_latency_us > SLOW_MAX_QUERY_US, PerformanceWarning::HighMaxQuery(s.max_query_latency_us))
}

impl MetricsSnapshot {
    /// Whether the snapshot shows slow inserts or slow queries.
    pub fn has_performance_issues(&self) -> (r: bool)
        ensures
            r == spec_has_issues(*self),
    {
        let slow_inserts = self.avg_insert_latency_us > SLOW_AVG_INSERT_US
            || self.max_insert_latency_us > SLOW_MAX_INSERT_US;
        let slow_queries = self.avg_query_latency_us > SLOW_AVG_QUERY_US
            || self.max_query_latency_us > SLOW_MAX_QUERY_US;
        slow_inserts || slow_queries
    }

    /// One warning per exceeded threshold.
    pub fn performance_warnings(&self) -> (w: Vec<PerformanceWarning>)
        ensures
            w@ == warning_list(*self),
    {
        let mut w: Vec<PerformanceWarning> = Vec::new();
        if self.avg_insert_latency_us > SLOW_AVG_INSERT_US {
            w.push(PerformanceWarning::HighAverageInsert(self.avg_insert_latency_us));
        }
        if self.max_insert_latency_us > SLOW_MAX_INSERT_US {
            w.push(PerformanceWarning::HighMaxInsert(self.max_insert_latency_us));
        }
        if self.avg_query_latency_us > SLOW_AVG_QUERY_US {
            w.push(PerformanceWarning::HighAverageQuery(self.avg_query_latency_us));
        }
        if self.max_query_latency_us > SLOW_MAX_QUERY_US {
            w.push(PerformanceWarning::HighMaxQuery(self.max_query_latency_us));
        }
        proof {
            assert(w@ =~= warning_list(*self));
        }
        w
    }
}

/// A snapshot has warnings exactly when it shows performance issues.
pub proof fn lemma_warnings_iff_issues(s: MetricsSnapshot)
    ensures
        (warning_list(s).len() > 0) == spec_has_issues(s),
{
}

/// The counters after recording one operation of kind `op` that took `us` microseconds:
/// its count and latency sum grow (wrapping), its maximum takes the larger, and the
/// counters of the other kind stay.
pub open spec fn record_step(c: MetricsCounters, op: MetricOperation, us: u64) -> MetricsCounters {
    match op {
        MetricOperation::Insert => MetricsCounters {
            insert_count: wrap_add(c.insert_count, 1),
            insert_latency_us: wrap_add(c.insert_latency_us, us),
            max_insert_latency_us: max_u64(c.max_insert_latency_us, us),
            ..c
        },
        MetricOperation::Query => MetricsCounters {
            query_count: wrap_add(c.query_count, 1),
            query_latency_us: wrap_add(c.query_latency_us, us),
            max_query_latency_us: max_u64(c.max_query_latency_us, us),
            ..c
        },
    }
}

/// The counters of fresh (or reset) metrics after recording the operations `ops`, each a
/// kind and a latency in microseconds, in order.
pub open spec fn replay(ops: Seq<(MetricOperation, u64)>) -> MetricsCounters
    decreases ops.len(),
{
    if ops.len() == 0 {
        MetricsCounters {
            insert_count: 0,
            query_count: 0,
            insert_latency_us: 0,
            query_latency_us: 0,
            max_insert_latency_us: 0,
            max_query_latency_us: 0,
        }
    } else {
        record_step(replay(ops.drop_last()), ops.last().0, ops.last().1)
    }
}

/// The latencies of the operations of kind `op` among `ops`, in order.
pub open spec fn latencies_of(ops: Seq<(MetricOperation, u64)>, op: MetricOperation) -> Seq<u64>
    decreases ops.len(),
{
    if ops.len() == 0 {
        Seq::empty()
    } else if ops.last().0 == op {
        latencies_of(ops.drop_last(), op).push(ops.last().1)
    } else {
        latencies_of(ops.drop_last(), op)
    }
}

/// The sum of a sequence of latencies.
pub open spec fn total(latencies: Seq<u64>) -> nat
    decreases latencies.len(),
{
    if latencies.len() == 0 {
        0
    } else {
        total(latencies.drop_last()) + latencies.last() as nat
    }
}

/// The count, latency sum and largest latency of kind `op` in `c`.
pub open spec fn kind_counters(c: MetricsCounters, op: MetricOperation) -> (u64, u64, u64) {
    match op {
        MetricOperation::Insert => (c.insert_count, c.insert_latency_us, c.max_insert_latency_us),
        MetricOperation::Query => (c.query_count, c.query_latency_us, c.max_query_latency_us),
    }
}

/// Recording operations from fresh metrics counts those of each kind, sums their latencies
/// and keeps the largest (zero when there is none), as long as the sum fits in a `u64`; the
/// average of the statistics is then the sum divided by the count.
pub proof fn lemma_replay(ops: Seq<(MetricOperation, u64)>, op: MetricOperation)
    requires
        total(latencies_of(ops, op)) <= u64::MAX,
        ops.len() <= u64::MAX,
    ensures
        ({
            let l = latencies_of(ops, op);
            let (count, sum, max) = kind_counters(replay(ops), op);
            &&& count == l.len()
            &&& sum == total(l)
            &&& forall|i: int| 0 <= i < l.len() ==> l[i] <= max
            &&& l.len() > 0 ==> exists|i: int| 0 <= i < l.len() && l[i] == max
            &&& l.len() == 0 ==> max == 0
            &&& average(sum, count) == if l.len() == 0 { 0 } else { total(l) / l.len() }
        }),
    decreases ops.len(),
{
    if ops.len() > 0 {
        let init = ops.drop_last();
        let l = latencies_of(ops, op);
        let li = latencies_of(init, op);
        lemma_latencies_of_len(init, op);
        if ops.last().0 == op {
            assert(l.drop_last() =~= li);
        }
        lemma_replay(init, op);
        if ops.last().0 == op {
            let m = kind_counters(replay(ops), op).2;
            let pm = kind_counters(replay(init), op).2;
            assert(l.drop_last() =~= li);
            assert forall|i: int| 0 <= i < l.len() implies l[i] <= m by {
                if i < l.len() - 1 {
                    assert(l[i] == li[i]);
                }
            }
            if pm >= ops.last().1 && li.len() > 0 {
                let j = choose|j: int| 0 <= j < li.len() && li[j] == pm;
                assert(l[j] == li[j]);
            } else {
                assert(l[l.len() - 1] == ops.last().1);
            }
        }
    }
}

/// There are no more latencies of a kind than operations.
proof fn lemma_latencies_of_len(ops: Seq<(MetricOperation, u64)>, op: MetricOperation)
    ensures
        latencies_of(ops, op).len() <= ops.len(),
    decreases ops.len(),
{
    if ops.len() > 0 {
        lemma_latencies_of_len(ops.drop_last(), op);
    }
}

/// The kind of operation a timer measures.
#[derive(Debug, Clone, Copy, PartialEq, Eq, Structural)]
pub enum MetricOperation {
    Insert,
    Query,
}

/// Measures one operation from its start; `stop` records its latency.
pub struct MetricTimer {
    pub start: Instant,
    pub operation: MetricOperation,
}

impl MetricTimer {
    /// Starts timing an insert.
    pub fn insert() -> (t: Self)
        ensures
            t.operation == MetricOperation::Insert,
    {
        Self { start: instant_now(), operation: MetricOperation::Insert }
    }

    /// Starts timing a query.
    pub fn query() -> (t: Self)
        ensures
            t.operation == MetricOperation::Query,
    {
        Self { start: instant_now(), operation: MetricOperation::Query }
    }

    /// Stops the timer at `now` and records the time since its start as one operation of
    /// its kind.
    pub fn stop_at(self, now: &Instant, metrics: &mut PerformanceMetrics)
        ensures
            records_latency(
                old(metrics)@,
                final(metrics)@,
                self.operation,
                spec_duration_micros(spec_duration_since(*now, self.start)) as u64,
            ),
    {
        let latency = duration_since(now, &self.start);
        match self.operation {
            MetricOperation::Insert => metrics.record_insert_latency(latency),
            MetricOperation::Query => metrics.record_query_latency(latency),
        }
    }

    /// Stops the timer by the clock as it reads during the call and records the time since
    /// its start as one operation of its kind.
    pub fn stop(self, metrics: &mut PerformanceMetrics)
        ensures
            exists|now: Instant| #![trigger spec_duration_since(now, self.start)] records_latency(
                old(metrics)@,
                final(metrics)@,
                self.operation,
                spec_duration_micros(spec_duration_since(now, self.start)) as u64,
            ),
    {
        let now = instant_now();
        self.stop_at(&now, metrics);
    }
}

/// `after` is `before` with one operation of kind `op` that took `us` microseconds
/// recorded.
pub open spec fn records_latency(before: MetricsCounters, after: MetricsCounters, op: MetricOperation, us: u64) -> bool {
    after == record_step(before, op, us)
}

} // verus!
