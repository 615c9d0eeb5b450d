//! What a health check of the database finds: whether the connection answers, how long a
//! query takes, how large the database is, and the errors and warnings met on the way.

use vstd::prelude::*;
use std::time::Duration;
use crate::clock::{
    duration_as_millis, duration_from_secs, spec_duration_millis, spec_duration_secs,
    spec_duration_subsec_nanos,
};
use crate::db::cache::duration_longer;
use crate::db::error::{DatabaseError, error_text};
use crate::db::migration::texts;
use crate::text::{concat_str, decimal, join_strings, join_with, write_wide_decimal};

verus! {

/// Seconds a query may take before a check warns about it.
pub const SLOW_QUERY_THRESHOLD_SECS: u64 = 1;

/// Whether `latency` is longer than the slow-query threshold.
pub open spec fn is_slow(latency: Duration) -> bool {
    spec_duration_secs(latency) > SLOW_QUERY_THRESHOLD_SECS || (spec_duration_secs(latency)
        == SLOW_QUERY_THRESHOLD_SECS && spec_duration_subsec_nanos(latency) > 0)
}

/// The warning about a query that took `millis` milliseconds.
pub open spec fn slow_query_text(millis: nat) -> Seq<char> {
    "Slow query detected: "@ + decimal(millis) + "ms (threshold: "@ + decimal(
        SLOW_QUERY_THRESHOLD_SECS as nat * 1000,
    ) + "ms)"@
}

/// The findings of one health check, short of the free disk space.
#[derive(Debug, Clone)]
pub struct HealthFindings {
    pub connection_ok: bool,
    pub query_latency_ms: u64,
    pub database_size_bytes: u64,
    pub errors: Vec<String>,
    pub warnings: Vec<String>,
}

/// `a` and `b` agree but for the connection flag and the errors.
pub open spec fn same_but_errors(a: HealthFindings, b: HealthFindings) -> bool {
    &&& a.query_latency_ms == b.query_latency_ms
    &&& a.database_size_bytes == b.database_size_bytes
    &&& a.warnings@ == b.warnings@
}

impl HealthFindings {
    /// Findings before any check: no connection, nothing measured, nothing met.
    pub fn new() -> (h: Self)
        ensures
            !h.connection_ok,
            h.query_latency_ms == 0,
            h.database_size_bytes == 0,
            h.errors@.len() == 0,
            h.warnings@.len() == 0,
    {
        HealthFindings {
            connection_ok: false,
            query_latency_ms: 0,
            database_size_bytes: 0,
            errors: Vec::new(),
            warnings: Vec::new(),
        }
    }

    /// Whether the connection answers and no check failed.
    pub fn is_healthy(&self) -> (r: bool)
        ensures
            r == (self.connection_ok && self.errors@.len() == 0),
    {
        self.connection_ok && self.errors.len() == 0
    }

    /// Notes the outcome of asking the connection for an answer.
    pub fn record_connection(&mut self, outcome: &Result<(), DatabaseError>)
        ensures
            same_but_errors(*final(self), *old(self)),
            match outcome {
                Ok(_) => final(self).connection_ok && final(self).errors@ == old(self).errors@,
                Err(e) => !final(self).connection_ok && texts(final(self).errors@) == texts(
                    old(self).errors@,
                ).push("Connection check failed: "@ + error_text(*e)),
            },
    {
        match outcome {
            Ok(_) => {
                self.connection_ok = true;
            },
            Err(e) => {
                self.connection_ok = false;
                let ghost before = self.errors@;
                let t = e.to_message();
                self.errors.push(concat_str("Connection check failed: ", t.as_str()));
                proof {
                    assert(texts(self.errors@) =~= texts(before).push(
                        "Connection check failed: "@ + error_text(*e),
                    ));
                }
            },
        }
    }

    /// Notes how long the test query took, with a warning when it was slow, or why it
    /// failed.
    pub fn record_query_latency(&mut self, outcome: &Result<Duration, DatabaseError>)
        ensures
            final(self).connection_ok == old(self).connection_ok,
            final(self).database_size_bytes == old(self).database_size_bytes,
            match outcome {
                Ok(latency) => {
                    &&& final(self).query_latency_ms == spec_duration_millis(*latency) as u64
                    &&& final(self).errors@ == old(self).errors@
                    &&& texts(final(self).warnings@) == if is_slow(*latency) {
                        texts(old(self).warnings@).push(
                            slow_query_text(spec_duration_millis(*latency) as nat),
                        )
                    } else {
                        texts(old(self).warnings@)
                    }
                },
                Err(e) => {
                    &&& final(self).query_latency_ms == old(self).query_latency_ms
                    &&& final(self).warnings@ == old(self).warnings@
                    &&& texts(final(self).errors@) == texts(old(self).errors@).push(
                        "Query performance check failed: "@ + error_text(*e),
                    )
                },
            },
    {
        match outcome {
            Ok(latency) => {
                let millis = duration_as_millis(latency);
                self.query_latency_ms = millis as u64;
                let threshold = duration_from_secs(SLOW_QUERY_THRESHOLD_SECS);
                if duration_longer(latency, &threshold) {
                    let mut w = "Slow query detected: ".to_owned();
                    write_wide_decimal(&mut w, millis);
                    w.append("ms (threshold: ");
                    write_wide_decimal(&mut w, duration_as_millis(&threshold));
                    w.append("ms)");
                    let ghost before = self.warnings@;
                    self.warnings.push(w);
                    proof {
                        assert(texts(self.warnings@) =~= texts(before).push(
                            slow_query_text(spec_duration_millis(*latency) as nat),
                        ));
                    }
                }
            },
            Err(e) => {
                let ghost before = self.errors@;
                let t = e.to_message();
                self.errors.push(concat_str("Query performance check failed: ", t.as_str()));
                proof {
                    assert(texts(self.errors@) =~= texts(before).push(
                        "Query performance check failed: "@ + error_text(*e),
                    ));
                }
            },
        }
    }

    /// Notes why the disk space could not be checked, as a warning.
    pub fn record_disk_failure(&mut self, e: &DatabaseError)
        ensures
            final(self).connection_ok == old(self).connection_ok,
            final(self).query_latency_ms == old(self).query_latency_ms,
            final(self).database_size_bytes == old(self).database_size_bytes,
            final(self).errors@ == old(self).errors@,
            texts(final(self).warnings@) == texts(old(self).warnings@).push(
                "Disk space check failed: "@ + error_text(*e),
            ),
    {
        let ghost before = self.warnings@;
        let t = e.to_message();
        self.warnings.push(concat_str("Disk space check failed: ", t.as_str()));
        proof {
            assert(texts(self.warnings@) =~= texts(before).push(
                "Disk space check failed: "@ + error_text(*e),
            ));
        }
    }

    /// The one-line summary of the findings, except for a healthy check without warnings,
    /// whose summary shows the free disk space and is left to the caller.
    pub fn summary_line(&self) -> (r: Option<String>)
        ensures
            match r {
                None => self.connection_ok && self.errors@.len() == 0 && self.warnings@.len() == 0,
                Some(s) => if self.connection_ok && self.errors@.len() == 0 {
                    self.warnings@.len() > 0 && s@ == "Healthy with warnings: "@ + join_with(
                        texts(self.warnings@),
                        ", "@,
                    )
                } else {
                    s@ == "Unhealthy - errors: "@ + join_with(texts(self.errors@), ", "@)
                },
            },
    {
        if self.is_healthy() {
            if self.warnings.len() == 0 {
                None
            } else {
                let joined = join_strings(&self.warnings, ", ");
                Some(concat_str("Healthy with warnings: ", joined.as_str()))
            }
        } else {
            let joined = join_strings(&self.errors, ", ");
            Some(concat_str("Unhealthy - errors: ", joined.as_str()))
        }
    }
}

} // verus!
