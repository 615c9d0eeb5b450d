//! Progress of long migrations: counts of processed items, throttled progress lines and the
//! final summary.

use vstd::prelude::*;
use std::time::{Duration, Instant};
use vstd::string::StringExecFns;
use crate::clock::{
    duration_as_millis, duration_as_secs, duration_since, instant_now, spec_duration_millis,
    spec_duration_secs, spec_duration_since,
};
use crate::text::{decimal, write_decimal};

verus! {

/// Least time between two progress lines, in milliseconds.
pub const PROGRESS_INTERVAL_MS: u128 = 500;

/// A duration of `secs` seconds as shown to users: `Ns` below a minute, `Mm Ss` below an hour,
/// `Hh Mm` from an hour on.
pub open spec fn duration_text(secs: u64) -> Seq<char> {
    if secs < 60 {
        decimal(secs as nat) + "s"@
    } else if secs < 3600 {
        decimal((secs / 60) as nat) + "m "@ + decimal((secs % 60) as nat) + "s"@
    } else {
        decimal((secs / 3600) as nat) + "h "@ + decimal(((secs % 3600) / 60) as nat) + "m"@
    }
}

/// How a number of seconds is shown: under a minute, as seconds; under an hour, as whole
/// minutes and the seconds left over (below 60); from an hour on, as whole hours and the
/// whole minutes left over (below 60), with fewer than 60 seconds unshown.
pub proof fn lemma_duration_text_splits_time(secs: u64)
    ensures
        secs < 60 ==> duration_text(secs) == decimal(secs as nat) + "s"@,
        60 <= secs < 3600 ==> exists|m: nat, s: nat|
            #![trigger decimal(m), decimal(s)]
            duration_text(secs) == decimal(m) + "m "@ + decimal(s) + "s"@ && 1 <= m < 60 && s < 60
                && m * 60 + s == secs,
        secs >= 3600 ==> exists|h: nat, m: nat|
            #![trigger decimal(h), decimal(m)]
            duration_text(secs) == decimal(h) + "h "@ + decimal(m) + "m"@ && h >= 1 && m < 60
                && h * 3600 + m * 60 <= secs < h * 3600 + m * 60 + 60,
{
    if 60 <= secs < 3600 {
        let m = (secs / 60) as nat;
        let s = (secs % 60) as nat;
        assert(m * 60 + s == secs) by (nonlinear_arith)
            requires
                m == secs / 60,
                s == secs % 60,
        ;
        assert(duration_text(secs) == decimal(m) + "m "@ + decimal(s) + "s"@);
    }
    if secs >= 3600 {
        let h = (secs / 3600) as nat;
        let m = ((secs % 3600) / 60) as nat;
        assert(h * 3600 + m * 60 <= secs < h * 3600 + m * 60 + 60 && h >= 1 && m < 60) by (nonlinear_arith)
            requires
                secs >= 3600,
                h == secs / 3600,
                m == (secs % 3600) / 60,
        ;
        assert(duration_text(secs) == decimal(h) + "h "@ + decimal(m) + "m"@);
    }
}

/// A number of seconds as shown to users.
pub fn format_duration_secs(secs: u64) -> (s: String)
    ensures
        s@ == duration_text(secs),
{
    let mut s = String::new();
    if secs < 60 {
        write_decimal(&mut s, secs);
        s.append("s");
    } else if secs < 3600 {
        write_decimal(&mut s, secs / 60);
        s.append("m ");
        write_decimal(&mut s, secs % 60);
        s.append("s");
    } else {
        write_decimal(&mut s, secs / 3600);
        s.append("h ");
        write_decimal(&mut s, (secs % 3600) / 60);
        s.append("m");
    }
    proof {
        assert(s@ =~= duration_text(secs));
    }
    s
}

/// A duration as shown to users, by its whole seconds.
pub fn format_duration(duration: Duration) -> (s: String)
    ensures
        s@ == duration_text(spec_duration_secs(duration)),
{
    let secs = duration_as_secs(&duration);
    format_duration_secs(secs)
}

/// Counts the items a migration has processed out of a known total.
pub struct ProgressTracker {
    pub total_items: usize,
    pub processed_items: usize,
    pub start_time: Instant,
    pub last_update: Instant,
    pub label: String,
}

/// The final line of a run: `<label>: Completed <n> items in <duration>`.
pub open spec fn finish_text(label: Seq<char>, processed: usize, secs: u64) -> Seq<char> {
    label + ": Completed "@ + decimal(processed as nat) + " items in "@ + duration_text(secs)
}

impl ProgressTracker {
    /// A tracker of `total_items` items, none processed yet.
    pub fn new(total_items: usize, label: &str) -> (t: Self)
        ensures
            t.total_items == total_items,
            t.processed_items == 0,
            t.label@ == label@,
    {
        let now = instant_now();
        Self { total_items, processed_items: 0, start_time: now, last_update: now, label: label.to_owned() }
    }

    /// The instant of the last progress line (or of the start).
    pub open spec fn last_line_at(&self) -> Instant {
        self.last_update
    }

    /// The instant the tracker was created.
    pub open spec fn started_at(&self) -> Instant {
        self.start_time
    }

    /// Notes whether a progress line is due at `now`: the item count is known and at least
    /// 500ms passed since the last line; when that time has passed, `now` becomes the time of
    /// the last line.
    pub fn throttle(&mut self, now: Instant) -> (due: bool)
        ensures
            ({
                let waited = spec_duration_millis(spec_duration_since(now, old(self).last_line_at())) >= PROGRESS_INTERVAL_MS;
                &&& due == (waited && old(self).total_items != 0)
                &&& final(self).last_line_at() == if waited { now } else { old(self).last_line_at() }
            }),
            final(self).total_items == old(self).total_items,
            final(self).processed_items == old(self).processed_items,
            final(self).label == old(self).label,
            final(self).started_at() == old(self).started_at(),
    {
        let elapsed = duration_since(&now, &self.last_update);
        if duration_as_millis(&elapsed) < PROGRESS_INTERVAL_MS {
            return false;
        }
        self.last_update = now;
        self.total_items != 0
    }

    /// Adds `processed_count` processed items; returns whether a progress line is due (at most
    /// one per 500ms, and only when the total is known).
    pub fn update(&mut self, processed_count: usize) -> (due: bool)
        requires
            old(self).processed_items + processed_count <= usize::MAX,
        ensures
            final(self).processed_items == old(self).processed_items + processed_count,
            final(self).total_items == old(self).total_items,
            final(self).label == old(self).label,
            final(self).started_at() == old(self).started_at(),
            exists|now: Instant| {
                let waited = spec_duration_millis(#[trigger] spec_duration_since(now, old(self).last_line_at())) >= PROGRESS_INTERVAL_MS;
                &&& due == (waited && old(self).total_items != 0)
                &&& final(self).last_line_at() == if waited { now } else { old(self).last_line_at() }
            },
    {
        self.processed_items = self.processed_items + processed_count;
        let now = instant_now();
        let due = self.throttle(now);
        proof {
            let _ = spec_duration_since(now, old(self).last_line_at());
        }
        due
    }

    /// Sets the processed count; returns whether a progress line is due, as for
    /// [`ProgressTracker::update`].
    pub fn set_processed(&mut self, processed_count: usize) -> (due: bool)
        ensures
            final(self).processed_items == processed_count,
            final(self).total_items == old(self).total_items,
            final(self).label == old(self).label,
            final(self).started_at() == old(self).started_at(),
            exists|now: Instant| {
                let waited = spec_duration_millis(#[trigger] spec_duration_since(now, old(self).last_line_at())) >= PROGRESS_INTERVAL_MS;
                &&& due == (waited && old(self).total_items != 0)
                &&& final(self).last_line_at() == if waited { now } else { old(self).last_line_at() }
            },
    {
        self.processed_items = processed_count;
        let now = instant_now();
        let due = self.throttle(now);
        proof {
            let _ = spec_duration_since(now, old(self).last_line_at());
        }
        due
    }

    /// The final line of the run: `<label>: Completed <n> items in <time since start>`.
    pub fn finish(&self) -> (line: String)
        ensures
            exists|now: Instant| line@ == finish_text(self.label@, self.processed_items,
                spec_duration_secs(#[trigger] spec_duration_since(now, self.started_at()))),
    {
        let now = instant_now();
        self.finish_at(&now)
    }

    /// The final line of the run when it ends at `now`.
    pub fn finish_at(&self, now: &Instant) -> (line: String)
        ensures
            line@ == finish_text(self.label@, self.processed_items,
                spec_duration_secs(spec_duration_since(*now, self.started_at()))),
    {
        let elapsed = duration_since(now, &self.start_time);
        let mut line = self.label.clone();
        line.append(": Completed ");
        write_decimal(&mut line, self.processed_items as u64);
        line.append(" items in ");
        let d = format_duration(elapsed);
        line.append(d.as_str());
        proof {
            assert(line@ =~= finish_text(self.label@, self.processed_items,
                spec_duration_secs(spec_duration_since(*now, self.started_at()))));
        }
        line
    }
}

} // verus!
