//! The options of the price ladder, and its chase tracker: follows the best bid or ask as it moves, and fades
//! the highlighted move once the price stops moving in that direction.

use vstd::prelude::*;
use std::time::Duration;
use crate::exchange::price::{Price, PriceStep};
use crate::clock::{duration_as_millis, duration_from_millis, spec_duration_millis};

verus! {

/// How long trades stay on the ladder by default: eight minutes, in milliseconds.
pub const TRADE_RETENTION_MS: u64 = 480_000;

/// Options of the price ladder.
#[derive(Debug, Clone, Copy)]
pub struct Config {
    /// Whether the spread is shown between asks and bids.
    pub show_spread: bool,
    /// How long trades stay on the ladder.
    pub trade_retention: Duration,
}

impl Default for Config {
    /// No spread row, and trades kept for eight minutes.
    fn default() -> (c: Self)
        ensures
            !c.show_spread,
            spec_duration_millis(c.trade_retention) == TRADE_RETENTION_MS,
    {
        Self { show_spread: false, trade_retention: duration_from_millis(TRADE_RETENTION_MS) }
    }
}

impl Config {
    /// How long trades stay on the ladder, in whole milliseconds cut to 64 bits.
    pub fn retention_ms(&self) -> (ms: u64)
        ensures
            ms == spec_duration_millis(self.trade_retention) as u64,
    {
        duration_as_millis(&self.trade_retention) as u64
    }
}

/// How long trades may outstay the retention before they are cleaned up: a tenth of the
/// retention, and at least five seconds.
pub open spec fn cleanup_step_ms(retention_ms: u64) -> u64 {
    if retention_ms / 10 > 5_000 {
        (retention_ms / 10) as u64
    } else {
        5_000
    }
}

/// `a - b`, or zero when `b` is larger.
pub open spec fn saturating_sub(a: u64, b: u64) -> u64 {
    if a >= b {
        (a - b) as u64
    } else {
        0
    }
}

/// When a cleanup is due at `now_ms`, with the oldest trade at `oldest_ms` and trades kept
/// for `retention_ms`: the time from which trades are kept.
pub open spec fn spec_cleanup_cutoff(retention_ms: u64, oldest_ms: Option<u64>, now_ms: u64) -> Option<u64> {
    match oldest_ms {
        None => None,
        Some(oldest) => if retention_ms == 0 {
            None
        } else if saturating_sub(now_ms, oldest) < retention_ms + cleanup_step_ms(retention_ms) {
            None
        } else {
            Some(saturating_sub(now_ms, retention_ms))
        },
    }
}

/// The time from which trades are kept, when the oldest trade at `oldest_ms` has outstayed
/// the retention by a cleanup step at `now_ms`; `None` when no cleanup is due (no trades, no
/// retention, or none old enough).
pub fn cleanup_cutoff(retention_ms: u64, oldest_ms: Option<u64>, now_ms: u64) -> (r: Option<u64>)
    requires
        oldest_ms is Some && retention_ms != 0 ==> retention_ms + cleanup_step_ms(retention_ms) <= u64::MAX,
    ensures
        r == spec_cleanup_cutoff(retention_ms, oldest_ms, now_ms),
{
    let oldest = match oldest_ms {
        Some(t) => t,
        None => return None,
    };
    if retention_ms == 0 {
        return None;
    }
    let step = if retention_ms / 10 > 5_000 { retention_ms / 10 } else { 5_000 };
    let threshold = retention_ms + step;
    if now_ms.saturating_sub(oldest) < threshold {
        return None;
    }
    Some(now_ms.saturating_sub(retention_ms))
}

/// How many trades at the front of `times`, oldest first, are older than `keep_from`: those
/// a cleanup drops.
pub fn leading_expired(times: &[u64], keep_from: u64) -> (n: usize)
    ensures
        n <= times@.len(),
        forall|i: int| 0 <= i < n ==> times@[i] < keep_from,
        n < times@.len() ==> times@[n as int] >= keep_from,
{
    let mut n: usize = 0;
    while n < times.len() && times[n] < keep_from
        invariant
            n <= times@.len(),
            forall|i: int| 0 <= i < n ==> times@[i] < keep_from,
        decreases times@.len() - n,
    {
        n = n + 1;
    }
    n
}

/// The rows of the ladder around the spread: row 0 is the spread, rows 1, 2, ... the bids
/// from the best bid down, rows -1, -2, ... the asks from the best ask up, one tick apart.
#[derive(Debug, Clone, Copy)]
pub struct PriceGrid {
    pub best_bid: Price,
    pub best_ask: Price,
    pub tick: PriceStep,
}

/// The price of row `idx` of `grid`, none for the spread row.
pub open spec fn grid_price(grid: PriceGrid, idx: i32) -> Option<int> {
    if idx == 0 {
        None
    } else if idx > 0 {
        Some(grid.best_bid.units - (idx - 1) * grid.tick.units)
    } else {
        Some(grid.best_ask.units + (-1 - idx) * grid.tick.units)
    }
}

impl PriceGrid {
    /// The price of row `idx`; `None` for the spread row. The price must fit a price.
    pub fn index_to_price(&self, idx: i32) -> (r: Option<Price>)
        requires
            grid_price(*self, idx) matches Some(p) ==> i64::MIN <= p <= i64::MAX,
        ensures
            match grid_price(*self, idx) {
                None => r is None,
                Some(p) => r matches Some(q) && q.units == p,
            },
    {
        if idx == 0 {
            return None;
        }
        if idx > 0 {
            let off = (idx - 1) as i64;
            proof {
                let t = self.tick.units as int;
                let o = off as int;
                assert(o == idx - 1);
                assert(-o * t == -((idx - 1) * t)) by (nonlinear_arith)
                    requires
                        o == idx - 1,
                ;
            }
            Some(self.best_bid.add_steps(-off, self.tick))
        } else {
            let off = (-1 - idx) as i64;
            Some(self.best_ask.add_steps(off, self.tick))
        }
    }
}

/// The direction in which the best price moves while it is chased.
#[derive(Debug, Clone, Copy, PartialEq, Eq, Structural)]
pub enum Direction {
    Up,
    Down,
}

/// The state of a chase.
#[derive(Debug, Clone, Copy, PartialEq, Eq, Structural)]
pub enum ChaseProgress {
    /// No move is being followed.
    Idle,
    /// The best price keeps moving in `direction`, from `start` to `end`.
    Chasing { direction: Direction, start: Price, end: Price, consecutive: u32 },
    /// The move from `start` to `end` has stopped and is fading out.
    Fading { direction: Direction, start: Price, end: Price, start_consecutive: u32, fade_steps: u32 },
}

/// How the best price moved relative to the last one, seen from the chased side.
pub enum Movement {
    /// Further in the chased direction.
    Continue,
    /// Against the chased direction.
    Reverse,
    /// Not at all.
    Unchanged,
}

/// The direction a side of the book is chased in: bids up, asks down.
pub open spec fn side_direction(is_bid: bool) -> Direction {
    if is_bid {
        Direction::Up
    } else {
        Direction::Down
    }
}

/// How `current` moved from `last` for the given side.
pub open spec fn movement(last: Price, current: Price, is_bid: bool) -> Movement {
    if current.units == last.units {
        Movement::Unchanged
    } else if (is_bid && current.units > last.units) || (!is_bid && current.units < last.units) {
        Movement::Continue
    } else {
        Movement::Reverse
    }
}

/// `n + 1`, saturating at `u32::MAX`.
pub open spec fn saturating_inc(n: u32) -> u32 {
    if n == u32::MAX {
        u32::MAX
    } else {
        (n + 1) as u32
    }
}

/// The chase state after the best price moved from `last` to `current` on the given side.
///
/// A move in the chased direction extends a chase in that direction, or starts a new chase
/// from `last` (when idle or fading). A reversal or a pause turns a chase into a fading
/// segment that keeps its extreme; while fading, each reversal or pause counts one more fade
/// step. Everything else leaves the state as it is.
pub open spec fn next_progress(state: ChaseProgress, last: Price, current: Price, is_bid: bool) -> ChaseProgress {
    let direction = side_direction(is_bid);
    match movement(last, current, is_bid) {
        Movement::Continue => match state {
            ChaseProgress::Chasing { direction: d, start, consecutive, .. } => if d == direction {
                ChaseProgress::Chasing { direction, start, end: current, consecutive: saturating_inc(consecutive) }
            } else {
                state
            },
            _ => ChaseProgress::Chasing { direction, start: last, end: current, consecutive: 1 },
        },
        _ => match state {
            ChaseProgress::Chasing { direction: d, start, end, consecutive } => if consecutive > 0 {
                ChaseProgress::Fading { direction: d, start, end, start_consecutive: consecutive, fade_steps: 0 }
            } else {
                state
            },
            ChaseProgress::Fading { direction: d, start, end, start_consecutive, fade_steps } => ChaseProgress::Fading {
                direction: d,
                start,
                end,
                start_consecutive,
                fade_steps: saturating_inc(fade_steps),
            },
            ChaseProgress::Idle => ChaseProgress::Idle,
        },
    }
}

/// `start` lies strictly before `end` in direction `d`.
pub open spec fn strictly_toward(d: Direction, start: Price, end: Price) -> bool {
    match d {
        Direction::Up => start.units < end.units,
        Direction::Down => start.units > end.units,
    }
}

/// Follows the best price of one side of the book.
#[derive(Debug)]
pub struct ChaseTracker {
    /// Last known best price.
    pub last_best: Option<Price>,
    pub state: ChaseProgress,
}

impl Default for ChaseTracker {
    fn default() -> (t: Self)
        ensures
            t.last_best is None,
            t.state == ChaseProgress::Idle,
    {
        ChaseTracker { last_best: None, state: ChaseProgress::Idle }
    }
}

impl ChaseTracker {
    /// A tracker that follows no move yet.
    pub fn new() -> (t: Self)
        ensures
            t.last_best is None,
            t.state == ChaseProgress::Idle,
            t.wf(),
    {
        ChaseTracker { last_best: None, state: ChaseProgress::Idle }
    }

    /// The segment of a chase or fade runs strictly in its direction, counts at least one
    /// move, and a running chase ends at the last known best price.
    pub open spec fn wf(&self) -> bool {
        match self.state {
            ChaseProgress::Idle => true,
            ChaseProgress::Chasing { direction, start, end, consecutive } => {
                &&& consecutive >= 1
                &&& strictly_toward(direction, start, end)
                &&& self.last_best == Some(end)
            },
            ChaseProgress::Fading { direction, start, end, start_consecutive, .. } => {
                &&& start_consecutive >= 1
                &&& strictly_toward(direction, start, end)
                &&& self.last_best is Some
            },
        }
    }

    /// The tracker follows moves of the side `is_bid` (when it follows one at all).
    pub open spec fn follows_side(&self, is_bid: bool) -> bool {
        match self.state {
            ChaseProgress::Idle => true,
            ChaseProgress::Chasing { direction, .. } => direction == side_direction(is_bid),
            ChaseProgress::Fading { direction, .. } => direction == side_direction(is_bid),
        }
    }

    /// Takes the new best price of the side `is_bid`. Without a best price the tracker resets;
    /// otherwise the chase advances by [`next_progress`] from the last known best price (when
    /// there is one) and the new price becomes the last known one.
    pub fn update(&mut self, current_best: Option<Price>, is_bid: bool)
        ensures
            match current_best {
                None => final(self).last_best is None && final(self).state == ChaseProgress::Idle,
                Some(current) => {
                    &&& final(self).last_best == Some(current)
                    &&& final(self).state == match old(self).last_best {
                        Some(last) => next_progress(old(self).state, last, current, is_bid),
                        None => old(self).state,
                    }
                },
            },
            old(self).wf() && old(self).follows_side(is_bid) ==> final(self).wf() && final(self).follows_side(is_bid),
            *final(self) == chase_step(*old(self), current_best, is_bid),
    {
        let current = match current_best {
            Some(c) => c,
            None => {
                self.reset();
                return;
            },
        };
        if let Some(last) = self.last_best {
            let direction = if is_bid { Direction::Up } else { Direction::Down };
            let is_continue = match direction {
                Direction::Up => current.units > last.units,
                Direction::Down => current.units < last.units,
            };
            let is_reverse = match direction {
                Direction::Up => current.units < last.units,
                Direction::Down => current.units > last.units,
            };
            let is_unchanged = current.units == last.units;
            let next = match self.state {
                ChaseProgress::Chasing { direction: sdir, start, consecutive, .. } if is_continue && sdir == direction => {
                    ChaseProgress::Chasing {
                        direction,
                        start,
                        end: current,
                        consecutive: consecutive.saturating_add(1),
                    }
                },
                ChaseProgress::Idle if is_continue => ChaseProgress::Chasing {
                    direction,
                    start: last,
                    end: current,
                    consecutive: 1,
                },
                ChaseProgress::Fading { .. } if is_continue => ChaseProgress::Chasing {
                    direction,
                    start: last,
                    end: current,
                    consecutive: 1,
                },
                ChaseProgress::Chasing { direction: sdir, start, end, consecutive } if (is_reverse || is_unchanged)
                    && consecutive > 0 => ChaseProgress::Fading {
                    direction: sdir,
                    start,
                    end,
                    start_consecutive: consecutive,
                    fade_steps: 0,
                },
                ChaseProgress::Fading { direction: sdir, start, end, start_consecutive, fade_steps } if is_unchanged
                    || is_reverse => ChaseProgress::Fading {
                    direction: sdir,
                    start,
                    end,
                    start_consecutive,
                    fade_steps: fade_steps.saturating_add(1),
                },
                ChaseProgress::Idle if is_unchanged => ChaseProgress::Idle,
                _ => self.state,
            };
            self.state = next;
        }
        self.last_best = Some(current);
    }

    /// Forgets the last known best price and any chase.
    pub fn reset(&mut self)
        ensures
            final(self).last_best is None,
            final(self).state == ChaseProgress::Idle,
    {
        self.last_best = None;
        self.state = ChaseProgress::Idle;
    }

    /// The highlighted segment, if any: its start and end prices, the number of moves of the
    /// chase, and how many updates it has been fading (zero while it is still running).
    pub fn segment_steps(&self) -> (r: Option<(Price, Price, u32, u32)>)
        ensures
            r == (match self.state {
                ChaseProgress::Chasing { start, end, consecutive, .. } => Some((start, end, consecutive, 0u32)),
                ChaseProgress::Fading { start, end, start_consecutive, fade_steps, .. } => Some(
                    (start, end, start_consecutive, fade_steps),
                ),
                ChaseProgress::Idle => None,
            }),
    {
        match self.state {
            ChaseProgress::Chasing { start, end, consecutive, .. } => Some((start, end, consecutive, 0)),
            ChaseProgress::Fading { start, end, start_consecutive, fade_steps, .. } => Some(
                (start, end, start_consecutive, fade_steps),
            ),
            ChaseProgress::Idle => None,
        }
    }
}

/// A tracker fed with one side of the book keeps its segments well formed: every update of a
/// well-formed tracker that follows that side gives a well-formed tracker that still follows it.
pub proof fn lemma_chase_update_preserves_wf(t: ChaseTracker, last: Price, current: Price, is_bid: bool)
    requires
        t.wf(),
        t.follows_side(is_bid),
        t.last_best == Some(last),
    ensures
        ({
            let next = ChaseTracker { last_best: Some(current), state: next_progress(t.state, last, current, is_bid) };
            next.wf() && next.follows_side(is_bid)
        }),
{
}

/// The tracker after `update(p, is_bid)`, as `update` states it.
pub open spec fn chase_step(t: ChaseTracker, p: Option<Price>, is_bid: bool) -> ChaseTracker {
    match p {
        None => ChaseTracker { last_best: None, state: ChaseProgress::Idle },
        Some(current) => ChaseTracker {
            last_best: Some(current),
            state: match t.last_best {
                Some(last) => next_progress(t.state, last, current, is_bid),
                None => t.state,
            },
        },
    }
}

/// A fresh tracker after the updates `prices` of the side `is_bid`, in order.
pub open spec fn chase_run(prices: Seq<Option<Price>>, is_bid: bool) -> ChaseTracker
    decreases prices.len(),
{
    if prices.len() == 0 {
        ChaseTracker { last_best: None, state: ChaseProgress::Idle }
    } else {
        chase_step(chase_run(prices.drop_last(), is_bid), prices.last(), is_bid)
    }
}

/// Fed with the best prices of one side from a fresh start, a tracker's segment always runs
/// in that side's direction: upward for bids, downward for asks.
pub proof fn lemma_chase_run_follows_side(prices: Seq<Option<Price>>, is_bid: bool)
    ensures
        chase_run(prices, is_bid).wf(),
        chase_run(prices, is_bid).follows_side(is_bid),
        match chase_run(prices, is_bid).state {
            ChaseProgress::Chasing { start, end, .. } => if is_bid {
                start.units < end.units
            } else {
                start.units > end.units
            },
            ChaseProgress::Fading { start, end, .. } => if is_bid {
                start.units < end.units
            } else {
                start.units > end.units
            },
            ChaseProgress::Idle => true,
        },
    decreases prices.len(),
{
    if prices.len() > 0 {
        let before = chase_run(prices.drop_last(), is_bid);
        lemma_chase_run_follows_side(prices.drop_last(), is_bid);
        match prices.last() {
            Some(current) => match before.last_best {
                Some(last) => lemma_chase_update_preserves_wf(before, last, current, is_bid),
                None => {},
            },
            None => {},
        }
    }
}

/// When the best price has stayed at `q` since the tracker was last reset (or since the
/// start), the tracker highlights no segment.
pub proof fn lemma_chase_run_unchanged_price_idle(prices: Seq<Option<Price>>, is_bid: bool, k: int, q: Price)
    requires
        0 <= k <= prices.len(),
        k == 0 || prices[k - 1] is None,
        forall|j: int| k <= j < prices.len() ==> prices[j] == Some(q),
    ensures
        chase_run(prices, is_bid).state == ChaseProgress::Idle,
        prices.len() > k ==> chase_run(prices, is_bid).last_best == Some(q),
    decreases prices.len(),
{
    if prices.len() > k {
        let p = prices.drop_last();
        assert forall|j: int| k <= j < p.len() implies p[j] == Some(q) by {
            assert(p[j] == prices[j]);
        }
        if k > 0 && k < prices.len() {
            assert(p[k - 1] == prices[k - 1]);
        }
        lemma_chase_run_unchanged_price_idle(p, is_bid, k, q);
        assert(prices.last() == prices[prices.len() - 1]);
    } else if prices.len() > 0 {
        assert(prices.last() == prices[k - 1]);
    }
}

/// The start and end of the segment a state highlights, if any.
pub open spec fn segment_ends(state: ChaseProgress) -> Option<(Price, Price)> {
    match state {
        ChaseProgress::Idle => None,
        ChaseProgress::Chasing { start, end, .. } => Some((start, end)),
        ChaseProgress::Fading { start, end, .. } => Some((start, end)),
    }
}

/// When the best price does not move further in the chased direction (it stays, or moves
/// back), an update keeps the segment where it was: a running chase stops and fades out
/// from the extreme it reached, with its move count, and a fading one keeps fading.
pub proof fn lemma_chase_stop_keeps_extreme(t: ChaseTracker, last: Price, current: Price, is_bid: bool)
    requires
        t.last_best == Some(last),
        is_bid ==> current.units <= last.units,
        !is_bid ==> current.units >= last.units,
    ensures
        segment_ends(chase_step(t, Some(current), is_bid).state) == segment_ends(t.state),
        chase_step(t, Some(current), is_bid).last_best == Some(current),
        (t.state matches ChaseProgress::Chasing { direction, consecutive, .. } && consecutive > 0)
            ==> (chase_step(t, Some(current), is_bid).state matches ChaseProgress::Fading {
                direction: d2,
                start_consecutive,
                fade_steps,
                ..
            } && d2 == t.state->Chasing_direction && start_consecutive == t.state->Chasing_consecutive
                && fade_steps == 0),
        t.state is Fading ==> chase_step(t, Some(current), is_bid).state is Fading,
        t.state is Idle ==> chase_step(t, Some(current), is_bid).state is Idle,
{
}

/// When the best price moves further in the chased direction, a running chase of that
/// side extends to the new price from the same start, and otherwise a new chase starts
/// from the last best price to the new one.
pub proof fn lemma_chase_continues(t: ChaseTracker, last: Price, current: Price, is_bid: bool)
    requires
        t.last_best == Some(last),
        is_bid ==> current.units > last.units,
        !is_bid ==> current.units < last.units,
        t.follows_side(is_bid),
    ensures
        ({
            let next = chase_step(t, Some(current), is_bid).state;
            match t.state {
                ChaseProgress::Chasing { start, .. } => segment_ends(next) == Some((start, current)) && next is Chasing,
                _ => segment_ends(next) == Some((last, current)) && (next matches ChaseProgress::Chasing {
                    consecutive,
                    ..
                } && consecutive == 1),
            }
        }),
{
}

} // verus!
