//! Results of recent queries kept for reuse: entries live for a time to live, each cache
//! holds a bounded number of them, and a ticker's entries can be dropped at once.

use vstd::prelude::*;
use std::sync::Arc;
use std::time::{Duration, Instant};
use crate::clock::{
    duration_as_secs, duration_from_secs, duration_since, duration_subsec_nanos, instant_now,
    spec_duration_secs, spec_duration_since, spec_duration_subsec_nanos,
};
use crate::db::config::CacheStats;
use crate::exchange::timeframe::Timeframe;

verus! {

/// `Arc::clone`: another handle on the same value.
#[verifier::external_body]
fn arc_clone<V>(a: &Arc<V>) -> (r: Arc<V>)
    ensures
        r == *a,
{
    Arc::clone(a)
}

/// Entries each cache holds by default.
pub const DEFAULT_CACHE_SIZE: usize = 100;

/// Seconds an entry stays valid by default.
pub const DEFAULT_CACHE_TTL_SECS: u64 = 300;

/// Whether `a` is longer than `b`: durations compare by whole seconds, then nanoseconds.
pub open spec fn longer_than(a: Duration, b: Duration) -> bool {
    spec_duration_secs(a) > spec_duration_secs(b) || (spec_duration_secs(a) == spec_duration_secs(b)
        && spec_duration_subsec_nanos(a) > spec_duration_subsec_nanos(b))
}

/// Whether `a` is longer than `b`.
pub fn duration_longer(a: &Duration, b: &Duration) -> (r: bool)
    ensures
        r == longer_than(*a, *b),
{
    let sa = duration_as_secs(a);
    let sb = duration_as_secs(b);
    sa > sb || (sa == sb && duration_subsec_nanos(a) > duration_subsec_nanos(b))
}

/// What a cached query asked for: a ticker, a timeframe (none for trades) and a time range.
#[derive(Debug, Clone, Copy, PartialEq, Eq, Structural)]
pub struct CacheKey {
    pub ticker_id: i32,
    pub timeframe: Option<Timeframe>,
    pub start_time: u64,
    pub end_time: u64,
}

/// A cached result and when it was stored.
pub struct CacheEntry<V> {
    pub data: Arc<V>,
    pub cached_at: Instant,
}

impl<V> CacheEntry<V> {
    /// `data`, stored as of now.
    pub fn new(data: V) -> (e: Self)
        ensures
            *e.data == data,
    {
        CacheEntry { data: Arc::new(data), cached_at: instant_now() }
    }

    /// Whether more than `ttl` has passed since the entry was stored, by the clock as it
    /// reads during the call.
    pub fn is_expired(&self, ttl: &Duration) -> (r: bool)
        ensures
            exists|now: Instant| r == longer_than(#[trigger] spec_duration_since(now, self.cached_at), *ttl),
    {
        let now = instant_now();
        self.is_expired_at(&now, ttl)
    }

    /// Whether more than `ttl` has passed from the storing of the entry to `now`.
    pub fn is_expired_at(&self, now: &Instant, ttl: &Duration) -> (r: bool)
        ensures
            r == longer_than(spec_duration_since(*now, self.cached_at), *ttl),
    {
        let age = duration_since(now, &self.cached_at);
        duration_longer(&age, ttl)
    }
}

/// The cached result of `key` among `s`, with when it was stored, if any.
pub open spec fn find_entry<V>(s: Seq<(CacheKey, Arc<V>, Instant)>, key: CacheKey) -> Option<(Arc<V>, Instant)>
    decreases s.len(),
{
    if s.len() == 0 {
        None
    } else if s[0].0 == key {
        Some((s[0].1, s[0].2))
    } else {
        find_entry(s.drop_first(), key)
    }
}

/// `s` without the entry of `key`.
pub open spec fn without_key<V>(s: Seq<(CacheKey, Arc<V>, Instant)>, key: CacheKey) -> Seq<(CacheKey, Arc<V>, Instant)> {
    s.filter(|e: (CacheKey, Arc<V>, Instant)| e.0 != key)
}

/// `s` without the entries of ticker `ticker_id`.
pub open spec fn without_ticker<V>(s: Seq<(CacheKey, Arc<V>, Instant)>, ticker_id: i32) -> Seq<(CacheKey, Arc<V>, Instant)> {
    s.filter(|e: (CacheKey, Arc<V>, Instant)| e.0.ticker_id != ticker_id)
}

/// The keys of `s` are distinct.
pub open spec fn distinct_keys<V>(s: Seq<(CacheKey, Arc<V>, Instant)>) -> bool {
    forall|i: int, j: int| 0 <= i < j < s.len() ==> s[i].0 != s[j].0
}

/// The key, result and storage time of each entry.
pub open spec fn entries_view<V>(v: Seq<(CacheKey, CacheEntry<V>)>) -> Seq<(CacheKey, Arc<V>, Instant)> {
    v.map_values(|e: (CacheKey, CacheEntry<V>)| (e.0, e.1.data, e.1.cached_at))
}

/// The entries left of `s` before storing into a cache bounded by `max_entries`: the oldest
/// is dropped when the cache is full.
pub open spec fn evict_for<V>(s: Seq<(CacheKey, Arc<V>, Instant)>, max_entries: usize) -> Seq<(CacheKey, Arc<V>, Instant)> {
    if s.len() >= max_entries && s.len() > 0 {
        s.drop_first()
    } else {
        s
    }
}

/// What looking `key` up at `now` does to a cache that holds it: an entry older than `ttl`
/// is dropped and nothing is returned, else its result is returned and the cache is unchanged.
pub open spec fn lookup_outcome<V>(
    before: Seq<(CacheKey, Arc<V>, Instant)>,
    after: Seq<(CacheKey, Arc<V>, Instant)>,
    key: CacheKey,
    ttl: Duration,
    r: Option<Arc<V>>,
    now: Instant,
) -> bool {
    let (data, cached_at) = find_entry(before, key)->0;
    if longer_than(spec_duration_since(now, cached_at), ttl) {
        r is None && after == without_key(before, key)
    } else {
        r == Some(data) && after == before
    }
}

/// Results of one kind of query, oldest first, one per key.
pub struct ResultCache<V> {
    entries: Vec<(CacheKey, CacheEntry<V>)>,
}

impl<V> View for ResultCache<V> {
    type V = Seq<(CacheKey, Arc<V>, Instant)>;

    closed spec fn view(&self) -> Seq<(CacheKey, Arc<V>, Instant)> {
        entries_view(self.entries@)
    }
}

proof fn lemma_find_none<V>(s: Seq<(CacheKey, Arc<V>, Instant)>, key: CacheKey)
    requires
        forall|i: int| 0 <= i < s.len() ==> s[i].0 != key,
    ensures
        find_entry(s, key) is None,
    decreases s.len(),
{
    if s.len() > 0 {
        lemma_find_none(s.drop_first(), key);
    }
}

proof fn lemma_find_at<V>(s: Seq<(CacheKey, Arc<V>, Instant)>, key: CacheKey, i: int)
    requires
        0 <= i < s.len(),
        s[i].0 == key,
        forall|j: int| 0 <= j < i ==> s[j].0 != key,
    ensures
        find_entry(s, key) == Some((s[i].1, s[i].2)),
    decreases s.len(),
{
    if i > 0 {
        lemma_find_at(s.drop_first(), key, i - 1);
    }
}

impl<V> ResultCache<V> {
    #[verifier::type_invariant]
    spec fn keys_distinct(self) -> bool {
        distinct_keys(self@)
    }

    /// An empty cache.
    pub fn new() -> (c: Self)
        ensures
            c@.len() == 0,
    {
        let c = Self { entries: Vec::new() };
        proof {
            assert(c@ =~= Seq::<(CacheKey, Arc<V>, Instant)>::empty());
        }
        c
    }

    /// Number of entries.
    pub fn len(&self) -> (n: usize)
        ensures
            n == self@.len(),
    {
        self.entries.len()
    }

    fn position(&self, key: &CacheKey) -> (r: Option<usize>)
        ensures
            match r {
                Some(i) => i < self@.len() && self@[i as int].0 == *key && find_entry(self@, *key) == Some(
                    (self@[i as int].1, self@[i as int].2),
                ),
                None => find_entry(self@, *key) is None && forall|j: int| 0 <= j < self@.len() ==> self@[j].0 != *key,
            },
    {
        let mut i: usize = 0;
        while i < self.entries.len()
            invariant
                i <= self@.len(),
                self@.len() == self.entries@.len(),
                forall|j: int| 0 <= j < i ==> self@[j].0 != *key,
            decreases self@.len() - i,
        {
            if self.entries[i].0 == *key {
                proof {
                    lemma_find_at(self@, *key, i as int);
                }
                return Some(i);
            }
            i = i + 1;
        }
        proof {
            lemma_find_none(self@, *key);
        }
        None
    }

    /// The result cached for `key` when looked up at `now`, unless by then it is older than
    /// `ttl`: an expired entry is dropped and nothing is returned.
    pub fn get_at(&mut self, key: &CacheKey, ttl: &Duration, now: &Instant) -> (r: Option<Arc<V>>)
        ensures
            find_entry(old(self)@, *key) is None ==> r is None && final(self)@ == old(self)@,
            find_entry(old(self)@, *key) is Some ==> lookup_outcome(old(self)@, final(self)@, *key, *ttl, r, *now),
    {
        proof {
            use_type_invariant(&*self);
        }
        match self.position(key) {
            None => None,
            Some(i) => {
                proof {
                    assert(self@[i as int].2 == self.entries@[i as int].1.cached_at);
                    assert(self@[i as int].1 == self.entries@[i as int].1.data);
                }
                let ghost before = self@;
                if self.entries[i].1.is_expired_at(now, ttl) {
                    let mut entries = Vec::new();
                    std::mem::swap(&mut entries, &mut self.entries);
                    entries.remove(i);
                    proof {
                        assert(entries_view(entries@)
                            =~= before.remove(i as int));
                        lemma_remove_is_without(before, i as int, *key);
                        lemma_remove_keeps_distinct(before, i as int);
                    }
                    self.entries = entries;
                    None
                } else {
                    Some(arc_clone(&self.entries[i].1.data))
                }
            },
        }
    }

    /// The result cached for `key`, unless it is older than `ttl` by the clock as it reads
    /// during the call: an expired entry is dropped.
    pub fn get(&mut self, key: &CacheKey, ttl: &Duration) -> (r: Option<Arc<V>>)
        ensures
            find_entry(old(self)@, *key) is None ==> r is None && final(self)@ == old(self)@,
            find_entry(old(self)@, *key) is Some ==> exists|now: Instant| #[trigger] lookup_outcome(
                old(self)@,
                final(self)@,
                *key,
                *ttl,
                r,
                now,
            ),
    {
        let now = instant_now();
        self.get_at(key, ttl, &now)
    }

    /// Stores `data` for `key` as of now, first dropping the oldest entry when the cache
    /// holds `max_entries` or more.
    pub fn put(&mut self, key: CacheKey, data: V, max_entries: usize)
        ensures
            find_entry(final(self)@, key) matches Some((d, _)) && *d == data,
            forall|k: CacheKey| k != key ==> #[trigger] find_entry(final(self)@, k) == find_entry(
                evict_for(old(self)@, max_entries),
                k,
            ),
            final(self)@.len() == (if find_entry(evict_for(old(self)@, max_entries), key) is Some {
                evict_for(old(self)@, max_entries).len()
            } else {
                evict_for(old(self)@, max_entries).len() + 1
            }),
    {
        proof {
            use_type_invariant(&*self);
        }
        let ghost start = self@;
        let mut entries = Vec::new();
        std::mem::swap(&mut entries, &mut self.entries);
        if entries.len() >= max_entries && entries.len() > 0 {
            entries.remove(0);
        }
        let ghost kept = entries_view(entries@);
        proof {
            assert(kept =~= evict_for(start, max_entries));
            if start.len() >= max_entries && start.len() > 0 {
                assert(start.drop_first() =~= start.remove(0));
                lemma_remove_keeps_distinct(start, 0);
            }
        }
        let entry = CacheEntry::new(data);
        self.entries = entries;
        match self.position(&key) {
            Some(i) => {
                let mut entries = Vec::new();
                std::mem::swap(&mut entries, &mut self.entries);
                entries.set(i, (key, entry));
                proof {
                    let e = (key, entries@[i as int].1.data, entries@[i as int].1.cached_at);
                    assert(entries_view(entries@)
                        =~= kept.update(i as int, e));
                    lemma_replace_lookup(kept, i as int, e);
                }
                self.entries = entries;
            },
            None => {
                let mut entries = Vec::new();
                std::mem::swap(&mut entries, &mut self.entries);
                entries.push((key, entry));
                proof {
                    let e = (key, entries@[kept.len() as int].1.data, entries@[kept.len() as int].1.cached_at);
                    assert(entries_view(entries@)
                        =~= kept.push(e));
                    lemma_push_lookup(kept, e);
                }
                self.entries = entries;
            },
        }
    }

    /// Drops the entries of ticker `ticker_id`, keeping the others in order.
    pub fn invalidate_ticker(&mut self, ticker_id: i32)
        ensures
            final(self)@ == without_ticker(old(self)@, ticker_id),
    {
        proof {
            use_type_invariant(&*self);
        }
        let ghost start = self@;
        let mut old_entries = Vec::new();
        std::mem::swap(&mut old_entries, &mut self.entries);
        let mut kept: Vec<(CacheKey, CacheEntry<V>)> = Vec::new();
        let mut consumed: usize = 0;
        let total = old_entries.len();
        proof {
            assert(start.len() == old_entries@.len());
            assert(start.skip(0) =~= start);
            assert(start.take(0) =~= Seq::<(CacheKey, Arc<V>, Instant)>::empty());
            lemma_without_ticker_step(Seq::<(CacheKey, Arc<V>, Instant)>::empty(), ticker_id);
            assert(entries_view(kept@)
                =~= without_ticker(start.take(0), ticker_id));
        }
        while old_entries.len() > 0
            invariant
                start.len() <= usize::MAX,
                consumed + old_entries@.len() == start.len(),
                entries_view(old_entries@)
                    == start.skip(consumed as int),
                entries_view(kept@)
                    == without_ticker(start.take(consumed as int), ticker_id),
            decreases old_entries@.len(),
        {
            let ghost before_old = old_entries@;
            let ghost before_kept = kept@;
            let e = old_entries.remove(0);
            let ghost item = (e.0, e.1.data, e.1.cached_at);
            proof {
                assert(before_old[0] == e);
                assert(start.skip(consumed as int)[0] == item);
                assert(start.take(consumed + 1) =~= start.take(consumed as int).push(item));
                assert(start.take(consumed + 1).drop_last() =~= start.take(consumed as int));
                assert(start.take(consumed + 1).last() == item);
                lemma_without_ticker_step(start.take(consumed + 1), ticker_id);
                assert(old_entries@ =~= before_old.drop_first());
                assert(entries_view(before_old) == start.skip(consumed as int));
                assert(entries_view(old_entries@) =~= entries_view(before_old).drop_first());
                assert(entries_view(old_entries@)
                    =~= start.skip(consumed + 1));
            }
            if e.0.ticker_id != ticker_id {
                kept.push(e);
                proof {
                    assert(entries_view(kept@)
                        =~= entries_view(before_kept).push(item));
                }
            }
            consumed = consumed + 1;
        }
        proof {
            assert(start.take(consumed as int) =~= start);
            lemma_filter_keeps_distinct(start, ticker_id);
        }
        self.entries = kept;
    }

    /// Drops every entry.
    pub fn clear(&mut self)
        ensures
            final(self)@.len() == 0,
    {
        self.entries = Vec::new();
        proof {
            assert(self@ =~= Seq::<(CacheKey, Arc<V>, Instant)>::empty());
        }
    }
}

proof fn lemma_without_key_step<V>(s: Seq<(CacheKey, Arc<V>, Instant)>, key: CacheKey)
    ensures
        s.len() == 0 ==> without_key(s, key) == Seq::<(CacheKey, Arc<V>, Instant)>::empty(),
        s.len() > 0 ==> without_key(s, key) == (if s.last().0 != key {
            without_key(s.drop_last(), key).push(s.last())
        } else {
            without_key(s.drop_last(), key)
        }),
{
    reveal_with_fuel(Seq::filter, 1);
}

proof fn lemma_without_ticker_step<V>(s: Seq<(CacheKey, Arc<V>, Instant)>, ticker_id: i32)
    ensures
        s.len() == 0 ==> without_ticker(s, ticker_id) == Seq::<(CacheKey, Arc<V>, Instant)>::empty(),
        s.len() > 0 ==> without_ticker(s, ticker_id) == (if s.last().0.ticker_id != ticker_id {
            without_ticker(s.drop_last(), ticker_id).push(s.last())
        } else {
            without_ticker(s.drop_last(), ticker_id)
        }),
{
    reveal_with_fuel(Seq::filter, 1);
}

proof fn lemma_prefix_distinct<V>(s: Seq<(CacheKey, Arc<V>, Instant)>)
    requires
        distinct_keys(s),
        s.len() > 0,
    ensures
        distinct_keys(s.drop_last()),
        forall|j: int| 0 <= j < s.len() - 1 ==> s.drop_last()[j].0 != s.last().0,
{
    let d = s.drop_last();
    assert forall|a: int, b: int| 0 <= a < b < d.len() implies d[a].0 != d[b].0 by {
        assert(d[a] == s[a] && d[b] == s[b]);
    }
    assert forall|j: int| 0 <= j < s.len() - 1 implies d[j].0 != s.last().0 by {
        assert(d[j] == s[j]);
    }
}

proof fn lemma_remove_keeps_distinct<V>(s: Seq<(CacheKey, Arc<V>, Instant)>, i: int)
    requires
        0 <= i < s.len(),
        distinct_keys(s),
    ensures
        distinct_keys(s.remove(i)),
{
    let r = s.remove(i);
    assert forall|a: int, b: int| 0 <= a < b < r.len() implies r[a].0 != r[b].0 by {
        let sa = if a < i { a } else { a + 1 };
        let sb = if b < i { b } else { b + 1 };
        assert(r[a] == s[sa] && r[b] == s[sb]);
    }
}

proof fn lemma_remove_is_without<V>(s: Seq<(CacheKey, Arc<V>, Instant)>, i: int, key: CacheKey)
    requires
        0 <= i < s.len(),
        s[i].0 == key,
        distinct_keys(s),
    ensures
        s.remove(i) == without_key(s, key),
    decreases s.len(),
{
    lemma_without_key_step(s, key);
    lemma_prefix_distinct(s);
    if i == s.len() - 1 {
        assert(s.remove(i) =~= s.drop_last());
        lemma_no_key(s.drop_last(), key);
    } else {
        lemma_remove_is_without(s.drop_last(), i, key);
        assert(s.remove(i) =~= s.drop_last().remove(i).push(s.last()));
        assert(s.last().0 != key) by {
            assert(s[s.len() - 1] == s.last());
        }
    }
}

proof fn lemma_no_key<V>(s: Seq<(CacheKey, Arc<V>, Instant)>, key: CacheKey)
    requires
        forall|j: int| 0 <= j < s.len() ==> s[j].0 != key,
    ensures
        without_key(s, key) == s,
    decreases s.len(),
{
    lemma_without_key_step(s, key);
    if s.len() > 0 {
        let d = s.drop_last();
        assert forall|j: int| 0 <= j < d.len() implies d[j].0 != key by {
            assert(d[j] == s[j]);
        }
        lemma_no_key(d, key);
        assert(s[s.len() - 1] == s.last());
        assert(d.push(s.last()) =~= s);
    } else {
        assert(s =~= Seq::<(CacheKey, Arc<V>, Instant)>::empty());
    }
}

proof fn lemma_filter_keeps_distinct<V>(s: Seq<(CacheKey, Arc<V>, Instant)>, ticker_id: i32)
    requires
        distinct_keys(s),
    ensures
        distinct_keys(without_ticker(s, ticker_id)),
        forall|k: int| 0 <= k < without_ticker(s, ticker_id).len() ==> exists|w: int|
            0 <= w < s.len() && s[w] == #[trigger] without_ticker(s, ticker_id)[k],
    decreases s.len(),
{
    lemma_without_ticker_step(s, ticker_id);
    if s.len() > 0 {
        let init = s.drop_last();
        lemma_prefix_distinct(s);
        lemma_filter_keeps_distinct(init, ticker_id);
        let f = without_ticker(init, ticker_id);
        let r = without_ticker(s, ticker_id);
        assert forall|k: int| 0 <= k < f.len() implies f[k].0 != s.last().0 by {
            let w = choose|w: int| 0 <= w < init.len() && init[w] == f[k];
            assert(init[w] == s[w]);
        }
        assert forall|k: int| 0 <= k < r.len() implies exists|w: int|
            0 <= w < s.len() && s[w] == #[trigger] r[k] by {
            if k < f.len() {
                let w = choose|w: int| 0 <= w < init.len() && init[w] == f[k];
                assert(s[w] == init[w]);
                assert(r[k] == f[k]);
            } else {
                assert(r[k] == s.last());
                assert(s[s.len() - 1] == s.last());
            }
        }
        if s.last().0.ticker_id != ticker_id {
            assert forall|a: int, b: int| 0 <= a < b < r.len() implies r[a].0 != r[b].0 by {
                if b < f.len() {
                    assert(r[a] == f[a] && r[b] == f[b]);
                } else {
                    assert(r[a] == f[a] && r[b] == s.last());
                }
            }
        }
    } else {
        assert(without_ticker(s, ticker_id) =~= Seq::<(CacheKey, Arc<V>, Instant)>::empty());
    }
}

proof fn lemma_replace_lookup<V>(s: Seq<(CacheKey, Arc<V>, Instant)>, i: int, e: (CacheKey, Arc<V>, Instant))
    requires
        0 <= i < s.len(),
        s[i].0 == e.0,
        distinct_keys(s),
    ensures
        find_entry(s.update(i, e), e.0) == Some((e.1, e.2)),
        forall|k: CacheKey| k != e.0 ==> find_entry(s.update(i, e), k) == find_entry(s, k),
        distinct_keys(s.update(i, e)),
    decreases s.len(),
{
    let u = s.update(i, e);
    assert forall|a: int, b: int| 0 <= a < b < u.len() implies u[a].0 != u[b].0 by {
        assert(u[a].0 == s[a].0 && u[b].0 == s[b].0);
    }
    if i > 0 {
        let d = s.drop_first();
        assert(u.drop_first() =~= d.update(i - 1, e));
        assert(distinct_keys(d)) by {
            assert forall|a: int, b: int| 0 <= a < b < d.len() implies d[a].0 != d[b].0 by {
                assert(d[a] == s[a + 1] && d[b] == s[b + 1]);
            }
        }
        lemma_replace_lookup(d, i - 1, e);
        assert(s[0].0 != e.0);
        assert forall|k: CacheKey| k != e.0 implies find_entry(u, k) == find_entry(s, k) by {
            if s[0].0 != k {
                assert(find_entry(u, k) == find_entry(u.drop_first(), k));
                assert(find_entry(s, k) == find_entry(d, k));
            }
        }
    } else {
        assert(u.drop_first() =~= s.drop_first());
        assert forall|k: CacheKey| k != e.0 implies find_entry(u, k) == find_entry(s, k) by {
            assert(find_entry(u, k) == find_entry(u.drop_first(), k));
            assert(find_entry(s, k) == find_entry(s.drop_first(), k));
        }
    }
}

proof fn lemma_push_lookup<V>(s: Seq<(CacheKey, Arc<V>, Instant)>, e: (CacheKey, Arc<V>, Instant))
    requires
        find_entry(s, e.0) is None,
        forall|j: int| 0 <= j < s.len() ==> s[j].0 != e.0,
        distinct_keys(s),
    ensures
        find_entry(s.push(e), e.0) == Some((e.1, e.2)),
        forall|k: CacheKey| k != e.0 ==> find_entry(s.push(e), k) == find_entry(s, k),
        distinct_keys(s.push(e)),
    decreases s.len(),
{
    let p = s.push(e);
    assert forall|a: int, b: int| 0 <= a < b < p.len() implies p[a].0 != p[b].0 by {
        if b < s.len() {
            assert(p[a] == s[a] && p[b] == s[b]);
        } else {
            assert(p[a] == s[a]);
        }
    }
    if s.len() > 0 {
        let d = s.drop_first();
        assert(p.drop_first() =~= d.push(e));
        assert(distinct_keys(d)) by {
            assert forall|a: int, b: int| 0 <= a < b < d.len() implies d[a].0 != d[b].0 by {
                assert(d[a] == s[a + 1] && d[b] == s[b + 1]);
            }
        }
        lemma_find_none(d, e.0);
        lemma_push_lookup(d, e);
        assert(p[0] == s[0]);
        assert forall|k: CacheKey| k != e.0 implies find_entry(p, k) == find_entry(s, k) by {
            if s[0].0 != k {
                assert(find_entry(p, k) == find_entry(p.drop_first(), k));
                assert(find_entry(s, k) == find_entry(d, k));
            }
        }
    } else {
        assert(p.drop_first() =~= Seq::<(CacheKey, Arc<V>, Instant)>::empty());
        assert forall|k: CacheKey| k != e.0 implies find_entry(p, k) == find_entry(s, k) by {
            assert(find_entry(p, k) == find_entry(p.drop_first(), k));
        }
    }
}

/// Dropping a ticker's entries leaves none of its results to be found and every other
/// result where it was.
pub proof fn lemma_invalidated_lookup<V>(s: Seq<(CacheKey, Arc<V>, Instant)>, ticker_id: i32, key: CacheKey)
    ensures
        find_entry(without_ticker(s, ticker_id), key) == (if key.ticker_id == ticker_id {
            None
        } else {
            find_entry(s, key)
        }),
    decreases s.len(),
{
    let p = |e: (CacheKey, Arc<V>, Instant)| e.0.ticker_id != ticker_id;
    if s.len() == 0 {
        lemma_without_ticker_step(s, ticker_id);
    } else {
        let x = s[0];
        let rest = s.drop_first();
        assert(s =~= seq![x] + rest);
        rest.lemma_filter_prepend(x, p);
        lemma_invalidated_lookup(rest, ticker_id, key);
        let wr = without_ticker(rest, ticker_id);
        if p(x) {
            assert(without_ticker(s, ticker_id) =~= seq![x] + wr);
            assert((seq![x] + wr).drop_first() =~= wr);
        } else {
            assert(without_ticker(s, ticker_id) =~= wr);
        }
    }
}

/// Looking up a key that was stored with `data` gives `data` back while the entry is within
/// its time to live, and nothing once it has outlived it.
pub proof fn lemma_get_after_put<V>(
    stored: Seq<(CacheKey, Arc<V>, Instant)>,
    after: Seq<(CacheKey, Arc<V>, Instant)>,
    key: CacheKey,
    data: V,
    ttl: Duration,
    r: Option<Arc<V>>,
    now: Instant,
)
    requires
        find_entry(stored, key) matches Some((d, _)) && *d == data,
        lookup_outcome(stored, after, key, ttl, r, now),
    ensures
        longer_than(spec_duration_since(now, (find_entry(stored, key)->0).1), ttl) ==> r is None,
        !longer_than(spec_duration_since(now, (find_entry(stored, key)->0).1), ttl) ==> (r matches Some(
            x) && *x == data),
{
}

/// Storing into a cache that holds at most `max_entries` entries leaves it holding at most
/// that many.
pub proof fn lemma_put_stays_bounded<V>(s: Seq<(CacheKey, Arc<V>, Instant)>, key: CacheKey, max_entries: usize)
    requires
        s.len() <= max_entries,
        max_entries > 0,
    ensures
        (if find_entry(evict_for(s, max_entries), key) is Some {
            evict_for(s, max_entries).len()
        } else {
            evict_for(s, max_entries).len() + 1
        }) <= max_entries,
{
}

/// Recent candle-series results and recent trade results, each bounded and timed.
pub struct QueryCache<S, T> {
    pub timeseries: ResultCache<S>,
    pub trades: ResultCache<T>,
    pub max_entries: usize,
    pub ttl: Duration,
}

impl<S, T> QueryCache<S, T> {
    /// Caches of 100 entries each, valid for five minutes.
    pub fn new() -> (c: Self)
        ensures
            c.timeseries@.len() == 0,
            c.trades@.len() == 0,
            c.max_entries == DEFAULT_CACHE_SIZE,
            spec_duration_secs(c.ttl) == DEFAULT_CACHE_TTL_SECS,
            spec_duration_subsec_nanos(c.ttl) == 0,
    {
        Self::with_config(DEFAULT_CACHE_SIZE, duration_from_secs(DEFAULT_CACHE_TTL_SECS))
    }

    /// Empty caches of `max_entries` entries each, valid for `ttl`.
    pub fn with_config(max_entries: usize, ttl: Duration) -> (c: Self)
        ensures
            c.timeseries@.len() == 0,
            c.trades@.len() == 0,
            c.max_entries == max_entries,
            c.ttl == ttl,
    {
        Self { timeseries: ResultCache::new(), trades: ResultCache::new(), max_entries, ttl }
    }

    /// The cached candle series of a ticker, timeframe and range as of `now`, unless expired by then.
    pub fn get_timeseries_at(&mut self, ticker_id: i32, timeframe: Timeframe, start_time: u64, end_time: u64, now: &Instant) -> (r: Option<Arc<S>>)
        ensures
            final(self).trades@ == old(self).trades@,
            final(self).max_entries == old(self).max_entries,
            final(self).ttl == old(self).ttl,
            find_entry(old(self).timeseries@, (CacheKey { ticker_id, timeframe: Some(timeframe), start_time, end_time })) is None ==> r is None
                && final(self).timeseries@ == old(self).timeseries@,
            find_entry(old(self).timeseries@, (CacheKey { ticker_id, timeframe: Some(timeframe), start_time, end_time })) is Some ==> lookup_outcome(old(self).timeseries@, final(self).timeseries@, (CacheKey { ticker_id, timeframe: Some(timeframe), start_time, end_time }), old(self).ttl, r, *now),
    {
        let key = CacheKey { ticker_id, timeframe: Some(timeframe), start_time, end_time };
        self.timeseries.get_at(&key, &self.ttl, now)
    }

    /// The cached candle series of a ticker, timeframe and range, unless expired by the clock as it reads during the call.
    pub fn get_timeseries(&mut self, ticker_id: i32, timeframe: Timeframe, start_time: u64, end_time: u64) -> (r: Option<Arc<S>>)
        ensures
            final(self).trades@ == old(self).trades@,
            final(self).max_entries == old(self).max_entries,
            final(self).ttl == old(self).ttl,
            find_entry(old(self).timeseries@, (CacheKey { ticker_id, timeframe: Some(timeframe), start_time, end_time })) is None ==> r is None
                && final(self).timeseries@ == old(self).timeseries@,
            find_entry(old(self).timeseries@, (CacheKey { ticker_id, timeframe: Some(timeframe), start_time, end_time })) is Some ==> exists|now: Instant|
                #[trigger] lookup_outcome(old(self).timeseries@, final(self).timeseries@, (CacheKey { ticker_id, timeframe: Some(timeframe), start_time, end_time }), old(self).ttl, r, now),
    {
        let now = instant_now();
        self.get_timeseries_at(ticker_id, timeframe, start_time, end_time, &now)
    }

    /// Stores the candle series of a ticker, timeframe and range.
    pub fn put_timeseries(&mut self, ticker_id: i32, timeframe: Timeframe, start_time: u64, end_time: u64, timeseries: S)
        ensures
            find_entry(final(self).timeseries@, (CacheKey { ticker_id, timeframe: Some(timeframe), start_time, end_time })) matches Some((d, _)) && *d == timeseries,
            forall|k: CacheKey| k != (CacheKey { ticker_id, timeframe: Some(timeframe), start_time, end_time }) ==> #[trigger] find_entry(final(self).timeseries@, k) == find_entry(
                evict_for(old(self).timeseries@, old(self).max_entries),
                k,
            ),
            final(self).timeseries@.len() == (if find_entry(evict_for(old(self).timeseries@, old(self).max_entries), (CacheKey { ticker_id, timeframe: Some(timeframe), start_time, end_time })) is Some {
                evict_for(old(self).timeseries@, old(self).max_entries).len()
            } else {
                evict_for(old(self).timeseries@, old(self).max_entries).len() + 1
            }),
            final(self).trades@ == old(self).trades@,
            final(self).max_entries == old(self).max_entries,
            final(self).ttl == old(self).ttl,
    {
        let key = CacheKey { ticker_id, timeframe: Some(timeframe), start_time, end_time };
        self.timeseries.put(key, timeseries, self.max_entries);
    }

    /// The cached trades of a ticker and range as of `now`, unless expired by then.
    pub fn get_trades_at(&mut self, ticker_id: i32, start_time: u64, end_time: u64, now: &Instant) -> (r: Option<Arc<T>>)
        ensures
            final(self).timeseries@ == old(self).timeseries@,
            final(self).max_entries == old(self).max_entries,
            final(self).ttl == old(self).ttl,
            find_entry(old(self).trades@, (CacheKey { ticker_id, timeframe: None, start_time, end_time })) is None ==> r is None
                && final(self).trades@ == old(self).trades@,
            find_entry(old(self).trades@, (CacheKey { ticker_id, timeframe: None, start_time, end_time })) is Some ==> lookup_outcome(old(self).trades@, final(self).trades@, (CacheKey { ticker_id, timeframe: None, start_time, end_time }), old(self).ttl, r, *now),
    {
        let key = CacheKey { ticker_id, timeframe: None, start_time, end_time };
        self.trades.get_at(&key, &self.ttl, now)
    }

    /// The cached trades of a ticker and range, unless expired by the clock as it reads during the call.
    pub fn get_trades(&mut self, ticker_id: i32, start_time: u64, end_time: u64) -> (r: Option<Arc<T>>)
        ensures
            final(self).timeseries@ == old(self).timeseries@,
            final(self).max_entries == old(self).max_entries,
            final(self).ttl == old(self).ttl,
            find_entry(old(self).trades@, (CacheKey { ticker_id, timeframe: None, start_time, end_time })) is None ==> r is None
                && final(self).trades@ == old(self).trades@,
            find_entry(old(self).trades@, (CacheKey { ticker_id, timeframe: None, start_time, end_time })) is Some ==> exists|now: Instant|
                #[trigger] lookup_outcome(old(self).trades@, final(self).trades@, (CacheKey { ticker_id, timeframe: None, start_time, end_time }), old(self).ttl, r, now),
    {
        let now = instant_now();
        self.get_trades_at(ticker_id, start_time, end_time, &now)
    }

    /// Stores the trades of a ticker and range.
    pub fn put_trades(&mut self, ticker_id: i32, start_time: u64, end_time: u64, trades: T)
        ensures
            find_entry(final(self).trades@, (CacheKey { ticker_id, timeframe: None, start_time, end_time })) matches Some((d, _)) && *d == trades,
            forall|k: CacheKey| k != (CacheKey { ticker_id, timeframe: None, start_time, end_time }) ==> #[trigger] find_entry(final(self).trades@, k) == find_entry(
                evict_for(old(self).trades@, old(self).max_entries),
                k,
            ),
            final(self).trades@.len() == (if find_entry(evict_for(old(self).trades@, old(self).max_entries), (CacheKey { ticker_id, timeframe: None, start_time, end_time })) is Some {
                evict_for(old(self).trades@, old(self).max_entries).len()
            } else {
                evict_for(old(self).trades@, old(self).max_entries).len() + 1
            }),
            final(self).timeseries@ == old(self).timeseries@,
            final(self).max_entries == old(self).max_entries,
            final(self).ttl == old(self).ttl,
    {
        let key = CacheKey { ticker_id, timeframe: None, start_time, end_time };
        self.trades.put(key, trades, self.max_entries);
    }

    /// Drops every cached result of ticker `ticker_id`.
    pub fn invalidate_ticker(&mut self, ticker_id: i32)
        ensures
            final(self).timeseries@ == without_ticker(old(self).timeseries@, ticker_id),
            final(self).trades@ == without_ticker(old(self).trades@, ticker_id),
            final(self).max_entries == old(self).max_entries,
            final(self).ttl == old(self).ttl,
    {
        self.timeseries.invalidate_ticker(ticker_id);
        self.trades.invalidate_ticker(ticker_id);
    }

    /// Drops every cached result.
    pub fn clear(&mut self)
        ensures
            final(self).timeseries@.len() == 0,
            final(self).trades@.len() == 0,
            final(self).max_entries == old(self).max_entries,
            final(self).ttl == old(self).ttl,
    {
        self.timeseries.clear();
        self.trades.clear();
    }

    /// The number of entries of each cache, the bound and the time to live in seconds.
    pub fn stats(&self) -> (s: CacheStats)
        ensures
            s.timeseries_entries == self.timeseries@.len(),
            s.trades_entries == self.trades@.len(),
            s.max_entries == self.max_entries,
            s.ttl_seconds == spec_duration_secs(self.ttl),
    {
        CacheStats {
            timeseries_entries: self.timeseries.len(),
            trades_entries: self.trades.len(),
            max_entries: self.max_entries,
            ttl_seconds: duration_as_secs(&self.ttl),
        }
    }
}

} // verus!
