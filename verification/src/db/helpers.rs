//! Identifiers and conversions used when storing market data.

use vstd::prelude::*;
use std::hash::{DefaultHasher, Hasher};
use vstd::std_specs::hash::DefaultHasherAdditionalSpecFns;
use vstd::string::StringSliceAdditionalSpecFns;
use crate::exchange::price::Price;
use crate::exchange::venue::Exchange;
use crate::text::{signed_decimal, write_signed_decimal};
use vstd::string::StringExecFns;

verus! {

/// `x` limited to the range of `i64`.
pub open spec fn saturate_i64(x: int) -> int {
    if x > i64::MAX {
        i64::MAX as int
    } else if x < i64::MIN {
        i64::MIN as int
    } else {
        x
    }
}

/// Nanoseconds for a millisecond timestamp: the timestamp is read as an `i64` and multiplied by
/// one million, saturating at the bounds of `i64`.
pub open spec fn spec_timestamp_to_ns(ms: u64) -> int {
    saturate_i64((ms as i64) * 1_000_000)
}

/// Milliseconds for a nanosecond timestamp: the quotient by one million, rounded toward zero,
/// read as a `u64`.
pub open spec fn spec_ns_to_timestamp(ns: i64) -> u64 {
    if ns >= 0 {
        (ns / 1_000_000) as u64
    } else {
        (-((-ns) / 1_000_000)) as u64
    }
}

/// Converts a millisecond timestamp into nanoseconds for storage.
pub fn timestamp_to_ns(ms_timestamp: u64) -> (ns: i64)
    ensures
        ns == spec_timestamp_to_ns(ms_timestamp),
{
    let x = ms_timestamp as i64;
    let p = (x as i128) * 1_000_000;
    if p > i64::MAX as i128 {
        i64::MAX
    } else if p < i64::MIN as i128 {
        i64::MIN
    } else {
        p as i64
    }
}

/// Converts a stored nanosecond timestamp back into milliseconds.
pub fn ns_to_timestamp(ns: i64) -> (ms: u64)
    ensures
        ms == spec_ns_to_timestamp(ns),
{
    if ns >= 0 {
        (ns as u64) / 1_000_000
    } else {
        let q = (0i128 - ns as i128) / 1_000_000;
        let neg = (0i128 - q) as i64;
        neg as u64
    }
}

/// A millisecond timestamp survives the trip through nanoseconds whenever its nanosecond
/// value fits in an `i64`.
pub proof fn lemma_timestamp_round_trip(ms: u64)
    requires
        ms <= i64::MAX / 1_000_000,
    ensures
        0 <= spec_timestamp_to_ns(ms) <= i64::MAX,
        spec_ns_to_timestamp(spec_timestamp_to_ns(ms) as i64) == ms,
{
    assert((ms as i64) == ms);
    assert(ms * 1_000_000 <= i64::MAX) by (nonlinear_arith)
        requires ms <= i64::MAX / 1_000_000;
    assert((ms * 1_000_000) / 1_000_000 == ms) by (nonlinear_arith);
}

/// The database identifier of an exchange market (1 to 12).
pub open spec fn spec_exchange_to_id(exchange: Exchange) -> i8 {
    match exchange {
        Exchange::BinanceLinear => 1,
        Exchange::BinanceInverse => 2,
        Exchange::BinanceSpot => 3,
        Exchange::BybitLinear => 4,
        Exchange::BybitInverse => 5,
        Exchange::BybitSpot => 6,
        Exchange::HyperliquidLinear => 7,
        Exchange::HyperliquidSpot => 8,
        Exchange::OkexLinear => 9,
        Exchange::OkexInverse => 10,
        Exchange::OkexSpot => 11,
        Exchange::AsterLinear => 12,
    }
}

/// The database identifier of an exchange market (1 to 12).
pub fn exchange_to_id(exchange: Exchange) -> (id: i8)
    ensures
        id == spec_exchange_to_id(exchange),
        1 <= id <= 12,
{
    match exchange {
        Exchange::BinanceLinear => 1,
        Exchange::BinanceInverse => 2,
        Exchange::BinanceSpot => 3,
        Exchange::BybitLinear => 4,
        Exchange::BybitInverse => 5,
        Exchange::BybitSpot => 6,
        Exchange::HyperliquidLinear => 7,
        Exchange::HyperliquidSpot => 8,
        Exchange::OkexLinear => 9,
        Exchange::OkexInverse => 10,
        Exchange::OkexSpot => 11,
        Exchange::AsterLinear => 12,
    }
}

/// Distinct exchange markets get distinct database identifiers.
pub proof fn lemma_exchange_id_injective(a: Exchange, b: Exchange)
    ensures
        spec_exchange_to_id(a) == spec_exchange_to_id(b) ==> a == b,
{
}

/// The `n` low-order bytes of `x`, least significant first.
pub open spec fn le_bytes(x: nat, n: nat) -> Seq<u8>
    decreases n,
{
    if n == 0 {
        Seq::empty()
    } else {
        seq![(x % 256) as u8] + le_bytes(x / 256, (n - 1) as nat)
    }
}

/// The `n` low-order bytes of `x`, least significant first.
pub fn to_le_bytes(x: u64, n: usize) -> (b: Vec<u8>)
    requires
        n <= 8,
    ensures
        b@ == le_bytes(x as nat, n as nat),
{
    let mut out: Vec<u8> = Vec::new();
    let mut v = x;
    let mut i: usize = 0;
    while i < n
        invariant
            i <= n,
            out@ + le_bytes(v as nat, (n - i) as nat) == le_bytes(x as nat, n as nat),
        decreases n - i,
    {
        proof {
            assert(le_bytes(v as nat, (n - i) as nat) == seq![(v % 256) as u8] + le_bytes((v / 256) as nat, (n - i - 1) as nat));
            assert(out@.push((v % 256) as u8) + le_bytes((v / 256) as nat, (n - i - 1) as nat)
                =~= out@ + (seq![(v % 256) as u8] + le_bytes((v / 256) as nat, (n - i - 1) as nat)));
        }
        out.push((v % 256) as u8);
        v = v / 256;
        i = i + 1;
    }
    proof {
        assert(out@ + le_bytes(v as nat, 0) =~= out@);
    }
    out
}

/// The bytes a text contributes to the standard hasher: its UTF-8 bytes, then `0xff`.
pub open spec fn str_hash_writes(s: Seq<char>) -> Seq<Seq<u8>> {
    seq![vstd::utf8::encode_utf8(s), seq![0xffu8]]
}

/// Hash identifier of a candle: the standard hasher over the ticker id (4 bytes, little-endian),
/// the timeframe text and the candle time (8 bytes, little-endian), read as an `i64`.
pub open spec fn spec_kline_id(ticker_id: i32, timeframe: Seq<char>, candle_time: u64) -> i64 {
    (DefaultHasher::spec_finish(
        seq![le_bytes((ticker_id as u32) as nat, 4)] + str_hash_writes(timeframe)
            + seq![le_bytes(candle_time as nat, 8)],
    )) as i64
}

/// Hash identifier of an order-book snapshot: the standard hasher over the ticker id (4 bytes)
/// and the snapshot time (8 bytes), little-endian, read as an `i64`.
pub open spec fn spec_snapshot_id(ticker_id: i32, snapshot_time: u64) -> i64 {
    (DefaultHasher::spec_finish(
        seq![le_bytes((ticker_id as u32) as nat, 4), le_bytes(snapshot_time as nat, 8)],
    )) as i64
}

/// Hash identifier of a footprint cell: the standard hasher over the ticker id (4 bytes), the
/// timeframe text, the candle time (8 bytes) and the price units (8 bytes), little-endian, read
/// as an `i64`.
pub open spec fn spec_footprint_id(ticker_id: i32, timeframe: Seq<char>, candle_time: u64, price: Price) -> i64 {
    (DefaultHasher::spec_finish(
        seq![le_bytes((ticker_id as u32) as nat, 4)] + str_hash_writes(timeframe)
            + seq![le_bytes(candle_time as nat, 8), le_bytes((price.units as u64) as nat, 8)],
    )) as i64
}

fn hash_str(hasher: &mut DefaultHasher, s: &str)
    ensures
        final(hasher)@ == old(hasher)@ + str_hash_writes(s@),
{
    hasher.write(s.as_bytes());
    let sep: [u8; 1] = [0xff];
    hasher.write(vstd::array::array_as_slice(&sep));
    proof {
        assert(sep@ =~= seq![0xffu8]);
        assert(final(hasher)@ =~= old(hasher)@ + str_hash_writes(s@));
    }
}

pub(crate) fn hash_int(hasher: &mut DefaultHasher, x: u64, n: usize)
    requires
        n <= 8,
    ensures
        final(hasher)@ == old(hasher)@.push(le_bytes(x as nat, n as nat)),
{
    let b = to_le_bytes(x, n);
    hasher.write(b.as_slice());
}

/// Deterministic identifier of a candle from its ticker, timeframe text and open time.
pub fn generate_kline_id(ticker_id: i32, timeframe: &str, candle_time: u64) -> (id: i64)
    ensures
        id == spec_kline_id(ticker_id, timeframe@, candle_time),
{
    let mut hasher = DefaultHasher::new();
    hash_int(&mut hasher, (ticker_id as u32) as u64, 4);
    hash_str(&mut hasher, timeframe);
    hash_int(&mut hasher, candle_time, 8);
    proof {
        assert(hasher@ =~= seq![le_bytes((ticker_id as u32) as nat, 4)] + str_hash_writes(timeframe@)
            + seq![le_bytes(candle_time as nat, 8)]);
    }
    hasher.finish() as i64
}

/// Deterministic identifier of an order-book snapshot from its ticker and time.
pub fn generate_snapshot_id(ticker_id: i32, snapshot_time: u64) -> (id: i64)
    ensures
        id == spec_snapshot_id(ticker_id, snapshot_time),
{
    let mut hasher = DefaultHasher::new();
    hash_int(&mut hasher, (ticker_id as u32) as u64, 4);
    hash_int(&mut hasher, snapshot_time, 8);
    proof {
        assert(hasher@ =~= seq![le_bytes((ticker_id as u32) as nat, 4), le_bytes(snapshot_time as nat, 8)]);
    }
    hasher.finish() as i64
}

/// Deterministic identifier of a footprint cell from its ticker, timeframe text, candle time
/// and price.
pub fn generate_footprint_id(ticker_id: i32, timeframe: &str, candle_time: u64, price: Price) -> (id: i64)
    ensures
        id == spec_footprint_id(ticker_id, timeframe@, candle_time, price),
{
    let mut hasher = DefaultHasher::new();
    hash_int(&mut hasher, (ticker_id as u32) as u64, 4);
    hash_str(&mut hasher, timeframe);
    hash_int(&mut hasher, candle_time, 8);
    hash_int(&mut hasher, price.units as u64, 8);
    proof {
        assert(hasher@ =~= seq![le_bytes((ticker_id as u32) as nat, 4)] + str_hash_writes(timeframe@)
            + seq![le_bytes(candle_time as nat, 8), le_bytes((price.units as u64) as nat, 8)]);
    }
    hasher.finish() as i64
}

/// Hash identifier of a trade: the standard hasher over the ticker id (4 bytes), the time
/// (8 bytes), the price units (8 bytes) and the bit pattern of the quantity widened to 8
/// bytes, little-endian, read as an `i64`.
pub open spec fn spec_trade_id(ticker_id: i32, timestamp: u64, price: Price, qty_bits: u32) -> i64 {
    (DefaultHasher::spec_finish(
        seq![
            le_bytes((ticker_id as u32) as nat, 4),
            le_bytes(timestamp as nat, 8),
            le_bytes((price.units as u64) as nat, 8),
            le_bytes(qty_bits as nat, 8),
        ],
    )) as i64
}

/// Deterministic identifier of a trade from its ticker, time, price and the bit pattern of
/// its quantity (`f32::to_bits`).
pub fn generate_trade_id(ticker_id: i32, timestamp: u64, price: Price, qty_bits: u32) -> (id: i64)
    ensures
        id == spec_trade_id(ticker_id, timestamp, price, qty_bits),
{
    let mut hasher = DefaultHasher::new();
    hash_int(&mut hasher, (ticker_id as u32) as u64, 4);
    hash_int(&mut hasher, timestamp, 8);
    hash_int(&mut hasher, price.units as u64, 8);
    hash_int(&mut hasher, qty_bits as u64, 8);
    proof {
        assert(hasher@ =~= seq![
            le_bytes((ticker_id as u32) as nat, 4),
            le_bytes(timestamp as nat, 8),
            le_bytes((price.units as u64) as nat, 8),
            le_bytes(qty_bits as nat, 8),
        ]);
    }
    hasher.finish() as i64
}

/// Entries the ticker cache holds before it is emptied.
pub const MAX_TICKER_CACHE_SIZE: usize = 10000;

/// The key a ticker is cached under: `<exchange id>:<symbol>`.
pub fn ticker_cache_key(exchange_id: i8, symbol: &str) -> (k: String)
    ensures
        k@ == signed_decimal(exchange_id as int) + ":"@ + symbol@,
{
    let mut k = String::new();
    write_signed_decimal(&mut k, exchange_id as i64);
    k.append(":");
    k.append(symbol);
    proof {
        assert(k@ =~= signed_decimal(exchange_id as int) + ":"@ + symbol@);
    }
    k
}

/// The id of the first entry of `entries` with key `k`, if any.
pub open spec fn lookup_in(entries: Seq<(Seq<char>, i32)>, k: Seq<char>) -> Option<i32>
    decreases entries.len(),
{
    if entries.len() == 0 {
        None
    } else if entries[0].0 == k {
        Some(entries[0].1)
    } else {
        lookup_in(entries.drop_first(), k)
    }
}

/// Ticker ids by cache key. Once it holds `MAX_TICKER_CACHE_SIZE` entries, the next
/// insertion first empties it.
pub struct TickerCache {
    entries: Vec<(String, i32)>,
}

/// The texts of the keys with their ids.
pub open spec fn entry_texts(v: Seq<(String, i32)>) -> Seq<(Seq<char>, i32)> {
    v.map_values(|e: (String, i32)| (e.0@, e.1))
}

impl TickerCache {
    /// The id cached under `k`, if any.
    pub closed spec fn lookup(self, k: Seq<char>) -> Option<i32> {
        lookup_in(entry_texts(self.entries@), k)
    }

    /// Number of entries.
    pub closed spec fn size(self) -> nat {
        self.entries@.len()
    }

    #[verifier::type_invariant]
    spec fn distinct_keys(self) -> bool {
        forall|i: int, j: int| 0 <= i < j < self.entries@.len() ==> self.entries@[i].0@ != self.entries@[j].0@
    }

    /// An empty cache.
    pub fn new() -> (c: Self)
        ensures
            c.size() == 0,
            forall|k: Seq<char>| c.lookup(k) is None,
    {
        Self { entries: Vec::new() }
    }

    /// Number of entries.
    pub fn len(&self) -> (n: usize)
        ensures
            n == self.size(),
    {
        self.entries.len()
    }

    /// The id cached under `key`, if any.
    pub fn get(&self, key: &str) -> (r: Option<i32>)
        ensures
            r == self.lookup(key@),
    {
        match position_in(&self.entries, key) {
            Some(i) => Some(self.entries[i].1),
            None => None,
        }
    }

    /// Empties the cache.
    pub fn clear(&mut self)
        ensures
            final(self).size() == 0,
            forall|k: Seq<char>| final(self).lookup(k) is None,
    {
        self.entries = Vec::new();
    }

    /// Caches `id` under `key`, first emptying a full cache.
    pub fn insert(&mut self, key: String, id: i32)
        ensures
            final(self).lookup(key@) == Some(id),
            forall|k: Seq<char>| k != key@ ==> final(self).lookup(k) == (if old(self).size()
                >= MAX_TICKER_CACHE_SIZE {
                None
            } else {
                old(self).lookup(k)
            }),
            final(self).size() == (if old(self).size() >= MAX_TICKER_CACHE_SIZE {
                1
            } else if old(self).lookup(key@) is Some {
                old(self).size()
            } else {
                old(self).size() + 1
            }),
    {
        proof {
            use_type_invariant(&*self);
        }
        if self.entries.len() >= MAX_TICKER_CACHE_SIZE {
            self.entries = Vec::new();
        }
        let ghost before = self.entries@;
        let ghost k = key@;
        proof {
            assert(forall|a: int, b: int| 0 <= a < b < entry_texts(before).len() ==> entry_texts(before)[a].0
                != entry_texts(before)[b].0);
        }
        let mut entries = Vec::new();
        std::mem::swap(&mut entries, &mut self.entries);
        match position_in(&entries, key.as_str()) {
            Some(i) => {
                entries.set(i, (key, id));
                proof {
                    lemma_lookup_update(entry_texts(before), i as int, k, id);
                    assert(entry_texts(entries@) =~= entry_texts(before).update(i as int, (k, id)));
                    assert forall|a: int, b: int| 0 <= a < b < entries@.len() implies entries@[a].0@
                        != entries@[b].0@ by {
                        assert(entry_texts(before)[a].0 == before[a].0@);
                        assert(entry_texts(before)[b].0 == before[b].0@);
                    }
                }
            },
            None => {
                entries.push((key, id));
                proof {
                    assert(entry_texts(entries@) =~= entry_texts(before).push((k, id)));
                    lemma_lookup_push(entry_texts(before), k, id);
                    lemma_lookup_none(entry_texts(before), k);
                    assert forall|a: int, b: int| 0 <= a < b < entries@.len() implies entries@[a].0@
                        != entries@[b].0@ by {
                        assert(entry_texts(before)[a].0 == before[a].0@);
                        if b < before.len() {
                            assert(entry_texts(before)[b].0 == before[b].0@);
                        }
                    }
                }
            },
        }
        self.entries = entries;
        proof {
            assert forall|x: Seq<char>| x != k implies self.lookup(x) == (if old(self).size()
                >= MAX_TICKER_CACHE_SIZE {
                None
            } else {
                old(self).lookup(x)
            }) by {
                assert(self.lookup(x) == lookup_in(entry_texts(before), x));
                if old(self).size() >= MAX_TICKER_CACHE_SIZE {
                    assert(entry_texts(before) =~= Seq::<(Seq<char>, i32)>::empty());
                } else {
                    assert(before == old(self).entries@);
                }
            }
        }
    }
}

/// Index of the entry of `entries` with key `key`, if any.
fn position_in(entries: &Vec<(String, i32)>, key: &str) -> (r: Option<usize>)
    ensures
        match r {
            Some(i) => i < entries@.len() && entries@[i as int].0@ == key@
                && lookup_in(entry_texts(entries@), key@) == Some(entries@[i as int].1),
            None => lookup_in(entry_texts(entries@), key@) is None,
        },
{
    let ghost t = entry_texts(entries@);
    let wanted = key.to_owned();
    let mut i: usize = 0;
    proof {
        assert(t.skip(0) =~= t);
    }
    while i < entries.len()
        invariant
            i <= entries@.len(),
            t == entry_texts(entries@),
            wanted@ == key@,
            lookup_in(t, key@) == lookup_in(t.skip(i as int), key@),
        decreases entries@.len() - i,
    {
        proof {
            assert(t.skip(i as int).drop_first() =~= t.skip(i + 1));
            assert(t.skip(i as int)[0] == t[i as int]);
        }
        if entries[i].0 == wanted {
            return Some(i);
        }
        i = i + 1;
    }
    proof {
        assert(t.skip(i as int) =~= Seq::<(Seq<char>, i32)>::empty());
    }
    None
}

proof fn lemma_lookup_update(entries: Seq<(Seq<char>, i32)>, i: int, k: Seq<char>, id: i32)
    requires
        0 <= i < entries.len(),
        entries[i].0 == k,
        forall|a: int, b: int| 0 <= a < b < entries.len() ==> entries[a].0 != entries[b].0,
    ensures
        lookup_in(entries.update(i, (k, id)), k) == Some(id),
        forall|x: Seq<char>| x != k ==> lookup_in(entries.update(i, (k, id)), x) == lookup_in(entries, x),
    decreases entries.len(),
{
    let u = entries.update(i, (k, id));
    if i > 0 {
        let d = entries.drop_first();
        assert(u.drop_first() =~= d.update(i - 1, (k, id)));
        assert forall|a: int, b: int| 0 <= a < b < d.len() implies d[a].0 != d[b].0 by {
            assert(d[a] == entries[a + 1] && d[b] == entries[b + 1]);
        }
        lemma_lookup_update(d, i - 1, k, id);
        assert(u[0] == entries[0]);
        assert(entries[0].0 != k);
        assert forall|x: Seq<char>| x != k implies lookup_in(u, x) == lookup_in(entries, x) by {
            if entries[0].0 != x {
                assert(lookup_in(u, x) == lookup_in(u.drop_first(), x));
                assert(lookup_in(u.drop_first(), x) == lookup_in(d.update(i - 1, (k, id)), x));
                assert(lookup_in(entries, x) == lookup_in(d, x));
            } else {
                assert(lookup_in(u, x) == Some(u[0].1));
                assert(lookup_in(entries, x) == Some(entries[0].1));
            }
        }
    } else {
        assert(u.drop_first() =~= entries.drop_first());
        assert forall|x: Seq<char>| x != k implies lookup_in(u, x) == lookup_in(entries, x) by {
            assert(lookup_in(u, x) == lookup_in(u.drop_first(), x));
            assert(lookup_in(entries, x) == lookup_in(entries.drop_first(), x));
        }
    }
}

proof fn lemma_lookup_push(entries: Seq<(Seq<char>, i32)>, k: Seq<char>, id: i32)
    requires
        lookup_in(entries, k) is None,
    ensures
        lookup_in(entries.push((k, id)), k) == Some(id),
        forall|x: Seq<char>| x != k ==> lookup_in(entries.push((k, id)), x) == lookup_in(entries, x),
    decreases entries.len(),
{
    let p = entries.push((k, id));
    if entries.len() > 0 {
        assert(p.drop_first() =~= entries.drop_first().push((k, id)));
        lemma_lookup_push(entries.drop_first(), k, id);
        assert(p[0] == entries[0]);
        let d = entries.drop_first();
        assert forall|x: Seq<char>| x != k implies lookup_in(p, x) == lookup_in(entries, x) by {
            if entries[0].0 != x {
                assert(lookup_in(p, x) == lookup_in(p.drop_first(), x));
                assert(lookup_in(p.drop_first(), x) == lookup_in(d.push((k, id)), x));
                assert(lookup_in(entries, x) == lookup_in(d, x));
            } else {
                assert(lookup_in(p, x) == Some(p[0].1));
                assert(lookup_in(entries, x) == Some(entries[0].1));
            }
        }
    } else {
        assert(p.drop_first() =~= Seq::<(Seq<char>, i32)>::empty());
        assert forall|x: Seq<char>| x != k implies lookup_in(p, x) == lookup_in(entries, x) by {
            assert(lookup_in(p, x) == lookup_in(p.drop_first(), x));
        }
    }
}

proof fn lemma_lookup_none(entries: Seq<(Seq<char>, i32)>, k: Seq<char>)
    requires
        lookup_in(entries, k) is None,
    ensures
        forall|j: int| 0 <= j < entries.len() ==> entries[j].0 != k,
    decreases entries.len(),
{
    if entries.len() > 0 {
        lemma_lookup_none(entries.drop_first(), k);
        assert forall|j: int| 0 <= j < entries.len() implies entries[j].0 != k by {
            if j > 0 {
                assert(entries[j] == entries.drop_first()[j - 1]);
            }
        }
    }
}

} // verus!
