//! Identifiers and interval names used when migrating stored market data.

use vstd::prelude::*;
use std::hash::{DefaultHasher, Hasher};
use vstd::std_specs::hash::DefaultHasherAdditionalSpecFns;
use crate::db::helpers::str_hash_writes;
use crate::text::{decimal, signed_decimal, push_char, write_decimal, write_signed_decimal};
use crate::exchange::timeframe::{Timeframe, spec_milliseconds, timeframe_label};
use vstd::string::StringExecFns;
use vstd::string::StringSliceAdditionalSpecFns;

verus! {

/// Identifier of a migrated trade: the ticker id in the top 16 bits, the trade time divided by
/// 2^20 from bit 16 up, and the low 16 bits of the per-archive counter, combined bitwise.
pub open spec fn spec_trade_id(ticker_id: i64, trade_time: u64, counter: u64) -> i64 {
    (ticker_id << 48u64) | (((trade_time >> 20u64) as i64) << 16u64) | ((counter & 0xFFFFu64) as i64)
}

/// Identifier of a migrated trade from its ticker, time and per-archive counter.
pub fn generate_trade_id(ticker_id: i64, trade_time: u64, counter: u64) -> (id: i64)
    ensures
        id == spec_trade_id(ticker_id, trade_time, counter),
{
    (ticker_id << 48u64) | (((trade_time >> 20u64) as i64) << 16u64) | ((counter & 0xFFFFu64) as i64)
}

/// The text `<a>:<b>:<c>` hashed for candle and order-run identifiers.
pub open spec fn key_text(a: i64, b: u64, c: u64) -> Seq<char> {
    signed_decimal(a as int) + seq![':'] + decimal(b as nat) + seq![':'] + decimal(c as nat)
}

/// The standard hasher over a text, read as an `i64`.
pub open spec fn spec_text_hash(s: Seq<char>) -> i64 {
    (DefaultHasher::spec_finish(str_hash_writes(s))) as i64
}

fn key_string(a: i64, b: u64, c: u64) -> (s: String)
    ensures
        s@ == key_text(a, b, c),
{
    let mut s = String::new();
    write_signed_decimal(&mut s, a);
    push_char(&mut s, ':');
    write_decimal(&mut s, b);
    push_char(&mut s, ':');
    write_decimal(&mut s, c);
    proof {
        assert(s@ =~= key_text(a, b, c));
    }
    s
}

fn hash_text(s: &str) -> (h: i64)
    ensures
        h == spec_text_hash(s@),
{
    let mut hasher = DefaultHasher::new();
    hasher.write(s.as_bytes());
    let sep: [u8; 1] = [0xff];
    hasher.write(vstd::array::array_as_slice(&sep));
    proof {
        assert(sep@ =~= seq![0xffu8]);
        assert(hasher@ =~= str_hash_writes(s@));
    }
    hasher.finish() as i64
}

/// Deterministic identifier of a migrated candle: the hash of `<ticker>:<timeframe ms>:<time>`.
pub fn generate_kline_id(ticker_id: i64, timeframe_ms: u64, candle_time: u64) -> (id: i64)
    ensures
        id == spec_text_hash(key_text(ticker_id, timeframe_ms, candle_time)),
{
    let key = key_string(ticker_id, timeframe_ms, candle_time);
    hash_text(key.as_str())
}

/// Identifier of a migrated footprint cell: the candle id combined with the price level by
/// exclusive or.
pub fn generate_footprint_id(kline_id: i64, price_level: i64) -> (id: i64)
    ensures
        id == kline_id ^ price_level,
{
    kline_id ^ price_level
}

/// Deterministic identifier of a migrated order run: the hash of `<ticker>:<price>:<start>`.
pub fn generate_run_id(ticker_id: i64, price_level: i64, start_time: u64) -> (id: i64)
    ensures
        id == spec_text_hash(
            signed_decimal(ticker_id as int) + seq![':'] + signed_decimal(price_level as int) + seq![':']
                + decimal(start_time as nat),
        ),
{
    let mut s = String::new();
    write_signed_decimal(&mut s, ticker_id);
    push_char(&mut s, ':');
    write_signed_decimal(&mut s, price_level);
    push_char(&mut s, ':');
    write_decimal(&mut s, start_time);
    proof {
        assert(s@ =~= signed_decimal(ticker_id as int) + seq![':'] + signed_decimal(price_level as int)
            + seq![':'] + decimal(start_time as nat));
    }
    hash_text(s.as_str())
}

/// The stored name of an interval given in milliseconds: the usual label for the intervals the
/// app offers, otherwise the milliseconds followed by `ms`.
pub open spec fn spec_timeframe_name(ms: u64) -> Seq<char> {
    if ms == 100 { "100ms"@ }
    else if ms == 200 { "200ms"@ }
    else if ms == 300 { "300ms"@ }
    else if ms == 500 { "500ms"@ }
    else if ms == 1000 { "1s"@ }
    else if ms == 60000 { "1m"@ }
    else if ms == 180000 { "3m"@ }
    else if ms == 300000 { "5m"@ }
    else if ms == 900000 { "15m"@ }
    else if ms == 1800000 { "30m"@ }
    else if ms == 3600000 { "1h"@ }
    else if ms == 7200000 { "2h"@ }
    else if ms == 14400000 { "4h"@ }
    else if ms == 21600000 { "6h"@ }
    else if ms == 43200000 { "12h"@ }
    else if ms == 86400000 { "1d"@ }
    else { decimal(ms as nat) + "ms"@ }
}

/// The stored name of an interval's length is the interval's label: every interval,
/// stored by its length in milliseconds, is named as it is shown to users; and a length
/// that is no interval's is named by its milliseconds.
pub proof fn lemma_stored_names_are_labels(tf: Timeframe, ms: u64)
    ensures
        spec_timeframe_name(spec_milliseconds(tf) as u64) == timeframe_label(tf),
        (forall|t: Timeframe| spec_milliseconds(t) != ms) ==> spec_timeframe_name(ms) == decimal(ms as nat) + "ms"@,
{
    if (forall|t: Timeframe| spec_milliseconds(t) != ms) {
        assert(spec_milliseconds(Timeframe::MS100) != ms);
        assert(spec_milliseconds(Timeframe::MS200) != ms);
        assert(spec_milliseconds(Timeframe::MS300) != ms);
        assert(spec_milliseconds(Timeframe::MS500) != ms);
        assert(spec_milliseconds(Timeframe::MS1000) != ms);
        assert(spec_milliseconds(Timeframe::M1) != ms);
        assert(spec_milliseconds(Timeframe::M3) != ms);
        assert(spec_milliseconds(Timeframe::M5) != ms);
        assert(spec_milliseconds(Timeframe::M15) != ms);
        assert(spec_milliseconds(Timeframe::M30) != ms);
        assert(spec_milliseconds(Timeframe::H1) != ms);
        assert(spec_milliseconds(Timeframe::H2) != ms);
        assert(spec_milliseconds(Timeframe::H4) != ms);
        assert(spec_milliseconds(Timeframe::H6) != ms);
        assert(spec_milliseconds(Timeframe::H12) != ms);
        assert(spec_milliseconds(Timeframe::D1) != ms);
    }
}

/// The stored name of an interval given in milliseconds.
pub fn timeframe_to_string(timeframe_ms: u64) -> (s: String)
    ensures
        s@ == spec_timeframe_name(timeframe_ms),
{
    let known = match timeframe_ms {
        100 => Some("100ms"),
        200 => Some("200ms"),
        300 => Some("300ms"),
        500 => Some("500ms"),
        1000 => Some("1s"),
        60000 => Some("1m"),
        180000 => Some("3m"),
        300000 => Some("5m"),
        900000 => Some("15m"),
        1800000 => Some("30m"),
        3600000 => Some("1h"),
        7200000 => Some("2h"),
        14400000 => Some("4h"),
        21600000 => Some("6h"),
        43200000 => Some("12h"),
        86400000 => Some("1d"),
        _ => None,
    };
    match known {
        Some(name) => name.to_owned(),
        None => {
            let mut s = String::new();
            write_decimal(&mut s, timeframe_ms);
            s.append("ms");
            proof {
                assert(s@ =~= decimal(timeframe_ms as nat) + "ms"@);
            }
            s
        },
    }
}

/// The 31-multiplier rolling hash of the bytes `b`, wrapping around on overflow.
pub open spec fn name_fold(b: Seq<u8>) -> i64
    decreases b.len(),
{
    if b.len() == 0 {
        0
    } else {
        vstd::wrapping::i64_specs::wrapping_add(
            vstd::wrapping::i64_specs::wrapping_mul(name_fold(b.drop_last()), 31),
            b.last() as i64,
        )
    }
}

/// The exchange id a rolling hash gives: its absolute value modulo 127, plus one, so that
/// it lies in `1..=127`.
pub open spec fn id_from_fold(f: i64) -> i64 {
    let a: int = if f < 0 { -f } else { f as int };
    (a % 127 + 1) as i64
}

/// The rolling hash of the UTF-8 bytes of `name`.
pub fn exchange_name_fold(name: &str) -> (f: i64)
    ensures
        f == name_fold(name.spec_bytes()),
{
    let b = name.as_bytes();
    let mut acc: i64 = 0;
    let mut i: usize = 0;
    while i < b.len()
        invariant
            i <= b@.len(),
            b@ == name.spec_bytes(),
            acc == name_fold(b@.take(i as int)),
        decreases b@.len() - i,
    {
        proof {
            assert(b@.take(i + 1).drop_last() =~= b@.take(i as int));
        }
        acc = acc.wrapping_mul(31).wrapping_add(b[i] as i64);
        i = i + 1;
    }
    proof {
        assert(b@.take(i as int) =~= b@);
    }
    acc
}

/// The id of an exchange created while migrating, from the name it is stored under.
pub fn exchange_id_for_name(name: &str) -> (id: i64)
    requires
        name_fold(name.spec_bytes()) != i64::MIN,
    ensures
        id == id_from_fold(name_fold(name.spec_bytes())),
        1 <= id <= 127,
{
    let f = exchange_name_fold(name);
    let a: i64 = if f < 0 { -f } else { f };
    a % 127 + 1
}

/// The id of an exchange created while migrating, or `None` for a name whose hash has no
/// absolute value in an `i64` (the one input the id cannot be computed for).
pub fn exchange_id_for_name_checked(name: &str) -> (r: Option<i64>)
    ensures
        name_fold(name.spec_bytes()) == i64::MIN ==> r is None,
        name_fold(name.spec_bytes()) != i64::MIN ==> r == Some(id_from_fold(name_fold(name.spec_bytes()))),
{
    if exchange_name_fold(name) == i64::MIN {
        None
    } else {
        Some(exchange_id_for_name(name))
    }
}

} // verus!
