//! Resting-order runs of the order book, as stored.

use vstd::prelude::*;
use std::hash::{DefaultHasher, Hasher};
use vstd::std_specs::hash::DefaultHasherAdditionalSpecFns;
use crate::db::helpers::{hash_int, le_bytes};
use crate::exchange::price::Price;

verus! {

/// Hash identifier of an order run: the standard hasher over the ticker id (4 bytes), the
/// start time (8 bytes) and the price units (8 bytes), little-endian, read as an `i64`.
pub open spec fn spec_order_run_id(ticker_id: i32, start_time: u64, price: Price) -> i64 {
    (DefaultHasher::spec_finish(
        seq![
            le_bytes((ticker_id as u32) as nat, 4),
            le_bytes(start_time as nat, 8),
            le_bytes((price.units as u64) as nat, 8),
        ],
    )) as i64
}

/// Deterministic identifier of an order run from its ticker, start time and price.
pub fn generate_run_id(ticker_id: i32, start_time: u64, price: Price) -> (id: i64)
    ensures
        id == spec_order_run_id(ticker_id, start_time, price),
{
    let mut hasher = DefaultHasher::new();
    hash_int(&mut hasher, (ticker_id as u32) as u64, 4);
    hash_int(&mut hasher, start_time, 8);
    hash_int(&mut hasher, price.units as u64, 8);
    proof {
        assert(hasher@ =~= seq![
            le_bytes((ticker_id as u32) as nat, 4),
            le_bytes(start_time as nat, 8),
            le_bytes((price.units as u64) as nat, 8),
        ]);
    }
    hasher.finish() as i64
}

} // verus!
