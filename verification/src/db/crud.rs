//! Storage of market data: what the library decides about records before they are written.

pub mod order_runs;
