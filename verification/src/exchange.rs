//! Exchanges, markets, intervals, tickers and stream descriptions.

pub mod timeframe;
pub mod venue;
pub mod ticker;
pub mod info;
pub mod stream;
pub mod price;
pub mod unique;
pub mod wire;
pub mod aster;
