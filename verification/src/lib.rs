//! Verified core of a market-data charting application: exchange and ticker
//! identities, stream descriptions and the requests and connection decisions of an
//! exchange, database identifiers, caches and bookkeeping, migration planning, health
//! findings, performance metrics, the order-book chase tracker and the dashboard's
//! fetch decisions.

pub mod text;
pub mod exchange;
pub mod db;
pub mod panel;
pub mod clock;
pub mod chart;
pub mod modal;
pub mod dashboard;
