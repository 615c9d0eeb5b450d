//! Panels of the app: the price ladder.

pub mod ladder;
