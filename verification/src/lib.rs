//! Core of an automated trading controller that runs one strategy across
//! several independent trading venues: fee-aware amount allocation, profit
//! evaluation, inventory-tracking arbitrage matching (the reseller), and
//! cross-venue reconciliation of resting limit orders (the limit master).
//!
//! Prices, amounts, fees and profit margins are fixed-point numbers: a value
//! `v` stands for the real quantity `v / SCALE`. Venue I/O (market data,
//! balance queries, order placement and cancellation) happens outside this
//! crate; the functions here take the fetched snapshots as plain values and
//! return the decisions, so that every rule is verified.

pub mod bookkeeper;
pub mod calculators;
pub mod filters;
pub mod limit_master;
pub mod numeric;
pub mod order;
pub mod reseller;
pub mod search;
pub mod trading_pair;
