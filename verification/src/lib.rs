//! Per-address trading statistics over a stream of value-transfer events.
//!
//! The core of the crate is the aggregation engine: it expands each transfer
//! into a buy operation at the receiving address and a sell operation at the
//! sending address, orders every address's operations by time, and folds them
//! into per-address summaries (total volume, volume-weighted average buy and
//! sell prices as exact fractions, and the historical peak running balance).
//! The engine is pure computation and is verified against a functional
//! specification; storage and transport live behind a small store interface.

pub mod aggregation;
pub mod config;
pub mod engine;
pub mod errors;
pub mod generator;
pub mod jobs;
pub mod laws;
pub mod stats_service;
pub mod transfer;
pub mod transfer_repo;
pub mod user_stats;
