//! Decision and action-building core of an oracle pool.
//!
//! Operators of the pool publish observations ("datapoints") to a ledger during
//! an epoch; once the epoch is over the datapoints are aggregated into a new
//! pool value. This library decides which action is due, checks operator
//! consensus, and describes the transaction to build, all as verified functions
//! over plain values.

pub mod chain;
pub mod cli;
pub mod governance;
pub mod main_loop;
pub mod pool_commands;
pub mod refresh;
pub mod sequences;
pub mod state;
