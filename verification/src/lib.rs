//! Decision logic of a stock price aggregator: which quotes to fetch and from
//! where, how each outcome is handled, and how a live price feed decides what
//! each connected client receives.

pub mod sources;
pub mod session;
pub mod service;
