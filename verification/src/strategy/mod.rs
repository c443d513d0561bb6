//! The volume-profile strategy: level bookkeeping and the position state
//! machine that drives the exchange.
pub mod engine;
pub mod state;
