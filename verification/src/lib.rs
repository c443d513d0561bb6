//! Verified core of a BTC futures volume-profile trading bot: request
//! building and signing for the exchange, the strategy's position state
//! machine, tap bookkeeping for value-area levels, and clock arithmetic.
use vstd::prelude::*;

pub mod clock;
pub mod exchange;
pub mod strategy;
pub mod text;
pub mod tradelog;

verus! {
}
