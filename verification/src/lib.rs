//! Cross-platform arbitrage between Kalshi and Polymarket binary markets:
//! local order books, best-ask extraction, opportunity detection and
//! order planning, with their contracts proved by Verus.
use vstd::prelude::*;

pub mod decimal;
pub mod types;
pub mod orderbook;
pub mod config;
pub mod arbitrage;
pub mod poly;
pub mod orders;

verus! {

} // verus!
