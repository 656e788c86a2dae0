//! Verified core of the autonomous option-buying strategy: the incremental
//! market-tick model, the feed-subscription ledger, the configuration rules,
//! the debate verdict and the paper-only publishing guard.
use vstd::prelude::*;

pub mod analysts;
pub mod config;
pub mod debate;
pub mod engine;
pub mod gate;
pub mod market;
pub mod signal;
pub mod subscriptions;
pub mod text;

verus! {

} // verus!
