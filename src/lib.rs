//! A membership-gated staking ledger: participants deposit a token into a shared
//! pool and become members once their own balance reaches the pool's minimum.
//!
//! The ledger's decisions are pure functions over plain values. The host that runs
//! them performs the token transfers, reads the clock and stores the records; it
//! hands the outcome of each transfer back to the ledger before anything changes.
pub mod types;
pub mod staking;
pub mod queries;
pub mod ledger;
