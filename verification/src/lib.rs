//! A liquid-staking pool library.
//!
//! Users deposit a base asset into a pool's staked position and receive a
//! fungible claim token representing a proportional share of the pool's total
//! value; they later redeem claim tokens for the underlying value after a
//! mandatory unstaking delay. The exchange-rate accounting, the pool ledger
//! and its byte layout, the stake-position lifecycle rules, the
//! withdrawal-ticket rules and the derived-address authority checks live here,
//! stated in contracts and verified. The host-facing plumbing (account
//! handling and the signed requests to the external services) stays outside.

pub mod account;
pub mod codec;
pub mod constants;
pub mod driver;
pub mod error;
pub mod instructions;
pub mod keys;
pub mod lifecycle;
pub mod pda;
pub mod pool;
pub mod rate;
pub mod supply;
