//! Fixed configuration values of the pool.

use vstd::prelude::*;

verus! {

/// Size in bytes of a stake-custody account's backing data.
pub const STAKE_ACCOUNT_SIZE: u64 = 200;

/// The smallest value a stake position may delegate.
pub const MIN_STAKE_DELEGATION: u64 = 1_000_000_000;

/// Size in bytes of a fungible-token mint account's backing data.
pub const MINT_SIZE: u64 = 82;

/// Size in bytes of a fungible-token holding account's backing data.
pub const TOKEN_ACCOUNT_SIZE: u64 = 165;

/// Offset of the little-endian holding amount inside a token account's data.
pub const TOKEN_ACCOUNT_AMOUNT_OFFSET: usize = 64;

} // verus!
