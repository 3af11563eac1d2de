//! Failure codes for pool operations.
//!
//! Every failure is detected before any mutation is committed, and each
//! distinct condition surfaces a distinct, stable code.

use vstd::prelude::*;

verus! {

/// The typed failure code a pool operation reports to its host.
#[derive(Clone, Copy, Debug, PartialEq, Eq, Structural)]
pub enum PoolError {
    /// The host supplied fewer accounts than the operation needs.
    NotEnoughAccountKeys,
    /// A required signer did not sign.
    MissingRequiredSignature,
    /// The instruction payload is absent, malformed or holds a forbidden value.
    InvalidInstructionData,
    /// A payload value lies below an operation's minimum.
    InvalidArgument,
    /// An account's contents or linkage do not match the ledger.
    InvalidAccountData,
    /// The target account already holds data or value.
    AccountAlreadyInitialized,
    /// The account has not been initialized yet, or no longer holds value.
    UninitializedAccount,
    /// A supplied address does not match its deterministic derivation.
    InvalidSeeds,
    /// A program account does not carry the expected program identity.
    IncorrectProgramId,
    /// A balance is too small for the requested movement of value.
    InsufficientFunds,
    /// Checked arithmetic overflowed or underflowed.
    ArithmeticOverflow,
    /// The pool seed value is reserved.
    InvalidSeed,
    /// A burn quote was requested while no claim tokens are outstanding.
    ZeroSupply,
    /// A burn quote rounded down to zero value.
    ZeroQuote,
}

impl PoolError {
    /// A stable, human-readable name for the failure code.
    pub fn as_str(&self) -> (r: &'static str) {
        match self {
            PoolError::NotEnoughAccountKeys => "not enough account keys",
            PoolError::MissingRequiredSignature => "missing required signature",
            PoolError::InvalidInstructionData => "invalid instruction data",
            PoolError::InvalidArgument => "invalid argument",
            PoolError::InvalidAccountData => "invalid account data",
            PoolError::AccountAlreadyInitialized => "account already initialized",
            PoolError::UninitializedAccount => "uninitialized account",
            PoolError::InvalidSeeds => "invalid seeds",
            PoolError::IncorrectProgramId => "incorrect program id",
            PoolError::InsufficientFunds => "insufficient funds",
            PoolError::ArithmeticOverflow => "arithmetic overflow",
            PoolError::InvalidSeed => "invalid seed",
            PoolError::ZeroSupply => "zero supply",
            PoolError::ZeroQuote => "zero quote",
        }
    }
}

} // verus!
