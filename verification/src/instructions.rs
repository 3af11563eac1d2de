//! The pool's operations.
//!
//! Each operation parses a fixed-width payload, validates the accounts the
//! host resolved against the pool ledger and the derived-address rules, and
//! computes the exact ledger mutation and custody requests to make. The
//! host performs the requests and commits the mutation only after they
//! succeed.

use vstd::prelude::*;

pub mod deposit;
pub mod initialize;
pub mod initialize_reserve;
pub mod merge;
pub mod merge_reserve;
pub mod withdraw;
pub mod withdraw_complete;

use crate::error::PoolError;

use deposit::DepositInstructionData;
use initialize::InitializeData;
use withdraw::WithdrawInstructionData;
use withdraw_complete::WithdrawCompleteInstructionData;

verus! {

/// Operation discriminator: initialize a pool.
pub const IX_INITIALIZE: u8 = 0;

/// Operation discriminator: deposit value for claim tokens.
pub const IX_DEPOSIT: u8 = 1;

/// Operation discriminator: provision the reserve position.
pub const IX_INITIALIZE_RESERVE: u8 = 2;

/// Operation discriminator: merge the reserve into the primary position.
pub const IX_MERGE_RESERVE: u8 = 3;

/// Operation discriminator: request a withdrawal.
pub const IX_WITHDRAW: u8 = 4;

/// Operation discriminator: complete a withdrawal.
pub const IX_WITHDRAW_COMPLETE: u8 = 5;

/// A decoded operation: the discriminator byte and its payload.
#[derive(Clone, Copy, Debug)]
pub enum PoolInstruction {
    /// Initialize a pool.
    Initialize(InitializeData),
    /// Deposit value for claim tokens.
    Deposit(DepositInstructionData),
    /// Provision the reserve position.
    InitializeReserve,
    /// Merge the reserve into the primary position.
    MergeReserve,
    /// Request a withdrawal.
    Withdraw(WithdrawInstructionData),
    /// Complete a withdrawal.
    WithdrawComplete(WithdrawCompleteInstructionData),
}

/// What decoding an inbound operation yields.
pub open spec fn spec_parse_instruction(data: Seq<u8>) -> Result<PoolInstruction, PoolError> {
    if data.len() == 0 {
        Err(PoolError::InvalidInstructionData)
    } else {
        let payload = data.drop_first();
        if data[0] == IX_INITIALIZE {
            match initialize::spec_parse_initialize(payload) {
                Ok(d) => Ok(PoolInstruction::Initialize(d)),
                Err(e) => Err(e),
            }
        } else if data[0] == IX_DEPOSIT {
            match deposit::spec_parse_deposit(payload) {
                Ok(d) => Ok(PoolInstruction::Deposit(d)),
                Err(e) => Err(e),
            }
        } else if data[0] == IX_INITIALIZE_RESERVE {
            Ok(PoolInstruction::InitializeReserve)
        } else if data[0] == IX_MERGE_RESERVE {
            Ok(PoolInstruction::MergeReserve)
        } else if data[0] == IX_WITHDRAW {
            match withdraw::spec_parse_withdraw(payload) {
                Ok(d) => Ok(PoolInstruction::Withdraw(d)),
                Err(e) => Err(e),
            }
        } else if data[0] == IX_WITHDRAW_COMPLETE {
            match withdraw_complete::spec_parse_withdraw_complete(payload) {
                Ok(d) => Ok(PoolInstruction::WithdrawComplete(d)),
                Err(e) => Err(e),
            }
        } else {
            Err(PoolError::InvalidInstructionData)
        }
    }
}

/// Decodes an inbound operation: one discriminator byte, then that
/// operation's fixed-width payload. An empty message or an unknown
/// discriminator is refused.
pub fn parse_instruction(data: &[u8]) -> (r: Result<PoolInstruction, PoolError>)
    ensures
        r == spec_parse_instruction(data@),
{
    if data.len() == 0 {
        return Err(PoolError::InvalidInstructionData);
    }
    let disc = data[0];
    let (_, payload) = data.split_at(1);
    proof {
        assert(payload@ =~= data@.drop_first());
    }
    if disc == IX_INITIALIZE {
        match InitializeData::parse(payload) {
            Ok(d) => Ok(PoolInstruction::Initialize(d)),
            Err(e) => Err(e),
        }
    } else if disc == IX_DEPOSIT {
        match DepositInstructionData::parse(payload) {
            Ok(d) => Ok(PoolInstruction::Deposit(d)),
            Err(e) => Err(e),
        }
    } else if disc == IX_INITIALIZE_RESERVE {
        Ok(PoolInstruction::InitializeReserve)
    } else if disc == IX_MERGE_RESERVE {
        Ok(PoolInstruction::MergeReserve)
    } else if disc == IX_WITHDRAW {
        match WithdrawInstructionData::parse(payload) {
            Ok(d) => Ok(PoolInstruction::Withdraw(d)),
            Err(e) => Err(e),
        }
    } else if disc == IX_WITHDRAW_COMPLETE {
        match WithdrawCompleteInstructionData::parse(payload) {
            Ok(d) => Ok(PoolInstruction::WithdrawComplete(d)),
            Err(e) => Err(e),
        }
    } else {
        Err(PoolError::InvalidInstructionData)
    }
}

} // verus!
