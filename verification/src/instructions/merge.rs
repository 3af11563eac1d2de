//! The staging-merge operation.
//!
//! Consolidates a depositor's staging position into the pool's primary
//! position once both have activated. The custody service performs the
//! merge and enforces lifecycle compatibility; on settlement the ledger's
//! pending-deposit counter shrinks by the value merged in.

use vstd::prelude::*;

use crate::account::{check_pool_account, spec_pool_account_ok, AccountSnap};
use crate::error::PoolError;
use crate::keys::{PROGRAM_ID, STAKE_PROGRAM_ID};
use crate::pda::{
    deposit_stake_seeds, pda_of, pool_seeds, spec_deposit_stake_seeds, spec_pool_seeds, verify_pda,
    with_bump,
};
use crate::pool::PoolState;

verus! {

/// Payload of a staging merge: the salt of the staging position's derived
/// address.
#[derive(Clone, Copy, Debug, PartialEq, Eq, Structural)]
pub struct MergeInstructionData {
    /// Salt of the staging stake position's derived address.
    pub deposit_stake_bump: u8,
}

/// What parsing a staging-merge payload yields: exactly one byte.
pub open spec fn spec_parse_merge(data: Seq<u8>) -> Result<MergeInstructionData, PoolError> {
    if data.len() != 1 {
        Err(PoolError::InvalidInstructionData)
    } else {
        Ok(MergeInstructionData { deposit_stake_bump: data[0] })
    }
}

impl MergeInstructionData {
    /// Parses a staging-merge payload.
    pub fn parse(data: &[u8]) -> (r: Result<Self, PoolError>)
        ensures
            r == spec_parse_merge(data@),
    {
        if data.len() != 1 {
            return Err(PoolError::InvalidInstructionData);
        }
        Ok(MergeInstructionData { deposit_stake_bump: data[0] })
    }
}

/// The accounts a staging merge reads.
pub struct MergeAccounts {
    /// The pool record.
    pub pool_state: AccountSnap,
    /// The pool's primary stake position.
    pub pool_stake: AccountSnap,
    /// The depositor's staging stake position.
    pub deposit_stake: AccountSnap,
    /// The depositor whose staging position is merged; must sign.
    pub depositor: AccountSnap,
    /// The stake-custody service.
    pub stake_program: AccountSnap,
}

/// What validating a staging merge yields. The guards run in a fixed
/// order: the depositor's signature; the pool-record account shape; the
/// stake service's identity; the primary position's linkage to the ledger;
/// the staging position holding data at all; the pool's derived address
/// against its stored salt; and the staging position's derived address
/// against the supplied salt.
pub open spec fn spec_validate_merge(
    a: MergeAccounts,
    pool: PoolState,
    data: MergeInstructionData,
) -> Result<(), PoolError> {
    if !a.depositor.is_signer {
        Err(PoolError::MissingRequiredSignature)
    } else if !spec_pool_account_ok(a.pool_state) {
        Err(PoolError::InvalidAccountData)
    } else if a.stake_program.key@ != STAKE_PROGRAM_ID@ {
        Err(PoolError::IncorrectProgramId)
    } else if a.pool_stake.key@ != pool.stake_account@ {
        Err(PoolError::InvalidAccountData)
    } else if a.deposit_stake.data_len == 0 {
        Err(PoolError::UninitializedAccount)
    } else if pda_of(
        with_bump(spec_pool_seeds(pool.authority@, pool.seed), pool.bump),
        PROGRAM_ID@,
    ) != Some(a.pool_state.key@) {
        Err(PoolError::InvalidSeeds)
    } else if pda_of(
        with_bump(
            spec_deposit_stake_seeds(a.pool_state.key@, a.depositor.key@),
            data.deposit_stake_bump,
        ),
        PROGRAM_ID@,
    ) != Some(a.deposit_stake.key@) {
        Err(PoolError::InvalidSeeds)
    } else {
        Ok(())
    }
}

/// Validates a staging merge.
///
/// On success the host asks the custody service to merge the staging
/// position into the primary one; the service itself refuses incompatible
/// lifecycle states, and a refusal aborts the operation with the ledger
/// untouched. After a successful merge the host settles the ledger with
/// `settle_merge`.
pub fn validate_merge(a: &MergeAccounts, pool: &PoolState, data: &MergeInstructionData) -> (r:
    Result<(), PoolError>)
    ensures
        r == spec_validate_merge(*a, *pool, *data),
{
    a.depositor.check_signer()?;
    check_pool_account(&a.pool_state)?;
    a.stake_program.check_program(&STAKE_PROGRAM_ID)?;
    a.pool_stake.check_key(&pool.stake_account)?;
    if a.deposit_stake.data_is_empty() {
        return Err(PoolError::UninitializedAccount);
    }
    verify_pda(pool_seeds(&pool.authority, pool.seed), pool.bump, &PROGRAM_ID, &a.pool_state.key)?;
    verify_pda(
        deposit_stake_seeds(&a.pool_state.key, &a.depositor.key),
        data.deposit_stake_bump,
        &PROGRAM_ID,
        &a.deposit_stake.key,
    )?;
    Ok(())
}

/// Settles a staging merge in the ledger after the custody service has
/// merged the value in: the pending-deposit counter shrinks by the value
/// the staging position held, saturating at zero, and nothing else
/// changes.
pub fn settle_merge(pool: &mut PoolState, merged: u64)
    ensures
        *final(pool) == (PoolState {
            pending_deposits: if merged <= old(pool).pending_deposits {
                (old(pool).pending_deposits - merged) as u64
            } else {
                0u64
            },
            ..*old(pool)
        }),
{
    pool.record_merge_settled(merged);
}

} // verus!
