//! The reserve-merge operation.
//!
//! Consolidates the pool's reserve position into its primary position. The
//! custody service performs the merge and enforces lifecycle compatibility;
//! this operation validates the linkage and authority first and refuses an
//! empty reserve outright.

use vstd::prelude::*;

use crate::account::{check_pool_account, spec_pool_account_ok, AccountSnap};
use crate::error::PoolError;
use crate::keys::{PROGRAM_ID, STAKE_PROGRAM_ID};
use crate::pda::{pda_of, pool_seeds, spec_pool_seeds, verify_pda, with_bump};
use crate::pool::PoolState;

verus! {

/// The accounts a reserve merge reads.
pub struct MergeReserveAccounts {
    /// The pool record.
    pub pool_state: AccountSnap,
    /// The pool's primary stake position.
    pub pool_stake: AccountSnap,
    /// The pool's reserve position.
    pub reserve_stake: AccountSnap,
    /// The stake-custody service.
    pub stake_program: AccountSnap,
}

/// What validating a reserve merge yields. The guards run in a fixed
/// order: the pool-record account shape; the stake service's identity; the
/// pool record's liveness; the pool's derived address against its stored
/// salt; the owners of both positions; their linkage to the ledger; and
/// the reserve holding any value at all.
pub open spec fn spec_validate_merge_reserve(
    a: MergeReserveAccounts,
    pool: PoolState,
) -> Result<(), PoolError> {
    if !spec_pool_account_ok(a.pool_state) {
        Err(PoolError::InvalidAccountData)
    } else if a.stake_program.key@ != STAKE_PROGRAM_ID@ {
        Err(PoolError::IncorrectProgramId)
    } else if pool.discriminator == 0 {
        Err(PoolError::UninitializedAccount)
    } else if pda_of(
        with_bump(spec_pool_seeds(pool.authority@, pool.seed), pool.bump),
        PROGRAM_ID@,
    ) != Some(a.pool_state.key@) {
        Err(PoolError::InvalidSeeds)
    } else if a.pool_stake.owner@ != STAKE_PROGRAM_ID@ {
        Err(PoolError::InvalidAccountData)
    } else if a.reserve_stake.owner@ != STAKE_PROGRAM_ID@ {
        Err(PoolError::InvalidAccountData)
    } else if a.pool_stake.key@ != pool.stake_account@ {
        Err(PoolError::InvalidAccountData)
    } else if a.reserve_stake.key@ != pool.reserve_stake@ {
        Err(PoolError::InvalidAccountData)
    } else if a.reserve_stake.lamports == 0 {
        Err(PoolError::UninitializedAccount)
    } else {
        Ok(())
    }
}

/// Validates a reserve merge.
///
/// On success the host asks the custody service to merge the reserve into
/// the primary position; the service itself refuses incompatible lifecycle
/// states, and a refusal aborts the operation with the ledger untouched.
pub fn validate_merge_reserve(a: &MergeReserveAccounts, pool: &PoolState) -> (r: Result<
    (),
    PoolError,
>)
    ensures
        r == spec_validate_merge_reserve(*a, *pool),
{
    check_pool_account(&a.pool_state)?;
    a.stake_program.check_program(&STAKE_PROGRAM_ID)?;
    if pool.discriminator == 0 {
        return Err(PoolError::UninitializedAccount);
    }
    verify_pda(pool_seeds(&pool.authority, pool.seed), pool.bump, &PROGRAM_ID, &a.pool_state.key)?;
    a.pool_stake.check_owner(&STAKE_PROGRAM_ID)?;
    a.reserve_stake.check_owner(&STAKE_PROGRAM_ID)?;
    a.pool_stake.check_key(&pool.stake_account)?;
    a.reserve_stake.check_key(&pool.reserve_stake)?;
    if a.reserve_stake.lamports == 0 {
        return Err(PoolError::UninitializedAccount);
    }
    Ok(())
}

} // verus!
