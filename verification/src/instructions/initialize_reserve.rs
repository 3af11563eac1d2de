//! The reserve-provisioning operation.
//!
//! Turns the pool's empty reserve account into a live stake position:
//! allocates backing data if none exists yet, initializes it and delegates
//! it to the bound validator. The reserve must already hold enough value to
//! become a viable position, and a reserve whose data already records an
//! initialized position is refused.

use vstd::prelude::*;

use crate::account::{check_pool_account, spec_pool_account_ok, AccountSnap};
use crate::codec::{le_bytes_to_int, read_u32_le};
use crate::constants::{MIN_STAKE_DELEGATION, STAKE_ACCOUNT_SIZE};
use crate::error::PoolError;
use crate::keys::{PROGRAM_ID, STAKE_PROGRAM_ID, SYSTEM_PROGRAM_ID, VOTE_PROGRAM_ID};
use crate::pda::{pda_of, pool_seeds, spec_pool_seeds, verify_pda, with_bump};
use crate::pool::PoolState;

verus! {

/// What a validated reserve provisioning hands the host: whether the
/// reserve account still needs its backing data allocated and assigned to
/// the custody service.
#[derive(Clone, Copy, Debug, PartialEq, Eq, Structural)]
pub struct InitializeReservePlan {
    /// Whether backing data must first be allocated.
    pub needs_allocation: bool,
}

/// The accounts a reserve provisioning reads.
pub struct InitializeReserveAccounts {
    /// The pool record.
    pub pool_state: AccountSnap,
    /// The pool's primary stake position.
    pub pool_stake: AccountSnap,
    /// The pool's reserve position.
    pub reserve_stake: AccountSnap,
    /// The bound validator's vote account.
    pub validator_vote: AccountSnap,
    /// The system allocator.
    pub system_program: AccountSnap,
    /// The stake-custody service.
    pub stake_program: AccountSnap,
}

/// The lifecycle tag a stake account's data records in its leading
/// little-endian word; zero means still uninitialized.
pub open spec fn spec_reserve_state_word(data: Seq<u8>) -> int {
    if data.len() >= 4 {
        le_bytes_to_int(data.subrange(0, 4))
    } else {
        0
    }
}

/// What validating a reserve provisioning yields. The guards run in a
/// fixed order: the pool-record account shape; the two program identities;
/// the vote account's owner; the pool record's liveness; the pool's
/// derived address against its stored salt; the linkage of the supplied
/// positions and vote account to the ledger; the reserve holding enough
/// value to become a viable position; and the reserve's data not already
/// recording an initialized position.
pub open spec fn spec_validate_initialize_reserve(
    a: InitializeReserveAccounts,
    pool: PoolState,
    reserve_data: Seq<u8>,
) -> Result<InitializeReservePlan, PoolError> {
    if !spec_pool_account_ok(a.pool_state) {
        Err(PoolError::InvalidAccountData)
    } else if a.system_program.key@ != SYSTEM_PROGRAM_ID@ {
        Err(PoolError::IncorrectProgramId)
    } else if a.stake_program.key@ != STAKE_PROGRAM_ID@ {
        Err(PoolError::IncorrectProgramId)
    } else if a.validator_vote.owner@ != VOTE_PROGRAM_ID@ {
        Err(PoolError::InvalidAccountData)
    } else if pool.discriminator == 0 {
        Err(PoolError::UninitializedAccount)
    } else if pda_of(
        with_bump(spec_pool_seeds(pool.authority@, pool.seed), pool.bump),
        PROGRAM_ID@,
    ) != Some(a.pool_state.key@) {
        Err(PoolError::InvalidSeeds)
    } else if a.pool_stake.key@ != pool.stake_account@ {
        Err(PoolError::InvalidAccountData)
    } else if a.reserve_stake.key@ != pool.reserve_stake@ {
        Err(PoolError::InvalidAccountData)
    } else if a.validator_vote.key@ != pool.validator_vote@ {
        Err(PoolError::InvalidAccountData)
    } else if a.reserve_stake.lamports < STAKE_ACCOUNT_SIZE + MIN_STAKE_DELEGATION {
        Err(PoolError::InsufficientFunds)
    } else if reserve_data.len() != a.reserve_stake.data_len {
        Err(PoolError::InvalidAccountData)
    } else if spec_reserve_state_word(reserve_data) >= 1 {
        Err(PoolError::AccountAlreadyInitialized)
    } else {
        Ok(InitializeReservePlan { needs_allocation: a.reserve_stake.data_len == 0 })
    }
}

/// Validates a reserve provisioning.
///
/// `reserve_data` is the reserve account's current backing data. On
/// success the host allocates and assigns the backing data when the plan
/// asks for it, then initializes the position with the pool as both
/// authorities and delegates it to the bound validator. Any failure aborts
/// the whole operation before any of that.
pub fn validate_initialize_reserve(
    a: &InitializeReserveAccounts,
    pool: &PoolState,
    reserve_data: &[u8],
) -> (r: Result<InitializeReservePlan, PoolError>)
    ensures
        r == spec_validate_initialize_reserve(*a, *pool, reserve_data@),
{
    check_pool_account(&a.pool_state)?;
    a.system_program.check_program(&SYSTEM_PROGRAM_ID)?;
    a.stake_program.check_program(&STAKE_PROGRAM_ID)?;
    a.validator_vote.check_owner(&VOTE_PROGRAM_ID)?;
    if pool.discriminator == 0 {
        return Err(PoolError::UninitializedAccount);
    }
    verify_pda(pool_seeds(&pool.authority, pool.seed), pool.bump, &PROGRAM_ID, &a.pool_state.key)?;
    a.pool_stake.check_key(&pool.stake_account)?;
    a.reserve_stake.check_key(&pool.reserve_stake)?;
    a.validator_vote.check_key(&pool.validator_vote)?;
    if a.reserve_stake.lamports < STAKE_ACCOUNT_SIZE + MIN_STAKE_DELEGATION {
        return Err(PoolError::InsufficientFunds);
    }
    if reserve_data.len() as u64 != a.reserve_stake.data_len {
        return Err(PoolError::InvalidAccountData);
    }
    if reserve_data.len() >= 4 {
        let state = read_u32_le(reserve_data, 0);
        proof {
            assert(reserve_data@.subrange(0, 4) =~= reserve_data@.subrange(0int, 4int));
        }
        if state >= 1 {
            return Err(PoolError::AccountAlreadyInitialized);
        }
    }
    Ok(InitializeReservePlan { needs_allocation: a.reserve_stake.data_len == 0 })
}

} // verus!
