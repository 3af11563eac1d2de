//! The withdrawal-completion operation.
//!
//! Pays a matured withdrawal ticket out to its owner. The ticket's address
//! derives canonically from the pool, the user and the nonce chosen at
//! request time; it must be owned by the custody service and still hold
//! value and data. The custody service refuses the payout until the ticket
//! has fully deactivated, and paying out clears the ticket's backing
//! storage, so a given nonce settles at most once.

use vstd::prelude::*;

use crate::account::{check_pool_account, spec_pool_account_ok, AccountSnap};
use crate::codec::le_bytes_to_int;
use crate::error::PoolError;
use crate::keys::{PROGRAM_ID, STAKE_PROGRAM_ID};
use crate::pda::{
    found_pda, pda_of, pool_seeds, spec_pool_seeds, spec_withdraw_seeds, verify_canonical_pda,
    verify_pda, with_bump, withdraw_seeds,
};
use crate::pool::PoolState;

verus! {

/// Payload of a withdrawal completion: the nonce chosen at request time.
#[derive(Clone, Copy, Debug, PartialEq, Eq, Structural)]
pub struct WithdrawCompleteInstructionData {
    /// The ticket nonce to settle.
    pub nonce: u64,
}

/// What parsing a completion payload yields: eight little-endian bytes,
/// and a zero nonce is refused.
pub open spec fn spec_parse_withdraw_complete(data: Seq<u8>) -> Result<
    WithdrawCompleteInstructionData,
    PoolError,
> {
    if data.len() != 8 {
        Err(PoolError::InvalidInstructionData)
    } else {
        let nonce = le_bytes_to_int(data.subrange(0, 8));
        if nonce == 0 {
            Err(PoolError::InvalidInstructionData)
        } else {
            Ok(WithdrawCompleteInstructionData { nonce: nonce as u64 })
        }
    }
}

impl WithdrawCompleteInstructionData {
    /// Parses a completion payload.
    pub fn parse(data: &[u8]) -> (r: Result<Self, PoolError>)
        ensures
            r == spec_parse_withdraw_complete(data@),
    {
        if data.len() != 8 {
            return Err(PoolError::InvalidInstructionData);
        }
        let nonce = crate::codec::read_u64_le(data, 0);
        proof {
            assert(data@.subrange(0, 8) =~= data@.subrange(0int, 8int));
        }
        if nonce == 0 {
            return Err(PoolError::InvalidInstructionData);
        }
        Ok(WithdrawCompleteInstructionData { nonce })
    }
}

/// The accounts a withdrawal completion reads.
pub struct WithdrawCompleteAccounts {
    /// The ticket's owner; must sign and receives the payout.
    pub user: AccountSnap,
    /// The pool record.
    pub pool_state: AccountSnap,
    /// The ticket position to pay out.
    pub user_stake: AccountSnap,
    /// The stake-custody service.
    pub stake_program: AccountSnap,
}

/// What a validated completion hands the host: the value to pay out and
/// the bump of the ticket's derived address.
#[derive(Clone, Copy, Debug, PartialEq, Eq, Structural)]
pub struct WithdrawCompletePlan {
    /// The ticket's full value, paid to the user.
    pub payout: u64,
    /// Bump of the ticket's canonical derived address.
    pub user_stake_bump: u8,
}

/// What validating a completion yields: the payout plan, or the first
/// failing guard. The guards run in a fixed order: the user's signature;
/// the pool-record account shape; the stake service's identity; the pool
/// record's initialization flag; the pool's derived address against its
/// stored salt; the ticket's canonical derived address; the ticket's
/// owner; and the ticket still holding data and value — a ticket already
/// paid out, or never created, is uninitialized. A second completion of
/// the same nonce fails there.
pub open spec fn spec_validate_withdraw_complete(
    a: WithdrawCompleteAccounts,
    pool: PoolState,
    data: WithdrawCompleteInstructionData,
) -> Result<WithdrawCompletePlan, PoolError> {
    if !a.user.is_signer {
        Err(PoolError::MissingRequiredSignature)
    } else if !spec_pool_account_ok(a.pool_state) {
        Err(PoolError::InvalidAccountData)
    } else if a.stake_program.key@ != STAKE_PROGRAM_ID@ {
        Err(PoolError::IncorrectProgramId)
    } else if !pool.is_initialized {
        Err(PoolError::UninitializedAccount)
    } else if pda_of(
        with_bump(spec_pool_seeds(pool.authority@, pool.seed), pool.bump),
        PROGRAM_ID@,
    ) != Some(a.pool_state.key@) {
        Err(PoolError::InvalidSeeds)
    } else {
        match found_pda(
            spec_withdraw_seeds(a.pool_state.key@, a.user.key@, data.nonce),
            PROGRAM_ID@,
        ) {
            None => Err(PoolError::InvalidSeeds),
            Some(p) => {
                if p.0 != a.user_stake.key@ {
                    Err(PoolError::InvalidSeeds)
                } else if a.user_stake.owner@ != STAKE_PROGRAM_ID@ {
                    Err(PoolError::InvalidAccountData)
                } else if a.user_stake.data_len == 0 || a.user_stake.lamports == 0 {
                    Err(PoolError::UninitializedAccount)
                } else {
                    Ok(
                        WithdrawCompletePlan {
                            payout: a.user_stake.lamports,
                            user_stake_bump: p.1,
                        },
                    )
                }
            },
        }
    }
}

/// Validates a withdrawal completion and plans the payout.
///
/// On success the host asks the custody service to pay the ticket's full
/// value to the user; the service itself refuses a ticket that has not
/// finished deactivating, and a refusal aborts the operation with the
/// ledger untouched. The claim tokens were already burned at request time,
/// so completion changes no ledger counter.
pub fn validate_withdraw_complete(
    a: &WithdrawCompleteAccounts,
    pool: &PoolState,
    data: &WithdrawCompleteInstructionData,
) -> (r: Result<WithdrawCompletePlan, PoolError>)
    ensures
        r == spec_validate_withdraw_complete(*a, *pool, *data),
{
    a.user.check_signer()?;
    check_pool_account(&a.pool_state)?;
    a.stake_program.check_program(&STAKE_PROGRAM_ID)?;
    if !pool.is_initialized {
        return Err(PoolError::UninitializedAccount);
    }
    verify_pda(pool_seeds(&pool.authority, pool.seed), pool.bump, &PROGRAM_ID, &a.pool_state.key)?;
    let bump = verify_canonical_pda(
        withdraw_seeds(&a.pool_state.key, &a.user.key, data.nonce),
        &PROGRAM_ID,
        &a.user_stake.key,
    )?;
    a.user_stake.check_owner(&STAKE_PROGRAM_ID)?;
    if a.user_stake.data_len == 0 || a.user_stake.lamports == 0 {
        return Err(PoolError::UninitializedAccount);
    }
    Ok(WithdrawCompletePlan { payout: a.user_stake.lamports, user_stake_bump: bump })
}

} // verus!
