//! The withdrawal-request operation.
//!
//! A holder redeems claim tokens: the quoted value is split out of the
//! pool's primary position into a fresh per-user, per-nonce ticket
//! position, the ticket begins deactivating, the tokens are burned, and the
//! supply counter shrinks by exactly the burned amount. The ticket's
//! address derives canonically from the pool, the user and the nonce, and
//! must hold neither value nor data — a nonce, once occupied, cannot be
//! reused.

use vstd::prelude::*;

use crate::account::{
    check_ata, check_mint_account, check_pool_account, spec_ata_ok, spec_mint_account_ok,
    spec_pool_account_ok, spec_token_amount, token_account_amount, AccountSnap,
};
use crate::codec::le_bytes_to_int;
use crate::constants::{MIN_STAKE_DELEGATION, TOKEN_ACCOUNT_SIZE};
use crate::error::PoolError;
use crate::keys::{PROGRAM_ID, STAKE_PROGRAM_ID, SYSTEM_PROGRAM_ID, TOKEN_PROGRAM_ID};
use crate::pda::{
    found_pda, pda_of, pool_seeds, spec_pool_seeds, spec_withdraw_seeds, verify_canonical_pda,
    verify_pda, with_bump, withdraw_seeds,
};
use crate::pool::PoolState;
use crate::rate::{quote_burn, spec_quote_burn, spec_total_pool_value, total_pool_value};

verus! {

/// Payload of a withdrawal request: the claim tokens to burn and the
/// caller-chosen ticket nonce.
#[derive(Clone, Copy, Debug, PartialEq, Eq, Structural)]
pub struct WithdrawInstructionData {
    /// Claim tokens to burn.
    pub amount: u64,
    /// Caller-chosen nonce keying the withdrawal ticket.
    pub nonce: u64,
}

/// What parsing a withdrawal payload yields: sixteen little-endian bytes,
/// and a zero nonce is refused.
pub open spec fn spec_parse_withdraw(data: Seq<u8>) -> Result<WithdrawInstructionData, PoolError> {
    if data.len() != 16 {
        Err(PoolError::InvalidInstructionData)
    } else {
        let nonce = le_bytes_to_int(data.subrange(8, 16));
        if nonce == 0 {
            Err(PoolError::InvalidInstructionData)
        } else {
            Ok(
                WithdrawInstructionData {
                    amount: le_bytes_to_int(data.subrange(0, 8)) as u64,
                    nonce: nonce as u64,
                },
            )
        }
    }
}

impl WithdrawInstructionData {
    /// Parses a withdrawal payload.
    pub fn parse(data: &[u8]) -> (r: Result<Self, PoolError>)
        ensures
            r == spec_parse_withdraw(data@),
    {
        if data.len() != 16 {
            return Err(PoolError::InvalidInstructionData);
        }
        let amount = crate::codec::read_u64_le(data, 0);
        let nonce = crate::codec::read_u64_le(data, 8);
        proof {
            assert(data@.subrange(0, 8) =~= data@.subrange(0int, 8int));
            assert(data@.subrange(8, 16) =~= data@.subrange(8int, 16int));
        }
        if nonce == 0 {
            return Err(PoolError::InvalidInstructionData);
        }
        Ok(WithdrawInstructionData { amount, nonce })
    }
}

/// The accounts a withdrawal request reads.
pub struct WithdrawAccounts {
    /// The withdrawing holder; must sign.
    pub user: AccountSnap,
    /// The pool record.
    pub pool_state: AccountSnap,
    /// The pool's primary stake position.
    pub pool_stake: AccountSnap,
    /// The pool's reserve position.
    pub reserve_stake: AccountSnap,
    /// The fresh ticket position, keyed by user and nonce.
    pub user_stake: AccountSnap,
    /// The claim-token mint.
    pub lst_mint: AccountSnap,
    /// The holder's claim-token account.
    pub user_lst_ata: AccountSnap,
    /// The system allocator.
    pub system_program: AccountSnap,
    /// The stake-custody service.
    pub stake_program: AccountSnap,
    /// The fungible-token service.
    pub token_program: AccountSnap,
}

/// What a validated withdrawal request hands the host: the value to split
/// into the ticket and the bump of the ticket's derived address, needed to
/// sign its creation.
#[derive(Clone, Copy, Debug, PartialEq, Eq, Structural)]
pub struct WithdrawPlan {
    /// Value to split out of the primary position into the ticket.
    pub sol_amount: u64,
    /// Bump of the ticket's canonical derived address.
    pub user_stake_bump: u8,
}

/// What validating a withdrawal request yields: the plan, or the first
/// failing guard. The guards run in a fixed order: the holder's signature;
/// the three program identities; the pool-record and mint account shapes;
/// the holder's claim-token account derivation; the pool's initialization
/// flag; the pool's derived address against its stored salt; the ticket's
/// canonical derived address; the ticket's emptiness (an occupied nonce
/// cannot be reused); the primary position's owner and the linkage of the
/// supplied accounts to the ledger; the holder's claim-token balance; the
/// exchange-rate quote; and the minimum-stake floors — the quoted value
/// must itself be a viable position, and the primary position must retain
/// one after the split.
pub open spec fn spec_validate_withdraw(
    a: WithdrawAccounts,
    pool: PoolState,
    data: WithdrawInstructionData,
    ata_data: Seq<u8>,
    stake_rent_exempt: u64,
) -> Result<WithdrawPlan, PoolError> {
    if !a.user.is_signer {
        Err(PoolError::MissingRequiredSignature)
    } else if a.system_program.key@ != SYSTEM_PROGRAM_ID@ {
        Err(PoolError::IncorrectProgramId)
    } else if a.token_program.key@ != TOKEN_PROGRAM_ID@ {
        Err(PoolError::IncorrectProgramId)
    } else if a.stake_program.key@ != STAKE_PROGRAM_ID@ {
        Err(PoolError::IncorrectProgramId)
    } else if !spec_pool_account_ok(a.pool_state) {
        Err(PoolError::InvalidAccountData)
    } else if !spec_mint_account_ok(a.lst_mint) {
        Err(PoolError::InvalidAccountData)
    } else if !spec_ata_ok(a.user_lst_ata.key@, a.user.key@, TOKEN_PROGRAM_ID@, a.lst_mint.key@) {
        Err(PoolError::InvalidAccountData)
    } else if !pool.is_initialized {
        Err(PoolError::UninitializedAccount)
    } else if pda_of(
        with_bump(spec_pool_seeds(pool.authority@, pool.seed), pool.bump),
        PROGRAM_ID@,
    ) != Some(a.pool_state.key@) {
        Err(PoolError::InvalidSeeds)
    } else {
        match found_pda(
            spec_withdraw_seeds(a.pool_state.key@, a.user.key@, data.nonce),
            PROGRAM_ID@,
        ) {
            None => Err(PoolError::InvalidSeeds),
            Some(p) => {
                if p.0 != a.user_stake.key@ {
                    Err(PoolError::InvalidSeeds)
                } else if a.user_stake.data_len != 0 || a.user_stake.lamports != 0 {
                    Err(PoolError::AccountAlreadyInitialized)
                } else if a.pool_stake.owner@ != STAKE_PROGRAM_ID@ {
                    Err(PoolError::InvalidAccountData)
                } else if a.pool_stake.key@ != pool.stake_account@ {
                    Err(PoolError::InvalidAccountData)
                } else if a.reserve_stake.key@ != pool.reserve_stake@ {
                    Err(PoolError::InvalidAccountData)
                } else if a.lst_mint.key@ != pool.lst_mint@ {
                    Err(PoolError::InvalidAccountData)
                } else if ata_data.len() != TOKEN_ACCOUNT_SIZE {
                    Err(PoolError::InvalidAccountData)
                } else if spec_token_amount(ata_data) < data.amount {
                    Err(PoolError::InsufficientFunds)
                } else {
                    let total = spec_total_pool_value(
                        a.pool_stake.lamports,
                        a.reserve_stake.lamports,
                        stake_rent_exempt,
                    );
                    if total > u64::MAX {
                        Err(PoolError::ArithmeticOverflow)
                    } else {
                        match spec_quote_burn(data.amount, pool.lst_supply, total as u64) {
                            Err(e) => Err(e),
                            Ok(sol_amount) => {
                                let min_stake = stake_rent_exempt + MIN_STAKE_DELEGATION;
                                if sol_amount < min_stake {
                                    Err(PoolError::InsufficientFunds)
                                } else if a.pool_stake.lamports < sol_amount {
                                    Err(PoolError::InsufficientFunds)
                                } else if a.pool_stake.lamports - sol_amount < min_stake {
                                    Err(PoolError::InsufficientFunds)
                                } else {
                                    Ok(
                                        WithdrawPlan {
                                            sol_amount,
                                            user_stake_bump: p.1,
                                        },
                                    )
                                }
                            },
                        }
                    }
                }
            },
        }
    }
}

/// Validates a withdrawal request and quotes the value it redeems.
///
/// `ata_data` is the holder's claim-token account data; `stake_rent_exempt`
/// is the host-reported minimum balance a stake-sized account must retain.
/// On success the host creates the ticket position, splits the planned
/// value into it, begins deactivating it, burns `data.amount` claim tokens,
/// and then settles the ledger with `settle_withdrawal`. Any failure aborts
/// the whole operation before any of that.
pub fn validate_withdraw(
    a: &WithdrawAccounts,
    pool: &PoolState,
    data: &WithdrawInstructionData,
    ata_data: &[u8],
    stake_rent_exempt: u64,
) -> (r: Result<WithdrawPlan, PoolError>)
    ensures
        r == spec_validate_withdraw(*a, *pool, *data, ata_data@, stake_rent_exempt),
{
    a.user.check_signer()?;
    a.system_program.check_program(&SYSTEM_PROGRAM_ID)?;
    a.token_program.check_program(&TOKEN_PROGRAM_ID)?;
    a.stake_program.check_program(&STAKE_PROGRAM_ID)?;
    check_pool_account(&a.pool_state)?;
    check_mint_account(&a.lst_mint)?;
    check_ata(&a.user_lst_ata, &a.user.key, &a.lst_mint.key, &TOKEN_PROGRAM_ID)?;
    if !pool.is_initialized {
        return Err(PoolError::UninitializedAccount);
    }
    verify_pda(pool_seeds(&pool.authority, pool.seed), pool.bump, &PROGRAM_ID, &a.pool_state.key)?;
    let bump = verify_canonical_pda(
        withdraw_seeds(&a.pool_state.key, &a.user.key, data.nonce),
        &PROGRAM_ID,
        &a.user_stake.key,
    )?;
    if a.user_stake.data_len != 0 || a.user_stake.lamports != 0 {
        return Err(PoolError::AccountAlreadyInitialized);
    }
    a.pool_stake.check_owner(&STAKE_PROGRAM_ID)?;
    a.pool_stake.check_key(&pool.stake_account)?;
    a.reserve_stake.check_key(&pool.reserve_stake)?;
    a.lst_mint.check_key(&pool.lst_mint)?;
    let balance = token_account_amount(ata_data)?;
    if balance < data.amount {
        return Err(PoolError::InsufficientFunds);
    }
    let total = total_pool_value(a.pool_stake.lamports, a.reserve_stake.lamports, stake_rent_exempt)?;
    let sol_amount = quote_burn(data.amount, pool.lst_supply, total)?;
    if stake_rent_exempt > u64::MAX - MIN_STAKE_DELEGATION {
        return Err(PoolError::InsufficientFunds);
    }
    let min_stake = stake_rent_exempt + MIN_STAKE_DELEGATION;
    if sol_amount < min_stake {
        return Err(PoolError::InsufficientFunds);
    }
    if a.pool_stake.lamports < sol_amount {
        return Err(PoolError::InsufficientFunds);
    }
    if a.pool_stake.lamports - sol_amount < min_stake {
        return Err(PoolError::InsufficientFunds);
    }
    Ok(WithdrawPlan { sol_amount, user_stake_bump: bump })
}

/// Settles a withdrawal in the ledger after the host has split the value
/// into the ticket and burned the claim tokens: the supply counter shrinks
/// by exactly the burned amount, and nothing else changes.
pub fn settle_withdrawal(pool: &mut PoolState, burned: u64) -> (r: Result<(), PoolError>)
    ensures
        match r {
            Ok(()) => {
                &&& burned <= old(pool).lst_supply
                &&& *final(pool) == (PoolState {
                    lst_supply: (old(pool).lst_supply - burned) as u64,
                    ..*old(pool)
                })
            },
            Err(e) => {
                &&& e == PoolError::ArithmeticOverflow
                &&& burned > old(pool).lst_supply
                &&& *final(pool) == *old(pool)
            },
        },
{
    pool.record_withdrawal(burned)
}

} // verus!
