//! The deposit operation.
//!
//! A depositor stakes value into a fresh staging position delegated to the
//! pool's validator and receives claim tokens priced by the pool's current
//! exchange rate — against the same total pool value, primary plus reserve
//! net of rent, that withdrawals are priced against. The staging position's
//! address derives canonically from the pool and the depositor, the claim
//! tokens are minted to the depositor's associated token account, and the
//! ledger's supply counter grows by exactly the minted amount while the
//! pending-deposit counter records the staged value until it is merged.

use vstd::prelude::*;

use crate::account::{
    check_mint_account, check_pool_account, spec_mint_account_ok, spec_pool_account_ok,
    AccountSnap,
};
use crate::codec::le_bytes_to_int;
use crate::constants::MIN_STAKE_DELEGATION;
use crate::error::PoolError;
use crate::keys::{
    ATA_PROGRAM_ID, PROGRAM_ID, STAKE_PROGRAM_ID, SYSTEM_PROGRAM_ID, TOKEN_PROGRAM_ID,
    VOTE_PROGRAM_ID,
};
use crate::pda::{
    deposit_stake_seeds, found_pda, mint_seeds, pda_of, pool_seeds, spec_deposit_stake_seeds,
    spec_mint_seeds, spec_pool_seeds, verify_canonical_pda, verify_pda, with_bump,
};
use crate::pool::PoolState;
use crate::rate::{quote_mint, spec_quote_mint, spec_total_pool_value, total_pool_value};

verus! {

/// Payload of a deposit: the value to stake.
#[derive(Clone, Copy, Debug, PartialEq, Eq, Structural)]
pub struct DepositInstructionData {
    /// Value to deposit.
    pub amount: u64,
}

/// What parsing a deposit payload yields: eight little-endian bytes; a
/// zero amount is refused outright and one below the minimum delegation is
/// an invalid argument.
pub open spec fn spec_parse_deposit(data: Seq<u8>) -> Result<DepositInstructionData, PoolError> {
    if data.len() != 8 {
        Err(PoolError::InvalidInstructionData)
    } else {
        let amount = le_bytes_to_int(data.subrange(0, 8));
        if amount == 0 {
            Err(PoolError::InvalidInstructionData)
        } else if amount < MIN_STAKE_DELEGATION {
            Err(PoolError::InvalidArgument)
        } else {
            Ok(DepositInstructionData { amount: amount as u64 })
        }
    }
}

impl DepositInstructionData {
    /// Parses a deposit payload.
    pub fn parse(data: &[u8]) -> (r: Result<Self, PoolError>)
        ensures
            r == spec_parse_deposit(data@),
    {
        if data.len() != 8 {
            return Err(PoolError::InvalidInstructionData);
        }
        let amount = crate::codec::read_u64_le(data, 0);
        proof {
            assert(data@.subrange(0, 8) =~= data@.subrange(0int, 8int));
        }
        if amount == 0 {
            return Err(PoolError::InvalidInstructionData);
        }
        if amount < MIN_STAKE_DELEGATION {
            return Err(PoolError::InvalidArgument);
        }
        Ok(DepositInstructionData { amount })
    }
}

/// The accounts a deposit reads.
pub struct DepositAccounts {
    /// The depositor; must sign and pays the staged value.
    pub depositor: AccountSnap,
    /// The pool record.
    pub pool_state: AccountSnap,
    /// The fresh staging stake position.
    pub deposit_stake: AccountSnap,
    /// The pool's primary stake position.
    pub pool_stake: AccountSnap,
    /// The pool's reserve position.
    pub reserve_stake: AccountSnap,
    /// The bound validator's vote account.
    pub validator_vote: AccountSnap,
    /// The claim-token mint.
    pub lst_mint: AccountSnap,
    /// The system allocator.
    pub system_program: AccountSnap,
    /// The fungible-token service.
    pub token_program: AccountSnap,
    /// The stake-custody service.
    pub stake_program: AccountSnap,
    /// The associated-token deriver.
    pub ata_program: AccountSnap,
}

/// What a validated deposit hands the host: the claim tokens to mint and
/// the bump of the staging position's derived address, needed to sign its
/// creation.
#[derive(Clone, Copy, Debug, PartialEq, Eq, Structural)]
pub struct DepositPlan {
    /// Claim tokens to mint to the depositor.
    pub lst_amount: u64,
    /// Bump of the staging stake position's canonical derived address.
    pub deposit_stake_bump: u8,
}

/// What validating a deposit yields: the plan, or the first failing guard.
/// The guards run in a fixed order: the depositor's signature; the four
/// program identities; the pool-record and mint account shapes; the vote
/// account's owner; the linkage of the supplied stake, reserve, vote and
/// mint accounts to the ledger; the staging position's emptiness (a prior
/// deposit's position must first be merged away); the pool's and mint's
/// derived addresses against their stored salts; the staging position's
/// canonical derived address; the total pool value fitting the value
/// range; and finally the exchange-rate quote against that total.
pub open spec fn spec_validate_deposit(
    a: DepositAccounts,
    pool: PoolState,
    data: DepositInstructionData,
    stake_rent_exempt: u64,
) -> Result<DepositPlan, PoolError> {
    if !a.depositor.is_signer {
        Err(PoolError::MissingRequiredSignature)
    } else if a.system_program.key@ != SYSTEM_PROGRAM_ID@ {
        Err(PoolError::IncorrectProgramId)
    } else if a.token_program.key@ != TOKEN_PROGRAM_ID@ {
        Err(PoolError::IncorrectProgramId)
    } else if a.ata_program.key@ != ATA_PROGRAM_ID@ {
        Err(PoolError::IncorrectProgramId)
    } else if a.stake_program.key@ != STAKE_PROGRAM_ID@ {
        Err(PoolError::IncorrectProgramId)
    } else if !spec_pool_account_ok(a.pool_state) {
        Err(PoolError::InvalidAccountData)
    } else if !spec_mint_account_ok(a.lst_mint) {
        Err(PoolError::InvalidAccountData)
    } else if a.validator_vote.owner@ != VOTE_PROGRAM_ID@ {
        Err(PoolError::InvalidAccountData)
    } else if a.pool_stake.key@ != pool.stake_account@ {
        Err(PoolError::InvalidAccountData)
    } else if a.reserve_stake.key@ != pool.reserve_stake@ {
        Err(PoolError::InvalidAccountData)
    } else if a.validator_vote.key@ != pool.validator_vote@ {
        Err(PoolError::InvalidAccountData)
    } else if a.lst_mint.key@ != pool.lst_mint@ {
        Err(PoolError::InvalidAccountData)
    } else if a.deposit_stake.data_len != 0 {
        Err(PoolError::AccountAlreadyInitialized)
    } else if pda_of(
        with_bump(spec_pool_seeds(pool.authority@, pool.seed), pool.bump),
        PROGRAM_ID@,
    ) != Some(a.pool_state.key@) {
        Err(PoolError::InvalidSeeds)
    } else if pda_of(with_bump(spec_mint_seeds(a.pool_state.key@), pool.mint_bump), PROGRAM_ID@)
        != Some(a.lst_mint.key@) {
        Err(PoolError::InvalidSeeds)
    } else {
        match found_pda(
            spec_deposit_stake_seeds(a.pool_state.key@, a.depositor.key@),
            PROGRAM_ID@,
        ) {
            Some(p) => {
                if p.0 != a.deposit_stake.key@ {
                    Err(PoolError::InvalidSeeds)
                } else {
                    let total = spec_total_pool_value(
                        a.pool_stake.lamports,
                        a.reserve_stake.lamports,
                        stake_rent_exempt,
                    );
                    if total > u64::MAX {
                        Err(PoolError::ArithmeticOverflow)
                    } else {
                        match spec_quote_mint(data.amount, pool.lst_supply, total as u64) {
                            Ok(m) => Ok(
                                DepositPlan { lst_amount: m, deposit_stake_bump: p.1 },
                            ),
                            Err(e) => Err(e),
                        }
                    }
                }
            },
            None => Err(PoolError::InvalidSeeds),
        }
    }
}

/// Validates a deposit and quotes the claim tokens it mints.
///
/// `stake_rent_exempt` is the host-reported minimum balance a stake-sized
/// account must retain; the quote is priced against the primary and
/// reserve positions net of it, the same basis withdrawals use. On success
/// the host stakes `data.amount` into the staging position, initializes
/// and delegates it, mints the planned amount to the depositor, and then
/// settles the ledger with `settle_deposit`. Any failure aborts the whole
/// operation before any of that.
pub fn validate_deposit(
    a: &DepositAccounts,
    pool: &PoolState,
    data: &DepositInstructionData,
    stake_rent_exempt: u64,
) -> (r: Result<DepositPlan, PoolError>)
    ensures
        r == spec_validate_deposit(*a, *pool, *data, stake_rent_exempt),
{
    a.depositor.check_signer()?;
    a.system_program.check_program(&SYSTEM_PROGRAM_ID)?;
    a.token_program.check_program(&TOKEN_PROGRAM_ID)?;
    a.ata_program.check_program(&ATA_PROGRAM_ID)?;
    a.stake_program.check_program(&STAKE_PROGRAM_ID)?;
    check_pool_account(&a.pool_state)?;
    check_mint_account(&a.lst_mint)?;
    a.validator_vote.check_owner(&VOTE_PROGRAM_ID)?;
    a.pool_stake.check_key(&pool.stake_account)?;
    a.reserve_stake.check_key(&pool.reserve_stake)?;
    a.validator_vote.check_key(&pool.validator_vote)?;
    a.lst_mint.check_key(&pool.lst_mint)?;
    if !a.deposit_stake.data_is_empty() {
        return Err(PoolError::AccountAlreadyInitialized);
    }
    verify_pda(pool_seeds(&pool.authority, pool.seed), pool.bump, &PROGRAM_ID, &a.pool_state.key)?;
    verify_pda(mint_seeds(&a.pool_state.key), pool.mint_bump, &PROGRAM_ID, &a.lst_mint.key)?;
    let bump = verify_canonical_pda(
        deposit_stake_seeds(&a.pool_state.key, &a.depositor.key),
        &PROGRAM_ID,
        &a.deposit_stake.key,
    )?;
    let total = total_pool_value(a.pool_stake.lamports, a.reserve_stake.lamports, stake_rent_exempt)?;
    let lst_amount = quote_mint(data.amount, pool.lst_supply, total)?;
    Ok(DepositPlan { lst_amount, deposit_stake_bump: bump })
}

/// A deposit that passed validation never dilutes an earlier holder.
///
/// For any holder of `h` of the outstanding claim tokens, the value its
/// tokens redeem after the deposit settles — against the total pool value
/// grown by the deposit and the supply grown by the planned mint — is at
/// least what they redeemed before. Deposits and withdrawals are priced
/// against the same net total, so the inequality speaks of the basis both
/// quotes use.
pub proof fn lemma_validated_deposit_no_dilution(
    a: DepositAccounts,
    pool: PoolState,
    data: DepositInstructionData,
    stake_rent_exempt: u64,
    plan: DepositPlan,
    h: u64,
)
    requires
        pool.lst_supply > 0,
        spec_total_pool_value(a.pool_stake.lamports, a.reserve_stake.lamports, stake_rent_exempt)
            > 0,
        spec_validate_deposit(a, pool, data, stake_rent_exempt) == Ok::<
            DepositPlan,
            PoolError,
        >(plan),
    ensures
        ({
            let total = spec_total_pool_value(
                a.pool_stake.lamports,
                a.reserve_stake.lamports,
                stake_rent_exempt,
            );
            (h * (total + data.amount)) / (pool.lst_supply + plan.lst_amount) >= (h * total) / (
            pool.lst_supply as int)
        }),
{
    let total = spec_total_pool_value(
        a.pool_stake.lamports,
        a.reserve_stake.lamports,
        stake_rent_exempt,
    );
    assert(total <= u64::MAX);
    assert(spec_quote_mint(data.amount, pool.lst_supply, total as u64) == Ok::<
        u64,
        PoolError,
    >(plan.lst_amount));
    crate::rate::lemma_quote_mint_no_dilution(
        h,
        pool.lst_supply,
        total as u64,
        data.amount,
        plan.lst_amount,
    );
}

/// Settles a deposit in the ledger after the host has staked the value and
/// minted the claim tokens: the supply counter grows by exactly the minted
/// amount and the pending-deposit counter by exactly the staged value —
/// value sitting in the staging position until it is merged into the
/// primary one — and nothing else changes. If either counter cannot hold
/// its sum, nothing changes.
pub fn settle_deposit(pool: &mut PoolState, minted: u64, staged: u64) -> (r: Result<
    (),
    PoolError,
>)
    ensures
        match r {
            Ok(()) => {
                &&& old(pool).lst_supply + minted <= u64::MAX
                &&& old(pool).pending_deposits + staged <= u64::MAX
                &&& *final(pool) == (PoolState {
                    lst_supply: (old(pool).lst_supply + minted) as u64,
                    pending_deposits: (old(pool).pending_deposits + staged) as u64,
                    ..*old(pool)
                })
            },
            Err(e) => {
                &&& e == PoolError::ArithmeticOverflow
                &&& old(pool).lst_supply + minted > u64::MAX || old(pool).pending_deposits + staged
                    > u64::MAX
                &&& *final(pool) == *old(pool)
            },
        },
{
    let supply = match pool.lst_supply.checked_add(minted) {
        Some(s) => s,
        None => {
            return Err(PoolError::ArithmeticOverflow);
        },
    };
    let pending = match pool.pending_deposits.checked_add(staged) {
        Some(p) => p,
        None => {
            return Err(PoolError::ArithmeticOverflow);
        },
    };
    pool.lst_supply = supply;
    pool.pending_deposits = pending;
    Ok(())
}

} // verus!
