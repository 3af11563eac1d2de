//! The pool initialization operation.
//!
//! Creates the pool record, the claim-token mint, the primary stake
//! position (seeded with the minimum delegation, immediately delegated to
//! the bound validator) and an empty reserve position. The creator receives
//! the bootstrap claim tokens, one per unit of seeded value, so the supply
//! counter starts equal to the seeded value. Every created account's
//! address is checked against its derivation with the payload-supplied
//! salts before anything is created.

use vstd::prelude::*;

use crate::account::AccountSnap;
use crate::codec::le_bytes_to_int;
use crate::constants::MIN_STAKE_DELEGATION;
use crate::error::PoolError;
use crate::keys::{
    ATA_PROGRAM_ID, PROGRAM_ID, STAKE_PROGRAM_ID, SYSTEM_PROGRAM_ID, TOKEN_PROGRAM_ID,
    VOTE_PROGRAM_ID,
};
use crate::pda::{
    mint_seeds, pda_of, pool_seeds, reserve_seeds, spec_mint_seeds, spec_pool_seeds,
    spec_reserve_seeds, spec_stake_seeds, stake_seeds, verify_pda, with_bump,
};
use crate::pool::{PoolState, POOL_DISCRIMINATOR};

verus! {

/// Payload of an initialization: the pool's numeric seed and the four
/// derivation salts for the pool record, its mint, its primary stake
/// position and its reserve position.
#[derive(Clone, Copy, Debug, PartialEq, Eq, Structural)]
pub struct InitializeData {
    /// The pool's numeric seed; zero is reserved.
    pub seed: u64,
    /// Salt of the pool record's derived address.
    pub pool_bump: u8,
    /// Salt of the claim-token mint's derived address.
    pub mint_bump: u8,
    /// Salt of the primary stake position's derived address.
    pub stake_bump: u8,
    /// Salt of the reserve position's derived address.
    pub reserve_bump: u8,
}

/// What parsing an initialization payload yields: twelve bytes, and a zero
/// seed is refused.
pub open spec fn spec_parse_initialize(data: Seq<u8>) -> Result<InitializeData, PoolError> {
    if data.len() != 12 {
        Err(PoolError::InvalidInstructionData)
    } else {
        let seed = le_bytes_to_int(data.subrange(0, 8));
        if seed == 0 {
            Err(PoolError::InvalidSeed)
        } else {
            Ok(
                InitializeData {
                    seed: seed as u64,
                    pool_bump: data[8],
                    mint_bump: data[9],
                    stake_bump: data[10],
                    reserve_bump: data[11],
                },
            )
        }
    }
}

impl InitializeData {
    /// Parses an initialization payload.
    pub fn parse(data: &[u8]) -> (r: Result<Self, PoolError>)
        ensures
            r == spec_parse_initialize(data@),
    {
        if data.len() != 12 {
            return Err(PoolError::InvalidInstructionData);
        }
        let seed = crate::codec::read_u64_le(data, 0);
        proof {
            assert(data@.subrange(0, 8) =~= data@.subrange(0int, 8int));
        }
        if seed == 0 {
            return Err(PoolError::InvalidSeed);
        }
        Ok(
            InitializeData {
                seed,
                pool_bump: data[8],
                mint_bump: data[9],
                stake_bump: data[10],
                reserve_bump: data[11],
            },
        )
    }
}

/// The accounts an initialization reads.
pub struct InitializeAccounts {
    /// The pool creator; must sign and funds the created accounts.
    pub initializer: AccountSnap,
    /// The pool record account to create.
    pub pool_state: AccountSnap,
    /// The claim-token mint account to create.
    pub lst_mint: AccountSnap,
    /// The primary stake position account to create.
    pub stake_account: AccountSnap,
    /// The reserve position account to create.
    pub reserve_stake: AccountSnap,
    /// The bound validator's vote account.
    pub validator_vote: AccountSnap,
    /// The system allocator.
    pub system_program: AccountSnap,
    /// The fungible-token service.
    pub token_program: AccountSnap,
    /// The stake-custody service.
    pub stake_program: AccountSnap,
    /// The associated-token deriver.
    pub ata_program: AccountSnap,
}

/// What validating an initialization yields: the pool record to persist,
/// or the first failing guard. The guards run in a fixed order: the
/// creator's signature; the four program identities; the vote account's
/// owner; the pool record's emptiness (a pool address, once initialized,
/// can never be initialized again); and the four derived addresses against
/// the supplied salts.
pub open spec fn spec_validate_initialize(
    a: InitializeAccounts,
    data: InitializeData,
) -> Result<PoolState, PoolError> {
    if !a.initializer.is_signer {
        Err(PoolError::MissingRequiredSignature)
    } else if a.system_program.key@ != SYSTEM_PROGRAM_ID@ {
        Err(PoolError::IncorrectProgramId)
    } else if a.token_program.key@ != TOKEN_PROGRAM_ID@ {
        Err(PoolError::IncorrectProgramId)
    } else if a.ata_program.key@ != ATA_PROGRAM_ID@ {
        Err(PoolError::IncorrectProgramId)
    } else if a.stake_program.key@ != STAKE_PROGRAM_ID@ {
        Err(PoolError::IncorrectProgramId)
    } else if a.validator_vote.owner@ != VOTE_PROGRAM_ID@ {
        Err(PoolError::InvalidAccountData)
    } else if a.pool_state.data_len != 0 {
        Err(PoolError::AccountAlreadyInitialized)
    } else if pda_of(
        with_bump(spec_pool_seeds(a.initializer.key@, data.seed), data.pool_bump),
        PROGRAM_ID@,
    ) != Some(a.pool_state.key@) {
        Err(PoolError::InvalidSeeds)
    } else if pda_of(with_bump(spec_mint_seeds(a.pool_state.key@), data.mint_bump), PROGRAM_ID@)
        != Some(a.lst_mint.key@) {
        Err(PoolError::InvalidSeeds)
    } else if pda_of(with_bump(spec_stake_seeds(a.pool_state.key@), data.stake_bump), PROGRAM_ID@)
        != Some(a.stake_account.key@) {
        Err(PoolError::InvalidSeeds)
    } else if pda_of(
        with_bump(spec_reserve_seeds(a.pool_state.key@), data.reserve_bump),
        PROGRAM_ID@,
    ) != Some(a.reserve_stake.key@) {
        Err(PoolError::InvalidSeeds)
    } else {
        Ok(
            PoolState {
                discriminator: POOL_DISCRIMINATOR,
                lst_mint: a.lst_mint.key,
                authority: a.initializer.key,
                validator_vote: a.validator_vote.key,
                stake_account: a.stake_account.key,
                reserve_stake: a.reserve_stake.key,
                seed: data.seed,
                bump: data.pool_bump,
                stake_bump: data.stake_bump,
                mint_bump: data.mint_bump,
                reserve_bump: data.reserve_bump,
                lst_supply: MIN_STAKE_DELEGATION,
                pending_deposits: 0,
                is_initialized: true,
            },
        )
    }
}

/// Validates an initialization and builds the pool record to persist.
///
/// On success the host creates the pool record, the mint, the creator's
/// claim-token account, the reserve (empty) and the primary position
/// seeded with the minimum delegation, initializes and delegates the
/// primary position, mints the bootstrap claim tokens — the minimum
/// delegation, at one token per unit of value — to the creator, and
/// persists the returned record. Any failure aborts the whole operation
/// before any of that.
pub fn validate_initialize(a: &InitializeAccounts, data: &InitializeData) -> (r: Result<
    PoolState,
    PoolError,
>)
    ensures
        r == spec_validate_initialize(*a, *data),
{
    a.initializer.check_signer()?;
    a.system_program.check_program(&SYSTEM_PROGRAM_ID)?;
    a.token_program.check_program(&TOKEN_PROGRAM_ID)?;
    a.ata_program.check_program(&ATA_PROGRAM_ID)?;
    a.stake_program.check_program(&STAKE_PROGRAM_ID)?;
    a.validator_vote.check_owner(&VOTE_PROGRAM_ID)?;
    if !a.pool_state.data_is_empty() {
        return Err(PoolError::AccountAlreadyInitialized);
    }
    verify_pda(
        pool_seeds(&a.initializer.key, data.seed),
        data.pool_bump,
        &PROGRAM_ID,
        &a.pool_state.key,
    )?;
    verify_pda(mint_seeds(&a.pool_state.key), data.mint_bump, &PROGRAM_ID, &a.lst_mint.key)?;
    verify_pda(stake_seeds(&a.pool_state.key), data.stake_bump, &PROGRAM_ID, &a.stake_account.key)?;
    verify_pda(
        reserve_seeds(&a.pool_state.key),
        data.reserve_bump,
        &PROGRAM_ID,
        &a.reserve_stake.key,
    )?;
    Ok(
        PoolState {
            discriminator: POOL_DISCRIMINATOR,
            lst_mint: a.lst_mint.key,
            authority: a.initializer.key,
            validator_vote: a.validator_vote.key,
            stake_account: a.stake_account.key,
            reserve_stake: a.reserve_stake.key,
            seed: data.seed,
            bump: data.pool_bump,
            stake_bump: data.stake_bump,
            mint_bump: data.mint_bump,
            reserve_bump: data.reserve_bump,
            lst_supply: MIN_STAKE_DELEGATION,
            pending_deposits: 0,
            is_initialized: true,
        },
    )
}

} // verus!
