//! Host-account snapshots and the boilerplate checks on them.
//!
//! Each operation receives a snapshot of the accounts the host resolved for
//! it: address, value held, data size, owning program and whether the
//! account signed. The checks here are the reusable guards every operation
//! runs before touching the ledger.

use vstd::prelude::*;

use crate::codec::{copy_bytes, le_bytes_to_int, read_u64_le};
use crate::constants::{TOKEN_ACCOUNT_AMOUNT_OFFSET, TOKEN_ACCOUNT_SIZE};
use crate::error::PoolError;
use crate::keys::{pubkey_eq, Pubkey};

verus! {

/// What an operation reads of a host account.
#[derive(Clone, Copy, Debug)]
pub struct AccountSnap {
    /// The account's address.
    pub key: Pubkey,
    /// Value the account holds.
    pub lamports: u64,
    /// Size of the account's backing data.
    pub data_len: u64,
    /// The program that owns the account.
    pub owner: Pubkey,
    /// Whether the account signed the operation.
    pub is_signer: bool,
}

impl AccountSnap {
    /// Whether the account holds no backing data.
    pub open spec fn spec_data_is_empty(&self) -> bool {
        self.data_len == 0
    }

    /// Whether the account holds no backing data.
    pub fn data_is_empty(&self) -> (r: bool)
        ensures
            r == self.spec_data_is_empty(),
    {
        self.data_len == 0
    }

    /// Demands the account's signature.
    pub fn check_signer(&self) -> (r: Result<(), PoolError>)
        ensures
            r is Ok <==> self.is_signer,
            r is Err ==> r == Err::<(), PoolError>(PoolError::MissingRequiredSignature),
    {
        if self.is_signer {
            Ok(())
        } else {
            Err(PoolError::MissingRequiredSignature)
        }
    }

    /// Demands that the account is a given program.
    pub fn check_program(&self, expected: &Pubkey) -> (r: Result<(), PoolError>)
        ensures
            r is Ok <==> self.key@ == expected@,
            r is Err ==> r == Err::<(), PoolError>(PoolError::IncorrectProgramId),
    {
        if pubkey_eq(&self.key, expected) {
            Ok(())
        } else {
            Err(PoolError::IncorrectProgramId)
        }
    }

    /// Demands that the account is owned by a given program.
    pub fn check_owner(&self, expected: &Pubkey) -> (r: Result<(), PoolError>)
        ensures
            r is Ok <==> self.owner@ == expected@,
            r is Err ==> r == Err::<(), PoolError>(PoolError::InvalidAccountData),
    {
        if pubkey_eq(&self.owner, expected) {
            Ok(())
        } else {
            Err(PoolError::InvalidAccountData)
        }
    }

    /// Demands that the account has a given address.
    pub fn check_key(&self, expected: &Pubkey) -> (r: Result<(), PoolError>)
        ensures
            r is Ok <==> self.key@ == expected@,
            r is Err ==> r == Err::<(), PoolError>(PoolError::InvalidAccountData),
    {
        if pubkey_eq(&self.key, expected) {
            Ok(())
        } else {
            Err(PoolError::InvalidAccountData)
        }
    }
}

/// Whether a snapshot passes the pool-record account guard: owned by this
/// program, with backing data of the record's size.
pub open spec fn spec_pool_account_ok(a: AccountSnap) -> bool {
    a.owner@ == crate::keys::PROGRAM_ID@ && a.data_len == crate::pool::POOL_STATE_LEN
}

/// Demands that the account can hold this program's pool record.
pub fn check_pool_account(a: &AccountSnap) -> (r: Result<(), PoolError>)
    ensures
        r is Ok <==> spec_pool_account_ok(*a),
        r is Err ==> r == Err::<(), PoolError>(PoolError::InvalidAccountData),
{
    if !pubkey_eq(&a.owner, &crate::keys::PROGRAM_ID) {
        return Err(PoolError::InvalidAccountData);
    }
    if a.data_len != crate::pool::POOL_STATE_LEN as u64 {
        return Err(PoolError::InvalidAccountData);
    }
    Ok(())
}

/// Whether a snapshot passes the claim-token mint guard: owned by the
/// token service, with a mint's backing size.
pub open spec fn spec_mint_account_ok(a: AccountSnap) -> bool {
    a.owner@ == crate::keys::TOKEN_PROGRAM_ID@ && a.data_len == crate::constants::MINT_SIZE
}

/// Demands that the account is a fungible-token mint.
pub fn check_mint_account(a: &AccountSnap) -> (r: Result<(), PoolError>)
    ensures
        r is Ok <==> spec_mint_account_ok(*a),
        r is Err ==> r == Err::<(), PoolError>(PoolError::InvalidAccountData),
{
    if !pubkey_eq(&a.owner, &crate::keys::TOKEN_PROGRAM_ID) {
        return Err(PoolError::InvalidAccountData);
    }
    if a.data_len != crate::constants::MINT_SIZE {
        return Err(PoolError::InvalidAccountData);
    }
    Ok(())
}

/// The holding amount a token account's data records, at its documented
/// little-endian offset.
pub open spec fn spec_token_amount(data: Seq<u8>) -> int {
    le_bytes_to_int(
        data.subrange(
            TOKEN_ACCOUNT_AMOUNT_OFFSET as int,
            TOKEN_ACCOUNT_AMOUNT_OFFSET as int + 8,
        ),
    )
}

/// Reads the holding amount out of a token account's data.
///
/// Succeeds exactly when the data has a token account's documented size.
pub fn token_account_amount(data: &[u8]) -> (r: Result<u64, PoolError>)
    ensures
        match r {
            Ok(v) => data@.len() == TOKEN_ACCOUNT_SIZE && v == spec_token_amount(data@),
            Err(e) => e == PoolError::InvalidAccountData && data@.len() != TOKEN_ACCOUNT_SIZE,
        },
{
    if data.len() != TOKEN_ACCOUNT_SIZE as usize {
        return Err(PoolError::InvalidAccountData);
    }
    Ok(read_u64_le(data, TOKEN_ACCOUNT_AMOUNT_OFFSET))
}

/// Seed tuple of an associated token account: the wallet, the token
/// service and the mint, derived under the associated-token deriver.
pub open spec fn spec_ata_seeds(wallet: Seq<u8>, token_program: Seq<u8>, mint: Seq<u8>) -> Seq<
    Seq<u8>,
> {
    seq![wallet, token_program, mint]
}

/// Builds an associated token account's seed tuple.
pub fn ata_seeds(wallet: &Pubkey, token_program: &Pubkey, mint: &Pubkey) -> (r: Vec<Vec<u8>>)
    ensures
        r.deep_view() == spec_ata_seeds(wallet@, token_program@, mint@),
{
    let mut v: Vec<Vec<u8>> = Vec::new();
    v.push(copy_bytes(wallet.as_slice()));
    v.push(copy_bytes(token_program.as_slice()));
    v.push(copy_bytes(mint.as_slice()));
    proof {
        assert(v.deep_view() =~~= spec_ata_seeds(wallet@, token_program@, mint@));
    }
    v
}

/// Whether `key` is the canonical associated token account of `wallet` for
/// `mint` under the token service.
pub open spec fn spec_ata_ok(
    key: Seq<u8>,
    wallet: Seq<u8>,
    token_program: Seq<u8>,
    mint: Seq<u8>,
) -> bool {
    match crate::pda::found_pda(
        spec_ata_seeds(wallet, token_program, mint),
        crate::keys::ATA_PROGRAM_ID@,
    ) {
        Some(p) => p.0 == key,
        None => false,
    }
}

/// Demands that `ata` is the associated token account of `wallet` for
/// `mint` under the token service: its address must match the canonical
/// derivation from the documented seed tuple under the associated-token
/// deriver.
pub fn check_ata(
    ata: &AccountSnap,
    wallet: &Pubkey,
    mint: &Pubkey,
    token_program: &Pubkey,
) -> (r: Result<(), PoolError>)
    ensures
        r is Ok <==> spec_ata_ok(ata.key@, wallet@, token_program@, mint@),
        r is Err ==> r == Err::<(), PoolError>(PoolError::InvalidAccountData),
{
    let seeds = ata_seeds(wallet, token_program, mint);
    match crate::pda::derive_pda(&seeds, &crate::keys::ATA_PROGRAM_ID) {
        Some(p) => {
            if pubkey_eq(&p.0, &ata.key) {
                Ok(())
            } else {
                Err(PoolError::InvalidAccountData)
            }
        },
        None => Err(PoolError::InvalidAccountData),
    }
}

} // verus!
