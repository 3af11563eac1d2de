//! Derived-address authority checks.
//!
//! Every mutating operation must prove that a caller-supplied address equals
//! the deterministic derivation from a documented seed tuple — a fixed tag,
//! the owning pool's address or its creator's, and for per-user tickets the
//! user's address and a caller-chosen nonce — combined with a stored or
//! supplied salt byte ("bump"). The derivation itself is an external
//! primitive; its result is named here and everything downstream of it is
//! verified.

use vstd::prelude::*;

use crate::codec::{copy_bytes, int_to_le_bytes, lemma_pow256_values, write_u64_le};
use crate::error::PoolError;
use crate::keys::{pubkey_eq, Pubkey};

verus! {

/// Seed tag of the pool record's own address.
pub const POOL_TAG: [u8; 8] = [108, 115, 116, 95, 112, 111, 111, 108];

/// Seed tag of the claim-token mint's address.
pub const MINT_TAG: [u8; 8] = [108, 115, 116, 95, 109, 105, 110, 116];

/// Seed tag of a stake position's address.
pub const STAKE_TAG: [u8; 5] = [115, 116, 97, 107, 101];

/// Seed tag of the reserve position's address.
pub const RESERVE_TAG: [u8; 13] = [114, 101, 115, 101, 114, 118, 101, 95, 115, 116, 97, 107, 101];

/// Seed tag of a withdrawal ticket's address.
pub const WITHDRAW_TAG: [u8; 8] = [119, 105, 116, 104, 100, 114, 97, 119];

/// The program-derived address of a seed tuple under a program identity:
/// the digest bytes when the tuple derives a valid address, or nothing when
/// it cannot (a seed too long, too many seeds, or a digest that falls on
/// the curve). A function of its arguments alone.
pub uninterp spec fn pda_of(seeds: Seq<Seq<u8>>, program_id: Seq<u8>) -> Option<Seq<u8>>;

/// The seed tuple extended by its bump byte.
pub open spec fn with_bump(seeds: Seq<Seq<u8>>, bump: u8) -> Seq<Seq<u8>> {
    seeds.push(seq![bump])
}

/// Relies on solana_address::Address::create_program_address: the derived
/// address, and whether the tuple is rejected (a seed over the length
/// limit, too many seeds, an on-curve digest), depend on the seed bytes
/// and the program id alone.
#[verifier::external_body]
fn create_pda(seeds: &Vec<Vec<u8>>, program_id: &Pubkey) -> (r: Option<Pubkey>)
    ensures
        match r {
            Some(a) => pda_of(seeds.deep_view(), program_id@) == Some(a@),
            None => pda_of(seeds.deep_view(), program_id@) is None,
        },
{
    let refs: Vec<&[u8]> = seeds.iter().map(|s| s.as_slice()).collect();
    let id = solana_address::Address::new_from_array(*program_id);
    match solana_address::Address::create_program_address(&refs, &id) {
        Ok(a) => Some(a.to_bytes()),
        Err(_) => None,
    }
}

/// The canonical derived address of a seed tuple under a program identity:
/// the address and bump that the search from the highest bump downward
/// finds first, or nothing when no bump derives a valid address. A function
/// of its arguments alone.
pub uninterp spec fn found_pda(seeds: Seq<Seq<u8>>, program_id: Seq<u8>) -> Option<(Seq<u8>, u8)>;

/// Relies on solana_address::Address::try_find_program_address: its search
/// is deterministic in the seed bytes and program id, and the address it
/// returns is exactly what create_program_address derives from the seed
/// tuple extended by the returned bump.
#[verifier::external_body]
fn find_pda(seeds: &Vec<Vec<u8>>, program_id: &Pubkey) -> (r: Option<(Pubkey, u8)>)
    ensures
        match r {
            Some(p) => found_pda(seeds.deep_view(), program_id@) == Some((p.0@, p.1)) && pda_of(
                with_bump(seeds.deep_view(), p.1),
                program_id@,
            ) == Some(p.0@),
            None => found_pda(seeds.deep_view(), program_id@) is None,
        },
{
    let refs: Vec<&[u8]> = seeds.iter().map(|s| s.as_slice()).collect();
    let id = solana_address::Address::new_from_array(*program_id);
    solana_address::Address::try_find_program_address(&refs, &id).map(|p| (p.0.to_bytes(), p.1))
}

/// Checks a claimed address against the derivation from a seed tuple and a
/// stored or supplied bump.
///
/// Succeeds exactly when the tuple extended by the bump derives the
/// expected address; every other outcome — a different derivation, or a
/// tuple that derives nothing — is the fatal `InvalidSeeds`.
pub fn verify_pda(seeds: Vec<Vec<u8>>, bump: u8, program_id: &Pubkey, expected: &Pubkey) -> (r:
    Result<(), PoolError>)
    ensures
        r is Ok <==> pda_of(with_bump(seeds.deep_view(), bump), program_id@) == Some(expected@),
        r is Err ==> r == Err::<(), PoolError>(PoolError::InvalidSeeds),
{
    let ghost orig = seeds.deep_view();
    let mut s = seeds;
    let mut bump_bytes: Vec<u8> = Vec::new();
    bump_bytes.push(bump);
    proof {
        assert(bump_bytes.deep_view() =~~= seq![bump]);
    }
    s.push(bump_bytes);
    proof {
        assert(s.deep_view() =~~= with_bump(orig, bump));
    }
    match create_pda(&s, program_id) {
        Some(a) => {
            if pubkey_eq(&a, expected) {
                Ok(())
            } else {
                Err(PoolError::InvalidSeeds)
            }
        },
        None => Err(PoolError::InvalidSeeds),
    }
}

/// Derives the canonical address and bump for a seed tuple, when one
/// exists.
///
/// When an address is returned, verifying that address against the same
/// tuple and the returned bump succeeds.
pub fn derive_pda(seeds: &Vec<Vec<u8>>, program_id: &Pubkey) -> (r: Option<(Pubkey, u8)>)
    ensures
        match r {
            Some(p) => found_pda(seeds.deep_view(), program_id@) == Some((p.0@, p.1)) && pda_of(
                with_bump(seeds.deep_view(), p.1),
                program_id@,
            ) == Some(p.0@),
            None => found_pda(seeds.deep_view(), program_id@) is None,
        },
{
    find_pda(seeds, program_id)
}

/// Checks a claimed address against the canonical derivation from a seed
/// tuple, returning the bump that derives it.
///
/// Succeeds exactly when the tuple's canonical derivation exists and is
/// the expected address; everything else is the fatal `InvalidSeeds`.
pub fn verify_canonical_pda(seeds: Vec<Vec<u8>>, program_id: &Pubkey, expected: &Pubkey) -> (r:
    Result<u8, PoolError>)
    ensures
        match r {
            Ok(b) => found_pda(seeds.deep_view(), program_id@) == Some((expected@, b)),
            Err(e) => {
                &&& e == PoolError::InvalidSeeds
                &&& match found_pda(seeds.deep_view(), program_id@) {
                    Some(p) => p.0 != expected@,
                    None => true,
                }
            },
        },
{
    match find_pda(&seeds, program_id) {
        Some(p) => {
            if pubkey_eq(&p.0, expected) {
                Ok(p.1)
            } else {
                Err(PoolError::InvalidSeeds)
            }
        },
        None => Err(PoolError::InvalidSeeds),
    }
}

/// Seed tuple of a pool record: the pool tag, the creator's address and the
/// pool's numeric seed.
pub open spec fn spec_pool_seeds(authority: Seq<u8>, seed: u64) -> Seq<Seq<u8>> {
    seq![POOL_TAG@, authority, int_to_le_bytes(seed as int, 8)]
}

/// Builds the pool record's seed tuple.
pub fn pool_seeds(authority: &Pubkey, seed: u64) -> (r: Vec<Vec<u8>>)
    ensures
        r.deep_view() == spec_pool_seeds(authority@, seed),
{
    let mut v: Vec<Vec<u8>> = Vec::new();
    v.push(copy_bytes(POOL_TAG.as_slice()));
    v.push(copy_bytes(authority.as_slice()));
    let mut sb: Vec<u8> = Vec::new();
    proof {
        lemma_pow256_values();
    }
    write_u64_le(&mut sb, seed);
    v.push(sb);
    proof {
        assert(v.deep_view() =~~= spec_pool_seeds(authority@, seed));
    }
    v
}

/// Seed tuple of the claim-token mint: the mint tag and the pool's address.
pub open spec fn spec_mint_seeds(pool: Seq<u8>) -> Seq<Seq<u8>> {
    seq![MINT_TAG@, pool]
}

/// Builds the claim-token mint's seed tuple.
pub fn mint_seeds(pool: &Pubkey) -> (r: Vec<Vec<u8>>)
    ensures
        r.deep_view() == spec_mint_seeds(pool@),
{
    let mut v: Vec<Vec<u8>> = Vec::new();
    v.push(copy_bytes(MINT_TAG.as_slice()));
    v.push(copy_bytes(pool.as_slice()));
    proof {
        assert(v.deep_view() =~~= spec_mint_seeds(pool@));
    }
    v
}

/// Seed tuple of the pool's primary stake position: the stake tag and the
/// pool's address.
pub open spec fn spec_stake_seeds(pool: Seq<u8>) -> Seq<Seq<u8>> {
    seq![STAKE_TAG@, pool]
}

/// Builds the primary stake position's seed tuple.
pub fn stake_seeds(pool: &Pubkey) -> (r: Vec<Vec<u8>>)
    ensures
        r.deep_view() == spec_stake_seeds(pool@),
{
    let mut v: Vec<Vec<u8>> = Vec::new();
    v.push(copy_bytes(STAKE_TAG.as_slice()));
    v.push(copy_bytes(pool.as_slice()));
    proof {
        assert(v.deep_view() =~~= spec_stake_seeds(pool@));
    }
    v
}

/// Seed tuple of a depositor's staging stake position: the stake tag, the
/// pool's address and the depositor's address.
pub open spec fn spec_deposit_stake_seeds(pool: Seq<u8>, depositor: Seq<u8>) -> Seq<Seq<u8>> {
    seq![STAKE_TAG@, pool, depositor]
}

/// Builds a depositor's staging stake position seed tuple.
pub fn deposit_stake_seeds(pool: &Pubkey, depositor: &Pubkey) -> (r: Vec<Vec<u8>>)
    ensures
        r.deep_view() == spec_deposit_stake_seeds(pool@, depositor@),
{
    let mut v: Vec<Vec<u8>> = Vec::new();
    v.push(copy_bytes(STAKE_TAG.as_slice()));
    v.push(copy_bytes(pool.as_slice()));
    v.push(copy_bytes(depositor.as_slice()));
    proof {
        assert(v.deep_view() =~~= spec_deposit_stake_seeds(pool@, depositor@));
    }
    v
}

/// Seed tuple of the reserve stake position: the reserve tag and the pool's
/// address.
pub open spec fn spec_reserve_seeds(pool: Seq<u8>) -> Seq<Seq<u8>> {
    seq![RESERVE_TAG@, pool]
}

/// Builds the reserve stake position's seed tuple.
pub fn reserve_seeds(pool: &Pubkey) -> (r: Vec<Vec<u8>>)
    ensures
        r.deep_view() == spec_reserve_seeds(pool@),
{
    let mut v: Vec<Vec<u8>> = Vec::new();
    v.push(copy_bytes(RESERVE_TAG.as_slice()));
    v.push(copy_bytes(pool.as_slice()));
    proof {
        assert(v.deep_view() =~~= spec_reserve_seeds(pool@));
    }
    v
}

/// Seed tuple of a withdrawal ticket: the withdraw tag, the pool's address,
/// the requesting user's address and the caller-chosen nonce. A nonce names
/// one address per user per pool, so a given nonce can be consumed at most
/// once.
pub open spec fn spec_withdraw_seeds(pool: Seq<u8>, user: Seq<u8>, nonce: u64) -> Seq<Seq<u8>> {
    seq![WITHDRAW_TAG@, pool, user, int_to_le_bytes(nonce as int, 8)]
}

/// Builds a withdrawal ticket's seed tuple.
pub fn withdraw_seeds(pool: &Pubkey, user: &Pubkey, nonce: u64) -> (r: Vec<Vec<u8>>)
    ensures
        r.deep_view() == spec_withdraw_seeds(pool@, user@, nonce),
{
    let mut v: Vec<Vec<u8>> = Vec::new();
    v.push(copy_bytes(WITHDRAW_TAG.as_slice()));
    v.push(copy_bytes(pool.as_slice()));
    v.push(copy_bytes(user.as_slice()));
    let mut nb: Vec<u8> = Vec::new();
    proof {
        lemma_pow256_values();
    }
    write_u64_le(&mut nb, nonce);
    v.push(nb);
    proof {
        assert(v.deep_view() =~~= spec_withdraw_seeds(pool@, user@, nonce));
    }
    v
}

/// Distinct nonces name distinct ticket seed tuples for the same user, and
/// distinct users name distinct tuples for the same nonce: a ticket address
/// derivation can collide only when pool, user and nonce all coincide.
pub proof fn lemma_withdraw_seeds_injective(
    pool1: Seq<u8>,
    user1: Seq<u8>,
    nonce1: u64,
    pool2: Seq<u8>,
    user2: Seq<u8>,
    nonce2: u64,
)
    requires
        spec_withdraw_seeds(pool1, user1, nonce1) == spec_withdraw_seeds(pool2, user2, nonce2),
    ensures
        pool1 == pool2,
        user1 == user2,
        nonce1 == nonce2,
{
    let s1 = spec_withdraw_seeds(pool1, user1, nonce1);
    let s2 = spec_withdraw_seeds(pool2, user2, nonce2);
    assert(s1[1] == pool1 && s2[1] == pool2);
    assert(s1[2] == user1 && s2[2] == user2);
    assert(s1[3] == int_to_le_bytes(nonce1 as int, 8));
    assert(s2[3] == int_to_le_bytes(nonce2 as int, 8));
    lemma_pow256_values();
    crate::codec::lemma_le_round_trip(nonce1 as int, 8);
    crate::codec::lemma_le_round_trip(nonce2 as int, 8);
}

} // verus!
