use liquid_staking_token::error::PoolError;
use liquid_staking_token::keys::{ATA_PROGRAM_ID, PROGRAM_ID, TOKEN_PROGRAM_ID};
use liquid_staking_token::account::ata_seeds;
use liquid_staking_token::pda::{
    derive_pda, mint_seeds, pool_seeds, verify_canonical_pda, verify_pda, withdraw_seeds,
};

#[test]
fn test_derive_then_verify_round_trip() {
    let authority = [7u8; 32];
    let seeds = pool_seeds(&authority, 42);
    let (address, bump) = derive_pda(&seeds, &PROGRAM_ID).unwrap();
    // The derivation is a digest: it never echoes a seed back.
    assert_ne!(address, authority);
    assert_ne!(address, PROGRAM_ID);
    assert_eq!(
        verify_pda(pool_seeds(&authority, 42), bump, &PROGRAM_ID, &address),
        Ok(())
    );
}

#[test]
fn test_verify_wrong_bump_fails() {
    let authority = [7u8; 32];
    let seeds = pool_seeds(&authority, 42);
    let (address, bump) = derive_pda(&seeds, &PROGRAM_ID).unwrap();
    let wrong_bump = bump.wrapping_add(1);
    assert_eq!(
        verify_pda(pool_seeds(&authority, 42), wrong_bump, &PROGRAM_ID, &address),
        Err(PoolError::InvalidSeeds)
    );
}

#[test]
fn test_verify_wrong_address_fails() {
    let authority = [7u8; 32];
    let seeds = pool_seeds(&authority, 42);
    let (_, bump) = derive_pda(&seeds, &PROGRAM_ID).unwrap();
    assert_eq!(
        verify_pda(pool_seeds(&authority, 42), bump, &PROGRAM_ID, &[9u8; 32]),
        Err(PoolError::InvalidSeeds)
    );
}

#[test]
fn test_different_seed_tuples_derive_different_addresses() {
    let authority = [7u8; 32];
    let (a1, _) = derive_pda(&pool_seeds(&authority, 1), &PROGRAM_ID).unwrap();
    let (a2, _) = derive_pda(&pool_seeds(&authority, 2), &PROGRAM_ID).unwrap();
    assert_ne!(a1, a2);
    let (m1, _) = derive_pda(&mint_seeds(&a1), &PROGRAM_ID).unwrap();
    assert_ne!(m1, a1);
}

#[test]
fn test_ticket_addresses_differ_per_nonce_and_user() {
    let pool = [1u8; 32];
    let user_a = [2u8; 32];
    let user_b = [3u8; 32];
    let (t1, _) = derive_pda(&withdraw_seeds(&pool, &user_a, 1), &PROGRAM_ID).unwrap();
    let (t2, _) = derive_pda(&withdraw_seeds(&pool, &user_a, 2), &PROGRAM_ID).unwrap();
    let (t3, _) = derive_pda(&withdraw_seeds(&pool, &user_b, 1), &PROGRAM_ID).unwrap();
    assert_ne!(t1, t2);
    assert_ne!(t1, t3);
    assert_ne!(t2, t3);
}

#[test]
fn test_verify_canonical_pda_matches_derivation() {
    let pool = [1u8; 32];
    let user = [2u8; 32];
    let (ticket, bump) = derive_pda(&withdraw_seeds(&pool, &user, 9), &PROGRAM_ID).unwrap();
    assert_eq!(
        verify_canonical_pda(withdraw_seeds(&pool, &user, 9), &PROGRAM_ID, &ticket),
        Ok(bump)
    );
    assert_eq!(
        verify_canonical_pda(withdraw_seeds(&pool, &user, 9), &PROGRAM_ID, &[8u8; 32]),
        Err(PoolError::InvalidSeeds)
    );
}

#[test]
fn test_ata_derivation_depends_on_all_seeds() {
    let wallet = [5u8; 32];
    let mint = [6u8; 32];
    let (ata1, _) = derive_pda(&ata_seeds(&wallet, &TOKEN_PROGRAM_ID, &mint), &ATA_PROGRAM_ID)
        .unwrap();
    let (ata2, _) = derive_pda(&ata_seeds(&mint, &TOKEN_PROGRAM_ID, &wallet), &ATA_PROGRAM_ID)
        .unwrap();
    assert_ne!(ata1, ata2);
}
