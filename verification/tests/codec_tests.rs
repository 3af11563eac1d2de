use liquid_staking_token::codec::{read_u32_le, read_u64_le, write_u64_le};
use liquid_staking_token::error::PoolError;
use liquid_staking_token::pool::{PoolState, POOL_DISCRIMINATOR, POOL_STATE_LEN};

fn sample_pool() -> PoolState {
    PoolState {
        discriminator: POOL_DISCRIMINATOR,
        lst_mint: [2; 32],
        authority: [3; 32],
        validator_vote: [4; 32],
        stake_account: [5; 32],
        reserve_stake: [6; 32],
        seed: 0x0123_4567_89ab_cdef,
        bump: 254,
        stake_bump: 253,
        mint_bump: 252,
        reserve_bump: 251,
        lst_supply: 3_000_000_000,
        pending_deposits: 42,
        is_initialized: true,
    }
}

#[test]
fn test_le_round_trip() {
    let mut buf: Vec<u8> = Vec::new();
    write_u64_le(&mut buf, 0x0123_4567_89ab_cdef);
    assert_eq!(buf, vec![0xef, 0xcd, 0xab, 0x89, 0x67, 0x45, 0x23, 0x01]);
    assert_eq!(read_u64_le(&buf, 0), 0x0123_4567_89ab_cdef);
    assert_eq!(read_u32_le(&buf, 0), 0x89ab_cdef);
}

#[test]
fn test_pool_record_round_trip() {
    let p = sample_pool();
    let bytes = p.to_bytes();
    assert_eq!(bytes.len(), POOL_STATE_LEN);
    let q = PoolState::from_bytes(&bytes).unwrap();
    assert_eq!(q.discriminator, p.discriminator);
    assert_eq!(q.lst_mint, p.lst_mint);
    assert_eq!(q.authority, p.authority);
    assert_eq!(q.validator_vote, p.validator_vote);
    assert_eq!(q.stake_account, p.stake_account);
    assert_eq!(q.reserve_stake, p.reserve_stake);
    assert_eq!(q.seed, p.seed);
    assert_eq!(q.bump, p.bump);
    assert_eq!(q.stake_bump, p.stake_bump);
    assert_eq!(q.mint_bump, p.mint_bump);
    assert_eq!(q.reserve_bump, p.reserve_bump);
    assert_eq!(q.lst_supply, p.lst_supply);
    assert_eq!(q.pending_deposits, p.pending_deposits);
    assert_eq!(q.is_initialized, p.is_initialized);
}

#[test]
fn test_pool_record_layout_offsets() {
    let p = sample_pool();
    let bytes = p.to_bytes();
    assert_eq!(bytes[0], POOL_DISCRIMINATOR);
    assert_eq!(&bytes[1..33], &[2u8; 32]);
    assert_eq!(&bytes[33..65], &[3u8; 32]);
    assert_eq!(&bytes[65..97], &[4u8; 32]);
    assert_eq!(&bytes[97..129], &[5u8; 32]);
    assert_eq!(&bytes[129..161], &[6u8; 32]);
    assert_eq!(
        &bytes[161..169],
        &[0xef, 0xcd, 0xab, 0x89, 0x67, 0x45, 0x23, 0x01]
    );
    assert_eq!(bytes[169], 254);
    assert_eq!(bytes[170], 253);
    assert_eq!(bytes[171], 252);
    assert_eq!(bytes[172], 251);
    assert_eq!(read_u64_le(&bytes, 173), 3_000_000_000);
    assert_eq!(read_u64_le(&bytes, 181), 42);
    assert_eq!(bytes[189], 1);
}

#[test]
fn test_pool_record_wrong_size_rejected() {
    let p = sample_pool();
    let mut bytes = p.to_bytes();
    bytes.push(0);
    assert_eq!(
        PoolState::from_bytes(&bytes).unwrap_err(),
        PoolError::InvalidAccountData
    );
    assert_eq!(
        PoolState::from_bytes(&[]).unwrap_err(),
        PoolError::InvalidAccountData
    );
}

#[test]
fn test_record_deposit_and_withdrawal() {
    let mut p = sample_pool();
    p.record_deposit(5).unwrap();
    assert_eq!(p.lst_supply, 3_000_000_005);
    p.record_withdrawal(3_000_000_000).unwrap();
    assert_eq!(p.lst_supply, 5);
    // Burning more than is outstanding is a ledger-corruption signal.
    assert_eq!(
        p.record_withdrawal(6).unwrap_err(),
        PoolError::ArithmeticOverflow
    );
    assert_eq!(p.lst_supply, 5);
    p.lst_supply = u64::MAX;
    assert_eq!(
        p.record_deposit(1).unwrap_err(),
        PoolError::ArithmeticOverflow
    );
    assert_eq!(p.lst_supply, u64::MAX);
}

#[test]
fn test_record_merge_settled_saturates() {
    let mut p = sample_pool();
    p.record_merge_settled(40);
    assert_eq!(p.pending_deposits, 2);
    p.record_merge_settled(40);
    assert_eq!(p.pending_deposits, 0);
}

#[test]
fn test_error_names() {
    assert_eq!(PoolError::ZeroSupply.as_str(), "zero supply");
    assert_eq!(PoolError::InvalidSeeds.as_str(), "invalid seeds");
}

#[test]
fn test_set_inner_fills_every_field() {
    let mut p = sample_pool();
    p.set_inner(
        [11; 32],
        [12; 32],
        [13; 32],
        [14; 32],
        [15; 32],
        7,
        250,
        249,
        248,
        247,
        123,
        true,
    );
    assert_eq!(p.discriminator(), POOL_DISCRIMINATOR);
    assert_eq!(p.lst_mint(), [11; 32]);
    assert_eq!(p.authority(), [12; 32]);
    assert_eq!(p.validator_vote(), [13; 32]);
    assert_eq!(p.stake_account(), [14; 32]);
    assert_eq!(p.reserve_stake(), [15; 32]);
    assert_eq!(p.seed(), 7);
    assert_eq!(p.bump(), 250);
    assert_eq!(p.stake_bump(), 249);
    assert_eq!(p.mint_bump(), 248);
    assert_eq!(p.reserve_bump(), 247);
    assert_eq!(p.lst_supply(), 123);
    assert_eq!(p.pending_deposits(), 0);
    assert!(p.is_initialized());
}
