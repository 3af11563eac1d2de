use liquid_staking_token::error::PoolError;
use liquid_staking_token::rate::{quote_burn, quote_mint};

#[test]
fn test_bootstrap_mint_is_exact() {
    // While no claim tokens are outstanding, minted == deposit exactly.
    assert_eq!(quote_mint(1, 0, 0), Ok(1));
    assert_eq!(quote_mint(2_000_000_000, 0, 1_000_000_000), Ok(2_000_000_000));
    assert_eq!(quote_mint(u64::MAX, 0, 5), Ok(u64::MAX));
}

#[test]
fn test_bootstrapped_pool_example() {
    // A pool holding 1_000_000_000 at supply 1_000_000_000: the first
    // depositor of 2_000_000_000 mints exactly 2_000_000_000.
    assert_eq!(
        quote_mint(2_000_000_000, 1_000_000_000, 1_000_000_000),
        Ok(2_000_000_000)
    );
    // The second depositor of 1_100_000_000 against supply 3_000_000_000
    // and total value 3_100_000_000 mints floor(1.1e9 * 3e9 / 3.1e9).
    assert_eq!(
        quote_mint(1_100_000_000, 3_000_000_000, 3_100_000_000),
        Ok(1_064_516_129)
    );
}

#[test]
fn test_mint_rounding_favors_pool() {
    // 7 * 10 / 3 = 23.33..., so the depositor receives 23, never 24.
    assert_eq!(quote_mint(7, 10, 3), Ok(23));
    // A quote that would round up to a whole token stays floored.
    assert_eq!(quote_mint(1, 2, 3), Ok(0));
}

#[test]
fn test_mint_zero_total_value_overflows() {
    assert_eq!(quote_mint(5, 77, 0), Err(PoolError::ArithmeticOverflow));
}

#[test]
fn test_mint_quote_beyond_token_range_overflows() {
    // amount * supply / total_value > u64::MAX.
    assert_eq!(
        quote_mint(u64::MAX, u64::MAX, 1),
        Err(PoolError::ArithmeticOverflow)
    );
}

#[test]
fn test_burn_zero_supply_fails() {
    assert_eq!(quote_burn(10, 0, 100), Err(PoolError::ZeroSupply));
}

#[test]
fn test_burn_zero_quote_fails() {
    // 1 token against a pool of 2 value and 3_000_000_000 supply commands
    // no whole unit.
    assert_eq!(quote_burn(1, 3_000_000_000, 2), Err(PoolError::ZeroQuote));
}

#[test]
fn test_burn_pays_proportional_value() {
    // 10 tokens of a 100-token supply against 1000 value redeem 100.
    assert_eq!(quote_burn(10, 100, 1000), Ok(100));
    // Rounding truncates: 1 of 3 against 100 redeems 33, not 33.33.
    assert_eq!(quote_burn(1, 3, 100), Ok(33));
}

#[test]
fn test_burn_quote_beyond_value_range_overflows() {
    assert_eq!(
        quote_burn(u64::MAX, 1, u64::MAX),
        Err(PoolError::ArithmeticOverflow)
    );
}

#[test]
fn test_second_deposit_rate_preserves_holder_value() {
    // First depositor holds the whole supply: 1000 tokens on 1000 value.
    let holder = 1000u64;
    let supply = 1000u64;
    let total = 1000u64;
    let redeemable_before = quote_burn(holder, supply, total).unwrap();
    // Second depositor adds 333 value and mints floor(333 * 1000 / 1000).
    let minted = quote_mint(333, supply, total).unwrap();
    assert_eq!(minted, 333);
    let redeemable_after = quote_burn(holder, supply + minted, total + 333).unwrap();
    assert!(redeemable_after >= redeemable_before);
}

#[test]
fn test_round_trip_returns_no_more_than_deposited() {
    // Deposit 777 into a pool of 1003 value and 1000 supply, then burn the
    // minted tokens at once: the payout never exceeds the deposit.
    let supply = 1000u64;
    let total = 1003u64;
    let d = 777u64;
    let m = quote_mint(d, supply, total).unwrap();
    let back = quote_burn(m, supply + m, total + d).unwrap();
    assert!(back <= d);
}

#[test]
fn test_withdrawal_leaves_remaining_holders_whole() {
    // 300 of 1000 tokens burned against 1003 value pay out
    // floor(300 * 1003 / 1000) = 300; the 0.9 rounded away stays pooled.
    let supply = 1000u64;
    let total = 1003u64;
    let burned = 300u64;
    let paid = quote_burn(burned, supply, total).unwrap();
    assert_eq!(paid, 300);
    // A holder of 100 tokens redeemed 100 before; afterwards it redeems
    // floor(100 * 703 / 700) = 100, no less.
    let before = quote_burn(100, supply, total).unwrap();
    let after = quote_burn(100, supply - burned, total - paid).unwrap();
    assert!(after >= before);
}
