//! Share-based exchange-rate accounting.
//!
//! Converts between deposited value and minted or burned claim-token amounts.
//! While no claim tokens are outstanding, a deposit mints one token per unit
//! of value. Afterwards, a deposit of `d` against supply `s` and total pool
//! value `t` mints `floor(d * s / t)` tokens, and a burn of `a` tokens pays
//! out `floor(a * t / s)` units of value. Division truncates toward zero, so
//! rounding always favours the existing holders: a depositor never receives
//! more shares than its value commands, and a withdrawer never receives more
//! value than its shares command. Intermediate products are taken at
//! 128-bit width; every remaining operation is checked.

use vstd::prelude::*;

use crate::error::PoolError;

verus! {

/// What a deposit of `amount` mints when `supply` claim tokens are
/// outstanding against `total_value` units of pool value.
pub open spec fn spec_quote_mint(amount: u64, supply: u64, total_value: u64) -> Result<
    u64,
    PoolError,
> {
    if supply == 0 {
        Ok(amount)
    } else if total_value == 0 {
        Err(PoolError::ArithmeticOverflow)
    } else {
        let q = (amount * supply) / (total_value as int);
        if q <= u64::MAX {
            Ok(q as u64)
        } else {
            Err(PoolError::ArithmeticOverflow)
        }
    }
}

/// What a burn of `amount` claim tokens pays out when `supply` are
/// outstanding against `total_value` units of pool value.
pub open spec fn spec_quote_burn(amount: u64, supply: u64, total_value: u64) -> Result<
    u64,
    PoolError,
> {
    if supply == 0 {
        Err(PoolError::ZeroSupply)
    } else {
        let q = (amount * total_value) / (supply as int);
        if q == 0 {
            Err(PoolError::ZeroQuote)
        } else if q <= u64::MAX {
            Ok(q as u64)
        } else {
            Err(PoolError::ArithmeticOverflow)
        }
    }
}

/// The total pool value both quotes are priced against: what the primary
/// and reserve positions hold, each net of the required minimum-rent
/// reserve. One basis serves minting and burning alike, so a deposit and a
/// withdrawal always see the same exchange rate.
pub open spec fn spec_total_pool_value(
    pool_stake_lamports: u64,
    reserve_lamports: u64,
    stake_rent_exempt: u64,
) -> int {
    let pool_net = if pool_stake_lamports >= stake_rent_exempt {
        pool_stake_lamports - stake_rent_exempt
    } else {
        0
    };
    let reserve_net = if reserve_lamports >= stake_rent_exempt {
        reserve_lamports - stake_rent_exempt
    } else {
        0
    };
    pool_net + reserve_net
}

/// Computes the total pool value both quotes are priced against.
///
/// Fails with `ArithmeticOverflow` exactly when the sum of the two net
/// balances does not fit the value range.
pub fn total_pool_value(
    pool_stake_lamports: u64,
    reserve_lamports: u64,
    stake_rent_exempt: u64,
) -> (r: Result<u64, PoolError>)
    ensures
        ({
            let total = spec_total_pool_value(
                pool_stake_lamports,
                reserve_lamports,
                stake_rent_exempt,
            );
            if total <= u64::MAX {
                r == Ok::<u64, PoolError>(total as u64)
            } else {
                r == Err::<u64, PoolError>(PoolError::ArithmeticOverflow)
            }
        }),
{
    let pool_net = pool_stake_lamports.saturating_sub(stake_rent_exempt);
    let reserve_net = reserve_lamports.saturating_sub(stake_rent_exempt);
    match pool_net.checked_add(reserve_net) {
        Some(t) => Ok(t),
        None => Err(PoolError::ArithmeticOverflow),
    }
}

/// The product of two 64-bit values fits in 128 bits.
proof fn lemma_u64_mul_fits(a: u64, b: u64)
    ensures
        0 <= (a as int) * (b as int) <= u64::MAX * u64::MAX < u128::MAX,
{
    assert(0 <= (a as int) * (b as int) <= u64::MAX * u64::MAX) by (nonlinear_arith)
        requires
            0 <= a <= u64::MAX,
            0 <= b <= u64::MAX,
    ;
}

/// Quote the claim tokens minted for a deposit.
///
/// While the supply is zero the pool bootstraps at one token per unit of
/// value, so the quote equals the deposit exactly. Otherwise the quote is
/// `floor(amount * supply / total_value)`; a pool whose positions hold no
/// value cannot price a deposit, and a quote beyond the token range cannot
/// be minted, both of which abort with `ArithmeticOverflow`.
pub fn quote_mint(amount: u64, supply: u64, total_value: u64) -> (r: Result<u64, PoolError>)
    ensures
        r == spec_quote_mint(amount, supply, total_value),
{
    if supply == 0 {
        return Ok(amount);
    }
    if total_value == 0 {
        return Err(PoolError::ArithmeticOverflow);
    }
    proof {
        lemma_u64_mul_fits(amount, supply);
    }
    let prod: u128 = (amount as u128) * (supply as u128);
    let q: u128 = prod / (total_value as u128);
    if q > u64::MAX as u128 {
        Err(PoolError::ArithmeticOverflow)
    } else {
        Ok(q as u64)
    }
}

/// Quote the value paid out for burning claim tokens.
///
/// Fails with `ZeroSupply` while no claim tokens are outstanding, and with
/// `ZeroQuote` when the amount commands no whole unit of value; a quote
/// beyond the value range aborts with `ArithmeticOverflow`. Otherwise the
/// quote is `floor(amount * total_value / supply)`.
pub fn quote_burn(amount: u64, supply: u64, total_value: u64) -> (r: Result<u64, PoolError>)
    ensures
        r == spec_quote_burn(amount, supply, total_value),
{
    if supply == 0 {
        return Err(PoolError::ZeroSupply);
    }
    proof {
        lemma_u64_mul_fits(amount, total_value);
    }
    let prod: u128 = (amount as u128) * (total_value as u128);
    let q: u128 = prod / (supply as u128);
    if q == 0 {
        Err(PoolError::ZeroQuote)
    } else if q > u64::MAX as u128 {
        Err(PoolError::ArithmeticOverflow)
    } else {
        Ok(q as u64)
    }
}

/// Truncating division is monotone in the rational value: if `a/b >= c/d`
/// as rationals (witnessed by `a * d >= c * b`), the quotients are ordered.
proof fn lemma_div_frac_ordered(a: int, b: int, c: int, d: int)
    requires
        0 <= a,
        0 <= c,
        0 < b,
        0 < d,
        a * d >= c * b,
    ensures
        a / b >= c / d,
{
    let q = c / d;
    vstd::arithmetic::div_mod::lemma_fundamental_div_mod(c, d);
    vstd::arithmetic::div_mod::lemma_div_pos_is_pos(c, d);
    assert(c >= q * d);
    assert(a * d >= (q * b) * d) by (nonlinear_arith)
        requires
            a * d >= c * b,
            c >= q * d,
            0 < b,
            0 < d,
    ;
    assert(a >= q * b) by {
        if a < q * b {
            vstd::arithmetic::mul::lemma_mul_strict_inequality(a, q * b, d);
        }
    }
    assert((q * b) / b == q) by {
        vstd::arithmetic::div_mod::lemma_div_multiples_vanish(q, b);
        assert(q * b == b * q) by (nonlinear_arith);
    }
    vstd::arithmetic::div_mod::lemma_div_is_ordered(q * b, a, b);
}

/// A deposit never dilutes an earlier holder.
///
/// With `supply` tokens outstanding against `total` value, a holder of `h`
/// tokens can redeem `floor(h * total / supply)`. After a new deposit of
/// `d` mints `m = floor(d * supply / total)` tokens, the holder's
/// redeemable value, now `floor(h * (total + d) / (supply + m))`, has not
/// decreased.
pub proof fn lemma_deposit_no_dilution(h: int, supply: int, total: int, d: int, m: int)
    requires
        0 < supply,
        0 < total,
        0 <= h,
        0 <= d,
        m == (d * supply) / total,
    ensures
        (h * (total + d)) / (supply + m) >= (h * total) / supply,
{
    vstd::arithmetic::div_mod::lemma_fundamental_div_mod(d * supply, total);
    vstd::arithmetic::div_mod::lemma_div_pos_is_pos(d * supply, total);
    assert(0 <= m);
    assert(m * total <= d * supply) by (nonlinear_arith)
        requires
            d * supply == total * m + (d * supply) % total,
            0 <= (d * supply) % total,
    ;
    assert((h * (total + d)) * supply >= (h * total) * (supply + m)) by (nonlinear_arith)
        requires
            m * total <= d * supply,
            0 <= h,
            0 < supply,
            0 < total,
            0 <= d,
            0 <= m,
    ;
    assert(0 <= h * (total + d) && 0 <= h * total) by (nonlinear_arith)
        requires
            0 <= h,
            0 < total,
            0 <= d,
    ;
    lemma_div_frac_ordered(h * (total + d), supply + m, h * total, supply);
}

/// A deposit priced by `quote_mint` never dilutes an earlier holder: for
/// any holder of `h` of the `supply` outstanding tokens, the value its
/// tokens redeem after the deposit settles is at least what they redeemed
/// before, as `quote_burn` prices it, up to the one unit that burning
/// quotes round away.
pub proof fn lemma_quote_mint_no_dilution(h: u64, supply: u64, total: u64, d: u64, m: u64)
    requires
        supply > 0,
        total > 0,
        spec_quote_mint(d, supply, total) == Ok::<u64, PoolError>(m),
    ensures
        (h * (total + d)) / (supply + m) >= (h * total) / (supply as int),
{
    assert(m == (d * supply) / (total as int));
    lemma_deposit_no_dilution(h as int, supply as int, total as int, d as int, m as int);
}

/// A withdrawal never dilutes the remaining holders.
///
/// Burning `a` of the `supply` outstanding tokens pays out
/// `v = floor(a * total / supply)`: the rounded-away remainder stays in the
/// pool, so a holder of `h` of the remaining tokens redeems at least what
/// it redeemed before.
pub proof fn lemma_withdrawal_no_dilution(h: int, supply: int, total: int, a: int, v: int)
    requires
        0 < supply,
        0 < total,
        0 <= h,
        0 <= a < supply,
        v == (a * total) / supply,
    ensures
        0 <= v < total,
        (h * (total - v)) / (supply - a) >= (h * total) / supply,
{
    vstd::arithmetic::div_mod::lemma_fundamental_div_mod(a * total, supply);
    vstd::arithmetic::div_mod::lemma_div_pos_is_pos(a * total, supply);
    assert(0 <= a * total) by (nonlinear_arith)
        requires
            0 <= a,
            0 < total,
    ;
    assert(v * supply <= a * total) by (nonlinear_arith)
        requires
            a * total == supply * v + (a * total) % supply,
            0 <= (a * total) % supply,
    ;
    assert(v < total) by (nonlinear_arith)
        requires
            v * supply <= a * total,
            0 <= a < supply,
            0 < total,
            0 <= v,
    ;
    assert((h * (total - v)) * supply >= (h * total) * (supply - a)) by (nonlinear_arith)
        requires
            v * supply <= a * total,
            0 <= h,
            0 < supply,
            0 < total,
            0 <= a,
            0 <= v,
    ;
    assert(0 <= h * (total - v) && 0 <= h * total) by (nonlinear_arith)
        requires
            0 <= h,
            0 <= v < total,
    ;
    lemma_div_frac_ordered(h * (total - v), supply - a, h * total, supply);
}

/// A burn priced by `quote_burn` never dilutes the remaining holders: for
/// any holder of `h` of the tokens left outstanding, the value its tokens
/// redeem after the withdrawal settles is at least what they redeemed
/// before.
pub proof fn lemma_quote_burn_no_dilution(h: u64, supply: u64, total: u64, a: u64, v: u64)
    requires
        0 < supply,
        0 < total,
        a < supply,
        spec_quote_burn(a, supply, total) == Ok::<u64, PoolError>(v),
    ensures
        v < total,
        (h * (total - v)) / (supply - a) >= (h * total) / (supply as int),
{
    assert(v == (a * total) / (supply as int));
    lemma_withdrawal_no_dilution(h as int, supply as int, total as int, a as int, v as int);
}

/// Burning the tokens a deposit minted never pays out more than was deposited.
///
/// If a deposit of `d` minted `m = floor(d * supply / total)` tokens, then
/// burning those `m` tokens against the grown pool pays out
/// `floor(m * (total + d) / (supply + m))`, which is at most `d`: value can
/// round away in the exchange, but is never created.
pub proof fn lemma_round_trip_no_gain(supply: int, total: int, d: int, m: int)
    requires
        0 < supply,
        0 < total,
        0 <= d,
        m == (d * supply) / total,
    ensures
        (m * (total + d)) / (supply + m) <= d,
{
    vstd::arithmetic::div_mod::lemma_fundamental_div_mod(d * supply, total);
    vstd::arithmetic::div_mod::lemma_div_pos_is_pos(d * supply, total);
    assert(m * total <= d * supply) by (nonlinear_arith)
        requires
            d * supply == total * m + (d * supply) % total,
            0 <= (d * supply) % total,
    ;
    assert((d * (supply + m)) * (supply + m) >= (m * (total + d)) * (supply + m)) by (
    nonlinear_arith)
        requires
            m * total <= d * supply,
            0 < supply,
            0 < total,
            0 <= d,
            0 <= m,
    ;
    assert(0 <= m * (total + d)) by (nonlinear_arith)
        requires
            0 <= m,
            0 < total,
            0 <= d,
    ;
    lemma_div_frac_ordered(d * (supply + m), supply + m, m * (total + d), supply + m);
    assert((d * (supply + m)) / (supply + m) == d) by {
        vstd::arithmetic::div_mod::lemma_div_multiples_vanish(d, supply + m);
        assert(d * (supply + m) == (supply + m) * d) by (nonlinear_arith);
    }
}

} // verus!
