use vstd::prelude::*;
use vstd::arithmetic::div_mod::*;

use crate::constants::FEE_DENOMINATOR;
use crate::error::AmmError;

verus! {

/// The input that is left once the fee is taken: `amount_in * (1 - fee)`, rounded down.
pub open spec fn amount_after_fee(amount_in: int, fee_bps: int) -> int {
    amount_in * (FEE_DENOMINATOR - fee_bps) / (FEE_DENOMINATOR as int)
}

/// The constant-product curve: `reserve_out * a / (reserve_in + a)`, rounded down,
/// where `a` is the input after the fee.
pub open spec fn curve_output(amount_in: int, reserve_in: int, reserve_out: int, fee_bps: int) -> int {
    let a = amount_after_fee(amount_in, fee_bps);
    reserve_out * a / (reserve_in + a)
}

/// `amount * reserve / supply`, rounded down.
pub open spec fn floor_share(amount: int, reserve: int, supply: int) -> int {
    amount * reserve / supply
}

/// `amount * reserve / supply`, rounded up.
pub open spec fn ceil_share(amount: int, reserve: int, supply: int) -> int {
    (amount * reserve + supply - 1) / supply
}

/// Floor division pins its quotient between the two neighbouring multiples.
pub proof fn lemma_div_bounds(x: int, d: int)
    requires
        d > 0,
        x >= 0,
    ensures
        d * (x / d) <= x < d * (x / d) + d,
        x / d >= 0,
{
    lemma_fundamental_div_mod(x, d);
    lemma_mod_pos_bound(x, d);
    lemma_div_pos_is_pos(x, d);
}

/// The fee never increases the input, and a fee below 100% keeps part of a positive input.
pub proof fn lemma_after_fee_bounds(amount_in: int, fee_bps: int)
    requires
        0 <= amount_in,
        0 <= fee_bps <= 10_000,
    ensures
        0 <= amount_after_fee(amount_in, fee_bps) <= amount_in,
        amount_in * (10_000 - fee_bps) <= amount_in * 10_000,
{
    let m = amount_in * (10_000 - fee_bps);
    assert(0 <= m <= amount_in * 10_000) by (nonlinear_arith)
        requires 0 <= amount_in, 0 <= fee_bps <= 10_000, m == amount_in * (10_000 - fee_bps);
    lemma_div_bounds(m, 10_000);
    let q = m / 10_000;
    assert(q <= amount_in) by (nonlinear_arith)
        requires 10_000 * q <= m, m <= amount_in * 10_000;
}

/// The curve's output is below the output reserve whenever the divisor is positive.
pub proof fn lemma_curve_output_bounds(amount_in: int, reserve_in: int, reserve_out: int, fee_bps: int)
    requires
        0 <= amount_in,
        0 <= reserve_in,
        0 <= reserve_out,
        0 <= fee_bps <= 10_000,
        reserve_in + amount_after_fee(amount_in, fee_bps) > 0,
    ensures
        0 <= curve_output(amount_in, reserve_in, reserve_out, fee_bps) <= reserve_out,
        reserve_in > 0 ==> curve_output(amount_in, reserve_in, reserve_out, fee_bps) < reserve_out
            || reserve_out == 0,
{
    lemma_after_fee_bounds(amount_in, fee_bps);
    let a = amount_after_fee(amount_in, fee_bps);
    let d = reserve_in + a;
    let n = reserve_out * a;
    assert(0 <= n <= reserve_out * d) by (nonlinear_arith)
        requires 0 <= a, 0 <= reserve_out, d == reserve_in + a, 0 <= reserve_in, n == reserve_out * a;
    lemma_div_bounds(n, d);
    let q = n / d;
    assert(q <= reserve_out) by (nonlinear_arith)
        requires d * q <= n, n <= reserve_out * d, d > 0;
    if reserve_in > 0 && reserve_out > 0 {
        assert(n < reserve_out * d) by (nonlinear_arith)
            requires n == reserve_out * a, d == reserve_in + a, reserve_in > 0, reserve_out > 0;
        assert(q < reserve_out) by (nonlinear_arith)
            requires d * q <= n, n < reserve_out * d, d > 0;
    }
}

/// How much of `reserve_out` a swap of `amount_in` pays out on the constant-product
/// curve after a fee of `fee_bps` basis points, rounded down.
///
/// Fails with `Overflow` exactly when the curve's divisor `reserve_in + a` is zero.
pub fn constant_product_out(amount_in: u64, reserve_in: u64, reserve_out: u64, fee_bps: u16) -> (out: Result<u64, AmmError>)
    requires
        fee_bps <= 10_000,
    ensures
        match out {
            Ok(v) => {
                &&& reserve_in + amount_after_fee(amount_in as int, fee_bps as int) > 0
                &&& v == curve_output(amount_in as int, reserve_in as int, reserve_out as int, fee_bps as int)
                &&& v <= reserve_out
            },
            Err(e) => {
                &&& e == AmmError::Overflow
                &&& reserve_in + amount_after_fee(amount_in as int, fee_bps as int) == 0
            },
        },
{
    let amount_in_w = amount_in as u128;
    let reserve_in_w = reserve_in as u128;
    let reserve_out_w = reserve_out as u128;
    proof {
        lemma_after_fee_bounds(amount_in as int, fee_bps as int);
        assert(amount_in as int * (10_000 - fee_bps) <= u64::MAX as int * 10_000) by (nonlinear_arith)
            requires amount_in * (10_000 - fee_bps) <= amount_in * 10_000, amount_in <= u64::MAX;
    }
    let scaled = match amount_in_w.checked_mul(FEE_DENOMINATOR - fee_bps as u128) {
        Some(v) => v,
        None => return Err(AmmError::Overflow),
    };
    let in_after_fee = match scaled.checked_div(FEE_DENOMINATOR) {
        Some(v) => v,
        None => return Err(AmmError::Overflow),
    };
    assert(in_after_fee == amount_after_fee(amount_in as int, fee_bps as int));
    proof {
        assert(reserve_out as int * in_after_fee as int <= u64::MAX as int * u64::MAX as int) by (nonlinear_arith)
            requires reserve_out <= u64::MAX, in_after_fee <= u64::MAX, 0 <= in_after_fee, 0 <= reserve_out;
    }
    let numerator = match reserve_out_w.checked_mul(in_after_fee) {
        Some(v) => v,
        None => return Err(AmmError::Overflow),
    };
    let denominator = match reserve_in_w.checked_add(in_after_fee) {
        Some(v) => v,
        None => return Err(AmmError::Overflow),
    };
    let res = match numerator.checked_div(denominator) {
        Some(v) => v,
        None => return Err(AmmError::Overflow),
    };
    proof {
        lemma_curve_output_bounds(amount_in as int, reserve_in as int, reserve_out as int, fee_bps as int);
    }
    match u64::try_from(res) {
        Ok(v) => Ok(v),
        Err(_) => Err(AmmError::Overflow),
    }
}

/// `amount * reserve / supply`, rounded up, as a `u64`.
///
/// Fails with `Overflow` when an intermediate value leaves `u128` or the
/// result leaves `u64`.
pub fn ceil_div(amount: u128, reserve: u128, supply: u128) -> (out: Result<u64, AmmError>)
    requires
        supply > 0,
    ensures
        match out {
            Ok(v) => {
                &&& amount * reserve + supply - 1 <= u128::MAX
                &&& v == ceil_share(amount as int, reserve as int, supply as int)
            },
            Err(e) => {
                &&& e == AmmError::Overflow
                &&& (amount * reserve + supply - 1 > u128::MAX
                    || ceil_share(amount as int, reserve as int, supply as int) > u64::MAX)
            },
        },
{
    let numerator = match amount.checked_mul(reserve) {
        Some(v) => v,
        None => return Err(AmmError::Overflow),
    };
    let padded = match numerator.checked_add(supply - 1) {
        Some(v) => v,
        None => return Err(AmmError::Overflow),
    };
    let result = match padded.checked_div(supply) {
        Some(v) => v,
        None => return Err(AmmError::Overflow),
    };
    match u64::try_from(result) {
        Ok(v) => Ok(v),
        Err(_) => Err(AmmError::Overflow),
    }
}

/// `amount * reserve / supply`, rounded down, as a `u64`.
///
/// Fails with `Overflow` when the product leaves `u128`, when `supply` is
/// zero, or when the result leaves `u64`.
pub fn floor_div(amount: u128, reserve: u128, supply: u128) -> (out: Result<u64, AmmError>)
    ensures
        match out {
            Ok(v) => {
                &&& amount * reserve <= u128::MAX
                &&& supply > 0
                &&& v == floor_share(amount as int, reserve as int, supply as int)
            },
            Err(e) => {
                &&& e == AmmError::Overflow
                &&& (amount * reserve > u128::MAX || supply == 0
                    || floor_share(amount as int, reserve as int, supply as int) > u64::MAX)
            },
        },
{
    let product = match amount.checked_mul(reserve) {
        Some(v) => v,
        None => return Err(AmmError::Overflow),
    };
    let result = match product.checked_div(supply) {
        Some(v) => v,
        None => return Err(AmmError::Overflow),
    };
    match u64::try_from(result) {
        Ok(v) => Ok(v),
        Err(_) => Err(AmmError::Overflow),
    }
}

} // verus!
