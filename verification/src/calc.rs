//! Proportional-share arithmetic.
//!
//! A redeemer burning `amount` out of `denominator` outstanding LP tokens
//! is owed `floor(amount * numerator / denominator)` out of a leg holding
//! `numerator` units. Rounding is always floor, toward the pool, so that
//! repeated small redemptions can never leak value out of the reserves.

use vstd::prelude::*;

use crate::error::RedeemError;
use vstd::arithmetic::div_mod::{
    lemma_div_is_ordered, lemma_div_multiples_vanish, lemma_fundamental_div_mod,
    lemma_mod_division_less_than_divisor,
};
use vstd::arithmetic::mul::{
    lemma_mul_inequality, lemma_mul_is_commutative, lemma_mul_nonnegative,
};

verus! {

/// The exact payout: `floor(amount * numerator / denominator)`.
/// Meaningful only for `denominator != 0`.
pub open spec fn spec_proportional(amount: int, numerator: int, denominator: int) -> int
    recommends
        denominator != 0,
{
    amount * numerator / denominator
}

/// Computes `floor(amount * numerator / denominator)` in a widened
/// 128-bit intermediate. Fails `DivideByZero` on a zero denominator and
/// `ArithmeticOverflow` when the quotient does not fit in 64 bits.
pub fn proportional(amount: u64, numerator: u64, denominator: u64) -> (r: Result<
    u64,
    RedeemError,
>)
    ensures
        denominator == 0 ==> r == Err::<u64, RedeemError>(RedeemError::DivideByZero),
        denominator != 0 && spec_proportional(amount as int, numerator as int, denominator as int)
            > u64::MAX ==> r == Err::<u64, RedeemError>(RedeemError::ArithmeticOverflow),
        denominator != 0 && spec_proportional(amount as int, numerator as int, denominator as int)
            <= u64::MAX ==> r == Ok::<u64, RedeemError>(
            spec_proportional(amount as int, numerator as int, denominator as int) as u64,
        ),
{
    if denominator == 0 {
        return Err(RedeemError::DivideByZero);
    }
    proof {
        lemma_mul_inequality(amount as int, u64::MAX as int, numerator as int);
        lemma_mul_inequality(numerator as int, u64::MAX as int, u64::MAX as int);
        lemma_mul_is_commutative(amount as int, numerator as int);
        lemma_mul_is_commutative(u64::MAX as int, numerator as int);
    }
    let product: u128 = (amount as u128) * (numerator as u128);
    let quotient: u128 = product / (denominator as u128);
    if quotient > u64::MAX as u128 {
        Err(RedeemError::ArithmeticOverflow)
    } else {
        Ok(quotient as u64)
    }
}

/// A payout is never more than the leg reserve it is taken from, and never
/// more than the redeemed fraction `amount / denominator` of that reserve:
/// scaled back up, `payout * denominator` never exceeds `amount * numerator`.
pub proof fn lemma_proportional_le_reserve(amount: int, numerator: int, denominator: int)
    requires
        0 < amount <= denominator,
        0 <= numerator,
    ensures
        spec_proportional(amount, numerator, denominator) <= numerator,
        spec_proportional(amount, numerator, denominator) * denominator <= amount * numerator,
{
    let a = amount;
    let n = numerator;
    let d = denominator;
    lemma_mul_nonnegative(a, n);
    lemma_mul_inequality(a, d, n);
    lemma_mul_is_commutative(d, n);
    lemma_div_is_ordered(a * n, n * d, d);
    lemma_div_multiples_vanish(n, d);
    lemma_mul_is_commutative(n, d);
    assert((n * d) / d == n) by {
        assert(n * d == d * n) by { lemma_mul_is_commutative(n, d) };
    }
    lemma_fundamental_div_mod(a * n, d);
    lemma_mod_division_less_than_divisor(a * n, d);
    lemma_mul_is_commutative(d, (a * n) / d);
}

/// Redeeming nothing pays out nothing.
pub proof fn lemma_proportional_zero_amount(numerator: u64, denominator: u64)
    requires
        denominator > 0,
    ensures
        spec_proportional(0, numerator as int, denominator as int) == 0,
{
    assert(0 * (numerator as int) == 0);
}

/// Redeeming the entire supply returns the entire leg reserve.
pub proof fn lemma_proportional_full_redemption(numerator: u64, denominator: u64)
    requires
        denominator > 0,
    ensures
        spec_proportional(denominator as int, numerator as int, denominator as int)
            == numerator,
{
    let n = numerator as int;
    let d = denominator as int;
    lemma_mul_is_commutative(d, n);
    lemma_div_multiples_vanish(n, d);
}

} // verus!
