//! Constant-product curve math: pure, stateless pricing functions.
//!
//! All arithmetic is exact integer arithmetic with 128-bit intermediate
//! widening; every division rounds towards zero (floor, as all operands are
//! non-negative). Rounding always favours the pool: required deposit legs
//! round up, swap output rounds down.

use vstd::prelude::*;
use vstd::arithmetic::div_mod::*;
use vstd::arithmetic::mul::*;

use crate::error::AmmError;

verus! {

/// Ceiling of `a / b`, for non-negative `a` and positive `b`.
pub open spec fn ceil_div(a: int, b: int) -> int {
    (a + b - 1) / b
}

/// Portion of a swap input still credited to the curve once the fee
/// (in basis points of the input) has been withheld; rounds down.
pub open spec fn spec_effective_in(amount_in: int, fee_bps: int) -> int {
    amount_in * (10000 - fee_bps) / 10000
}

/// Balance left in the pay-out reserve after a swap: the constant-product
/// quotient `reserve_in * reserve_out / (reserve_in + effective_in)`,
/// rounded down.
pub open spec fn spec_out_reserve_after(
    reserve_in: int,
    reserve_out: int,
    amount_in: int,
    fee_bps: int,
) -> int {
    (reserve_in * reserve_out) / (reserve_in + spec_effective_in(amount_in, fee_bps))
}

/// Amount a swap pays out of the receiving reserve.
pub open spec fn spec_swap_out(
    reserve_in: int,
    reserve_out: int,
    amount_in: int,
    fee_bps: int,
) -> int {
    reserve_out - spec_out_reserve_after(reserve_in, reserve_out, amount_in, fee_bps)
}

/// Share of one reserve owed for `amount` freshly issued claim units:
/// proportional to the existing ratio, rounded up so the depositor never
/// pays less than the exact pro-rata share.
pub open spec fn spec_required_leg(reserve: int, supply: int, amount: int) -> int {
    ceil_div(amount * reserve, supply)
}

/// `ceil_div(a, b)` is the exact ceiling of `a / b`: scaled back by `b` it
/// reaches `a`, and overshoots it by less than one divisor unit.
pub proof fn lemma_ceil_div_bounds(a: int, b: int)
    requires
        a >= 0,
        b > 0,
    ensures
        a <= b * ceil_div(a, b),
        b * ceil_div(a, b) < a + b,
{
    let q = (a + b - 1) / b;
    lemma_fundamental_div_mod(a + b - 1, b);
    lemma_mod_division_less_than_divisor(a + b - 1, b);
    assert(a + b - 1 == b * q + (a + b - 1) % b);
}

/// The fee-adjusted input is never negative and never exceeds the raw input.
pub proof fn lemma_effective_in_bounds(amount_in: int, fee_bps: int)
    requires
        amount_in >= 0,
        0 <= fee_bps <= 10000,
    ensures
        0 <= spec_effective_in(amount_in, fee_bps) <= amount_in,
{
    lemma_mul_nonnegative(amount_in, 10000 - fee_bps);
    lemma_div_pos_is_pos(amount_in * (10000 - fee_bps), 10000);
    if amount_in > 0 {
        lemma_mul_left_inequality(amount_in, 10000 - fee_bps, 10000);
        lemma_div_is_ordered(amount_in * (10000 - fee_bps), amount_in * 10000, 10000);
        assert(amount_in * 10000 == 10000 * amount_in) by (nonlinear_arith);
        lemma_div_multiples_vanish(amount_in, 10000);
    }
}

/// A nonzero fee withholds at least one unit of any positive input.
pub proof fn lemma_effective_in_strict(amount_in: int, fee_bps: int)
    requires
        amount_in >= 1,
        1 <= fee_bps <= 10000,
    ensures
        spec_effective_in(amount_in, fee_bps) <= amount_in - 1,
{
    lemma_mul_left_inequality(amount_in, 10000 - fee_bps, 9999);
    assert(amount_in * 9999 <= 10000 * amount_in - 1) by (nonlinear_arith)
        requires
            amount_in >= 1,
    ;
    lemma_multiply_divide_lt(amount_in * (10000 - fee_bps), 10000, amount_in);
}

/// Exact accounting of a swap's effect on the reserve product: writing
/// `eff` for the fee-adjusted input, `den` for the curve divisor
/// `reserve_in + eff`, and `kept` for the new pay-out reserve, the new
/// product equals the old product, less the division remainder lost to
/// floor rounding, plus the withheld fee slack scaled by `kept`. The old
/// product is therefore recovered exactly when the fee is zero and the
/// division is exact.
pub proof fn lemma_swap_product_exact(
    reserve_in: int,
    reserve_out: int,
    amount_in: int,
    fee_bps: int,
)
    requires
        reserve_in >= 0,
        reserve_out >= 0,
        amount_in >= 0,
        0 <= fee_bps <= 10000,
        reserve_in + spec_effective_in(amount_in, fee_bps) > 0,
    ensures
        ({
            let eff = spec_effective_in(amount_in, fee_bps);
            let den = reserve_in + eff;
            let kept = spec_out_reserve_after(reserve_in, reserve_out, amount_in, fee_bps);
            &&& (reserve_in + amount_in) * (reserve_out - spec_swap_out(
                reserve_in,
                reserve_out,
                amount_in,
                fee_bps,
            )) == reserve_in * reserve_out - (reserve_in * reserve_out) % den + (amount_in - eff)
                * kept
            &&& 0 <= kept <= reserve_out
            &&& 0 <= eff <= amount_in
        }),
{
    let eff = spec_effective_in(amount_in, fee_bps);
    let den = reserve_in + eff;
    let kept = (reserve_in * reserve_out) / den;
    lemma_effective_in_bounds(amount_in, fee_bps);
    lemma_mul_nonnegative(reserve_in, reserve_out);
    lemma_div_pos_is_pos(reserve_in * reserve_out, den);
    lemma_mul_inequality(reserve_in, den, reserve_out);
    lemma_div_is_ordered(reserve_in * reserve_out, den * reserve_out, den);
    assert(den * reserve_out == reserve_out * den) by (nonlinear_arith);
    lemma_div_multiples_vanish(reserve_out, den);
    lemma_fundamental_div_mod(reserve_in * reserve_out, den);
    assert((reserve_in + amount_in) * kept == den * kept + (amount_in - eff) * kept)
        by (nonlinear_arith)
        requires
            den == reserve_in + eff,
    ;
}

/// The swap invariant: the reserve product never decreases across a swap,
/// provided the fee is nonzero and the trade is small next to the pool (the
/// old product covers the square of the grown supplying reserve, so the fee
/// slack absorbs the floor-rounding loss). With a zero fee an inexact
/// division can lose up to one divisor unit of product to rounding.
pub proof fn lemma_swap_product_nondecreasing(
    reserve_in: int,
    reserve_out: int,
    amount_in: int,
    fee_bps: int,
)
    requires
        reserve_in >= 0,
        reserve_out >= 0,
        amount_in >= 1,
        1 <= fee_bps <= 10000,
        reserve_in * reserve_out >= (reserve_in + amount_in) * (reserve_in + amount_in),
    ensures
        (reserve_in + amount_in) * (reserve_out - spec_swap_out(
            reserve_in,
            reserve_out,
            amount_in,
            fee_bps,
        )) >= reserve_in * reserve_out,
{
    let eff = spec_effective_in(amount_in, fee_bps);
    let den = reserve_in + eff;
    let kept = (reserve_in * reserve_out) / den;
    let slack = amount_in - eff;
    lemma_effective_in_bounds(amount_in, fee_bps);
    lemma_effective_in_strict(amount_in, fee_bps);
    assert((reserve_in + amount_in) * (reserve_in + amount_in) >= 1) by (nonlinear_arith)
        requires
            reserve_in >= 0,
            amount_in >= 1,
    ;
    if reserve_in == 0 {
        assert(reserve_in * reserve_out == 0);
    }
    assert(reserve_in >= 1);
    assert((reserve_in + amount_in) * (reserve_in + amount_in) >= den * den) by (nonlinear_arith)
        requires
            0 <= den <= reserve_in + amount_in,
    ;
    lemma_div_is_ordered(den * den, reserve_in * reserve_out, den);
    lemma_div_multiples_vanish(den, den);
    assert(kept >= den);
    lemma_mod_division_less_than_divisor(reserve_in * reserve_out, den);
    assert(slack * kept >= kept) by (nonlinear_arith)
        requires
            slack >= 1,
            kept >= 0,
    ;
    lemma_swap_product_exact(reserve_in, reserve_out, amount_in, fee_bps);
}

/// The swap invariant without rounding loss: when the constant-product
/// division is exact, the reserve product never decreases whatever the
/// fee, and with a zero fee it is preserved exactly.
pub proof fn lemma_swap_product_nondecreasing_exact_division(
    reserve_in: int,
    reserve_out: int,
    amount_in: int,
    fee_bps: int,
)
    requires
        reserve_in >= 0,
        reserve_out >= 0,
        amount_in >= 0,
        0 <= fee_bps <= 10000,
        reserve_in + spec_effective_in(amount_in, fee_bps) > 0,
        (reserve_in * reserve_out) % (reserve_in + spec_effective_in(amount_in, fee_bps)) == 0,
    ensures
        (reserve_in + amount_in) * (reserve_out - spec_swap_out(
            reserve_in,
            reserve_out,
            amount_in,
            fee_bps,
        )) >= reserve_in * reserve_out,
        fee_bps == 0 ==> (reserve_in + amount_in) * (reserve_out - spec_swap_out(
            reserve_in,
            reserve_out,
            amount_in,
            fee_bps,
        )) == reserve_in * reserve_out,
{
    lemma_swap_product_exact(reserve_in, reserve_out, amount_in, fee_bps);
    let eff = spec_effective_in(amount_in, fee_bps);
    let kept = spec_out_reserve_after(reserve_in, reserve_out, amount_in, fee_bps);
    lemma_mul_nonnegative(amount_in - eff, kept);
    if fee_bps == 0 {
        lemma_div_multiples_vanish(amount_in, 10000);
        assert(10000 * amount_in == amount_in * 10000) by (nonlinear_arith);
        assert(eff == amount_in);
        assert((amount_in - eff) * kept == 0) by (nonlinear_arith)
            requires
                eff == amount_in,
        ;
        assert((reserve_in + amount_in) * (reserve_out - spec_swap_out(
            reserve_in,
            reserve_out,
            amount_in,
            fee_bps,
        )) == reserve_in * reserve_out);
    }
}

/// Deposit proportionality: scaled back by the claim supply, the required
/// leg covers the depositor's exact pro-rata share of the reserve and
/// overshoots it by less than one rounding unit. Dividing through by
/// `supply * reserve` reads: `x / reserve` lies in
/// `[amount / supply, amount / supply + 1 / reserve)` — the depositor never
/// pays less than the proportional share.
pub proof fn lemma_deposit_proportional(reserve: int, supply: int, amount: int)
    requires
        reserve >= 0,
        amount >= 0,
        supply > 0,
    ensures
        amount * reserve <= supply * spec_required_leg(reserve, supply, amount),
        supply * spec_required_leg(reserve, supply, amount) < amount * reserve + supply,
{
    lemma_mul_nonnegative(amount, reserve);
    lemma_ceil_div_bounds(amount * reserve, supply);
}

/// Swap output amount, by the fee-adjusted constant-product rule.
///
/// Fails with `DivisionError` exactly when the curve's divisor is zero: the
/// supplying reserve is empty and the fee-adjusted input rounds to nothing.
/// No other failure is possible; the output never exceeds the pay-out
/// reserve.
pub fn swap_output(reserve_in: u64, reserve_out: u64, amount_in: u64, fee_bps: u16) -> (r: Result<
    u64,
    AmmError,
>)
    requires
        fee_bps <= 10000,
    ensures
        (match r {
            Ok(out) => {
                &&& !(reserve_in == 0 && spec_effective_in(amount_in as int, fee_bps as int) == 0)
                &&& out == spec_swap_out(
                    reserve_in as int,
                    reserve_out as int,
                    amount_in as int,
                    fee_bps as int,
                )
                &&& out <= reserve_out
            },
            Err(e) => {
                &&& e == AmmError::DivisionError
                &&& reserve_in == 0
                &&& spec_effective_in(amount_in as int, fee_bps as int) == 0
            },
        }),
{
    let fee_keep: u64 = 10000 - (fee_bps as u64);
    proof {
        lemma_mul_upper_bound(amount_in as int, u64::MAX as int, fee_keep as int, 10000);
    }
    let effective: u128 = (amount_in as u128) * (fee_keep as u128) / 10000;
    let denominator: u128 = (reserve_in as u128) + effective;
    proof {
        lemma_mul_nonnegative(amount_in as int, fee_keep as int);
        lemma_div_pos_is_pos(amount_in as int * fee_keep as int, 10000);
        assert(effective as int == spec_effective_in(amount_in as int, fee_bps as int));
    }
    if denominator == 0 {
        return Err(AmmError::DivisionError);
    }
    proof {
        lemma_mul_upper_bound(reserve_in as int, u64::MAX as int, reserve_out as int, u64::MAX as int);
    }
    let kept: u128 = (reserve_in as u128) * (reserve_out as u128) / denominator;
    proof {
        lemma_mul_inequality(reserve_in as int, denominator as int, reserve_out as int);
        lemma_div_is_ordered(
            reserve_in as int * reserve_out as int,
            denominator as int * reserve_out as int,
            denominator as int,
        );
        lemma_div_multiples_vanish(reserve_out as int, denominator as int);
        assert(denominator as int * reserve_out as int == reserve_out as int * denominator as int)
            by (nonlinear_arith);
        assert(kept <= reserve_out);
        lemma_mul_nonnegative(reserve_in as int, reserve_out as int);
        lemma_div_pos_is_pos(reserve_in as int * reserve_out as int, denominator as int);
    }
    Ok(reserve_out - (kept as u64))
}

/// Required deposit legs for `amount` claim units against the current
/// reserves and claim supply: each leg is the pro-rata share, rounded up.
///
/// Fails with `DivisionError` exactly when the claim supply is zero (callers
/// handle the bootstrap deposit before coming here), and with
/// `ArithmeticOverflow` exactly when a rounded-up leg does not fit the
/// native 64-bit width.
pub fn deposit_amounts_from_claim(reserve_x: u64, reserve_y: u64, supply: u64, amount: u64) -> (r:
    Result<(u64, u64), AmmError>)
    ensures
        (match r {
            Ok(legs) => {
                &&& supply > 0
                &&& legs.0 == spec_required_leg(reserve_x as int, supply as int, amount as int)
                &&& legs.1 == spec_required_leg(reserve_y as int, supply as int, amount as int)
            },
            Err(e) => {
                if supply == 0 {
                    e == AmmError::DivisionError
                } else {
                    &&& e == AmmError::ArithmeticOverflow
                    &&& (spec_required_leg(reserve_x as int, supply as int, amount as int)
                        > u64::MAX || spec_required_leg(
                        reserve_y as int,
                        supply as int,
                        amount as int,
                    ) > u64::MAX)
                }
            },
        }),
{
    if supply == 0 {
        return Err(AmmError::DivisionError);
    }
    proof {
        lemma_mul_upper_bound(amount as int, u64::MAX as int, reserve_x as int, u64::MAX as int);
    }
    let numerator_x: u128 = (amount as u128) * (reserve_x as u128);
    let x_wide: u128 = (numerator_x + (supply as u128) - 1) / (supply as u128);
    if x_wide > u64::MAX as u128 {
        return Err(AmmError::ArithmeticOverflow);
    }
    proof {
        lemma_mul_upper_bound(amount as int, u64::MAX as int, reserve_y as int, u64::MAX as int);
    }
    let numerator_y: u128 = (amount as u128) * (reserve_y as u128);
    let y_wide: u128 = (numerator_y + (supply as u128) - 1) / (supply as u128);
    if y_wide > u64::MAX as u128 {
        return Err(AmmError::ArithmeticOverflow);
    }
    Ok((x_wide as u64, y_wide as u64))
}

} // verus!
