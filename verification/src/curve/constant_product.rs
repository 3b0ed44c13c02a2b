//! The curve `x * y = k`: what an input buys and what an output costs,
//! before any fee, each rounded against the trader.

use vstd::prelude::*;
use crate::math::{lemma_ceil_div, lemma_floor_div, lemma_u64_product_fits};

verus! {

/// Output of the curve `x * y = k` for an exact input, rounded down:
/// `input * reserve_out / (reserve_in + input)`.
pub open spec fn output_for_exact_input(input: int, reserve_in: int, reserve_out: int) -> int {
    (input * reserve_out) / (reserve_in + input)
}

/// Input that the curve `x * y = k` asks for an exact output, rounded up:
/// `reserve_in * output / (reserve_out - output)`.
pub open spec fn input_for_exact_output(output: int, reserve_in: int, reserve_out: int) -> int {
    (reserve_in * output + (reserve_out - output - 1)) / (reserve_out - output)
}

/// The exact-input quote in 128-bit arithmetic: `None` when the product or the
/// sum does not fit, or when the divisor `reserve_in + input` is zero.
pub open spec fn checked_output_for_exact_input(
    input: u128,
    reserve_in: u128,
    reserve_out: u128,
) -> Option<u128> {
    if input * reserve_out > u128::MAX || reserve_in + input > u128::MAX || reserve_in + input
        == 0 {
        None
    } else {
        Some(output_for_exact_input(input as int, reserve_in as int, reserve_out as int) as u128)
    }
}

/// The exact-output quote in 128-bit arithmetic: `None` when the output side
/// would be drained (`output >= reserve_out`), or when the product, or the
/// dividend after rounding up, does not fit.
pub open spec fn checked_input_for_exact_output(
    output: u128,
    reserve_in: u128,
    reserve_out: u128,
) -> Option<u128> {
    if output >= reserve_out || reserve_in * output + (reserve_out - output - 1) > u128::MAX {
        None
    } else {
        Some(input_for_exact_output(output as int, reserve_in as int, reserve_out as int) as u128)
    }
}

/// Quotes the output for an exact input, before any fee.
pub fn swap_base_input_without_fees(
    input_amount: u128,
    input_vault_amount: u128,
    output_vault_amount: u128,
) -> (r: Option<u128>)
    ensures
        r == checked_output_for_exact_input(input_amount, input_vault_amount, output_vault_amount),
{
    let num = input_amount.checked_mul(output_vault_amount)?;
    let den = input_vault_amount.checked_add(input_amount)?;
    num.checked_div(den)
}

/// Quotes the input needed for an exact output, before any fee. An output
/// that would drain the output side is refused before any division.
pub fn swap_base_output_without_fees(
    output_amount: u128,
    input_vault_amount: u128,
    output_vault_amount: u128,
) -> (r: Option<u128>)
    ensures
        r == checked_input_for_exact_output(output_amount, input_vault_amount, output_vault_amount),
{
    if output_amount >= output_vault_amount {
        return None;
    }
    let numerator = input_vault_amount.checked_mul(output_amount)?;
    let denominator = output_vault_amount - output_amount;
    let dividend = numerator.checked_add(denominator - 1)?;
    dividend.checked_div(denominator)
}

/// What the exact-input quote is relative to the reserves: it never exceeds
/// the output reserve, it leaves that reserve non-empty where both reserves
/// were, and it is the curve's output rounded down.
pub proof fn lemma_output_for_exact_input_bounds(input: int, reserve_in: int, reserve_out: int)
    requires
        0 <= input,
        0 <= reserve_in,
        0 <= reserve_out,
        0 < reserve_in + input,
    ensures
        0 <= output_for_exact_input(input, reserve_in, reserve_out) <= reserve_out,
        0 < reserve_in && 0 < reserve_out ==> output_for_exact_input(
            input,
            reserve_in,
            reserve_out,
        ) < reserve_out,
        output_for_exact_input(input, reserve_in, reserve_out) * (reserve_in + input) <= input
            * reserve_out,
        input * reserve_out < output_for_exact_input(input, reserve_in, reserve_out) * (reserve_in
            + input) + (reserve_in + input),
{
    let y = output_for_exact_input(input, reserve_in, reserve_out);
    let n = reserve_in + input;
    assert(0 <= input * reserve_out) by (nonlinear_arith)
        requires
            0 <= input,
            0 <= reserve_out,
    ;
    lemma_floor_div(input * reserve_out, n);
    assert(y <= reserve_out) by (nonlinear_arith)
        requires
            y * n <= input * reserve_out,
            0 <= input <= n,
            0 <= reserve_out,
            0 < n,
    ;
    if 0 < reserve_in && 0 < reserve_out {
        assert(y < reserve_out) by (nonlinear_arith)
            requires
                y * n <= input * reserve_out,
                0 <= input < n,
                0 < reserve_out,
        ;
    }
}

/// An exact-input trade at the quoted output never lowers the product of the
/// reserves, and raises it by less than the new input reserve.
pub proof fn lemma_exact_input_keeps_product(input: int, reserve_in: int, reserve_out: int)
    requires
        0 <= input,
        0 <= reserve_in,
        0 <= reserve_out,
        0 < reserve_in + input,
    ensures
        reserve_in * reserve_out <= (reserve_in + input) * (reserve_out - output_for_exact_input(
            input,
            reserve_in,
            reserve_out,
        )),
        (reserve_in + input) * (reserve_out - output_for_exact_input(
            input,
            reserve_in,
            reserve_out,
        )) < reserve_in * reserve_out + (reserve_in + input),
{
    let y = output_for_exact_input(input, reserve_in, reserve_out);
    let n = reserve_in + input;
    lemma_output_for_exact_input_bounds(input, reserve_in, reserve_out);
    assert(n * (reserve_out - y) == reserve_in * reserve_out + (input * reserve_out - y * n))
        by (nonlinear_arith)
        requires
            n == reserve_in + input,
    ;
}

/// What the exact-output quote is relative to the reserves: the smallest
/// input whose product with the remaining output reserve covers what the
/// output takes from the product of the reserves.
pub proof fn lemma_input_for_exact_output_bounds(output: int, reserve_in: int, reserve_out: int)
    requires
        0 <= output < reserve_out,
        0 <= reserve_in,
    ensures
        0 <= input_for_exact_output(output, reserve_in, reserve_out),
        0 < output && 0 < reserve_in ==> 0 < input_for_exact_output(
            output,
            reserve_in,
            reserve_out,
        ),
        reserve_in * output <= input_for_exact_output(output, reserve_in, reserve_out) * (
        reserve_out - output),
        input_for_exact_output(output, reserve_in, reserve_out) * (reserve_out - output)
            < reserve_in * output + (reserve_out - output),
{
    assert(0 <= reserve_in * output) by (nonlinear_arith)
        requires
            0 <= reserve_in,
            0 <= output,
    ;
    if 0 < output && 0 < reserve_in {
        assert(0 < reserve_in * output) by (nonlinear_arith)
            requires
                0 < reserve_in,
                0 < output,
        ;
    }
    lemma_ceil_div(reserve_in * output, reserve_out - output);
}

/// An exact-output trade that pays at least the quoted input never lowers
/// the product of the reserves; one that pays exactly the quoted input raises
/// it by less than the new output reserve.
pub proof fn lemma_exact_output_keeps_product(
    output: int,
    reserve_in: int,
    reserve_out: int,
    paid: int,
)
    requires
        0 <= output < reserve_out,
        0 <= reserve_in,
        input_for_exact_output(output, reserve_in, reserve_out) <= paid,
    ensures
        reserve_in * reserve_out <= (reserve_in + paid) * (reserve_out - output),
        paid == input_for_exact_output(output, reserve_in, reserve_out) ==> (reserve_in + paid) * (
        reserve_out - output) < reserve_in * reserve_out + (reserve_out - output),
{
    let x = input_for_exact_output(output, reserve_in, reserve_out);
    let d = reserve_out - output;
    lemma_input_for_exact_output_bounds(output, reserve_in, reserve_out);
    assert((reserve_in + paid) * d == reserve_in * reserve_out + (paid * d - reserve_in * output))
        by (nonlinear_arith)
        requires
            d == reserve_out - output,
    ;
    assert(x * d <= paid * d) by (nonlinear_arith)
        requires
            x <= paid,
            0 < d,
    ;
}

/// Rounding never favors the trader across the two directions: the input
/// quoted for the output of an exact-input quote is at most the input that
/// was offered.
pub proof fn lemma_round_trip(input: int, reserve_in: int, reserve_out: int)
    requires
        0 < input,
        0 < reserve_in,
        0 < reserve_out,
    ensures
        0 <= output_for_exact_input(input, reserve_in, reserve_out) < reserve_out,
        0 <= input_for_exact_output(
            output_for_exact_input(input, reserve_in, reserve_out),
            reserve_in,
            reserve_out,
        ) <= input,
{
    let y = output_for_exact_input(input, reserve_in, reserve_out);
    let d = reserve_out - y;
    lemma_output_for_exact_input_bounds(input, reserve_in, reserve_out);
    lemma_input_for_exact_output_bounds(y, reserve_in, reserve_out);
    let z = input_for_exact_output(y, reserve_in, reserve_out);
    assert(reserve_in * y <= input * d) by (nonlinear_arith)
        requires
            y * (reserve_in + input) <= input * reserve_out,
            d == reserve_out - y,
    ;
    assert(z <= input) by (nonlinear_arith)
        requires
            z * d < reserve_in * y + d,
            reserve_in * y <= input * d,
            0 < d,
    ;
}

/// The round trip in 128-bit arithmetic: where both quotes exist, the second
/// is at most the input offered to the first, and both exist for amounts
/// that fit 64 bits.
pub proof fn lemma_checked_round_trip(input: u128, reserve_in: u128, reserve_out: u128)
    requires
        0 < input,
        0 < reserve_in,
        0 < reserve_out,
    ensures
        checked_output_for_exact_input(input, reserve_in, reserve_out) matches Some(output) ==> {
            &&& output < reserve_out
            &&& checked_input_for_exact_output(output, reserve_in, reserve_out) matches Some(
                back,
            ) ==> back <= input
        },
        input <= u64::MAX && reserve_in <= u64::MAX && reserve_out <= u64::MAX ==> {
            &&& checked_output_for_exact_input(input, reserve_in, reserve_out) matches Some(output)
            &&& checked_input_for_exact_output(output, reserve_in, reserve_out) is Some
        },
{
    lemma_round_trip(input as int, reserve_in as int, reserve_out as int);
    let y = output_for_exact_input(input as int, reserve_in as int, reserve_out as int);
    if input <= u64::MAX && reserve_in <= u64::MAX && reserve_out <= u64::MAX {
        lemma_u64_product_fits(input as u64, reserve_out as u64);
        lemma_u64_product_fits(reserve_in as u64, y as u64);
    }
}

} // verus!
