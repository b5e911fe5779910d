//! Integer arithmetic primitives shared by every calculator: truncating
//! division (the semantics of Rust's `/` on signed integers) and the small
//! facts about it that the tax and insurance proofs lean on.

use vstd::prelude::*;

verus! {

/// Largest currency amount, in yen, that the engine accepts as an input.
/// Keeps every intermediate product of an amount and a basis-point rate
/// comfortably inside `i64`.
pub const MAX_AMOUNT: i64 = 100_000_000_000_000;

/// Largest dependent count the engine accepts; keeps the per-dependent
/// insurance add-ons inside `i64`.
pub const MAX_DEPENDENTS: i64 = 1_000_000_000;

/// Division by a positive divisor rounding toward zero: what Rust's `/`
/// computes on signed integers. Verus's own `/` on `int` rounds toward
/// negative infinity, so the engine states all of its divisions with this.
pub open spec fn trunc_div(x: int, d: int) -> int
    recommends
        d > 0,
{
    if x >= 0 {
        x / d
    } else {
        -((-x) / d)
    }
}

/// The quotient of a non-negative value is between zero and the value.
pub proof fn lemma_div_le_self(x: int, d: int)
    requires
        0 <= x,
        1 <= d,
    ensures
        0 <= x / d <= x,
{
    vstd::arithmetic::div_mod::lemma_div_pos_is_pos(x, d);
    vstd::arithmetic::div_mod::lemma_div_nonincreasing(x, d);
}

/// Truncating division by a positive divisor is non-decreasing.
pub proof fn lemma_trunc_div_mono(x: int, y: int, d: int)
    requires
        x <= y,
        0 < d,
    ensures
        trunc_div(x, d) <= trunc_div(y, d),
{
    if 0 <= x {
        vstd::arithmetic::div_mod::lemma_div_is_ordered(x, y, d);
    } else if y < 0 {
        vstd::arithmetic::div_mod::lemma_div_is_ordered(-y, -x, d);
    } else {
        vstd::arithmetic::div_mod::lemma_div_pos_is_pos(-x, d);
        vstd::arithmetic::div_mod::lemma_div_pos_is_pos(y, d);
    }
}

/// An exact multiple of the divisor divides without remainder, whatever its
/// sign.
pub proof fn lemma_trunc_div_multiple(k: int, d: int)
    requires
        0 < d,
    ensures
        trunc_div(k * d, d) == k,
{
    if k >= 0 {
        vstd::arithmetic::div_mod::lemma_div_multiples_vanish(k, d);
        vstd::arithmetic::mul::lemma_mul_is_commutative(k, d);
    } else {
        vstd::arithmetic::mul::lemma_mul_unary_negation(k, d);
        vstd::arithmetic::div_mod::lemma_div_multiples_vanish(-k, d);
        vstd::arithmetic::mul::lemma_mul_is_commutative(-k, d);
    }
}

/// Multiplying by a rate between `0` and `cap` keeps the product between
/// `0` and `x * cap` (the interval flips for negative `x`).
pub proof fn lemma_mul_rate_bounds(x: int, r: int, cap: int)
    requires
        0 <= r <= cap,
    ensures
        x >= 0 ==> 0 <= x * r && x * r <= x * cap,
        x < 0 ==> x * cap <= x * r && x * r <= 0,
{
    if x >= 0 {
        assert(0 <= x * r && x * r <= x * cap) by (nonlinear_arith)
            requires
                0 <= r <= cap,
                x >= 0,
        ;
    } else {
        assert(x * cap <= x * r && x * r <= 0) by (nonlinear_arith)
            requires
                0 <= r <= cap,
                x < 0,
        ;
    }
}

/// A rate of at most `d` parts per `d`, applied with truncating division,
/// never exceeds the amount in magnitude and never flips its sign.
pub proof fn lemma_rate_part_magnitude(x: int, r: int, d: int)
    requires
        0 <= r <= d,
        0 < d,
    ensures
        x >= 0 ==> 0 <= trunc_div(x * r, d) <= x,
        x < 0 ==> x <= trunc_div(x * r, d) <= 0,
{
    lemma_mul_rate_bounds(x, r, d);
    lemma_trunc_div_multiple(x, d);
    if x >= 0 {
        lemma_trunc_div_mono(0, x * r, d);
        lemma_trunc_div_mono(x * r, x * d, d);
    } else {
        lemma_trunc_div_mono(x * d, x * r, d);
        lemma_trunc_div_mono(x * r, 0, d);
    }
}

/// Divide by a positive divisor, rounding toward zero, as Rust's `/` does.
pub fn div_trunc(x: i64, d: i64) -> (r: i64)
    requires
        0 < d,
        i64::MIN < x,
    ensures
        r == trunc_div(x as int, d as int),
{
    proof {
        if x >= 0 {
            lemma_div_le_self(x as int, d as int);
        } else {
            lemma_div_le_self(-(x as int), d as int);
        }
    }
    if x >= 0 {
        let q: u64 = (x as u64) / (d as u64);
        q as i64
    } else {
        let m: u64 = (-x) as u64;
        let q: u64 = m / (d as u64);
        -(q as i64)
    }
}

} // verus!
