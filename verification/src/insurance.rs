//! The three social-insurance premiums, all assessed on the local taxable
//! base. Health insurance is rate-then-cap per sub-component; pension is
//! cap-then-rate; unemployment is a flat uncapped rate. The asymmetry is a
//! genuine feature of the modeled regime, stated here exactly as it stands.

use vstd::prelude::*;

use crate::arith::{div_trunc, lemma_mul_rate_bounds, lemma_rate_part_magnitude, trunc_div,
    MAX_AMOUNT, MAX_DEPENDENTS};

verus! {

/// Basic health-insurance rate, in basis points.
pub const BASIC_HEALTH_INSURANCE_RATE: i64 = 869;

/// Elderly-support health-insurance rate, in basis points.
pub const SUPPORT_HEALTH_INSURANCE_RATE: i64 = 280;

/// Flat basic-component amount added per dependent.
pub const DEPENDENT_BASIC_AMOUNT: i64 = 49_100;

/// Flat support-component amount added per dependent.
pub const DEPENDENT_SUPPORT_AMOUNT: i64 = 16_500;

/// Annual ceiling of the basic health-insurance component.
pub const ANNUAL_BASIC_CAP: i64 = 650_000;

/// Annual ceiling of the support health-insurance component.
pub const ANNUAL_SUPPORT_CAP: i64 = 240_000;

/// Unemployment-insurance rate, in basis points; uncapped.
pub const UNEMPLOYMENT_INSURANCE_RATE: i64 = 60;

/// Pension-insurance rate, in basis points.
pub const PENSION_INSURANCE_RATE: i64 = 915;

/// Ceiling applied to the assessed base — before the rate — for pension.
pub const PENSION_INSURANCE_CAP: i64 = 713_700;

/// A value held down to a ceiling.
pub open spec fn spec_capped(x: int, cap: int) -> int {
    if x <= cap {
        x
    } else {
        cap
    }
}

/// The basic health component before its cap: the rate on the base plus the
/// per-dependent amount.
pub open spec fn spec_health_basic_uncapped(base: int, dependents: int) -> int {
    trunc_div(base * BASIC_HEALTH_INSURANCE_RATE, 10_000) + dependents * DEPENDENT_BASIC_AMOUNT
}

/// The support health component before its cap.
pub open spec fn spec_health_support_uncapped(base: int, dependents: int) -> int {
    trunc_div(base * SUPPORT_HEALTH_INSURANCE_RATE, 10_000) + dependents * DEPENDENT_SUPPORT_AMOUNT
}

/// The health premium: each sub-component capped independently before the
/// two are summed (rate-then-cap).
pub open spec fn spec_health_insurance(base: int, dependents: int) -> int {
    spec_capped(spec_health_basic_uncapped(base, dependents), ANNUAL_BASIC_CAP as int)
        + spec_capped(spec_health_support_uncapped(base, dependents), ANNUAL_SUPPORT_CAP as int)
}

/// The pension premium: the base is capped first, then the rate applies
/// (cap-then-rate — the opposite order from health insurance).
pub open spec fn spec_pension_insurance(base: int) -> int {
    trunc_div(spec_capped(base, PENSION_INSURANCE_CAP as int) * PENSION_INSURANCE_RATE, 10_000)
}

/// The unemployment premium: a flat uncapped rate on the base.
pub open spec fn spec_unemployment_insurance(base: int) -> int {
    trunc_div(base * UNEMPLOYMENT_INSURANCE_RATE, 10_000)
}

/// Calculates the health-insurance premium: basic and support components,
/// each rate-plus-dependent-amount, each capped on its own, then summed.
pub fn get_health_insurance(assessed_premium: i64, num_dependents: i64) -> (r: i64)
    requires
        -(8 * MAX_AMOUNT) <= assessed_premium <= 8 * MAX_AMOUNT,
        0 <= num_dependents <= MAX_DEPENDENTS,
    ensures
        r == spec_health_insurance(assessed_premium as int, num_dependents as int),
        -(16 * MAX_AMOUNT) <= r <= ANNUAL_BASIC_CAP + ANNUAL_SUPPORT_CAP,
{
    proof {
        lemma_mul_rate_bounds(assessed_premium as int, BASIC_HEALTH_INSURANCE_RATE as int, 10_000);
        lemma_rate_part_magnitude(
            assessed_premium as int,
            BASIC_HEALTH_INSURANCE_RATE as int,
            10_000,
        );
        lemma_mul_rate_bounds(
            assessed_premium as int,
            SUPPORT_HEALTH_INSURANCE_RATE as int,
            10_000,
        );
        lemma_rate_part_magnitude(
            assessed_premium as int,
            SUPPORT_HEALTH_INSURANCE_RATE as int,
            10_000,
        );
    }
    let basic_premium = div_trunc(assessed_premium * BASIC_HEALTH_INSURANCE_RATE, 10_000);
    let basic_dependent = num_dependents * DEPENDENT_BASIC_AMOUNT;
    let basic_portion = basic_premium + basic_dependent;

    let support_premium = div_trunc(assessed_premium * SUPPORT_HEALTH_INSURANCE_RATE, 10_000);
    let support_dependent = num_dependents * DEPENDENT_SUPPORT_AMOUNT;
    let support_portion = support_premium + support_dependent;

    let basic_capped = if basic_portion <= ANNUAL_BASIC_CAP {
        basic_portion
    } else {
        ANNUAL_BASIC_CAP
    };
    let support_capped = if support_portion <= ANNUAL_SUPPORT_CAP {
        support_portion
    } else {
        ANNUAL_SUPPORT_CAP
    };
    basic_capped + support_capped
}

/// Calculates the unemployment-insurance premium: flat rate, no cap.
pub fn get_unemployment_insurance(assessed_premium: i64) -> (r: i64)
    requires
        -(8 * MAX_AMOUNT) <= assessed_premium <= 8 * MAX_AMOUNT,
    ensures
        r == spec_unemployment_insurance(assessed_premium as int),
        assessed_premium >= 0 ==> 0 <= r <= assessed_premium,
        assessed_premium < 0 ==> assessed_premium <= r <= 0,
{
    proof {
        lemma_mul_rate_bounds(assessed_premium as int, UNEMPLOYMENT_INSURANCE_RATE as int, 10_000);
        lemma_rate_part_magnitude(
            assessed_premium as int,
            UNEMPLOYMENT_INSURANCE_RATE as int,
            10_000,
        );
    }
    div_trunc(assessed_premium * UNEMPLOYMENT_INSURANCE_RATE, 10_000)
}

/// Calculates the pension-insurance premium: the base is capped first, then
/// the rate applies.
pub fn get_pension_insurance(assessed_premium: i64) -> (r: i64)
    requires
        -(8 * MAX_AMOUNT) <= assessed_premium <= 8 * MAX_AMOUNT,
    ensures
        r == spec_pension_insurance(assessed_premium as int),
        -(8 * MAX_AMOUNT) <= r <= PENSION_INSURANCE_CAP,
{
    let capped_premium = if assessed_premium <= PENSION_INSURANCE_CAP {
        assessed_premium
    } else {
        PENSION_INSURANCE_CAP
    };
    proof {
        lemma_mul_rate_bounds(capped_premium as int, PENSION_INSURANCE_RATE as int, 10_000);
        lemma_rate_part_magnitude(capped_premium as int, PENSION_INSURANCE_RATE as int, 10_000);
    }
    div_trunc(capped_premium * PENSION_INSURANCE_RATE, 10_000)
}

/// Law: one more dependent raises the health premium by exactly
/// `DEPENDENT_BASIC_AMOUNT + DEPENDENT_SUPPORT_AMOUNT` while neither cap
/// binds; a sub-component whose cap already binds contributes nothing more,
/// and one whose cap starts to bind contributes only the shortfall to its
/// cap. The premium never decreases with an added dependent.
pub proof fn lemma_health_insurance_dependent_step(base: int, dependents: int)
    requires
        dependents >= 0,
    ensures
        ({
            let h0 = spec_health_insurance(base, dependents);
            let h1 = spec_health_insurance(base, dependents + 1);
            let b0 = spec_health_basic_uncapped(base, dependents);
            let s0 = spec_health_support_uncapped(base, dependents);
            let basic_step: int = if b0 >= ANNUAL_BASIC_CAP {
                0
            } else if b0 + DEPENDENT_BASIC_AMOUNT >= ANNUAL_BASIC_CAP {
                ANNUAL_BASIC_CAP - b0
            } else {
                DEPENDENT_BASIC_AMOUNT as int
            };
            let support_step: int = if s0 >= ANNUAL_SUPPORT_CAP {
                0
            } else if s0 + DEPENDENT_SUPPORT_AMOUNT >= ANNUAL_SUPPORT_CAP {
                ANNUAL_SUPPORT_CAP - s0
            } else {
                DEPENDENT_SUPPORT_AMOUNT as int
            };
            &&& h1 == h0 + basic_step + support_step
            &&& h0 <= h1 <= h0 + DEPENDENT_BASIC_AMOUNT + DEPENDENT_SUPPORT_AMOUNT
        }),
{
    assert((dependents + 1) * DEPENDENT_BASIC_AMOUNT == dependents * DEPENDENT_BASIC_AMOUNT
        + DEPENDENT_BASIC_AMOUNT) by (nonlinear_arith);
    assert((dependents + 1) * DEPENDENT_SUPPORT_AMOUNT == dependents * DEPENDENT_SUPPORT_AMOUNT
        + DEPENDENT_SUPPORT_AMOUNT) by (nonlinear_arith);
}

} // verus!
