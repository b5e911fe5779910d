//! National income tax — a progressive (marginal) calculation over the
//! bracket table, a surtax, and a fixed reduction — and the flat-rate local
//! taxes. A negative result after the fixed reductions is a defined outcome,
//! not an error: the engine does not clamp tax to zero.

use vstd::prelude::*;

use crate::arith::{div_trunc, lemma_mul_rate_bounds, lemma_rate_part_magnitude,
    lemma_trunc_div_mono, lemma_trunc_div_multiple, trunc_div, MAX_AMOUNT};
use crate::tables::{tax_rates_valid, tax_uppers, uppers_ascending, uppers_wf, TaxTable, TaxTier};

verus! {

/// Surtax rate applied on top of the gross national tax, in basis points.
pub const NATIONAL_SURTAX_RATE: i64 = 210;

/// Fixed reduction subtracted from the national tax due.
pub const NATIONAL_FIXED_AMOUNT_TAX_REDUCTION: i64 = 30_000;

/// Prefectural flat tax rate in basis points.
pub const PREFECTURAL_TAX_RATE: i64 = 400;

/// Municipal flat tax rate in basis points.
pub const MUNICIPAL_TAX_RATE: i64 = 600;

/// Fixed reduction subtracted from the local tax due.
pub const LOCAL_FIXED_AMOUNT_TAX_REDUCTION: i64 = 10_000;

/// Flat per-capita levy subtracted together with the local reduction.
pub const EQUALISATION_PER_CAPITA_TAX: i64 = 5_000;

/// The marginal accumulation, in basis-point units: every tier strictly
/// below the final applicable one contributes its full width at its own
/// rate; the tier containing `base` contributes only the residual above the
/// previous bound. The single division by 10,000 happens outside.
pub open spec fn spec_marginal_total(tiers: Seq<TaxTier>, lower: int, base: int) -> int
    decreases tiers.len(),
{
    if tiers.len() == 0 {
        0
    } else if base > tiers[0].upper {
        (tiers[0].upper - lower) * tiers[0].rate_bp + spec_marginal_total(
            tiers.drop_first(),
            tiers[0].upper as int,
            base,
        )
    } else {
        (base - lower) * tiers[0].rate_bp
    }
}

/// The progressive national income tax on a taxable base: the marginal sum
/// over the bracket table, floor-divided by 10,000 exactly once at the end.
pub open spec fn spec_income_tax(base: int, tiers: Seq<TaxTier>) -> int {
    trunc_div(spec_marginal_total(tiers, 0, base), 10_000)
}

/// Gross national tax, plus the surtax on it, minus the fixed reduction.
/// May be negative: full tax relief.
pub open spec fn spec_national_tax(base: int, tiers: Seq<TaxTier>) -> int {
    let g = spec_income_tax(base, tiers);
    g + trunc_div(g * NATIONAL_SURTAX_RATE, 10_000) - NATIONAL_FIXED_AMOUNT_TAX_REDUCTION
}

/// A flat (non-marginal) basis-point rate applied to the whole base.
pub open spec fn spec_flat_rate_tax(base: int, rate_bp: int) -> int {
    trunc_div(base * rate_bp, 10_000)
}

/// Local tax: the prefectural and municipal flat rates on the full base,
/// minus the fixed reduction and the per-capita levy.
pub open spec fn spec_local_tax(base: int) -> int {
    spec_flat_rate_tax(base, PREFECTURAL_TAX_RATE as int) + spec_flat_rate_tax(
        base,
        MUNICIPAL_TAX_RATE as int,
    ) - LOCAL_FIXED_AMOUNT_TAX_REDUCTION - EQUALISATION_PER_CAPITA_TAX
}

/// Dropping the first tier keeps the bounds ascending and the rates valid.
proof fn lemma_tax_drop_first(tiers: Seq<TaxTier>)
    requires
        tiers.len() > 0,
        uppers_ascending(tax_uppers(tiers)),
        tax_rates_valid(tiers),
    ensures
        uppers_ascending(tax_uppers(tiers.drop_first())),
        tax_rates_valid(tiers.drop_first()),
        tiers.len() > 1 ==> tiers[0].upper < tiers[1].upper,
{
    let rest = tiers.drop_first();
    assert forall|k: int|
        0 <= k < tax_uppers(rest).len() - 1 implies #[trigger] tax_uppers(rest)[k] < tax_uppers(
        rest,
    )[k + 1] by {
        assert(rest[k] == tiers[k + 1]);
        assert(rest[k + 1] == tiers[k + 2]);
        assert(tax_uppers(tiers)[k + 1] < tax_uppers(tiers)[k + 2]);
    }
    assert forall|k: int| 0 <= k < rest.len() implies 0 <= #[trigger] rest[k].rate_bp
        <= 10_000 by {
        assert(rest[k] == tiers[k + 1]);
        assert(0 <= tiers[k + 1].rate_bp <= 10_000);
    }
    if tiers.len() > 1 {
        assert(tax_uppers(tiers)[0] < tax_uppers(tiers)[1]);
    }
}

/// Once the base has entered the table, the marginal sum is non-negative.
proof fn lemma_marginal_nonneg(tiers: Seq<TaxTier>, lower: int, base: int)
    requires
        uppers_ascending(tax_uppers(tiers)),
        tax_rates_valid(tiers),
        lower <= base,
        tiers.len() > 0 ==> lower <= tiers[0].upper,
    ensures
        spec_marginal_total(tiers, lower, base) >= 0,
    decreases tiers.len(),
{
    if tiers.len() == 0 {
    } else if base > tiers[0].upper {
        let u0 = tiers[0].upper as int;
        vstd::arithmetic::mul::lemma_mul_nonnegative(u0 - lower, tiers[0].rate_bp as int);
        lemma_tax_drop_first(tiers);
        if tiers.len() > 1 {
            assert(tiers.drop_first()[0] == tiers[1]);
        }
        lemma_marginal_nonneg(tiers.drop_first(), u0, base);
    } else {
        vstd::arithmetic::mul::lemma_mul_nonnegative(base - lower, tiers[0].rate_bp as int);
    }
}

/// The marginal sum is non-decreasing in the base.
proof fn lemma_marginal_mono(tiers: Seq<TaxTier>, lower: int, b1: int, b2: int)
    requires
        uppers_ascending(tax_uppers(tiers)),
        tax_rates_valid(tiers),
        lower <= b1 <= b2,
        tiers.len() > 0 ==> lower <= tiers[0].upper,
    ensures
        spec_marginal_total(tiers, lower, b1) <= spec_marginal_total(tiers, lower, b2),
    decreases tiers.len(),
{
    if tiers.len() == 0 {
    } else {
        let u0 = tiers[0].upper as int;
        let r0 = tiers[0].rate_bp as int;
        if b2 <= u0 {
            vstd::arithmetic::mul::lemma_mul_inequality(b1 - lower, b2 - lower, r0);
        } else if b1 <= u0 {
            vstd::arithmetic::mul::lemma_mul_inequality(b1 - lower, u0 - lower, r0);
            lemma_tax_drop_first(tiers);
            if tiers.len() > 1 {
                assert(tiers.drop_first()[0] == tiers[1]);
            }
            lemma_marginal_nonneg(tiers.drop_first(), u0, b2);
        } else {
            lemma_tax_drop_first(tiers);
            if tiers.len() > 1 {
                assert(tiers.drop_first()[0] == tiers[1]);
            }
            lemma_marginal_mono(tiers.drop_first(), u0, b1, b2);
        }
    }
}

/// Law: the national tax is non-decreasing in the taxable base over any
/// well-formed bracket table, for non-negative bases — marginal rates are
/// never negative, and the surtax preserves the ordering.
pub proof fn lemma_national_tax_monotone(tiers: Seq<TaxTier>, b1: int, b2: int)
    requires
        uppers_wf(tax_uppers(tiers)),
        tax_rates_valid(tiers),
        0 <= b1 <= b2,
    ensures
        spec_national_tax(b1, tiers) <= spec_national_tax(b2, tiers),
{
    assert(tiers[0].upper as int == tax_uppers(tiers)[0]);
    lemma_marginal_mono(tiers, 0, b1, b2);
    lemma_marginal_nonneg(tiers, 0, b1);
    let m1 = spec_marginal_total(tiers, 0, b1);
    let m2 = spec_marginal_total(tiers, 0, b2);
    lemma_trunc_div_mono(m1, m2, 10_000);
    let g1 = spec_income_tax(b1, tiers);
    let g2 = spec_income_tax(b2, tiers);
    assert(g1 >= 0) by {
        vstd::arithmetic::div_mod::lemma_div_pos_is_pos(m1, 10_000);
    }
    vstd::arithmetic::mul::lemma_mul_inequality(g1, g2, NATIONAL_SURTAX_RATE as int);
    lemma_trunc_div_mono(g1 * NATIONAL_SURTAX_RATE, g2 * NATIONAL_SURTAX_RATE, 10_000);
}

/// Calculates the progressive national income tax for a taxable base by
/// walking the bracket table: full width at each lower tier's rate, the
/// residual at the rate of the tier containing the base, one division at
/// the end. A negative base falls entirely in the first tier and yields a
/// non-positive amount.
#[verifier::loop_isolation(false)]
pub fn get_income_tax(taxable_base: i64, table: &TaxTable) -> (r: i64)
    requires
        table.wf(),
        -(4 * MAX_AMOUNT) <= taxable_base <= 4 * MAX_AMOUNT,
    ensures
        r == spec_income_tax(taxable_base as int, table.tiers@),
        -(8 * MAX_AMOUNT) <= r <= 4 * MAX_AMOUNT,
{
    let ghost tiers = table.tiers@;
    let n = table.tiers.len();
    let mut k: usize = 0;
    let mut lower: i64 = 0;
    let mut total: i64 = 0;
    proof {
        assert(tiers.skip(0) =~= tiers);
    }
    loop
        invariant
            k < n,
            k == 0 ==> lower == 0 && total == 0,
            k > 0 ==> lower as int == tiers[k - 1].upper && (lower as int) < taxable_base,
            0 <= lower <= 4 * MAX_AMOUNT,
            0 <= total,
            total as int <= lower as int * 10_000,
            spec_marginal_total(tiers, 0, taxable_base as int) == total + spec_marginal_total(
                tiers.skip(k as int),
                lower as int,
                taxable_base as int,
            ),
        decreases n - k,
    {
        let tier = table.tiers[k];
        proof {
            assert(tiers.skip(k as int)[0] == tiers[k as int]);
            assert(0 <= tiers[k as int].rate_bp <= 10_000);
            if k > 0 {
                assert(tax_uppers(tiers)[k - 1] < tax_uppers(tiers)[k as int]);
            } else {
                assert(tax_uppers(tiers)[0] >= 0);
            }
            assert(lower as int <= tier.upper);
        }
        if taxable_base > tier.upper {
            proof {
                assert(tiers.skip(k as int).drop_first() =~= tiers.skip(k as int + 1));
                lemma_mul_rate_bounds(tier.upper - lower, tier.rate_bp as int, 10_000);
                assert(tiers.last().upper == i64::MAX);
                assert(tax_uppers(tiers).last() == i64::MAX as int);
                if k == n - 1 {
                    assert(tiers[k as int].upper == i64::MAX);
                    assert(false);
                }
            }
            total = total + (tier.upper - lower) * tier.rate_bp;
            lower = tier.upper;
            k = k + 1;
        } else {
            proof {
                lemma_mul_rate_bounds(taxable_base - lower, tier.rate_bp as int, 10_000);
            }
            let width = taxable_base - lower;
            let grand = total + width * tier.rate_bp;
            proof {
                assert(spec_marginal_total(tiers, 0, taxable_base as int) == grand);
                lemma_trunc_div_mono(-(8 * MAX_AMOUNT as int) * 10_000, grand as int, 10_000);
                lemma_trunc_div_mono(grand as int, (4 * MAX_AMOUNT as int) * 10_000, 10_000);
                lemma_trunc_div_multiple(-(8 * MAX_AMOUNT as int), 10_000);
                lemma_trunc_div_multiple(4 * MAX_AMOUNT as int, 10_000);
            }
            return div_trunc(grand, 10_000);
        }
    }
}

/// Calculates the prefectural tax: the flat rate on the whole base.
pub fn get_prefectural_tax(annual_income: i64) -> (r: i64)
    requires
        -(8 * MAX_AMOUNT) <= annual_income <= 8 * MAX_AMOUNT,
    ensures
        r == spec_flat_rate_tax(annual_income as int, PREFECTURAL_TAX_RATE as int),
        annual_income >= 0 ==> 0 <= r <= annual_income,
        annual_income < 0 ==> annual_income <= r <= 0,
{
    proof {
        lemma_mul_rate_bounds(annual_income as int, PREFECTURAL_TAX_RATE as int, 10_000);
        lemma_rate_part_magnitude(annual_income as int, PREFECTURAL_TAX_RATE as int, 10_000);
    }
    div_trunc(annual_income * PREFECTURAL_TAX_RATE, 10_000)
}

/// Calculates the municipal tax: the flat rate on the whole base.
pub fn get_municipal_tax(annual_income: i64) -> (r: i64)
    requires
        -(8 * MAX_AMOUNT) <= annual_income <= 8 * MAX_AMOUNT,
    ensures
        r == spec_flat_rate_tax(annual_income as int, MUNICIPAL_TAX_RATE as int),
        annual_income >= 0 ==> 0 <= r <= annual_income,
        annual_income < 0 ==> annual_income <= r <= 0,
{
    proof {
        lemma_mul_rate_bounds(annual_income as int, MUNICIPAL_TAX_RATE as int, 10_000);
        lemma_rate_part_magnitude(annual_income as int, MUNICIPAL_TAX_RATE as int, 10_000);
    }
    div_trunc(annual_income * MUNICIPAL_TAX_RATE, 10_000)
}

/// The national tax due: progressive tax, plus the surtax on it, minus the
/// fixed reduction. May be negative (full relief); never clamped.
pub fn national_tax(taxable_base: i64, table: &TaxTable) -> (r: i64)
    requires
        table.wf(),
        -(4 * MAX_AMOUNT) <= taxable_base <= 4 * MAX_AMOUNT,
    ensures
        r == spec_national_tax(taxable_base as int, table.tiers@),
        -(16 * MAX_AMOUNT) - NATIONAL_FIXED_AMOUNT_TAX_REDUCTION <= r <= 8 * MAX_AMOUNT,
{
    let gross = get_income_tax(taxable_base, table);
    proof {
        lemma_mul_rate_bounds(gross as int, NATIONAL_SURTAX_RATE as int, 10_000);
        lemma_rate_part_magnitude(gross as int, NATIONAL_SURTAX_RATE as int, 10_000);
    }
    let surtax = div_trunc(gross * NATIONAL_SURTAX_RATE, 10_000);
    gross + surtax - NATIONAL_FIXED_AMOUNT_TAX_REDUCTION
}

/// The local tax due: both flat rates on the whole base, minus the fixed
/// reduction and the per-capita levy. May be negative; never clamped.
pub fn local_tax(local_taxable_base: i64) -> (r: i64)
    requires
        -(8 * MAX_AMOUNT) <= local_taxable_base <= 8 * MAX_AMOUNT,
    ensures
        r == spec_local_tax(local_taxable_base as int),
        -(16 * MAX_AMOUNT) - LOCAL_FIXED_AMOUNT_TAX_REDUCTION - EQUALISATION_PER_CAPITA_TAX <= r
            <= 16 * MAX_AMOUNT,
{
    let prefectural = get_prefectural_tax(local_taxable_base);
    let municipal = get_municipal_tax(local_taxable_base);
    prefectural + municipal - LOCAL_FIXED_AMOUNT_TAX_REDUCTION - EQUALISATION_PER_CAPITA_TAX
}

} // verus!
