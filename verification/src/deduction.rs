//! Earned-income deduction and personal exemptions: single-tier (non-marginal)
//! lookups in which the matched tier's formula applies to the whole income.

use vstd::prelude::*;

use crate::arith::{div_trunc, lemma_rate_part_magnitude, trunc_div, MAX_AMOUNT};
use crate::tables::{deduction_uppers, exemption_uppers, first_match, DeductionTable,
    DeductionTier, ExemptionTable, ExemptionTier};

verus! {

/// The earned-income deduction a gross income is entitled to: the matched
/// tier's flat adjustment when its rate is zero, otherwise the rate applied
/// to the whole income plus the adjustment.
pub open spec fn spec_basic_deduction(income: int, tiers: Seq<DeductionTier>) -> int {
    let t = tiers[first_match(deduction_uppers(tiers), income)];
    if t.rate_bp == 0 {
        t.adjustment as int
    } else {
        trunc_div(income * t.rate_bp, 10_000) + t.adjustment
    }
}

/// The national and local personal exemptions granted to a gross income:
/// both amounts of the single matched tier.
pub open spec fn spec_personal_exemptions(income: int, tiers: Seq<ExemptionTier>) -> (int, int) {
    let t = tiers[first_match(exemption_uppers(tiers), income)];
    (t.national as int, t.local as int)
}

/// Calculates the earned-income deduction for a gross annual income by a
/// single-tier lookup in the deduction table.
pub fn get_basic_deduction(annual_income: i64, table: &DeductionTable) -> (r: i64)
    requires
        table.wf(),
        0 <= annual_income <= MAX_AMOUNT,
    ensures
        r == spec_basic_deduction(annual_income as int, table.tiers@),
        -MAX_AMOUNT <= r <= annual_income + MAX_AMOUNT,
{
    let idx = table.resolve(annual_income);
    let tier = table.tiers[idx];
    if tier.rate_bp == 0 {
        tier.adjustment
    } else {
        proof {
            lemma_rate_part_magnitude(annual_income as int, tier.rate_bp as int, 10_000);
        }
        let rate_part = div_trunc(annual_income * tier.rate_bp, 10_000);
        rate_part + tier.adjustment
    }
}

/// Calculates the national and local personal exemptions for a gross annual
/// income by a single-tier lookup in the exemption table.
pub fn get_personal_exemptions(annual_income: i64, table: &ExemptionTable) -> (r: (i64, i64))
    requires
        table.wf(),
        0 <= annual_income <= MAX_AMOUNT,
    ensures
        (r.0 as int, r.1 as int) == spec_personal_exemptions(annual_income as int, table.tiers@),
        0 <= r.0 <= MAX_AMOUNT,
        0 <= r.1 <= MAX_AMOUNT,
{
    let idx = table.resolve(annual_income);
    let tier = table.tiers[idx];
    (tier.national, tier.local)
}

} // verus!
