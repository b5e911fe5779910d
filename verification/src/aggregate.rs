//! The take-home aggregator: composes deduction, exemptions, national tax,
//! local tax and the three insurance premiums into one itemized result
//! record, and the comparative entry point over two gross incomes.

use vstd::prelude::*;

use crate::arith::{div_trunc, lemma_mul_rate_bounds, lemma_trunc_div_mono,
    lemma_trunc_div_multiple, trunc_div, MAX_AMOUNT, MAX_DEPENDENTS};
use crate::deduction::{get_basic_deduction, get_personal_exemptions, spec_basic_deduction,
    spec_personal_exemptions};
use crate::insurance::{get_health_insurance, get_pension_insurance, get_unemployment_insurance,
    spec_health_insurance, spec_pension_insurance, spec_unemployment_insurance};
use crate::regime::RegimeTables;
use crate::tax::{get_income_tax, get_municipal_tax, get_prefectural_tax, spec_flat_rate_tax,
    spec_income_tax, spec_local_tax, spec_national_tax, EQUALISATION_PER_CAPITA_TAX,
    LOCAL_FIXED_AMOUNT_TAX_REDUCTION, MUNICIPAL_TAX_RATE, NATIONAL_FIXED_AMOUNT_TAX_REDUCTION,
    NATIONAL_SURTAX_RATE, PREFECTURAL_TAX_RATE};

verus! {

/// An input the engine rejects rather than silently clamps.
#[derive(Clone, Copy, PartialEq, Eq, Structural, Debug)]
pub enum EngineError {
    /// The gross annual income handed in was negative.
    NegativeIncome,
    /// The dependent count handed in was negative.
    NegativeDependents,
}

/// A recurring monthly cost policy: a fixed amount plus a whole-percent
/// share of the monthly take-home, both in yen.
#[derive(Clone, Copy, PartialEq, Eq, Structural, Debug)]
pub struct MonthlyCosts {
    /// Fixed monthly costs in yen.
    pub fixed_costs: i64,
    /// Variable costs as a whole percentage of the monthly take-home.
    pub percentage_costs: i64,
}

/// The total monthly cost under a policy: the fixed amount plus the percent
/// share of the take-home, the share truncated toward zero.
pub open spec fn spec_total_costs(costs: MonthlyCosts, monthly_take_home: int) -> int {
    costs.fixed_costs + trunc_div(monthly_take_home * costs.percentage_costs, 100)
}

impl MonthlyCosts {
    /// A usable policy: a non-negative bounded fixed amount and a percentage
    /// between 0 and 10,000.
    pub open spec fn wf(&self) -> bool {
        &&& 0 <= self.fixed_costs <= MAX_AMOUNT
        &&& 0 <= self.percentage_costs <= 10_000
    }

    /// The total monthly costs at a given monthly take-home.
    pub fn calculate_total(&self, monthly_take_home: i64) -> (r: i64)
        requires
            self.wf(),
            -(8 * MAX_AMOUNT) <= monthly_take_home <= 8 * MAX_AMOUNT,
        ensures
            r == spec_total_costs(*self, monthly_take_home as int),
            -(800 * MAX_AMOUNT) <= r <= 801 * MAX_AMOUNT,
    {
        proof {
            lemma_mul_rate_bounds(monthly_take_home as int, self.percentage_costs as int, 10_000);
            lemma_trunc_div_multiple(-(800 * MAX_AMOUNT as int), 100);
            lemma_trunc_div_multiple(800 * MAX_AMOUNT as int, 100);
            lemma_trunc_div_mono(
                -(800 * MAX_AMOUNT as int) * 100,
                monthly_take_home as int * self.percentage_costs as int,
                100,
            );
            lemma_trunc_div_mono(
                monthly_take_home as int * self.percentage_costs as int,
                (800 * MAX_AMOUNT as int) * 100,
                100,
            );
        }
        let variable_costs = div_trunc(monthly_take_home * self.percentage_costs, 100);
        self.fixed_costs + variable_costs
    }
}

/// The fully itemized outcome for one (income, dependents, costs) input.
/// All amounts are whole yen; `monthly_after_costs` is present exactly when
/// a cost policy was supplied.
#[derive(Clone, Copy, Debug)]
pub struct TakeHomeResult {
    pub basic_deduction: i64,
    pub income_after_deduction: i64,
    pub national_exemption: i64,
    pub local_exemption: i64,
    pub national_tax_basis: i64,
    pub gross_national_tax: i64,
    pub national_surtax: i64,
    pub national_tax: i64,
    pub local_tax_basis: i64,
    pub prefectural_tax: i64,
    pub municipal_tax: i64,
    pub local_tax: i64,
    pub health_insurance: i64,
    pub pension_insurance: i64,
    pub unemployment_insurance: i64,
    pub total_tax: i64,
    pub total_insurance: i64,
    pub total_tax_and_insurance: i64,
    pub net_pay: i64,
    pub monthly_take_home: i64,
    pub monthly_after_costs: Option<i64>,
}

/// The national taxable base: income, less the earned-income deduction, less
/// the national exemption.
pub open spec fn spec_national_basis(income: int, tables: RegimeTables) -> int {
    income - spec_basic_deduction(income, tables.deduction.tiers@) - spec_personal_exemptions(
        income,
        tables.exemption.tiers@,
    ).0
}

/// The local taxable base: income, less the earned-income deduction, less
/// the local exemption. It also assesses all three insurance premiums.
pub open spec fn spec_local_basis(income: int, tables: RegimeTables) -> int {
    income - spec_basic_deduction(income, tables.deduction.tiers@) - spec_personal_exemptions(
        income,
        tables.exemption.tiers@,
    ).1
}

/// National plus local tax due on a gross income.
pub open spec fn spec_total_tax(income: int, tables: RegimeTables) -> int {
    spec_national_tax(spec_national_basis(income, tables), tables.income_tax.tiers@)
        + spec_local_tax(spec_local_basis(income, tables))
}

/// The three insurance premiums on a gross income, summed.
pub open spec fn spec_total_insurance(income: int, dependents: int, tables: RegimeTables) -> int {
    let lb = spec_local_basis(income, tables);
    spec_health_insurance(lb, dependents) + spec_pension_insurance(lb)
        + spec_unemployment_insurance(lb)
}

/// Annual net pay: income less all tax and all insurance.
pub open spec fn spec_net_pay(income: int, dependents: int, tables: RegimeTables) -> int {
    income - spec_total_tax(income, tables) - spec_total_insurance(income, dependents, tables)
}

/// Monthly take-home: annual net pay divided by twelve, fraction dropped.
pub open spec fn spec_monthly_take_home(income: int, dependents: int, tables: RegimeTables) -> int {
    trunc_div(spec_net_pay(income, dependents, tables), 12)
}

/// Every field of a result record, pinned to the statutory cascade for the
/// given inputs.
pub open spec fn result_matches(
    r: TakeHomeResult,
    income: int,
    dependents: int,
    costs: Option<MonthlyCosts>,
    tables: RegimeTables,
) -> bool {
    let ded = spec_basic_deduction(income, tables.deduction.tiers@);
    let after = income - ded;
    let ex = spec_personal_exemptions(income, tables.exemption.tiers@);
    let nb = spec_national_basis(income, tables);
    let lb = spec_local_basis(income, tables);
    let gross = spec_income_tax(nb, tables.income_tax.tiers@);
    let monthly = spec_monthly_take_home(income, dependents, tables);
    &&& r.basic_deduction == ded
    &&& r.income_after_deduction == after
    &&& r.national_exemption == ex.0
    &&& r.local_exemption == ex.1
    &&& r.national_tax_basis == nb
    &&& r.gross_national_tax == gross
    &&& r.national_surtax == trunc_div(gross * NATIONAL_SURTAX_RATE, 10_000)
    &&& r.national_tax == spec_national_tax(nb, tables.income_tax.tiers@)
    &&& r.local_tax_basis == lb
    &&& r.prefectural_tax == spec_flat_rate_tax(lb, PREFECTURAL_TAX_RATE as int)
    &&& r.municipal_tax == spec_flat_rate_tax(lb, MUNICIPAL_TAX_RATE as int)
    &&& r.local_tax == spec_local_tax(lb)
    &&& r.health_insurance == spec_health_insurance(lb, dependents)
    &&& r.pension_insurance == spec_pension_insurance(lb)
    &&& r.unemployment_insurance == spec_unemployment_insurance(lb)
    &&& r.total_tax == spec_total_tax(income, tables)
    &&& r.total_insurance == spec_total_insurance(income, dependents, tables)
    &&& r.total_tax_and_insurance == spec_total_tax(income, tables) + spec_total_insurance(
        income,
        dependents,
        tables,
    )
    &&& r.net_pay == spec_net_pay(income, dependents, tables)
    &&& r.monthly_take_home == monthly
    &&& match costs {
        Some(c) => r.monthly_after_costs matches Some(a) && a == monthly - spec_total_costs(
            c,
            monthly,
        ),
        None => r.monthly_after_costs is None,
    }
}

/// The cost policy actually supplied, as a plain value.
pub open spec fn costs_view(costs: Option<&MonthlyCosts>) -> Option<MonthlyCosts> {
    match costs {
        Some(c) => Some(*c),
        None => None,
    }
}

/// Computes the full take-home breakdown for one gross annual income, a
/// dependent count and an optional cost policy. Negative income or a
/// negative dependent count is rejected, never clamped; everything else
/// yields a fully populated record.
pub fn calculate_take_home(
    annual_income: i64,
    num_dependents: i64,
    costs: Option<&MonthlyCosts>,
    tables: &RegimeTables,
) -> (r: Result<TakeHomeResult, EngineError>)
    requires
        tables.wf(),
        annual_income <= MAX_AMOUNT,
        num_dependents <= MAX_DEPENDENTS,
        costs matches Some(c) ==> c.wf(),
    ensures
        r == Err::<TakeHomeResult, EngineError>(EngineError::NegativeIncome) <==> annual_income
            < 0,
        r == Err::<TakeHomeResult, EngineError>(EngineError::NegativeDependents) <==> (
        annual_income >= 0 && num_dependents < 0),
        r is Ok <==> (annual_income >= 0 && num_dependents >= 0),
        r matches Ok(out) ==> result_matches(
            out,
            annual_income as int,
            num_dependents as int,
            costs_view(costs),
            *tables,
        ),
        r matches Ok(out) ==> -(4 * MAX_AMOUNT) <= out.monthly_take_home <= 4 * MAX_AMOUNT,
{
    if annual_income < 0 {
        return Err(EngineError::NegativeIncome);
    }
    if num_dependents < 0 {
        return Err(EngineError::NegativeDependents);
    }

    let basic_deduction = get_basic_deduction(annual_income, &tables.deduction);
    let income_after_deduction = annual_income - basic_deduction;

    let (national_exemption, local_exemption) = get_personal_exemptions(
        annual_income,
        &tables.exemption,
    );
    let national_tax_basis = income_after_deduction - national_exemption;

    let gross_national_tax = get_income_tax(national_tax_basis, &tables.income_tax);
    proof {
        lemma_mul_rate_bounds(gross_national_tax as int, NATIONAL_SURTAX_RATE as int, 10_000);
        crate::arith::lemma_rate_part_magnitude(
            gross_national_tax as int,
            NATIONAL_SURTAX_RATE as int,
            10_000,
        );
    }
    let national_surtax = div_trunc(gross_national_tax * NATIONAL_SURTAX_RATE, 10_000);
    let national_tax = gross_national_tax + national_surtax - NATIONAL_FIXED_AMOUNT_TAX_REDUCTION;

    let local_tax_basis = income_after_deduction - local_exemption;
    let prefectural_tax = get_prefectural_tax(local_tax_basis);
    let municipal_tax = get_municipal_tax(local_tax_basis);
    let local_tax = prefectural_tax + municipal_tax - LOCAL_FIXED_AMOUNT_TAX_REDUCTION
        - EQUALISATION_PER_CAPITA_TAX;

    let health_insurance = get_health_insurance(local_tax_basis, num_dependents);
    let pension_insurance = get_pension_insurance(local_tax_basis);
    let unemployment_insurance = get_unemployment_insurance(local_tax_basis);

    let total_tax = national_tax + local_tax;
    let total_insurance = health_insurance + pension_insurance + unemployment_insurance;
    let total_tax_and_insurance = total_tax + total_insurance;
    let net_pay = annual_income - total_tax - total_insurance;

    proof {
        lemma_trunc_div_multiple(-(4 * MAX_AMOUNT as int), 12);
        lemma_trunc_div_multiple(4 * MAX_AMOUNT as int, 12);
        lemma_trunc_div_mono(-(4 * MAX_AMOUNT as int) * 12, net_pay as int, 12);
        lemma_trunc_div_mono(net_pay as int, (4 * MAX_AMOUNT as int) * 12, 12);
    }
    let monthly_take_home = div_trunc(net_pay, 12);

    let monthly_after_costs = match costs {
        Some(c) => Some(monthly_take_home - c.calculate_total(monthly_take_home)),
        None => None,
    };

    Ok(
        TakeHomeResult {
            basic_deduction,
            income_after_deduction,
            national_exemption,
            local_exemption,
            national_tax_basis,
            gross_national_tax,
            national_surtax,
            national_tax,
            local_tax_basis,
            prefectural_tax,
            municipal_tax,
            local_tax,
            health_insurance,
            pension_insurance,
            unemployment_insurance,
            total_tax,
            total_insurance,
            total_tax_and_insurance,
            net_pay,
            monthly_take_home,
            monthly_after_costs,
        },
    )
}

/// Law: the aggregator is deterministic — any two result records that match
/// the cascade for identical inputs are identical, field for field.
pub proof fn lemma_take_home_deterministic(
    r1: TakeHomeResult,
    r2: TakeHomeResult,
    income: int,
    dependents: int,
    costs: Option<MonthlyCosts>,
    tables: RegimeTables,
)
    requires
        result_matches(r1, income, dependents, costs, tables),
        result_matches(r2, income, dependents, costs, tables),
    ensures
        r1 == r2,
{
    match costs {
        Some(c) => {
            assert(r1.monthly_after_costs == r2.monthly_after_costs);
        },
        None => {
            assert(r1.monthly_after_costs == r2.monthly_after_costs);
        },
    }
}

/// The outcome of comparing one income against a baseline income: both
/// monthly take-home figures, their difference, and the relative change in
/// basis points — absent when the baseline take-home is zero, where a
/// relative change has no meaning.
#[derive(Clone, Copy, Debug)]
pub struct IncomeComparison {
    pub monthly_take_home: i64,
    pub comparative_monthly: i64,
    pub increase: i64,
    pub change_basis_points: Option<i64>,
}

/// Division rounding toward zero by any non-zero divisor.
pub open spec fn trunc_div_signed(x: int, d: int) -> int
    recommends
        d != 0,
{
    if d > 0 {
        trunc_div(x, d)
    } else {
        -trunc_div(x, -d)
    }
}

/// Compares the monthly take-home of an income against a baseline income,
/// holding dependents and the cost policy fixed. The relative change is
/// flagged absent — never a division error — when the baseline's monthly
/// take-home is zero.
#[verifier::rlimit(50)]
pub fn compare_incomes(
    annual_income: i64,
    comparative_income: i64,
    num_dependents: i64,
    costs: Option<&MonthlyCosts>,
    tables: &RegimeTables,
) -> (r: Result<IncomeComparison, EngineError>)
    requires
        tables.wf(),
        annual_income <= MAX_AMOUNT,
        comparative_income <= MAX_AMOUNT,
        num_dependents <= MAX_DEPENDENTS,
        costs matches Some(c) ==> c.wf(),
    ensures
        r == Err::<IncomeComparison, EngineError>(EngineError::NegativeIncome) <==> (annual_income
            < 0 || comparative_income < 0),
        r == Err::<IncomeComparison, EngineError>(EngineError::NegativeDependents) <==> (
        annual_income >= 0 && comparative_income >= 0 && num_dependents < 0),
        r is Ok <==> (annual_income >= 0 && comparative_income >= 0 && num_dependents >= 0),
        r matches Ok(c) ==> ({
            let m = spec_monthly_take_home(annual_income as int, num_dependents as int, *tables);
            let b = spec_monthly_take_home(
                comparative_income as int,
                num_dependents as int,
                *tables,
            );
            &&& c.monthly_take_home == m
            &&& c.comparative_monthly == b
            &&& c.increase == m - b
            &&& b == 0 ==> c.change_basis_points is None
            &&& b != 0 ==> (c.change_basis_points matches Some(p) && p == trunc_div_signed(
                (m - b) * 10_000,
                b,
            ))
        }),
{
    if annual_income < 0 || comparative_income < 0 {
        return Err(EngineError::NegativeIncome);
    }
    if num_dependents < 0 {
        return Err(EngineError::NegativeDependents);
    }
    let own = match calculate_take_home(annual_income, num_dependents, costs, tables) {
        Ok(v) => v,
        Err(e) => {
            return Err(e);
        },
    };
    let base = match calculate_take_home(comparative_income, num_dependents, costs, tables) {
        Ok(v) => v,
        Err(e) => {
            return Err(e);
        },
    };
    let increase = own.monthly_take_home - base.monthly_take_home;
    let change_basis_points = if base.monthly_take_home == 0 {
        None
    } else {
        proof {
            lemma_mul_rate_bounds(increase as int, 10_000, 10_000);
        }
        let scaled = increase * 10_000;
        let p = if base.monthly_take_home > 0 {
            div_trunc(scaled, base.monthly_take_home)
        } else {
            -div_trunc(scaled, -base.monthly_take_home)
        };
        Some(p)
    };
    Ok(
        IncomeComparison {
            monthly_take_home: own.monthly_take_home,
            comparative_monthly: base.monthly_take_home,
            increase,
            change_basis_points,
        },
    )
}

/// The savings projected over a timeframe: the monthly amount left after
/// costs times the number of months.
pub fn projected_savings(monthly_after_costs: i64, months: i64) -> (r: i64)
    requires
        -(8 * MAX_AMOUNT) <= monthly_after_costs <= 8 * MAX_AMOUNT,
        0 <= months <= 1200,
    ensures
        r == monthly_after_costs * months,
{
    proof {
        lemma_mul_rate_bounds(monthly_after_costs as int, months as int, 1200);
    }
    monthly_after_costs * months
}

} // verus!
