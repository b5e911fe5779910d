use takehome::aggregate::{calculate_take_home, compare_incomes, projected_savings, EngineError,
    MonthlyCosts};
use takehome::deduction::{get_basic_deduction, get_personal_exemptions};
use takehome::insurance::{get_health_insurance, get_pension_insurance,
    get_unemployment_insurance};
use takehome::regime::RegimeTables;
use takehome::tables::{DeductionTable, DeductionTier, ExemptionTable, ExemptionTier, TaxTable,
    TaxTier};
use takehome::tax::{get_income_tax, get_municipal_tax, get_prefectural_tax, local_tax,
    national_tax};

#[test]
fn basic_deduction_brackets() {
    let tables = RegimeTables::standard();
    assert_eq!(get_basic_deduction(0, &tables.deduction), 550_000);
    assert_eq!(get_basic_deduction(1_624_999, &tables.deduction), 550_000);
    // 1,625,000 * 40% - 100,000
    assert_eq!(get_basic_deduction(1_625_000, &tables.deduction), 550_000);
    // 2,000,000 * 30% + 80,000
    assert_eq!(get_basic_deduction(2_000_000, &tables.deduction), 680_000);
    // 8,499,999 * 10% + 1,100,000
    assert_eq!(get_basic_deduction(8_499_999, &tables.deduction), 1_949_999);
    // flat top bracket
    assert_eq!(get_basic_deduction(8_500_000, &tables.deduction), 1_950_000);
    assert_eq!(get_basic_deduction(15_000_000, &tables.deduction), 1_950_000);
}

#[test]
fn personal_exemption_brackets() {
    let tables = RegimeTables::standard();
    assert_eq!(get_personal_exemptions(15_000_000, &tables.exemption), (480_000, 430_000));
    assert_eq!(get_personal_exemptions(23_999_999, &tables.exemption), (480_000, 430_000));
    assert_eq!(get_personal_exemptions(24_000_000, &tables.exemption), (320_000, 290_000));
    assert_eq!(get_personal_exemptions(24_500_000, &tables.exemption), (160_000, 150_000));
    assert_eq!(get_personal_exemptions(25_000_000, &tables.exemption), (0, 0));
}

#[test]
fn progressive_income_tax_values() {
    let tables = RegimeTables::standard();
    assert_eq!(get_income_tax(0, &tables.income_tax), 0);
    // entirely inside the first bracket: 5%
    assert_eq!(get_income_tax(1_000_000, &tables.income_tax), 50_000);
    // marginal walk for the 15M scenario's national basis
    assert_eq!(get_income_tax(12_570_000, &tables.income_tax), 2_612_100);
    // a negative basis yields a non-positive amount, not an error
    assert_eq!(get_income_tax(-1_030_000, &tables.income_tax), -51_500);
    // crossing the first bracket boundary starts the second marginal rate
    assert_eq!(get_income_tax(1_949_999, &tables.income_tax), 97_499);
    assert_eq!(get_income_tax(1_950_000, &tables.income_tax), 97_500);
}

#[test]
fn largest_accepted_inputs() {
    let tables = RegimeTables::standard();
    let costs = MonthlyCosts { fixed_costs: 100_000_000_000_000, percentage_costs: 10_000 };
    let income = 100_000_000_000_000;
    let out = calculate_take_home(income, 1_000_000_000, Some(&costs), &tables).unwrap();
    assert_eq!(out.total_tax, out.national_tax + out.local_tax);
    assert_eq!(
        out.total_insurance,
        out.health_insurance + out.pension_insurance + out.unemployment_insurance
    );
    assert_eq!(out.net_pay, income - out.total_tax - out.total_insurance);
    assert_eq!(out.monthly_take_home, out.net_pay / 12);
    assert!(out.monthly_after_costs.is_some());
}

#[test]
fn national_tax_monotone_samples() {
    let tables = RegimeTables::standard();
    let mut previous = national_tax(0, &tables.income_tax);
    for base in [1, 100, 1_949_999, 1_950_000, 3_300_000, 9_000_000, 40_000_000, 100_000_000] {
        let current = national_tax(base, &tables.income_tax);
        assert!(previous <= current);
        previous = current;
    }
}

#[test]
fn flat_local_taxes() {
    assert_eq!(get_prefectural_tax(12_620_000), 504_800);
    assert_eq!(get_municipal_tax(12_620_000), 757_200);
    assert_eq!(local_tax(12_620_000), 1_247_000);
}

#[test]
fn health_insurance_caps_each_component() {
    // both components hit their caps on a large base
    assert_eq!(get_health_insurance(12_620_000, 2), 650_000 + 240_000);
    assert_eq!(get_health_insurance(0, 0), 0);
}

#[test]
fn health_insurance_dependent_step_uncapped() {
    // base 4,000,000: basic 347,600, support 112,000 — far from the caps
    let without = get_health_insurance(4_000_000, 0);
    let with_one = get_health_insurance(4_000_000, 1);
    assert_eq!(with_one - without, 49_100 + 16_500);
}

#[test]
fn health_insurance_dependent_step_saturated() {
    // both caps already bind: another dependent adds nothing
    let five = get_health_insurance(12_620_000, 5);
    let six = get_health_insurance(12_620_000, 6);
    assert_eq!(five, six);
}

#[test]
fn pension_caps_base_before_rate() {
    // capped base 713,700 * 9.15%
    assert_eq!(get_pension_insurance(15_000_000), 65_303);
    assert_eq!(get_pension_insurance(713_700), 65_303);
    assert_eq!(get_pension_insurance(500_000), 45_750);
}

#[test]
fn unemployment_flat_rate() {
    assert_eq!(get_unemployment_insurance(12_620_000), 75_720);
}

#[test]
fn take_home_fifteen_million_two_dependents() {
    let tables = RegimeTables::standard();
    let costs = MonthlyCosts { fixed_costs: 750_000, percentage_costs: 0 };
    let out = calculate_take_home(15_000_000, 2, Some(&costs), &tables).unwrap();
    assert_eq!(out.basic_deduction, 1_950_000);
    assert_eq!(out.income_after_deduction, 13_050_000);
    assert_eq!(out.national_exemption, 480_000);
    assert_eq!(out.local_exemption, 430_000);
    assert_eq!(out.national_tax_basis, 12_570_000);
    assert_eq!(out.gross_national_tax, 2_612_100);
    assert_eq!(out.national_surtax, 54_854);
    assert_eq!(out.national_tax, 2_636_954);
    assert_eq!(out.local_tax_basis, 12_620_000);
    assert_eq!(out.prefectural_tax, 504_800);
    assert_eq!(out.municipal_tax, 757_200);
    assert_eq!(out.local_tax, 1_247_000);
    assert_eq!(out.health_insurance, 890_000);
    assert_eq!(out.pension_insurance, 65_303);
    assert_eq!(out.unemployment_insurance, 75_720);
    assert_eq!(out.total_tax, 3_883_954);
    assert_eq!(out.total_insurance, 1_031_023);
    assert_eq!(out.total_tax_and_insurance, 4_914_977);
    assert_eq!(out.net_pay, 10_085_023);
    assert_eq!(out.monthly_take_home, 840_418);
    assert_eq!(out.monthly_after_costs, Some(90_418));
}

#[test]
fn take_home_is_deterministic() {
    let tables = RegimeTables::standard();
    let costs = MonthlyCosts { fixed_costs: 750_000, percentage_costs: 10 };
    let a = calculate_take_home(18_000_000, 2, Some(&costs), &tables).unwrap();
    let b = calculate_take_home(18_000_000, 2, Some(&costs), &tables).unwrap();
    assert_eq!(a.basic_deduction, b.basic_deduction);
    assert_eq!(a.income_after_deduction, b.income_after_deduction);
    assert_eq!(a.national_exemption, b.national_exemption);
    assert_eq!(a.local_exemption, b.local_exemption);
    assert_eq!(a.national_tax_basis, b.national_tax_basis);
    assert_eq!(a.gross_national_tax, b.gross_national_tax);
    assert_eq!(a.national_surtax, b.national_surtax);
    assert_eq!(a.national_tax, b.national_tax);
    assert_eq!(a.local_tax_basis, b.local_tax_basis);
    assert_eq!(a.prefectural_tax, b.prefectural_tax);
    assert_eq!(a.municipal_tax, b.municipal_tax);
    assert_eq!(a.local_tax, b.local_tax);
    assert_eq!(a.health_insurance, b.health_insurance);
    assert_eq!(a.pension_insurance, b.pension_insurance);
    assert_eq!(a.unemployment_insurance, b.unemployment_insurance);
    assert_eq!(a.total_tax, b.total_tax);
    assert_eq!(a.total_insurance, b.total_insurance);
    assert_eq!(a.total_tax_and_insurance, b.total_tax_and_insurance);
    assert_eq!(a.net_pay, b.net_pay);
    assert_eq!(a.monthly_take_home, b.monthly_take_home);
    assert_eq!(a.monthly_after_costs, b.monthly_after_costs);
}

#[test]
fn zero_income_computes_without_error() {
    let tables = RegimeTables::standard();
    let out = calculate_take_home(0, 0, None, &tables).unwrap();
    // the statutory cascade applied to zero income: the flat deduction and
    // the fixed reductions drive every tax and premium negative
    assert_eq!(out.basic_deduction, 550_000);
    assert_eq!(out.national_tax, -82_581);
    assert_eq!(out.local_tax, -113_000);
    assert_eq!(out.total_insurance, -208_152);
    assert_eq!(out.net_pay, 403_733);
    assert_eq!(out.monthly_take_home, 33_644);
    assert_eq!(out.monthly_after_costs, None);
}

#[test]
fn negative_inputs_are_rejected() {
    let tables = RegimeTables::standard();
    assert_eq!(
        calculate_take_home(-1, 0, None, &tables).unwrap_err(),
        EngineError::NegativeIncome
    );
    assert_eq!(
        calculate_take_home(1_000_000, -1, None, &tables).unwrap_err(),
        EngineError::NegativeDependents
    );
    assert_eq!(
        compare_incomes(1_000_000, -5, 0, None, &tables).unwrap_err(),
        EngineError::NegativeIncome
    );
    assert_eq!(
        compare_incomes(1_000_000, 2_000_000, -1, None, &tables).unwrap_err(),
        EngineError::NegativeDependents
    );
}

#[test]
fn comparison_against_baseline() {
    let tables = RegimeTables::standard();
    let own = calculate_take_home(18_000_000, 2, None, &tables).unwrap();
    let base = calculate_take_home(15_000_000, 2, None, &tables).unwrap();
    let cmp = compare_incomes(18_000_000, 15_000_000, 2, None, &tables).unwrap();
    assert_eq!(cmp.monthly_take_home, own.monthly_take_home);
    assert_eq!(cmp.comparative_monthly, base.monthly_take_home);
    assert_eq!(cmp.increase, own.monthly_take_home - base.monthly_take_home);
    let expected_bp =
        (cmp.increase as i128 * 10_000) / (base.monthly_take_home as i128);
    assert_eq!(cmp.change_basis_points, Some(expected_bp as i64));
}

#[test]
fn comparison_flags_zero_baseline() {
    // a regime in which an income of 95,580 nets exactly zero per month:
    // a single flat deduction tier with a negative adjustment, no
    // exemptions, and a zero-rate income tax
    let deduction = DeductionTable::new(vec![DeductionTier {
        upper: i64::MAX,
        rate_bp: 0,
        adjustment: -354_420,
    }])
    .unwrap();
    let exemption = ExemptionTable::new(vec![ExemptionTier {
        upper: i64::MAX,
        national: 0,
        local: 0,
    }])
    .unwrap();
    let income_tax = TaxTable::new(vec![TaxTier { upper: i64::MAX, rate_bp: 0 }]).unwrap();
    let tables = RegimeTables { deduction, exemption, income_tax };

    let baseline = calculate_take_home(95_580, 0, None, &tables).unwrap();
    assert_eq!(baseline.net_pay, 0);
    assert_eq!(baseline.monthly_take_home, 0);

    let cmp = compare_incomes(1_000_000, 95_580, 0, None, &tables).unwrap();
    assert_eq!(cmp.comparative_monthly, 0);
    assert_eq!(cmp.change_basis_points, None);
}

#[test]
fn monthly_costs_with_percentage() {
    let costs = MonthlyCosts { fixed_costs: 750_000, percentage_costs: 10 };
    assert_eq!(costs.calculate_total(840_418), 750_000 + 84_041);
}

#[test]
fn savings_projection() {
    assert_eq!(projected_savings(90_418, 12), 1_085_016);
    assert_eq!(projected_savings(90_418, 0), 0);
    assert_eq!(projected_savings(-5_000, 3), -15_000);
}
