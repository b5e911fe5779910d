use takehome::regime::{standard_deduction_table, standard_exemption_table, standard_tax_table};
use takehome::tables::{ConfigError, DeductionTable, DeductionTier, ExemptionTable, ExemptionTier,
    TaxTable, TaxTier};

#[test]
fn resolver_picks_first_covering_tier() {
    let table = standard_tax_table();
    assert_eq!(table.resolve(0), 0);
    assert_eq!(table.resolve(1_949_999), 0);
    assert_eq!(table.resolve(1_950_000), 1);
    assert_eq!(table.resolve(39_999_999), 5);
    assert_eq!(table.resolve(40_000_000), 6);
    assert_eq!(table.resolve(i64::MAX), 6);
}

#[test]
fn resolver_boundaries_on_every_standard_table() {
    let deduction = standard_deduction_table();
    for i in 0..deduction.tiers.len() - 1 {
        let b = deduction.tiers[i].upper;
        assert_eq!(deduction.resolve(b), i);
        assert_eq!(deduction.resolve(b + 1), i + 1);
    }
    let exemption = standard_exemption_table();
    for i in 0..exemption.tiers.len() - 1 {
        let b = exemption.tiers[i].upper;
        assert_eq!(exemption.resolve(b), i);
        assert_eq!(exemption.resolve(b + 1), i + 1);
    }
    let tax = standard_tax_table();
    for i in 0..tax.tiers.len() - 1 {
        let b = tax.tiers[i].upper;
        assert_eq!(tax.resolve(b), i);
        assert_eq!(tax.resolve(b + 1), i + 1);
    }
}

#[test]
fn empty_table_is_rejected() {
    assert_eq!(TaxTable::new(vec![]).unwrap_err(), ConfigError::EmptyTable);
}

#[test]
fn missing_unbounded_final_tier_is_rejected() {
    let r = TaxTable::new(vec![TaxTier { upper: 1_000, rate_bp: 500 }]);
    assert_eq!(r.unwrap_err(), ConfigError::UnboundedFinalTierMissing);
}

#[test]
fn unsorted_tiers_are_rejected() {
    let r = ExemptionTable::new(vec![
        ExemptionTier { upper: 5_000, national: 1, local: 1 },
        ExemptionTier { upper: 4_000, national: 2, local: 2 },
        ExemptionTier { upper: i64::MAX, national: 0, local: 0 },
    ]);
    assert_eq!(r.unwrap_err(), ConfigError::TiersNotAscending);
}

#[test]
fn negative_bound_is_rejected() {
    let r = TaxTable::new(vec![
        TaxTier { upper: -5, rate_bp: 100 },
        TaxTier { upper: i64::MAX, rate_bp: 100 },
    ]);
    assert_eq!(r.unwrap_err(), ConfigError::NegativeUpperBound);
}

#[test]
fn rate_out_of_range_is_rejected() {
    let r = TaxTable::new(vec![
        TaxTier { upper: 1_000, rate_bp: 20_000 },
        TaxTier { upper: i64::MAX, rate_bp: 100 },
    ]);
    assert_eq!(r.unwrap_err(), ConfigError::RateOutOfRange);
    let r = DeductionTable::new(vec![DeductionTier {
        upper: i64::MAX,
        rate_bp: -1,
        adjustment: 0,
    }]);
    assert_eq!(r.unwrap_err(), ConfigError::RateOutOfRange);
}

#[test]
fn amount_out_of_range_is_rejected() {
    let r = DeductionTable::new(vec![DeductionTier {
        upper: i64::MAX,
        rate_bp: 0,
        adjustment: 200_000_000_000_000,
    }]);
    assert_eq!(r.unwrap_err(), ConfigError::AmountOutOfRange);
    let r = ExemptionTable::new(vec![ExemptionTier {
        upper: i64::MAX,
        national: -1,
        local: 0,
    }]);
    assert_eq!(r.unwrap_err(), ConfigError::AmountOutOfRange);
}

#[test]
fn valid_custom_table_is_accepted() {
    let r = TaxTable::new(vec![
        TaxTier { upper: 1_000, rate_bp: 100 },
        TaxTier { upper: i64::MAX, rate_bp: 200 },
    ]);
    let table = r.unwrap();
    assert_eq!(table.tiers.len(), 2);
    assert_eq!(table.resolve(1_000), 0);
    assert_eq!(table.resolve(1_001), 1);
}
