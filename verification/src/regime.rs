//! The fixed bracket tables of the modeled fiscal regime, built as ordinary
//! validated configuration so that tests can substitute tables of their own.

use vstd::prelude::*;

use crate::tables::{tax_uppers, deduction_uppers, exemption_uppers, DeductionTable,
    DeductionTier, ExemptionTable, ExemptionTier, TaxTable, TaxTier};

verus! {

/// The progressive national income-tax brackets: 5% up to 1,949,999 yen,
/// rising stepwise to 45% above 40,000,000 yen.
pub open spec fn spec_standard_tax_tiers() -> Seq<TaxTier> {
    seq![
        TaxTier { upper: 1_949_999, rate_bp: 500 },
        TaxTier { upper: 3_299_999, rate_bp: 1000 },
        TaxTier { upper: 6_949_999, rate_bp: 2000 },
        TaxTier { upper: 8_999_999, rate_bp: 2300 },
        TaxTier { upper: 17_999_999, rate_bp: 3300 },
        TaxTier { upper: 39_999_999, rate_bp: 4000 },
        TaxTier { upper: i64::MAX, rate_bp: 4500 },
    ]
}

/// The earned-income deduction brackets: a flat 550,000 yen at the bottom,
/// rate-plus-adjustment formulas in between, a flat 1,950,000 yen at the top.
pub open spec fn spec_standard_deduction_tiers() -> Seq<DeductionTier> {
    seq![
        DeductionTier { upper: 1_624_999, rate_bp: 0, adjustment: 550_000 },
        DeductionTier { upper: 1_799_999, rate_bp: 4000, adjustment: -100_000i64 },
        DeductionTier { upper: 3_599_999, rate_bp: 3000, adjustment: 80_000 },
        DeductionTier { upper: 6_599_999, rate_bp: 2000, adjustment: 440_000 },
        DeductionTier { upper: 8_499_999, rate_bp: 1000, adjustment: 1_100_000 },
        DeductionTier { upper: i64::MAX, rate_bp: 0, adjustment: 1_950_000 },
    ]
}

/// The personal-exemption brackets: full exemptions up to 23,999,999 yen,
/// phasing out to zero at 25,000,000 yen and above.
pub open spec fn spec_standard_exemption_tiers() -> Seq<ExemptionTier> {
    seq![
        ExemptionTier { upper: 23_999_999, national: 480_000, local: 430_000 },
        ExemptionTier { upper: 24_499_999, national: 320_000, local: 290_000 },
        ExemptionTier { upper: 24_999_999, national: 160_000, local: 150_000 },
        ExemptionTier { upper: i64::MAX, national: 0, local: 0 },
    ]
}

/// Builds the standard income-tax bracket table.
pub fn standard_tax_table() -> (r: TaxTable)
    ensures
        r.wf(),
        r.tiers@ == spec_standard_tax_tiers(),
{
    let mut tiers: Vec<TaxTier> = Vec::new();
    tiers.push(TaxTier { upper: 1_949_999, rate_bp: 500 });
    tiers.push(TaxTier { upper: 3_299_999, rate_bp: 1000 });
    tiers.push(TaxTier { upper: 6_949_999, rate_bp: 2000 });
    tiers.push(TaxTier { upper: 8_999_999, rate_bp: 2300 });
    tiers.push(TaxTier { upper: 17_999_999, rate_bp: 3300 });
    tiers.push(TaxTier { upper: 39_999_999, rate_bp: 4000 });
    tiers.push(TaxTier { upper: i64::MAX, rate_bp: 4500 });
    proof {
        assert(tiers@ =~= spec_standard_tax_tiers());
        assert forall|k: int|
            0 <= k < tax_uppers(tiers@).len() - 1 implies #[trigger] tax_uppers(tiers@)[k]
            < tax_uppers(tiers@)[k + 1] by {
            assert(tax_uppers(tiers@)[k] == tiers@[k].upper as int);
            assert(tax_uppers(tiers@)[k + 1] == tiers@[k + 1].upper as int);
        }
        assert(tax_uppers(tiers@).last() == i64::MAX as int);
        assert(tax_uppers(tiers@)[0] == 1_949_999int);
    }
    TaxTable { tiers }
}

/// Builds the standard earned-income deduction table.
pub fn standard_deduction_table() -> (r: DeductionTable)
    ensures
        r.wf(),
        r.tiers@ == spec_standard_deduction_tiers(),
{
    let mut tiers: Vec<DeductionTier> = Vec::new();
    tiers.push(DeductionTier { upper: 1_624_999, rate_bp: 0, adjustment: 550_000 });
    tiers.push(DeductionTier { upper: 1_799_999, rate_bp: 4000, adjustment: -100_000 });
    tiers.push(DeductionTier { upper: 3_599_999, rate_bp: 3000, adjustment: 80_000 });
    tiers.push(DeductionTier { upper: 6_599_999, rate_bp: 2000, adjustment: 440_000 });
    tiers.push(DeductionTier { upper: 8_499_999, rate_bp: 1000, adjustment: 1_100_000 });
    tiers.push(DeductionTier { upper: i64::MAX, rate_bp: 0, adjustment: 1_950_000 });
    proof {
        assert(tiers@ =~= spec_standard_deduction_tiers());
        assert forall|k: int|
            0 <= k < deduction_uppers(tiers@).len() - 1 implies #[trigger] deduction_uppers(
            tiers@,
        )[k] < deduction_uppers(tiers@)[k + 1] by {
            assert(deduction_uppers(tiers@)[k] == tiers@[k].upper as int);
            assert(deduction_uppers(tiers@)[k + 1] == tiers@[k + 1].upper as int);
        }
        assert(deduction_uppers(tiers@).last() == i64::MAX as int);
        assert(deduction_uppers(tiers@)[0] == 1_624_999int);
    }
    DeductionTable { tiers }
}

/// Builds the standard personal-exemption table.
pub fn standard_exemption_table() -> (r: ExemptionTable)
    ensures
        r.wf(),
        r.tiers@ == spec_standard_exemption_tiers(),
{
    let mut tiers: Vec<ExemptionTier> = Vec::new();
    tiers.push(ExemptionTier { upper: 23_999_999, national: 480_000, local: 430_000 });
    tiers.push(ExemptionTier { upper: 24_499_999, national: 320_000, local: 290_000 });
    tiers.push(ExemptionTier { upper: 24_999_999, national: 160_000, local: 150_000 });
    tiers.push(ExemptionTier { upper: i64::MAX, national: 0, local: 0 });
    proof {
        assert(tiers@ =~= spec_standard_exemption_tiers());
        assert forall|k: int|
            0 <= k < exemption_uppers(tiers@).len() - 1 implies #[trigger] exemption_uppers(
            tiers@,
        )[k] < exemption_uppers(tiers@)[k + 1] by {
            assert(exemption_uppers(tiers@)[k] == tiers@[k].upper as int);
            assert(exemption_uppers(tiers@)[k + 1] == tiers@[k + 1].upper as int);
        }
        assert(exemption_uppers(tiers@).last() == i64::MAX as int);
        assert(exemption_uppers(tiers@)[0] == 23_999_999int);
    }
    ExemptionTable { tiers }
}

/// The immutable table configuration an engine runs with: one deduction
/// table, one exemption table, one income-tax table, validated together.
pub struct RegimeTables {
    pub deduction: DeductionTable,
    pub exemption: ExemptionTable,
    pub income_tax: TaxTable,
}

impl RegimeTables {
    /// All three tables are sound.
    pub open spec fn wf(&self) -> bool {
        &&& self.deduction.wf()
        &&& self.exemption.wf()
        &&& self.income_tax.wf()
    }

    /// The standard regime configuration.
    pub fn standard() -> (r: RegimeTables)
        ensures
            r.wf(),
            r.deduction.tiers@ == spec_standard_deduction_tiers(),
            r.exemption.tiers@ == spec_standard_exemption_tiers(),
            r.income_tax.tiers@ == spec_standard_tax_tiers(),
    {
        RegimeTables {
            deduction: standard_deduction_table(),
            exemption: standard_exemption_table(),
            income_tax: standard_tax_table(),
        }
    }
}

} // verus!
