//! Bracket tables and the tiered-lookup primitive.
//!
//! Every bracket table is an ascending sequence of tiers whose final tier is
//! unbounded (`i64::MAX`), so the tiers partition the non-negative line with
//! no gaps and no overlaps. An amount resolves to the first tier whose upper
//! bound is at least the amount. Malformed tables are rejected when they are
//! built, never at lookup time.

use vstd::prelude::*;

use crate::arith::MAX_AMOUNT;

verus! {

/// Why a bracket table was rejected at construction.
#[derive(Clone, Copy, PartialEq, Eq, Structural, Debug)]
pub enum ConfigError {
    /// The table has no tiers at all.
    EmptyTable,
    /// The last tier's upper bound is not the unbounded sentinel.
    UnboundedFinalTierMissing,
    /// Some tier's upper bound is not strictly above its predecessor's.
    TiersNotAscending,
    /// The first tier's upper bound is negative.
    NegativeUpperBound,
    /// A rate lies outside `0 ..= 10_000` basis points.
    RateOutOfRange,
    /// A fixed amount in a tier lies outside `-MAX_AMOUNT ..= MAX_AMOUNT`.
    AmountOutOfRange,
}

/// One tier of the progressive (marginal) income-tax table.
#[derive(Clone, Copy, PartialEq, Eq, Structural, Debug)]
pub struct TaxTier {
    pub upper: i64,
    pub rate_bp: i64,
}

/// One tier of the earned-income deduction table. A zero rate means the
/// tier's deduction is the flat `adjustment` alone.
#[derive(Clone, Copy, PartialEq, Eq, Structural, Debug)]
pub struct DeductionTier {
    pub upper: i64,
    pub rate_bp: i64,
    pub adjustment: i64,
}

/// One tier of the personal-exemption table, carrying the national and the
/// local exemption granted to incomes inside the tier.
#[derive(Clone, Copy, PartialEq, Eq, Structural, Debug)]
pub struct ExemptionTier {
    pub upper: i64,
    pub national: i64,
    pub local: i64,
}

pub open spec fn tax_uppers(tiers: Seq<TaxTier>) -> Seq<int> {
    tiers.map(|k: int, t: TaxTier| t.upper as int)
}

pub open spec fn deduction_uppers(tiers: Seq<DeductionTier>) -> Seq<int> {
    tiers.map(|k: int, t: DeductionTier| t.upper as int)
}

pub open spec fn exemption_uppers(tiers: Seq<ExemptionTier>) -> Seq<int> {
    tiers.map(|k: int, t: ExemptionTier| t.upper as int)
}

/// Every marginal rate is a valid, non-negative basis-point rate.
pub open spec fn tax_rates_valid(tiers: Seq<TaxTier>) -> bool {
    forall|k: int| 0 <= k < tiers.len() ==> 0 <= #[trigger] tiers[k].rate_bp <= 10_000
}

/// Each upper bound is strictly above its predecessor.
pub open spec fn uppers_ascending(uppers: Seq<int>) -> bool {
    forall|k: int| 0 <= k < uppers.len() - 1 ==> #[trigger] uppers[k] < uppers[k + 1]
}

/// The shape every bracket table must have: at least one tier, strictly
/// ascending non-negative upper bounds, and an unbounded final tier.
pub open spec fn uppers_wf(uppers: Seq<int>) -> bool {
    &&& uppers.len() > 0
    &&& uppers.last() == i64::MAX as int
    &&& 0 <= uppers[0]
    &&& uppers_ascending(uppers)
}

/// Ascending adjacent bounds order every pair of bounds.
pub proof fn lemma_ascending_pairwise(uppers: Seq<int>, i: int, j: int)
    requires
        uppers_ascending(uppers),
        0 <= i < j < uppers.len(),
    ensures
        uppers[i] < uppers[j],
    decreases j - i,
{
    if i + 1 < j {
        lemma_ascending_pairwise(uppers, i + 1, j);
    }
}

/// The index of the first tier whose upper bound is at least `amount`.
pub open spec fn first_match(uppers: Seq<int>, amount: int) -> int
    decreases uppers.len(),
{
    if uppers.len() == 0 {
        0
    } else if amount <= uppers[0] {
        0
    } else {
        1 + first_match(uppers.drop_first(), amount)
    }
}

/// `first_match` lands in the table, covers the amount, and every earlier
/// tier's bound is strictly below the amount.
pub proof fn lemma_first_match_props(uppers: Seq<int>, amount: int)
    requires
        uppers.len() > 0,
        amount <= uppers.last(),
    ensures
        0 <= first_match(uppers, amount) < uppers.len(),
        amount <= uppers[first_match(uppers, amount)],
        forall|j: int| 0 <= j < first_match(uppers, amount) ==> uppers[j] < amount,
    decreases uppers.len(),
{
    if amount <= uppers[0] {
    } else {
        let rest = uppers.drop_first();
        assert(rest.last() == uppers.last());
        lemma_first_match_props(rest, amount);
        let i = first_match(uppers, amount);
        assert forall|j: int| 0 <= j < i implies uppers[j] < amount by {
            if j > 0 {
                assert(rest[j - 1] == uppers[j]);
            }
        }
    }
}

/// Conversely, an index that covers the amount while every earlier bound
/// falls short of it is the index `first_match` picks.
pub proof fn lemma_first_match_found(uppers: Seq<int>, amount: int, i: int)
    requires
        0 <= i < uppers.len(),
        amount <= uppers[i],
        forall|j: int| 0 <= j < i ==> uppers[j] < amount,
    ensures
        first_match(uppers, amount) == i,
    decreases uppers.len(),
{
    if i == 0 {
    } else {
        assert(uppers[0] < amount);
        let rest = uppers.drop_first();
        assert forall|j: int| 0 <= j < i - 1 implies rest[j] < amount by {
            assert(rest[j] == uppers[j + 1]);
        }
        assert(rest[i - 1] == uppers[i]);
        lemma_first_match_found(rest, amount, i - 1);
    }
}

/// Amount `amount` lies inside tier `i`: at or below the tier's bound and
/// strictly above the previous tier's bound.
pub open spec fn tier_contains(uppers: Seq<int>, i: int, amount: int) -> bool {
    &&& 0 <= i < uppers.len()
    &&& amount <= uppers[i]
    &&& i > 0 ==> uppers[i - 1] < amount
}

/// Law: over a well-formed table, every amount up to the sentinel lies in
/// exactly one tier, and that tier is the one the resolver picks.
pub proof fn lemma_resolution_total_and_unique(uppers: Seq<int>, amount: int)
    requires
        uppers_wf(uppers),
        amount <= i64::MAX as int,
    ensures
        tier_contains(uppers, first_match(uppers, amount), amount),
        forall|i: int, j: int|
            tier_contains(uppers, i, amount) && tier_contains(uppers, j, amount) ==> i == j,
{
    lemma_first_match_props(uppers, amount);
    assert forall|i: int, j: int|
        tier_contains(uppers, i, amount) && tier_contains(uppers, j, amount) implies i == j by {
        if i < j {
            if i < j - 1 {
                lemma_ascending_pairwise(uppers, i, j - 1);
            }
            assert(false);
        }
        if j < i {
            if j < i - 1 {
                lemma_ascending_pairwise(uppers, j, i - 1);
            }
            assert(false);
        }
    }
}

/// Law: at the boundary `b` between two adjacent tiers, `b` itself resolves
/// to the lower tier and `b + 1` to the upper tier.
pub proof fn lemma_boundary_resolution(uppers: Seq<int>, i: int)
    requires
        uppers_wf(uppers),
        0 <= i < uppers.len() - 1,
    ensures
        first_match(uppers, uppers[i]) == i,
        first_match(uppers, uppers[i] + 1) == i + 1,
{
    let b = uppers[i];
    assert forall|j: int| 0 <= j < i implies uppers[j] < b by {
        lemma_ascending_pairwise(uppers, j, i);
    }
    lemma_first_match_found(uppers, b, i);
    assert forall|j: int| 0 <= j < i + 1 implies uppers[j] < b + 1 by {
        if j < i {
            lemma_ascending_pairwise(uppers, j, i);
        }
    }
    assert(b + 1 <= uppers[i + 1]);
    lemma_first_match_found(uppers, b + 1, i + 1);
}

/// The progressive income-tax bracket table.
#[derive(Debug)]
pub struct TaxTable {
    pub tiers: Vec<TaxTier>,
}

/// The earned-income deduction bracket table.
#[derive(Debug)]
pub struct DeductionTable {
    pub tiers: Vec<DeductionTier>,
}

/// The personal-exemption bracket table.
#[derive(Debug)]
pub struct ExemptionTable {
    pub tiers: Vec<ExemptionTier>,
}

impl TaxTable {
    pub open spec fn uppers(&self) -> Seq<int> {
        tax_uppers(self.tiers@)
    }

    /// Sound table: well-formed bounds and every marginal rate a valid,
    /// non-negative basis-point rate.
    pub open spec fn wf(&self) -> bool {
        &&& uppers_wf(self.uppers())
        &&& tax_rates_valid(self.tiers@)
    }

    /// Validate a tier list, rejecting any table that could misresolve.
    #[verifier::loop_isolation(false)]
    #[verifier::rlimit(50)]
    pub fn new(tiers: Vec<TaxTier>) -> (r: Result<TaxTable, ConfigError>)
        ensures
            r is Ok <==> (TaxTable { tiers: tiers }).wf(),
            r matches Ok(t) ==> t.tiers@ == tiers@,
            r == Err::<TaxTable, ConfigError>(ConfigError::EmptyTable) <==> tiers@.len() == 0,
            r == Err::<TaxTable, ConfigError>(ConfigError::UnboundedFinalTierMissing) <==> (
            tiers@.len() > 0 && tiers@.last().upper != i64::MAX),
            r == Err::<TaxTable, ConfigError>(ConfigError::TiersNotAscending) <==> (tiers@.len()
                > 0 && tiers@.last().upper == i64::MAX && !uppers_ascending(tax_uppers(tiers@))),
            r == Err::<TaxTable, ConfigError>(ConfigError::NegativeUpperBound) <==> (tiers@.len()
                > 0 && tiers@.last().upper == i64::MAX && uppers_ascending(tax_uppers(tiers@))
                && tiers@[0].upper < 0),
            r == Err::<TaxTable, ConfigError>(ConfigError::RateOutOfRange) <==> (uppers_wf(
                tax_uppers(tiers@),
            ) && !tax_rates_valid(tiers@)),
            r != Err::<TaxTable, ConfigError>(ConfigError::AmountOutOfRange),
    {
        let n = tiers.len();
        if n == 0 {
            return Err(ConfigError::EmptyTable);
        }
        if tiers[n - 1].upper != i64::MAX {
            return Err(ConfigError::UnboundedFinalTierMissing);
        }
        let mut k: usize = 0;
        while k + 1 < n
            invariant
                n == tiers@.len(),
                k < n,
                forall|j: int| 0 <= j < k ==> #[trigger] tax_uppers(tiers@)[j] < tax_uppers(tiers@)[j + 1],
            decreases n - k,
        {
            if tiers[k].upper >= tiers[k + 1].upper {
                assert(!(tax_uppers(tiers@)[k as int] < tax_uppers(tiers@)[k as int + 1]));
                return Err(ConfigError::TiersNotAscending);
            }
            k = k + 1;
        }
        assert(uppers_ascending(tax_uppers(tiers@)));
        if tiers[0].upper < 0 {
            return Err(ConfigError::NegativeUpperBound);
        }
        let mut k: usize = 0;
        while k < n
            invariant
                n == tiers@.len(),
                forall|j: int| 0 <= j < k ==> 0 <= #[trigger] tiers@[j].rate_bp <= 10_000,
            decreases n - k,
        {
            if tiers[k].rate_bp < 0 || tiers[k].rate_bp > 10_000 {
                assert(!(0 <= tiers@[k as int].rate_bp <= 10_000));
                return Err(ConfigError::RateOutOfRange);
            }
            k = k + 1;
        }
        Ok(TaxTable { tiers })
    }

    /// Find the first tier whose upper bound is at least `amount`.
    #[verifier::loop_isolation(false)]
    pub fn resolve(&self, amount: i64) -> (idx: usize)
        requires
            self.wf(),
        ensures
            idx < self.tiers@.len(),
            idx as int == first_match(self.uppers(), amount as int),
            amount as int <= self.uppers()[idx as int],
            forall|j: int| 0 <= j < idx ==> self.uppers()[j] < amount,
    {
        let n = self.tiers.len();
        let mut idx: usize = 0;
        while self.tiers[idx].upper < amount
            invariant
                self.wf(),
                n == self.tiers@.len(),
                idx < n,
                forall|j: int| 0 <= j < idx ==> self.uppers()[j] < amount,
            decreases n - idx,
        {
            assert(idx != n - 1);
            idx = idx + 1;
        }
        proof {
            lemma_first_match_found(self.uppers(), amount as int, idx as int);
        }
        idx
    }
}

impl DeductionTable {
    pub open spec fn uppers(&self) -> Seq<int> {
        deduction_uppers(self.tiers@)
    }

    /// Sound table: well-formed bounds, valid rates, and flat adjustments
    /// bounded so downstream sums cannot overflow.
    pub open spec fn wf(&self) -> bool {
        &&& uppers_wf(self.uppers())
        &&& forall|k: int|
            0 <= k < self.tiers@.len() ==> 0 <= #[trigger] self.tiers@[k].rate_bp <= 10_000
        &&& forall|k: int|
            0 <= k < self.tiers@.len() ==> -MAX_AMOUNT <= #[trigger] self.tiers@[k].adjustment
                <= MAX_AMOUNT
    }

    /// Validate a tier list, rejecting any table that could misresolve.
    #[verifier::loop_isolation(false)]
    #[verifier::rlimit(50)]
    pub fn new(tiers: Vec<DeductionTier>) -> (r: Result<DeductionTable, ConfigError>)
        ensures
            r is Ok <==> (DeductionTable { tiers: tiers }).wf(),
            r matches Ok(t) ==> t.tiers@ == tiers@,
            r == Err::<DeductionTable, ConfigError>(ConfigError::EmptyTable) <==> tiers@.len()
                == 0,
            r == Err::<DeductionTable, ConfigError>(ConfigError::UnboundedFinalTierMissing) <==> (
            tiers@.len() > 0 && tiers@.last().upper != i64::MAX),
            r == Err::<DeductionTable, ConfigError>(ConfigError::TiersNotAscending) <==> (
            tiers@.len() > 0 && tiers@.last().upper == i64::MAX && !uppers_ascending(
                deduction_uppers(tiers@),
            )),
            r == Err::<DeductionTable, ConfigError>(ConfigError::NegativeUpperBound) <==> (
            tiers@.len() > 0 && tiers@.last().upper == i64::MAX && uppers_ascending(
                deduction_uppers(tiers@),
            ) && tiers@[0].upper < 0),
            r == Err::<DeductionTable, ConfigError>(ConfigError::RateOutOfRange) <==> (uppers_wf(
                deduction_uppers(tiers@),
            ) && !(forall|k: int|
                0 <= k < tiers@.len() ==> 0 <= #[trigger] tiers@[k].rate_bp <= 10_000)),
            r == Err::<DeductionTable, ConfigError>(ConfigError::AmountOutOfRange) <==> (uppers_wf(
                deduction_uppers(tiers@),
            ) && (forall|k: int|
                0 <= k < tiers@.len() ==> 0 <= #[trigger] tiers@[k].rate_bp <= 10_000) && !(
            forall|k: int|
                0 <= k < tiers@.len() ==> -MAX_AMOUNT <= #[trigger] tiers@[k].adjustment
                    <= MAX_AMOUNT)),
    {
        let n = tiers.len();
        if n == 0 {
            return Err(ConfigError::EmptyTable);
        }
        if tiers[n - 1].upper != i64::MAX {
            return Err(ConfigError::UnboundedFinalTierMissing);
        }
        let mut k: usize = 0;
        while k + 1 < n
            invariant
                n == tiers@.len(),
                k < n,
                forall|j: int|
                    0 <= j < k ==> #[trigger] deduction_uppers(tiers@)[j] < deduction_uppers(
                        tiers@,
                    )[j + 1],
            decreases n - k,
        {
            if tiers[k].upper >= tiers[k + 1].upper {
                assert(!(deduction_uppers(tiers@)[k as int] < deduction_uppers(tiers@)[k as int
                    + 1]));
                return Err(ConfigError::TiersNotAscending);
            }
            k = k + 1;
        }
        assert(uppers_ascending(deduction_uppers(tiers@)));
        if tiers[0].upper < 0 {
            return Err(ConfigError::NegativeUpperBound);
        }
        let mut k: usize = 0;
        while k < n
            invariant
                n == tiers@.len(),
                forall|j: int| 0 <= j < k ==> 0 <= #[trigger] tiers@[j].rate_bp <= 10_000,
            decreases n - k,
        {
            if tiers[k].rate_bp < 0 || tiers[k].rate_bp > 10_000 {
                assert(!(0 <= tiers@[k as int].rate_bp <= 10_000));
                return Err(ConfigError::RateOutOfRange);
            }
            k = k + 1;
        }
        let mut k: usize = 0;
        while k < n
            invariant
                n == tiers@.len(),
                forall|j: int|
                    0 <= j < k ==> -MAX_AMOUNT <= #[trigger] tiers@[j].adjustment <= MAX_AMOUNT,
            decreases n - k,
        {
            if tiers[k].adjustment < -MAX_AMOUNT || tiers[k].adjustment > MAX_AMOUNT {
                assert(!(-MAX_AMOUNT <= tiers@[k as int].adjustment <= MAX_AMOUNT));
                return Err(ConfigError::AmountOutOfRange);
            }
            k = k + 1;
        }
        Ok(DeductionTable { tiers })
    }

    /// Find the first tier whose upper bound is at least `amount`.
    #[verifier::loop_isolation(false)]
    pub fn resolve(&self, amount: i64) -> (idx: usize)
        requires
            self.wf(),
        ensures
            idx < self.tiers@.len(),
            idx as int == first_match(self.uppers(), amount as int),
            amount as int <= self.uppers()[idx as int],
            forall|j: int| 0 <= j < idx ==> self.uppers()[j] < amount,
    {
        let n = self.tiers.len();
        let mut idx: usize = 0;
        while self.tiers[idx].upper < amount
            invariant
                self.wf(),
                n == self.tiers@.len(),
                idx < n,
                forall|j: int| 0 <= j < idx ==> self.uppers()[j] < amount,
            decreases n - idx,
        {
            assert(idx != n - 1);
            idx = idx + 1;
        }
        proof {
            lemma_first_match_found(self.uppers(), amount as int, idx as int);
        }
        idx
    }
}

impl ExemptionTable {
    pub open spec fn uppers(&self) -> Seq<int> {
        exemption_uppers(self.tiers@)
    }

    /// Sound table: well-formed bounds and both exemption amounts of every
    /// tier non-negative and bounded.
    pub open spec fn wf(&self) -> bool {
        &&& uppers_wf(self.uppers())
        &&& forall|k: int|
            0 <= k < self.tiers@.len() ==> 0 <= #[trigger] self.tiers@[k].national <= MAX_AMOUNT
        &&& forall|k: int|
            0 <= k < self.tiers@.len() ==> 0 <= #[trigger] self.tiers@[k].local <= MAX_AMOUNT
    }

    /// Validate a tier list, rejecting any table that could misresolve.
    #[verifier::loop_isolation(false)]
    #[verifier::rlimit(50)]
    pub fn new(tiers: Vec<ExemptionTier>) -> (r: Result<ExemptionTable, ConfigError>)
        ensures
            r is Ok <==> (ExemptionTable { tiers: tiers }).wf(),
            r matches Ok(t) ==> t.tiers@ == tiers@,
            r == Err::<ExemptionTable, ConfigError>(ConfigError::EmptyTable) <==> tiers@.len()
                == 0,
            r == Err::<ExemptionTable, ConfigError>(ConfigError::UnboundedFinalTierMissing) <==> (
            tiers@.len() > 0 && tiers@.last().upper != i64::MAX),
            r == Err::<ExemptionTable, ConfigError>(ConfigError::TiersNotAscending) <==> (
            tiers@.len() > 0 && tiers@.last().upper == i64::MAX && !uppers_ascending(
                exemption_uppers(tiers@),
            )),
            r == Err::<ExemptionTable, ConfigError>(ConfigError::NegativeUpperBound) <==> (
            tiers@.len() > 0 && tiers@.last().upper == i64::MAX && uppers_ascending(
                exemption_uppers(tiers@),
            ) && tiers@[0].upper < 0),
            r == Err::<ExemptionTable, ConfigError>(ConfigError::AmountOutOfRange) <==> (uppers_wf(
                exemption_uppers(tiers@),
            ) && !((forall|k: int|
                0 <= k < tiers@.len() ==> 0 <= #[trigger] tiers@[k].national <= MAX_AMOUNT) && (
            forall|k: int|
                0 <= k < tiers@.len() ==> 0 <= #[trigger] tiers@[k].local <= MAX_AMOUNT))),
            r != Err::<ExemptionTable, ConfigError>(ConfigError::RateOutOfRange),
    {
        let n = tiers.len();
        if n == 0 {
            return Err(ConfigError::EmptyTable);
        }
        if tiers[n - 1].upper != i64::MAX {
            return Err(ConfigError::UnboundedFinalTierMissing);
        }
        let mut k: usize = 0;
        while k + 1 < n
            invariant
                n == tiers@.len(),
                k < n,
                forall|j: int|
                    0 <= j < k ==> #[trigger] exemption_uppers(tiers@)[j] < exemption_uppers(
                        tiers@,
                    )[j + 1],
            decreases n - k,
        {
            if tiers[k].upper >= tiers[k + 1].upper {
                assert(!(exemption_uppers(tiers@)[k as int] < exemption_uppers(tiers@)[k as int
                    + 1]));
                return Err(ConfigError::TiersNotAscending);
            }
            k = k + 1;
        }
        assert(uppers_ascending(exemption_uppers(tiers@)));
        if tiers[0].upper < 0 {
            return Err(ConfigError::NegativeUpperBound);
        }
        let mut k: usize = 0;
        while k < n
            invariant
                n == tiers@.len(),
                forall|j: int| 0 <= j < k ==> 0 <= #[trigger] tiers@[j].national <= MAX_AMOUNT,
                forall|j: int| 0 <= j < k ==> 0 <= #[trigger] tiers@[j].local <= MAX_AMOUNT,
            decreases n - k,
        {
            if tiers[k].national < 0 || tiers[k].national > MAX_AMOUNT || tiers[k].local < 0
                || tiers[k].local > MAX_AMOUNT {
                assert(!(0 <= tiers@[k as int].national <= MAX_AMOUNT) || !(0 <= tiers@[
                    k as int].local <= MAX_AMOUNT));
                return Err(ConfigError::AmountOutOfRange);
            }
            k = k + 1;
        }
        Ok(ExemptionTable { tiers })
    }

    /// Find the first tier whose upper bound is at least `amount`.
    #[verifier::loop_isolation(false)]
    pub fn resolve(&self, amount: i64) -> (idx: usize)
        requires
            self.wf(),
        ensures
            idx < self.tiers@.len(),
            idx as int == first_match(self.uppers(), amount as int),
            amount as int <= self.uppers()[idx as int],
            forall|j: int| 0 <= j < idx ==> self.uppers()[j] < amount,
    {
        let n = self.tiers.len();
        let mut idx: usize = 0;
        while self.tiers[idx].upper < amount
            invariant
                self.wf(),
                n == self.tiers@.len(),
                idx < n,
                forall|j: int| 0 <= j < idx ==> self.uppers()[j] < amount,
            decreases n - idx,
        {
            assert(idx != n - 1);
            idx = idx + 1;
        }
        proof {
            lemma_first_match_found(self.uppers(), amount as int, idx as int);
        }
        idx
    }
}

} // verus!
