use vstd::prelude::*;

verus! {

/// Fixed-point scale of every fee rate: `RATE_SCALE` stands for a rate of 1.
pub const RATE_SCALE: u128 = 1_000_000;

/// A fee rate together with the scalar weight it was derived from.
#[derive(Clone, Copy, Debug, PartialEq, Eq, Structural)]
pub struct FeeRateAndWeight {
    pub fee_rate: u128,
    pub weight: u64,
}

/// The low, middle and high recommended fee rates, each in units of
/// `1 / RATE_SCALE` of the fee per unit of scalar cost.
#[derive(Clone, Copy, Debug, PartialEq, Eq, Structural)]
pub struct FeeRateEstimate {
    pub high: u128,
    pub middle: u128,
    pub low: u128,
}

/// The divisor used for a transaction of scalar cost `weight`: never below 1.
pub open spec fn denominator_of(weight: u64) -> int {
    if weight >= 1 {
        weight as int
    } else {
        1
    }
}

/// `fee / max(weight, 1)` in fixed point, rounded down, and never below a rate of 1.
pub open spec fn fee_rate_of(fee: u64, weight: u64) -> int {
    let raw = (fee as int * RATE_SCALE as int) / denominator_of(weight);
    if raw >= RATE_SCALE as int {
        raw
    } else {
        RATE_SCALE as int
    }
}

/// The sample that a transaction paying `fee` at scalar cost `weight` yields.
pub open spec fn sample_of(fee: u64, weight: u64) -> FeeRateAndWeight {
    FeeRateAndWeight { fee_rate: fee_rate_of(fee, weight) as u128, weight }
}

/// Every field of the estimate is at least a rate of 1.
pub open spec fn estimate_at_least_one(e: FeeRateEstimate) -> bool {
    &&& e.high >= RATE_SCALE
    &&& e.middle >= RATE_SCALE
    &&& e.low >= RATE_SCALE
}

proof fn lemma_fee_rate_bounds(fee: u64, weight: u64)
    ensures
        RATE_SCALE <= fee_rate_of(fee, weight) <= fee as int * RATE_SCALE as int + RATE_SCALE,
        fee_rate_of(fee, weight) <= u128::MAX,
{
    let num = fee as int * RATE_SCALE as int;
    let d = denominator_of(weight);
    assert(0 <= num <= 0xffff_ffff_ffff_ffff * 1_000_000) by (nonlinear_arith)
        requires
            num == fee as int * 1_000_000,
            fee <= 0xffff_ffff_ffff_ffff,
    ;
    assert(num / d <= num) by (nonlinear_arith)
        requires
            d >= 1,
            num >= 0,
    ;
}

/// Derives the sample of a transaction paying `fee` at scalar cost `weight`:
/// the rate is clamped to 1 when the division falls below it.
pub fn sample_from_fee_and_weight(fee: u64, weight: u64) -> (r: FeeRateAndWeight)
    ensures
        r == sample_of(fee, weight),
        r.fee_rate >= RATE_SCALE,
        r.weight == weight,
{
    proof {
        lemma_fee_rate_bounds(fee, weight);
    }
    let denominator: u128 = if weight >= 1 {
        weight as u128
    } else {
        1
    };
    assert(fee as int * RATE_SCALE as int <= u128::MAX) by (nonlinear_arith)
        requires
            fee <= 0xffff_ffff_ffff_ffff,
    ;
    let raw: u128 = (fee as u128 * RATE_SCALE) / denominator;
    let fee_rate: u128 = if raw >= RATE_SCALE {
        raw
    } else {
        RATE_SCALE
    };
    FeeRateAndWeight { fee_rate, weight }
}

} // verus!
