use vstd::prelude::*;

use crate::cost::{CostMetric, ExecutionCost};
use crate::estimator::{row_after, ScalarFeeRateEstimator};
use crate::fee_rate::{estimate_at_least_one, fee_rate_of, FeeRateEstimate, RATE_SCALE};
use crate::percentile::{
    block_measure, high_index, low_index, mid_index, percentiles_of, rate_leq, rates_of,
    sorted_rates,
};
use crate::receipt::{is_coinbase, is_eligible, StacksTransactionReceipt};
use crate::smoother::{blended, lemma_decayed_between};
use crate::store::read_row;

verus! {

/// For a block with at least three samples the low, median and high indices
/// are ordered and in range, the median strictly below the high one.
pub proof fn lemma_percentile_indices_ordered(n: int)
    requires
        n >= 3,
    ensures
        0 <= low_index(n) <= mid_index(n) < high_index(n) < n,
{
}

/// Every fee rate derived from a fee and a weight is at least a rate of 1.
pub proof fn lemma_fee_rate_at_least_one(fee: u64, weight: u64)
    ensures
        fee_rate_of(fee, weight) >= RATE_SCALE,
{
}

/// A block reward yields no sample.
pub proof fn lemma_coinbase_yields_no_sample<M: CostMetric>(
    est: ScalarFeeRateEstimator<M>,
    r: StacksTransactionReceipt,
    limit: ExecutionCost,
)
    requires
        is_coinbase(r),
    ensures
        est.receipt_sample(r, limit) is None,
{
}

/// Every sample of a block comes from an eligible receipt of that block,
/// never from a block reward.
pub proof fn lemma_sample_from_eligible_receipt<M: CostMetric>(
    est: ScalarFeeRateEstimator<M>,
    receipts: Seq<StacksTransactionReceipt>,
    limit: ExecutionCost,
    i: int,
)
    requires
        0 <= i < est.block_samples(receipts, limit).len(),
    ensures
        exists|r: StacksTransactionReceipt|
            receipts.contains(r) && !is_coinbase(r) && is_eligible(r) && #[trigger] est.receipt_sample(
                r,
                limit,
            ) == Some(est.block_samples(receipts, limit)[i]),
{
    let f = est.sample_fn(limit);
    let s = est.block_samples(receipts, limit)[i];
    assert(receipts.filter_map(f).contains(s));
    receipts.lemma_filter_map_contains(f, s);
    let r = choose|r: StacksTransactionReceipt| receipts.contains(r) && f(r) == Some(s);
    assert(est.receipt_sample(r, limit) == Some(s));
}

/// Every sample of a block has a rate of at least 1, and so has every rate
/// that the percentile selection sees.
pub proof fn lemma_block_rates_at_least_one<M: CostMetric>(
    est: ScalarFeeRateEstimator<M>,
    receipts: Seq<StacksTransactionReceipt>,
    limit: ExecutionCost,
)
    ensures
        forall|i: int|
            0 <= i < est.block_samples(receipts, limit).len() ==> #[trigger] est.block_samples(
                receipts,
                limit,
            )[i].fee_rate >= RATE_SCALE,
        forall|i: int|
            0 <= i < sorted_rates(est.block_samples(receipts, limit)).len() ==> #[trigger] sorted_rates(
                est.block_samples(receipts, limit),
            )[i] >= RATE_SCALE,
{
    let samples = est.block_samples(receipts, limit);
    assert forall|i: int| 0 <= i < samples.len() implies #[trigger] samples[i].fee_rate
        >= RATE_SCALE by {
        lemma_sample_from_eligible_receipt(est, receipts, limit, i);
        let r = choose|r: StacksTransactionReceipt|
            receipts.contains(r) && !is_coinbase(r) && is_eligible(r) && #[trigger] est.receipt_sample(
                r,
                limit,
            ) == Some(samples[i]);
        assert(est.receipt_sample(r, limit) == Some(samples[i]));
    }
    let rates = rates_of(samples);
    rates.lemma_sort_by_ensures(rate_leq());
    let sorted = sorted_rates(samples);
    assert forall|i: int| 0 <= i < sorted.len() implies #[trigger] sorted[i] >= RATE_SCALE by {
        assert(sorted.contains(sorted[i]));
        assert(rates.contains(sorted[i]));
        let j = choose|j: int| 0 <= j < rates.len() && rates[j] == sorted[i];
        assert(rates[j] == samples[j].fee_rate);
    }
}

/// Reading the store right after writing `e` gives back exactly `e`.
pub proof fn lemma_read_after_write(e: FeeRateEstimate)
    ensures
        read_row(Some(e)) == Ok::<FeeRateEstimate, crate::store::EstimatorError>(e),
{
}

/// A block without eligible samples leaves the stored row as it was.
pub proof fn lemma_empty_block_keeps_row<M: CostMetric>(
    est: ScalarFeeRateEstimator<M>,
    receipts: Seq<StacksTransactionReceipt>,
    limit: ExecutionCost,
    row: Option<FeeRateEstimate>,
    w: int,
)
    requires
        est.block_samples(receipts, limit).len() == 0,
    ensures
        row_after(row, block_measure(est.block_samples(receipts, limit)), w) == row,
{
    let samples = est.block_samples(receipts, limit);
    rates_of(samples).lemma_sort_by_ensures(rate_leq());
    vstd::seq_lib::to_multiset_len(rates_of(samples));
    vstd::seq_lib::to_multiset_len(sorted_rates(samples));
}

/// The first block with samples, with no estimate stored yet, stores its
/// percentile triple as it is.
pub proof fn lemma_first_block_adopted<M: CostMetric>(
    est: ScalarFeeRateEstimator<M>,
    receipts: Seq<StacksTransactionReceipt>,
    limit: ExecutionCost,
    w: int,
)
    requires
        est.block_samples(receipts, limit).len() > 0,
    ensures
        row_after(None, block_measure(est.block_samples(receipts, limit)), w) == percentiles_of(
            sorted_rates(est.block_samples(receipts, limit)),
        ),
        percentiles_of(sorted_rates(est.block_samples(receipts, limit))) is Some,
{
    let samples = est.block_samples(receipts, limit);
    rates_of(samples).lemma_sort_by_ensures(rate_leq());
    vstd::seq_lib::to_multiset_len(rates_of(samples));
    vstd::seq_lib::to_multiset_len(sorted_rates(samples));
}

/// Blending never leaves a field below a rate of 1.
pub proof fn lemma_blended_at_least_one(new_measure: FeeRateEstimate, old: FeeRateEstimate, w: int)
    requires
        w >= 1,
    ensures
        estimate_at_least_one(blended(new_measure, old, w)),
{
    lemma_decayed_between(old.high as int, new_measure.high as int, w);
    lemma_decayed_between(old.middle as int, new_measure.middle as int, w);
    lemma_decayed_between(old.low as int, new_measure.low as int, w);
}

/// After a block that updates the store, every field of the stored estimate
/// is at least a rate of 1, whatever was stored before.
pub proof fn lemma_updated_row_at_least_one<M: CostMetric>(
    est: ScalarFeeRateEstimator<M>,
    receipts: Seq<StacksTransactionReceipt>,
    limit: ExecutionCost,
    row: Option<FeeRateEstimate>,
    w: int,
)
    requires
        w >= 1,
        est.block_samples(receipts, limit).len() > 0,
    ensures
        row_after(row, block_measure(est.block_samples(receipts, limit)), w) matches Some(e)
            && estimate_at_least_one(e),
{
    let samples = est.block_samples(receipts, limit);
    lemma_first_block_adopted(est, receipts, limit, w);
    lemma_block_rates_at_least_one(est, receipts, limit);
    let sorted = sorted_rates(samples);
    let n = sorted.len() as int;
    crate::percentile::lemma_indices_in_range(n);
    assert(sorted[high_index(n)] >= RATE_SCALE);
    assert(sorted[mid_index(n)] >= RATE_SCALE);
    assert(sorted[low_index(n)] >= RATE_SCALE);
    let m = block_measure(samples).unwrap();
    match row {
        Some(old) => lemma_blended_at_least_one(m, old, w),
        None => {},
    }
}

} // verus!
