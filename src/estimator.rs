use vstd::prelude::*;

use crate::cost::{CostMetric, ExecutionCost};
use crate::fee_rate::{
    estimate_at_least_one, sample_from_fee_and_weight, sample_of, FeeRateAndWeight,
    FeeRateEstimate, RATE_SCALE,
};
use crate::percentile::{block_measure, percentile_estimate, sort_fee_rates};
use crate::receipt::{PayloadKind, StacksTransactionReceipt, TransactionOrigin};
use crate::smoother::{blend_estimates, blended};
use crate::store::{read_row, EstimatorError, MemoryStore};

verus! {

/// The window of blocks that exponential decay looks back over, unless configured.
pub const DEFAULT_WINDOW_SIZE: u32 = 5;

/// The estimate to persist after a block whose percentile triple is
/// `measure`, given what reading the current estimate returned: `None` when
/// nothing is to be written.
pub open spec fn next_estimate(
    current: Result<FeeRateEstimate, EstimatorError>,
    measure: Option<FeeRateEstimate>,
    w: int,
) -> Option<FeeRateEstimate> {
    match measure {
        None => None,
        Some(m) => match current {
            Ok(old) => Some(blended(m, old, w)),
            Err(EstimatorError::NoEstimateAvailable) => Some(m),
            Err(EstimatorError::StoreUnavailable) => None,
        },
    }
}

/// The stored row after a block whose percentile triple is `measure`.
pub open spec fn row_after(
    row: Option<FeeRateEstimate>,
    measure: Option<FeeRateEstimate>,
    w: int,
) -> Option<FeeRateEstimate> {
    match next_estimate(read_row(row), measure, w) {
        Some(e) => Some(e),
        None => row,
    }
}

/// Estimates low, median and high fee rates from the 5th, 50th and 95th
/// percentile rates of each block, smoothed by exponential decay.
pub struct ScalarFeeRateEstimator<M: CostMetric> {
    metric: M,
    window_size: u32,
}

impl<M: CostMetric> ScalarFeeRateEstimator<M> {
    /// The metric that turns a transaction's usage into its weight.
    pub closed spec fn metric_spec(&self) -> M {
        self.metric
    }

    /// The decay window, in blocks.
    pub closed spec fn window(&self) -> int {
        self.window_size as int
    }

    /// The decay window is at least one block.
    pub closed spec fn wf(&self) -> bool {
        self.window_size >= 1
    }

    /// The sample that receipt `r` yields in a block limited by `limit`, if any.
    pub open spec fn receipt_sample(
        &self,
        r: StacksTransactionReceipt,
        limit: ExecutionCost,
    ) -> Option<FeeRateAndWeight> {
        match r.transaction {
            TransactionOrigin::Burn => None,
            TransactionOrigin::Stacks(tx) => match tx.payload {
                PayloadKind::Coinbase => None,
                PayloadKind::TokenTransfer => Some(
                    sample_of(tx.fee, self.metric_spec().len_weight(tx.tx_len)),
                ),
                _ => Some(
                    sample_of(
                        tx.fee,
                        self.metric_spec().cost_weight(r.execution_cost, limit, tx.tx_len),
                    ),
                ),
            },
        }
    }

    /// `receipt_sample` for a block limited by `limit`, as a function of the receipt.
    pub open spec fn sample_fn(&self, limit: ExecutionCost) -> spec_fn(
        StacksTransactionReceipt,
    ) -> Option<FeeRateAndWeight> {
        |r: StacksTransactionReceipt| self.receipt_sample(r, limit)
    }

    /// The samples of a block, one per eligible receipt, in receipt order.
    pub open spec fn block_samples(
        &self,
        receipts: Seq<StacksTransactionReceipt>,
        limit: ExecutionCost,
    ) -> Seq<FeeRateAndWeight> {
        receipts.filter_map(self.sample_fn(limit))
    }

    /// An estimator over `metric` with the default decay window.
    pub fn new(metric: M) -> (r: Self)
        ensures
            r.wf(),
            r.metric_spec() == metric,
            r.window() == DEFAULT_WINDOW_SIZE as int,
    {
        ScalarFeeRateEstimator { metric, window_size: DEFAULT_WINDOW_SIZE }
    }

    /// An estimator over `metric` that decays over `window_size` blocks.
    pub fn with_window_size(metric: M, window_size: u32) -> (r: Self)
        requires
            window_size >= 1,
        ensures
            r.wf(),
            r.metric_spec() == metric,
            r.window() == window_size as int,
    {
        ScalarFeeRateEstimator { metric, window_size }
    }

    /// The decay window, in blocks.
    pub fn window_size(&self) -> (r: u32)
        ensures
            r as int == self.window(),
    {
        self.window_size
    }

    /// The sample of one receipt: none for burn-chain operations and block
    /// rewards; otherwise the fee over the weight the metric gives.
    pub fn fee_rate_and_weight_from_receipt(
        &self,
        tx_receipt: &StacksTransactionReceipt,
        block_limit: &ExecutionCost,
    ) -> (r: Option<FeeRateAndWeight>)
        ensures
            r == self.receipt_sample(*tx_receipt, *block_limit),
            r matches Some(s) ==> s.fee_rate >= RATE_SCALE,
    {
        let tx = match &tx_receipt.transaction {
            TransactionOrigin::Stacks(tx) => tx,
            TransactionOrigin::Burn => return None,
        };
        let scalar_cost = match tx.payload {
            PayloadKind::TokenTransfer => self.metric.from_len(tx.tx_len),
            PayloadKind::Coinbase => return None,
            PayloadKind::PoisonMicroblock | PayloadKind::ContractCall
            | PayloadKind::SmartContract => self.metric.from_cost_and_len(
                &tx_receipt.execution_cost,
                block_limit,
                tx.tx_len,
            ),
        };
        Some(sample_from_fee_and_weight(tx.fee, scalar_cost))
    }

    /// The samples of a block, one per eligible receipt, in receipt order.
    pub fn fee_rates_for_block(
        &self,
        receipts: &Vec<StacksTransactionReceipt>,
        block_limit: &ExecutionCost,
    ) -> (r: Vec<FeeRateAndWeight>)
        ensures
            r@ == self.block_samples(receipts@, *block_limit),
            forall|i: int| 0 <= i < r@.len() ==> #[trigger] r@[i].fee_rate >= RATE_SCALE,
    {
        let ghost f = self.sample_fn(*block_limit);
        let mut out: Vec<FeeRateAndWeight> = Vec::new();
        let mut i: usize = 0;
        assert(receipts@.take(0) =~= Seq::<StacksTransactionReceipt>::empty());
        while i < receipts.len()
            invariant
                i <= receipts@.len(),
                f == self.sample_fn(*block_limit),
                out@ == receipts@.take(i as int).filter_map(f),
                forall|k: int| 0 <= k < out@.len() ==> #[trigger] out@[k].fee_rate >= RATE_SCALE,
            decreases receipts@.len() - i,
        {
            let sample = self.fee_rate_and_weight_from_receipt(&receipts[i], block_limit);
            proof {
                receipts@.lemma_filter_map_take_succ(f, i as int);
            }
            match sample {
                Some(s) => out.push(s),
                None => {},
            }
            i = i + 1;
        }
        assert(receipts@.take(receipts@.len() as int) =~= receipts@);
        out
    }

    /// Blends a block's percentile triple into the old estimate.
    pub fn update_estimate_local(
        &self,
        new_measure: &FeeRateEstimate,
        old_estimate: &FeeRateEstimate,
    ) -> (r: FeeRateEstimate)
        requires
            self.wf(),
        ensures
            r == blended(*new_measure, *old_estimate, self.window()),
            estimate_at_least_one(r),
    {
        blend_estimates(new_measure, old_estimate, self.window_size)
    }

    /// The estimate to write after a block whose triple is `new_measure`,
    /// given what reading the current one returned: a blend with the old
    /// estimate, the triple itself when there is none yet, and nothing when the
    /// store could not be read.
    pub fn update_estimate(
        &self,
        new_measure: &FeeRateEstimate,
        current: Result<FeeRateEstimate, EstimatorError>,
    ) -> (r: Option<FeeRateEstimate>)
        requires
            self.wf(),
        ensures
            r == next_estimate(current, Some(*new_measure), self.window()),
    {
        match current {
            Ok(old_estimate) => Some(self.update_estimate_local(new_measure, &old_estimate)),
            Err(EstimatorError::NoEstimateAvailable) => Some(*new_measure),
            Err(EstimatorError::StoreUnavailable) => None,
        }
    }

    /// The estimate to write after the block with `receipts`, given what
    /// reading the current estimate returned; `None` when the block has no
    /// eligible transaction or the store could not be read.
    pub fn estimate_for_block(
        &self,
        receipts: &Vec<StacksTransactionReceipt>,
        block_limit: &ExecutionCost,
        current: Result<FeeRateEstimate, EstimatorError>,
    ) -> (r: Option<FeeRateEstimate>)
        requires
            self.wf(),
        ensures
            r == next_estimate(
                current,
                block_measure(self.block_samples(receipts@, *block_limit)),
                self.window(),
            ),
    {
        let samples = self.fee_rates_for_block(receipts, block_limit);
        let sorted = sort_fee_rates(&samples);
        match percentile_estimate(&sorted) {
            Some(measure) => self.update_estimate(&measure, current),
            None => None,
        }
    }

    /// Folds the block with `receipts` into the estimate held by `store`.
    pub fn notify_block(
        &self,
        store: &mut MemoryStore,
        receipts: &Vec<StacksTransactionReceipt>,
        block_limit: &ExecutionCost,
    )
        requires
            self.wf(),
        ensures
            final(store)@ == row_after(
                old(store)@,
                block_measure(self.block_samples(receipts@, *block_limit)),
                self.window(),
            ),
    {
        let current = store.read();
        match self.estimate_for_block(receipts, block_limit, current) {
            Some(next) => store.write(next),
            None => {},
        }
    }

    /// The estimate held by `store`, or `NoEstimateAvailable`.
    pub fn get_rate_estimates(&self, store: &MemoryStore) -> (r: Result<
        FeeRateEstimate,
        EstimatorError,
    >)
        ensures
            r == read_row(store@),
    {
        store.read()
    }
}

} // verus!
