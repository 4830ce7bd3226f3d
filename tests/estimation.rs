use fee_estimation::cost::{CostMetric, ExecutionCost, UnitMetric};
use fee_estimation::estimator::{ScalarFeeRateEstimator, DEFAULT_WINDOW_SIZE};
use fee_estimation::fee_rate::{sample_from_fee_and_weight, FeeRateAndWeight, FeeRateEstimate, RATE_SCALE};
use fee_estimation::percentile::{percentile_estimate, sort_fee_rates};
use fee_estimation::receipt::{PayloadKind, StacksTransaction, StacksTransactionReceipt, TransactionOrigin};
use fee_estimation::smoother::blend_estimates;
use fee_estimation::store::{EstimatorError, MemoryStore};

fn zero_cost() -> ExecutionCost {
    ExecutionCost { write_length: 0, write_count: 0, read_length: 0, read_count: 0, runtime: 0 }
}

fn limit() -> ExecutionCost {
    ExecutionCost { write_length: 100, write_count: 100, read_length: 100, read_count: 100, runtime: 100 }
}

fn receipt(payload: PayloadKind, fee: u64, tx_len: u64) -> StacksTransactionReceipt {
    StacksTransactionReceipt {
        transaction: TransactionOrigin::Stacks(StacksTransaction { payload, fee, tx_len }),
        execution_cost: zero_cost(),
    }
}

fn transfer(fee: u64) -> StacksTransactionReceipt {
    receipt(PayloadKind::TokenTransfer, fee, 180)
}

fn burn() -> StacksTransactionReceipt {
    StacksTransactionReceipt { transaction: TransactionOrigin::Burn, execution_cost: zero_cost() }
}

fn est(low: u128, middle: u128, high: u128) -> FeeRateEstimate {
    FeeRateEstimate { high, middle, low }
}

fn flat(rate: u128) -> FeeRateEstimate {
    est(rate, rate, rate)
}

#[test]
fn fee_rate_is_fee_over_weight() {
    let s = sample_from_fee_and_weight(10, 4);
    assert_eq!(s, FeeRateAndWeight { fee_rate: 2_500_000, weight: 4 });
}

#[test]
fn zero_weight_divides_by_one() {
    let s = sample_from_fee_and_weight(7, 0);
    assert_eq!(s, FeeRateAndWeight { fee_rate: 7 * RATE_SCALE, weight: 0 });
}

#[test]
fn fee_rate_below_one_is_clamped() {
    assert_eq!(sample_from_fee_and_weight(0, 5).fee_rate, RATE_SCALE);
    assert_eq!(sample_from_fee_and_weight(3, 4).fee_rate, RATE_SCALE);
}

#[test]
fn largest_fee_does_not_overflow() {
    let s = sample_from_fee_and_weight(u64::MAX, 1);
    assert_eq!(s.fee_rate, u64::MAX as u128 * RATE_SCALE);
}

#[test]
fn burn_and_coinbase_give_no_sample() {
    let e = ScalarFeeRateEstimator::new(UnitMetric);
    assert_eq!(e.fee_rate_and_weight_from_receipt(&burn(), &limit()), None);
    let coinbase = receipt(PayloadKind::Coinbase, 1000, 200);
    assert_eq!(e.fee_rate_and_weight_from_receipt(&coinbase, &limit()), None);
}

#[test]
fn block_samples_skip_ineligible_receipts() {
    let e = ScalarFeeRateEstimator::new(UnitMetric);
    let receipts = vec![
        receipt(PayloadKind::Coinbase, 0, 100),
        transfer(5),
        burn(),
        receipt(PayloadKind::ContractCall, 9, 300),
        receipt(PayloadKind::SmartContract, 2, 400),
        receipt(PayloadKind::PoisonMicroblock, 3, 500),
    ];
    let samples = e.fee_rates_for_block(&receipts, &limit());
    let rates: Vec<u128> = samples.iter().map(|s| s.fee_rate).collect();
    assert_eq!(rates, vec![5 * RATE_SCALE, 9 * RATE_SCALE, 2 * RATE_SCALE, 3 * RATE_SCALE]);
}

#[test]
fn block_of_only_coinbase_changes_nothing() {
    let e = ScalarFeeRateEstimator::new(UnitMetric);
    let mut store = MemoryStore::new();
    store.write(flat(4 * RATE_SCALE));
    let receipts = vec![receipt(PayloadKind::Coinbase, 0, 100), burn()];
    e.notify_block(&mut store, &receipts, &limit());
    assert_eq!(store.read(), Ok(flat(4 * RATE_SCALE)));
}

#[test]
fn sorting_orders_rates_ascending() {
    let samples = vec![
        FeeRateAndWeight { fee_rate: 5, weight: 1 },
        FeeRateAndWeight { fee_rate: 2, weight: 9 },
        FeeRateAndWeight { fee_rate: 5, weight: 3 },
        FeeRateAndWeight { fee_rate: 1, weight: 0 },
    ];
    assert_eq!(sort_fee_rates(&samples), vec![1, 2, 5, 5]);
    assert_eq!(sort_fee_rates(&Vec::new()), Vec::<u128>::new());
}

#[test]
fn percentiles_of_twenty_one_rates() {
    let sorted: Vec<u128> = vec![1, 1, 1, 2, 2, 2, 2, 3, 3, 3, 3, 4, 4, 5, 5, 6, 7, 8, 9, 50, 100];
    assert_eq!(percentile_estimate(&sorted), Some(est(1, 3, 100)));
}

#[test]
fn percentiles_of_small_blocks() {
    assert_eq!(percentile_estimate(&Vec::new()), None);
    assert_eq!(percentile_estimate(&vec![7]), Some(est(7, 7, 7)));
    assert_eq!(percentile_estimate(&vec![1, 2]), Some(est(1, 2, 2)));
    assert_eq!(percentile_estimate(&vec![1, 2, 3]), Some(est(1, 2, 3)));
    let twenty: Vec<u128> = (0..20).collect();
    assert_eq!(percentile_estimate(&twenty), Some(est(1, 10, 19)));
}

#[test]
fn twenty_one_transfers_give_the_percentile_triple() {
    let fees: Vec<u64> = vec![9, 3, 1, 100, 2, 4, 1, 2, 50, 3, 5, 2, 8, 3, 1, 6, 4, 2, 7, 3, 5];
    let mut receipts: Vec<StacksTransactionReceipt> = fees.iter().map(|f| transfer(*f)).collect();
    receipts.push(receipt(PayloadKind::Coinbase, 0, 100));
    let e = ScalarFeeRateEstimator::new(UnitMetric);
    let mut store = MemoryStore::new();
    e.notify_block(&mut store, &receipts, &limit());
    assert_eq!(store.read(), Ok(est(RATE_SCALE, 3 * RATE_SCALE, 100 * RATE_SCALE)));
}

#[test]
fn blending_moves_one_window_toward_the_new_measure() {
    let r = blend_estimates(&flat(20 * RATE_SCALE), &flat(10 * RATE_SCALE), 5);
    assert_eq!(r, flat(12 * RATE_SCALE));
    let r = blend_estimates(&flat(10 * RATE_SCALE), &flat(20 * RATE_SCALE), 5);
    assert_eq!(r, flat(18 * RATE_SCALE));
}

#[test]
fn blending_rounds_down() {
    let r = blend_estimates(&flat(1_000_000), &flat(1_000_003), 5);
    assert_eq!(r, flat(1_000_002));
    let r = blend_estimates(&flat(1_000_004), &flat(1_000_000), 5);
    assert_eq!(r, flat(1_000_000));
}

#[test]
fn blending_floors_at_one() {
    let r = blend_estimates(&flat(RATE_SCALE), &flat(0), 5);
    assert_eq!(r, flat(RATE_SCALE));
}

#[test]
fn blending_extreme_values_does_not_overflow() {
    let r = blend_estimates(&flat(u128::MAX), &flat(u128::MAX - 4), 5);
    assert_eq!(r, flat(u128::MAX - 4));
    let r = blend_estimates(&flat(0), &flat(u128::MAX), 5);
    assert_eq!(r, flat(u128::MAX - u128::MAX / 5));
}

#[test]
fn window_of_one_replaces_the_estimate() {
    let e = ScalarFeeRateEstimator::with_window_size(UnitMetric, 1);
    assert_eq!(e.window_size(), 1);
    let r = e.update_estimate_local(&est(2, 3, 4).clone(), &flat(50 * RATE_SCALE));
    assert_eq!(r, flat(RATE_SCALE));
    let r = e.update_estimate_local(&flat(7 * RATE_SCALE), &flat(50 * RATE_SCALE));
    assert_eq!(r, flat(7 * RATE_SCALE));
}

#[test]
fn default_window_is_five() {
    let e = ScalarFeeRateEstimator::new(UnitMetric);
    assert_eq!(e.window_size(), DEFAULT_WINDOW_SIZE);
    assert_eq!(DEFAULT_WINDOW_SIZE, 5);
}

#[test]
fn update_decision_for_each_read_outcome() {
    let e = ScalarFeeRateEstimator::new(UnitMetric);
    let m = flat(20 * RATE_SCALE);
    assert_eq!(e.update_estimate(&m, Ok(flat(10 * RATE_SCALE))), Some(flat(12 * RATE_SCALE)));
    assert_eq!(e.update_estimate(&m, Err(EstimatorError::NoEstimateAvailable)), Some(m));
    assert_eq!(e.update_estimate(&m, Err(EstimatorError::StoreUnavailable)), None);
}

#[test]
fn unreadable_store_skips_the_block() {
    let e = ScalarFeeRateEstimator::new(UnitMetric);
    let receipts = vec![transfer(5)];
    let r = e.estimate_for_block(&receipts, &limit(), Err(EstimatorError::StoreUnavailable));
    assert_eq!(r, None);
}

#[test]
fn empty_block_writes_nothing() {
    let e = ScalarFeeRateEstimator::new(UnitMetric);
    let r = e.estimate_for_block(&Vec::new(), &limit(), Ok(flat(3 * RATE_SCALE)));
    assert_eq!(r, None);
    let mut store = MemoryStore::new();
    e.notify_block(&mut store, &Vec::new(), &limit());
    assert_eq!(store.read(), Err(EstimatorError::NoEstimateAvailable));
}

#[test]
fn new_store_has_no_estimate() {
    let store = MemoryStore::new();
    assert_eq!(store.read(), Err(EstimatorError::NoEstimateAvailable));
    let e = ScalarFeeRateEstimator::new(UnitMetric);
    assert_eq!(e.get_rate_estimates(&store), Err(EstimatorError::NoEstimateAvailable));
}

#[test]
fn read_returns_what_was_written() {
    let mut store = MemoryStore::new();
    store.write(est(1_500_000, 2_000_000, 9_000_000));
    assert_eq!(store.read(), Ok(est(1_500_000, 2_000_000, 9_000_000)));
    store.write(flat(RATE_SCALE));
    assert_eq!(store.read(), Ok(flat(RATE_SCALE)));
}

#[test]
fn first_block_is_adopted_then_blended() {
    let e = ScalarFeeRateEstimator::new(UnitMetric);
    let mut store = MemoryStore::new();
    e.notify_block(&mut store, &vec![transfer(10)], &limit());
    assert_eq!(e.get_rate_estimates(&store), Ok(flat(10 * RATE_SCALE)));
    e.notify_block(&mut store, &vec![transfer(20)], &limit());
    assert_eq!(e.get_rate_estimates(&store), Ok(flat(12 * RATE_SCALE)));
}

#[test]
fn zero_fee_block_stores_rate_one() {
    let e = ScalarFeeRateEstimator::new(UnitMetric);
    let mut store = MemoryStore::new();
    e.notify_block(&mut store, &vec![transfer(0), transfer(0)], &limit());
    assert_eq!(store.read(), Ok(flat(RATE_SCALE)));
}

#[test]
fn unit_metric_weighs_everything_one() {
    assert_eq!(UnitMetric.from_len(500), 1);
    assert_eq!(UnitMetric.from_cost_and_len(&limit(), &limit(), 500), 1);
}

struct SizeAndRuntime;

impl CostMetric for SizeAndRuntime {
    fn len_weight(&self, tx_len: u64) -> u64 {
        tx_len
    }

    fn cost_weight(&self, cost: ExecutionCost, _block_limit: ExecutionCost, tx_len: u64) -> u64 {
        cost.runtime + tx_len
    }

    fn from_len(&self, tx_len: u64) -> u64 {
        tx_len
    }

    fn from_cost_and_len(&self, cost: &ExecutionCost, _block_limit: &ExecutionCost, tx_len: u64) -> u64 {
        cost.runtime + tx_len
    }
}

#[test]
fn transfers_weigh_by_length_and_calls_by_cost() {
    let e = ScalarFeeRateEstimator::new(SizeAndRuntime);
    let t = receipt(PayloadKind::TokenTransfer, 1000, 100);
    assert_eq!(e.fee_rate_and_weight_from_receipt(&t, &limit()), Some(FeeRateAndWeight { fee_rate: 10 * RATE_SCALE, weight: 100 }));
    let mut c = receipt(PayloadKind::ContractCall, 1000, 100);
    c.execution_cost.runtime = 150;
    assert_eq!(e.fee_rate_and_weight_from_receipt(&c, &limit()), Some(FeeRateAndWeight { fee_rate: 4 * RATE_SCALE, weight: 250 }));
}
