use vstd::prelude::*;
use vstd::relations::{sorted_by, total_ordering};

use crate::fee_rate::{FeeRateAndWeight, FeeRateEstimate};

verus! {

/// The order on fee rates.
pub open spec fn rate_leq() -> spec_fn(u128, u128) -> bool {
    |x: u128, y: u128| x <= y
}

/// The fee rates of the samples, in their order.
pub open spec fn rates_of(samples: Seq<FeeRateAndWeight>) -> Seq<u128> {
    samples.map_values(|s: FeeRateAndWeight| s.fee_rate)
}

/// The fee rates of the samples in ascending order.
pub open spec fn sorted_rates(samples: Seq<FeeRateAndWeight>) -> Seq<u128> {
    rates_of(samples).sort_by(rate_leq())
}

/// Index of the low (5th percentile) rate among `n` sorted rates.
pub open spec fn low_index(n: int) -> int {
    n / 20
}

/// Index of the median rate among `n` sorted rates.
pub open spec fn mid_index(n: int) -> int {
    n / 2
}

/// Index of the high (95th percentile) rate among `n` sorted rates.
pub open spec fn high_index(n: int) -> int {
    n - if n / 20 >= 1 {
        n / 20
    } else {
        1
    }
}

/// The percentile triple of ascending rates, or `None` when there are none.
pub open spec fn percentiles_of(sorted: Seq<u128>) -> Option<FeeRateEstimate> {
    let n = sorted.len() as int;
    if n == 0 {
        None
    } else {
        Some(
            FeeRateEstimate {
                high: sorted[high_index(n)],
                middle: sorted[mid_index(n)],
                low: sorted[low_index(n)],
            },
        )
    }
}

/// The percentile triple of a block's samples, taken after sorting their rates.
pub open spec fn block_measure(samples: Seq<FeeRateAndWeight>) -> Option<FeeRateEstimate> {
    percentiles_of(sorted_rates(samples))
}

/// The order on fee rates is total.
pub proof fn lemma_rate_leq_total()
    ensures
        total_ordering(rate_leq()),
{
}

/// The three indices are in range and ordered for every non-empty block.
pub proof fn lemma_indices_in_range(n: int)
    requires
        n >= 1,
    ensures
        0 <= low_index(n) <= mid_index(n) <= high_index(n) < n,
{
}

/// Sorting rates with the order on `u128` gives the ascending rates.
proof fn lemma_is_sorted_rates(s: Seq<u128>, samples: Seq<FeeRateAndWeight>)
    requires
        sorted_by(s, rate_leq()),
        s.to_multiset() == rates_of(samples).to_multiset(),
    ensures
        s == sorted_rates(samples),
{
    lemma_rate_leq_total();
    rates_of(samples).lemma_sort_by_ensures(rate_leq());
    vstd::seq_lib::lemma_sorted_unique(s, sorted_rates(samples), rate_leq());
}

/// The fee rates of `samples` in ascending order.
pub fn sort_fee_rates(samples: &Vec<FeeRateAndWeight>) -> (r: Vec<u128>)
    ensures
        r@ == sorted_rates(samples@),
{
    let ghost rates = rates_of(samples@);
    let mut out: Vec<u128> = Vec::new();
    let mut i: usize = 0;
    assert(out@ =~= rates.take(0));
    while i < samples.len()
        invariant
            i <= samples.len(),
            rates == rates_of(samples@),
            rates.len() == samples@.len(),
            sorted_by(out@, rate_leq()),
            out@.to_multiset() == rates.take(i as int).to_multiset(),
            out@.len() == i,
        decreases samples.len() - i,
    {
        let x = samples[i].fee_rate;
        let mut pos: usize = 0;
        while pos < out.len() && out[pos] <= x
            invariant
                pos <= out@.len(),
                forall|k: int| 0 <= k < pos ==> out@[k] <= x,
            decreases out@.len() - pos,
        {
            pos = pos + 1;
        }
        proof {
            assert(rates.take(i as int + 1) =~= rates.take(i as int).push(x));
            vstd::seq_lib::to_multiset_build(rates.take(i as int), x);
            vstd::seq_lib::to_multiset_insert(out@, pos as int, x);
        }
        let ghost before = out@;
        out.insert(pos, x);
        proof {
            assert forall|a: int, b: int| 0 <= a < b < out@.len() implies #[trigger] (rate_leq())(
                out@[a],
                out@[b],
            ) by {
                if b < pos {
                    assert((rate_leq())(before[a], before[b]));
                } else if b == pos {
                } else if a < pos {
                    assert(before[a] <= x);
                    if pos < before.len() {
                        assert(x < before[pos as int]);
                        assert((rate_leq())(before[pos as int], before[b - 1]) || pos == b - 1);
                    }
                } else if a == pos {
                    assert(x < before[pos as int]);
                    assert((rate_leq())(before[pos as int], before[b - 1]) || pos == b - 1);
                } else {
                    assert((rate_leq())(before[a - 1], before[b - 1]));
                }
            }
        }
        i = i + 1;
    }
    proof {
        assert(rates.take(samples@.len() as int) =~= rates);
        lemma_is_sorted_rates(out@, samples@);
    }
    out
}

/// The low, median and high rates of ascending `sorted`, or `None` when it is empty.
pub fn percentile_estimate(sorted: &Vec<u128>) -> (r: Option<FeeRateEstimate>)
    ensures
        r == percentiles_of(sorted@),
{
    let n = sorted.len();
    if n == 0 {
        return None;
    }
    let tail: usize = if n / 20 >= 1 {
        n / 20
    } else {
        1
    };
    let highest_index = n - tail;
    let median_index = n / 2;
    let lowest_index = n / 20;
    Some(
        FeeRateEstimate {
            high: sorted[highest_index],
            middle: sorted[median_index],
            low: sorted[lowest_index],
        },
    )
}

} // verus!
