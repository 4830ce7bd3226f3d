use vstd::prelude::*;

verus! {

/// The resources a transaction consumed, or a block may consume.
#[derive(Clone, Copy, Debug, PartialEq, Eq, Structural)]
pub struct ExecutionCost {
    pub write_length: u64,
    pub write_count: u64,
    pub read_length: u64,
    pub read_count: u64,
    pub runtime: u64,
}

/// Turns a transaction's resource usage and byte length into one scalar weight.
///
/// An implementation is a pure function of its inputs: the spec functions name
/// what each operation returns.
pub trait CostMetric {
    /// What `from_len` returns.
    spec fn len_weight(&self, tx_len: u64) -> u64;

    /// What `from_cost_and_len` returns.
    spec fn cost_weight(&self, cost: ExecutionCost, block_limit: ExecutionCost, tx_len: u64) -> u64;

    /// The weight of a transaction that consumes only block space.
    fn from_len(&self, tx_len: u64) -> (r: u64)
        ensures
            r == self.len_weight(tx_len),
    ;

    /// The weight of a transaction with execution cost `cost` in a block limited by `block_limit`.
    fn from_cost_and_len(&self, cost: &ExecutionCost, block_limit: &ExecutionCost, tx_len: u64) -> (r: u64)
        ensures
            r == self.cost_weight(*cost, *block_limit, tx_len),
    ;
}

/// The metric that gives every transaction a weight of 1, so that a
/// transaction's fee rate is its fee.
#[derive(Clone, Copy, Debug, PartialEq, Eq, Structural)]
pub struct UnitMetric;

impl CostMetric for UnitMetric {
    open spec fn len_weight(&self, tx_len: u64) -> u64 {
        1
    }

    open spec fn cost_weight(&self, cost: ExecutionCost, block_limit: ExecutionCost, tx_len: u64) -> u64 {
        1
    }

    fn from_len(&self, tx_len: u64) -> (r: u64) {
        1
    }

    fn from_cost_and_len(&self, cost: &ExecutionCost, block_limit: &ExecutionCost, tx_len: u64) -> (r: u64) {
        1
    }
}

} // verus!
