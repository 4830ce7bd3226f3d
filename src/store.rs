use vstd::prelude::*;

use crate::fee_rate::FeeRateEstimate;

verus! {

/// Why no estimate could be had.
#[derive(Clone, Copy, Debug, PartialEq, Eq, Structural)]
pub enum EstimatorError {
    /// No block has produced an estimate yet.
    NoEstimateAvailable,
    /// The backing store could not be opened or read.
    StoreUnavailable,
}

/// What reading the singleton row `row` returns.
pub open spec fn read_row(row: Option<FeeRateEstimate>) -> Result<FeeRateEstimate, EstimatorError> {
    match row {
        Some(e) => Ok(e),
        None => Err(EstimatorError::NoEstimateAvailable),
    }
}

/// A store of the singleton estimate row held in memory.
pub struct MemoryStore {
    row: Option<FeeRateEstimate>,
}

impl View for MemoryStore {
    type V = Option<FeeRateEstimate>;

    closed spec fn view(&self) -> Option<FeeRateEstimate> {
        self.row
    }
}

impl MemoryStore {
    /// An empty store: no estimate has been written.
    pub fn new() -> (r: MemoryStore)
        ensures
            r@ == None::<FeeRateEstimate>,
    {
        MemoryStore { row: None }
    }

    /// The stored estimate, or `NoEstimateAvailable` when none was written.
    pub fn read(&self) -> (r: Result<FeeRateEstimate, EstimatorError>)
        ensures
            r == read_row(self@),
    {
        match self.row {
            Some(e) => Ok(e),
            None => Err(EstimatorError::NoEstimateAvailable),
        }
    }

    /// Replaces the stored estimate with `estimate`, or creates it.
    pub fn write(&mut self, estimate: FeeRateEstimate)
        ensures
            final(self)@ == Some(estimate),
    {
        self.row = Some(estimate);
    }
}

} // verus!
