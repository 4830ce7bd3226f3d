use vstd::prelude::*;

use crate::cost::ExecutionCost;

verus! {

/// What a transaction's payload does, as far as fee estimation cares.
#[derive(Clone, Copy, Debug, PartialEq, Eq, Structural)]
pub enum PayloadKind {
    TokenTransfer,
    Coinbase,
    PoisonMicroblock,
    ContractCall,
    SmartContract,
}

/// A fee-paying transaction of the chain itself.
#[derive(Clone, Copy, Debug, PartialEq, Eq, Structural)]
pub struct StacksTransaction {
    pub payload: PayloadKind,
    pub fee: u64,
    pub tx_len: u64,
}

/// Where a confirmed transaction came from.
#[derive(Clone, Copy, Debug, PartialEq, Eq, Structural)]
pub enum TransactionOrigin {
    Stacks(StacksTransaction),
    /// An operation carried over from the burn chain, which pays no fee here.
    Burn,
}

/// The outcome of one confirmed transaction.
#[derive(Clone, Copy, Debug, PartialEq, Eq, Structural)]
pub struct StacksTransactionReceipt {
    pub transaction: TransactionOrigin,
    pub execution_cost: ExecutionCost,
}

/// The transaction stands for a block reward.
pub open spec fn is_coinbase(r: StacksTransactionReceipt) -> bool {
    match r.transaction {
        TransactionOrigin::Stacks(tx) => tx.payload == PayloadKind::Coinbase,
        TransactionOrigin::Burn => false,
    }
}

/// The transaction contributes a sample to the fee market.
pub open spec fn is_eligible(r: StacksTransactionReceipt) -> bool {
    match r.transaction {
        TransactionOrigin::Stacks(tx) => tx.payload != PayloadKind::Coinbase,
        TransactionOrigin::Burn => false,
    }
}

} // verus!
