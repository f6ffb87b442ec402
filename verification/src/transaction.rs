//! What each stage of a run produces. Every stage has a type of its own for
//! its product, so that no product can be handed to a stage that it has not
//! yet reached.

use crate::ledger::{BlockHash, OutputReference, Payment, PaymentView, TransactionId};
use vstd::prelude::*;

verus! {

/// A transaction that names what it spends and what it pays, before the node
/// has serialised, funded or signed it.
#[derive(Clone, Debug, PartialEq, Eq)]
pub struct UnsignedTransaction {
    /// The outputs that the transaction spends, in order.
    pub inputs: Vec<OutputReference>,
    /// What the transaction pays, one entry for each destination.
    pub outputs: Vec<Payment>,
}

/// What an [`UnsignedTransaction`] stands for.
pub struct UnsignedTransactionView {
    pub inputs: Seq<OutputReference>,
    pub outputs: Seq<PaymentView>,
}

impl View for UnsignedTransaction {
    type V = UnsignedTransactionView;

    open spec fn view(&self) -> UnsignedTransactionView {
        UnsignedTransactionView { inputs: self.inputs@, outputs: self.outputs.deep_view() }
    }
}

impl UnsignedTransactionView {
    /// The transaction that spends `input` alone and makes `payment` alone.
    pub open spec fn single(input: OutputReference, payment: PaymentView) -> Self {
        UnsignedTransactionView { inputs: seq![input], outputs: seq![payment] }
    }

    /// Whether the outputs are a mapping from destinations to amounts: no
    /// destination has two entries.
    pub open spec fn is_mapping(self) -> bool {
        forall|i: int, j: int|
            0 <= i < j < self.outputs.len() ==> (#[trigger] self.outputs[i]).destination != (
            #[trigger] self.outputs[j]).destination
    }
}

/// A serialised transaction as the node returned it from funding.
#[derive(Clone, Debug, PartialEq, Eq)]
pub struct FundedTransaction {
    /// The serialised transaction. The library never looks inside.
    pub raw: Vec<u8>,
    /// Whether the node has set the fee and added the change.
    pub fee_applied: bool,
}

/// What a [`FundedTransaction`] stands for.
pub struct FundedTransactionView {
    pub raw: Seq<u8>,
    pub fee_applied: bool,
}

impl View for FundedTransaction {
    type V = FundedTransactionView;

    open spec fn view(&self) -> FundedTransactionView {
        FundedTransactionView { raw: self.raw@, fee_applied: self.fee_applied }
    }
}

/// A serialised transaction as the wallet returned it from signing.
#[derive(Clone, Debug, PartialEq, Eq)]
pub struct SignedTransaction {
    /// The serialised transaction. The library never looks inside.
    pub raw: Vec<u8>,
    /// Whether every input carries its signature.
    pub complete: bool,
}

/// What a [`SignedTransaction`] stands for.
pub struct SignedTransactionView {
    pub raw: Seq<u8>,
    pub complete: bool,
}

impl View for SignedTransaction {
    type V = SignedTransactionView;

    open spec fn view(&self) -> SignedTransactionView {
        SignedTransactionView { raw: self.raw@, complete: self.complete }
    }
}

/// What a run that reached its end has achieved.
#[derive(Clone, Debug, PartialEq, Eq)]
pub struct PipelineResult {
    /// The transaction that the run broadcast.
    pub transaction_id: TransactionId,
    /// The blocks that the node produced to confirm it, in order.
    pub confirming_block_hashes: Vec<BlockHash>,
}

/// What a [`PipelineResult`] stands for.
pub struct PipelineResultView {
    pub transaction_id: TransactionId,
    pub confirming_block_hashes: Seq<BlockHash>,
}

impl PipelineResultView {
    /// Whether at least one block confirms the transaction.
    pub open spec fn is_confirmed(self) -> bool {
        self.confirming_block_hashes.len() >= 1
    }
}

impl View for PipelineResult {
    type V = PipelineResultView;

    open spec fn view(&self) -> PipelineResultView {
        PipelineResultView {
            transaction_id: self.transaction_id,
            confirming_block_hashes: self.confirming_block_hashes@,
        }
    }
}

} // verus!
