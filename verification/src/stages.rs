//! The stages that follow the building of a transaction: funding, signing,
//! broadcast and confirmation. Each takes what the stage before it produced
//! and gives the request for the node, or takes the node's reply and gives
//! the stage's product.

use crate::failure::{
    outcome, unexpected_reply, unexpected_reply_failure, FailureKind, FailureKindView,
};
use crate::ledger::{BlockHash, TransactionId};
use crate::node::{NodeRequest, NodeRequestView};
use crate::transaction::{
    FundedTransaction, FundedTransactionView, PipelineResult, PipelineResultView,
    SignedTransaction, SignedTransactionView,
};
use vstd::prelude::*;

verus! {

/// The request that funds the serialised transaction `raw` at `fee_rate`, or
/// `InvalidAmount` where the rate is not strictly positive.
pub open spec fn funding_request(raw: Seq<u8>, fee_rate: int) -> Result<
    NodeRequestView,
    FailureKindView,
> {
    if fee_rate <= 0 {
        Err(FailureKindView::InvalidAmount)
    } else {
        Ok(NodeRequestView::FundRawTransaction { raw, fee_rate })
    }
}

/// Makes the request that asks the node to set the fee of the serialised
/// transaction `raw` at `fee_rate` and to add its change. The rate is handed
/// on as it is; where the change goes and what else is spent is the node's
/// decision.
pub fn request_funding(raw: Vec<u8>, fee_rate: i64) -> (made: Result<NodeRequest, FailureKind>)
    ensures
        outcome(made) == funding_request(raw@, fee_rate as int),
{
    if fee_rate <= 0 {
        Err(FailureKind::InvalidAmount)
    } else {
        Ok(NodeRequest::FundRawTransaction { raw, fee_rate })
    }
}

/// The funded transaction that the node's reply `raw` gives.
pub open spec fn funded(raw: Seq<u8>) -> FundedTransactionView {
    FundedTransactionView { raw, fee_applied: true }
}

/// Takes the node's reply to a funding request.
pub fn accept_funding(raw: Vec<u8>) -> (transaction: FundedTransaction)
    ensures
        transaction@ == funded(raw@),
{
    FundedTransaction { raw, fee_applied: true }
}

/// The request that has the wallet sign `transaction`.
pub open spec fn signing_request(transaction: FundedTransactionView) -> NodeRequestView {
    NodeRequestView::SignRawTransactionWithWallet { funded: transaction }
}

/// Makes the request that asks the wallet to sign `transaction`.
pub fn request_signature(transaction: FundedTransaction) -> (made: NodeRequest)
    ensures
        made@ == signing_request(transaction@),
{
    NodeRequest::SignRawTransactionWithWallet { funded: transaction }
}

/// The signed transaction that the wallet's reply gives: the reply itself
/// where the signing is complete, `IncompleteSignature` where it is not.
pub open spec fn signature_checked(raw: Seq<u8>, complete: bool) -> Result<
    SignedTransactionView,
    FailureKindView,
> {
    if complete {
        Ok(SignedTransactionView { raw, complete: true })
    } else {
        Err(FailureKindView::IncompleteSignature)
    }
}

/// Takes the wallet's reply to a signing request. A transaction that is not
/// completely signed goes no further.
pub fn check_signature(raw: Vec<u8>, complete: bool) -> (transaction: Result<
    SignedTransaction,
    FailureKind,
>)
    ensures
        outcome(transaction) == signature_checked(raw@, complete),
{
    if complete {
        Ok(SignedTransaction { raw, complete: true })
    } else {
        Err(FailureKind::IncompleteSignature)
    }
}

/// The request that relays `transaction`, or `IncompleteSignature` where it
/// is not completely signed.
pub open spec fn broadcast_request(transaction: SignedTransactionView) -> Result<
    NodeRequestView,
    FailureKindView,
> {
    if transaction.complete {
        Ok(NodeRequestView::SendRawTransaction { signed: transaction })
    } else {
        Err(FailureKindView::IncompleteSignature)
    }
}

/// Makes the request that asks the node to relay `transaction`. No request
/// is made for a transaction that is not completely signed.
pub fn request_broadcast(transaction: SignedTransaction) -> (made: Result<NodeRequest, FailureKind>)
    ensures
        outcome(made) == broadcast_request(transaction@),
{
    if transaction.complete {
        Ok(NodeRequest::SendRawTransaction { signed: transaction })
    } else {
        Err(FailureKind::IncompleteSignature)
    }
}

/// The result of a run that broadcast `transaction_id` and had it confirmed
/// by `block_hashes`. An empty list of blocks confirms nothing: it is not an
/// answer to a request for at least one block, and gives the failure of an
/// unexpected reply.
pub open spec fn confirmed(transaction_id: TransactionId, block_hashes: Seq<BlockHash>) -> Result<
    PipelineResultView,
    FailureKindView,
> {
    if block_hashes.len() == 0 {
        Err(unexpected_reply())
    } else {
        Ok(PipelineResultView { transaction_id, confirming_block_hashes: block_hashes })
    }
}

/// Takes the node's reply to the request for confirming blocks. The blocks
/// are recorded as the node produced them; that there is one is all that is
/// asked of them.
pub fn confirm(transaction_id: TransactionId, block_hashes: Vec<BlockHash>) -> (result: Result<
    PipelineResult,
    FailureKind,
>)
    ensures
        outcome(result) == confirmed(transaction_id, block_hashes@),
{
    if block_hashes.len() == 0 {
        Err(unexpected_reply_failure())
    } else {
        Ok(PipelineResult { transaction_id, confirming_block_hashes: block_hashes })
    }
}

} // verus!
