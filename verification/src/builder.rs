//! Composition of one input and one payment into an unsigned transaction.

use crate::failure::{outcome, FailureKind, FailureKindView};
use crate::ledger::{Address, Network, OutputReference, Payment, PaymentView};
use crate::transaction::{UnsignedTransaction, UnsignedTransactionView};
use vstd::prelude::*;

verus! {

/// The transaction that spends `input` and makes `payment` on `network`.
///
/// A destination of another network is a `NetworkMismatch`, whatever the
/// amount. On the configured network, an amount that is not strictly
/// positive is an `InvalidAmount`. Every other triple gives the transaction
/// with exactly this input and exactly this payment.
pub open spec fn built(input: OutputReference, payment: PaymentView, network: Network) -> Result<
    UnsignedTransactionView,
    FailureKindView,
> {
    if payment.destination.network != network {
        Err(FailureKindView::NetworkMismatch)
    } else if payment.amount <= 0 {
        Err(FailureKindView::InvalidAmount)
    } else {
        Ok(UnsignedTransactionView::single(input, payment))
    }
}

/// Builds the transaction that spends `input` and pays `amount` to
/// `destination`, for a node of `network`.
pub fn build_transaction(
    input: OutputReference,
    destination: Address,
    amount: i64,
    network: Network,
) -> (transaction: Result<UnsignedTransaction, FailureKind>)
    ensures
        outcome(transaction) == built(
            input,
            (PaymentView { destination: destination@, amount: amount as int }),
            network,
        ),
{
    if !destination.is_on(network) {
        return Err(FailureKind::NetworkMismatch);
    }
    if amount <= 0 {
        return Err(FailureKind::InvalidAmount);
    }
    let payment = Payment { destination, amount };
    let mut inputs: Vec<OutputReference> = Vec::new();
    inputs.push(input);
    let mut outputs: Vec<Payment> = Vec::new();
    outputs.push(payment);
    let transaction = UnsignedTransaction { inputs, outputs };
    proof {
        assert(transaction@.inputs =~= seq![input]);
        assert(transaction@.outputs =~= seq![payment@]);
    }
    Ok(transaction)
}

} // verus!
