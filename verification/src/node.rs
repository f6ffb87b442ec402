//! The remote operations of the node, as typed values: the requests that a
//! run makes and the replies that it takes. The requests that carry an
//! address are made here, and only for an address of the configured network.

use crate::failure::{outcome, FailureKind, FailureKindView, RemoteFault, RemoteFaultView};
use crate::ledger::{Address, AddressView, BlockHash, Network, PaymentView, TransactionId, UnspentOutput};
use crate::transaction::{
    FundedTransaction, FundedTransactionView, SignedTransaction, SignedTransactionView,
    UnsignedTransaction, UnsignedTransactionView,
};
use vstd::prelude::*;

verus! {

/// One remote operation, with its parameters.
#[derive(Clone, Debug, PartialEq, Eq)]
pub enum NodeRequest {
    /// List the unspent outputs.
    ListUnspent,
    /// Serialise a transaction with the given inputs and outputs.
    CreateRawTransaction { unsigned: UnsignedTransaction },
    /// Set the fee of a serialised transaction at the given rate, and add
    /// the change.
    FundRawTransaction { raw: Vec<u8>, fee_rate: i64 },
    /// Sign a funded transaction with the wallet's keys.
    SignRawTransactionWithWallet { funded: FundedTransaction },
    /// Relay a signed transaction.
    SendRawTransaction { signed: SignedTransaction },
    /// Produce `count` blocks that pay their reward to `address`.
    GenerateToAddress { count: u64, address: Address },
}

/// What a [`NodeRequest`] stands for.
pub enum NodeRequestView {
    ListUnspent,
    CreateRawTransaction { unsigned: UnsignedTransactionView },
    FundRawTransaction { raw: Seq<u8>, fee_rate: int },
    SignRawTransactionWithWallet { funded: FundedTransactionView },
    SendRawTransaction { signed: SignedTransactionView },
    GenerateToAddress { count: nat, address: AddressView },
}

impl View for NodeRequest {
    type V = NodeRequestView;

    open spec fn view(&self) -> NodeRequestView {
        match self {
            NodeRequest::ListUnspent => NodeRequestView::ListUnspent,
            NodeRequest::CreateRawTransaction { unsigned } => {
                NodeRequestView::CreateRawTransaction { unsigned: unsigned@ }
            },
            NodeRequest::FundRawTransaction { raw, fee_rate } => {
                NodeRequestView::FundRawTransaction { raw: raw@, fee_rate: *fee_rate as int }
            },
            NodeRequest::SignRawTransactionWithWallet { funded } => {
                NodeRequestView::SignRawTransactionWithWallet { funded: funded@ }
            },
            NodeRequest::SendRawTransaction { signed } => {
                NodeRequestView::SendRawTransaction { signed: signed@ }
            },
            NodeRequest::GenerateToAddress { count, address } => {
                NodeRequestView::GenerateToAddress { count: *count as nat, address: address@ }
            },
        }
    }
}

impl DeepView for NodeRequest {
    type V = NodeRequestView;

    open spec fn deep_view(&self) -> NodeRequestView {
        self@
    }
}

/// What came back from one remote operation.
#[derive(Clone, Debug, PartialEq, Eq)]
pub enum NodeReply {
    /// The unspent outputs, in the order in which the node lists them.
    Unspent { listing: Vec<UnspentOutput> },
    /// The serialised transaction.
    RawTransaction { raw: Vec<u8> },
    /// The serialised transaction with its fee set and its change added.
    Funded { raw: Vec<u8> },
    /// The serialised transaction as the wallet signed it.
    Signed { raw: Vec<u8>, complete: bool },
    /// The identifier of the transaction that the node relays.
    Sent { transaction_id: TransactionId },
    /// The blocks that the node produced, in order.
    Generated { block_hashes: Vec<BlockHash> },
    /// The operation failed.
    Failure { fault: RemoteFault },
}

/// What a [`NodeReply`] stands for.
pub enum NodeReplyView {
    Unspent { listing: Seq<UnspentOutput> },
    RawTransaction { raw: Seq<u8> },
    Funded { raw: Seq<u8> },
    Signed { raw: Seq<u8>, complete: bool },
    Sent { transaction_id: TransactionId },
    Generated { block_hashes: Seq<BlockHash> },
    Failure { fault: RemoteFaultView },
}

impl View for NodeReply {
    type V = NodeReplyView;

    open spec fn view(&self) -> NodeReplyView {
        match self {
            NodeReply::Unspent { listing } => NodeReplyView::Unspent { listing: listing@ },
            NodeReply::RawTransaction { raw } => NodeReplyView::RawTransaction { raw: raw@ },
            NodeReply::Funded { raw } => NodeReplyView::Funded { raw: raw@ },
            NodeReply::Signed { raw, complete } => {
                NodeReplyView::Signed { raw: raw@, complete: *complete }
            },
            NodeReply::Sent { transaction_id } => {
                NodeReplyView::Sent { transaction_id: *transaction_id }
            },
            NodeReply::Generated { block_hashes } => {
                NodeReplyView::Generated { block_hashes: block_hashes@ }
            },
            NodeReply::Failure { fault } => NodeReplyView::Failure { fault: fault@ },
        }
    }
}

/// The address of the endpoint that serves the wallet `wallet` at the node
/// with the address `base`: the base, the path segment of the wallets, and
/// the wallet's name.
pub open spec fn wallet_endpoint_of(base: Seq<char>, wallet: Seq<char>) -> Seq<char> {
    base + "/wallet/"@ + wallet
}

/// Gives the address that a connection must be bound to for the operations
/// that need the wallet `wallet`.
pub fn wallet_endpoint(base: &str, wallet: &str) -> (endpoint: String)
    ensures
        endpoint@ == wallet_endpoint_of(base@, wallet@),
{
    String::from_str(base).concat("/wallet/").concat(wallet)
}

/// Whether every payment of `outputs` goes to an address of `network`.
pub open spec fn all_on_network(outputs: Seq<PaymentView>, network: Network) -> bool {
    forall|i: int| 0 <= i < outputs.len() ==> (#[trigger] outputs[i]).destination.network == network
}

/// The request that serialises `transaction`, or `NetworkMismatch` where one
/// of its payments goes to an address of another network than `network`.
pub open spec fn creation_request(transaction: UnsignedTransactionView, network: Network) -> Result<
    NodeRequestView,
    FailureKindView,
> {
    if all_on_network(transaction.outputs, network) {
        Ok(NodeRequestView::CreateRawTransaction { unsigned: transaction })
    } else {
        Err(FailureKindView::NetworkMismatch)
    }
}

/// The request that produces `count` blocks for `address`, or
/// `NetworkMismatch` where the address belongs to another network than
/// `network`. It is meant for a count of at least one.
pub open spec fn generation_request(count: nat, address: AddressView, network: Network) -> Result<
    NodeRequestView,
    FailureKindView,
>
    recommends
        count >= 1,
{
    if address.network == network {
        Ok(NodeRequestView::GenerateToAddress { count, address })
    } else {
        Err(FailureKindView::NetworkMismatch)
    }
}

/// Makes the request that serialises `transaction` on a node of `network`.
/// No request is made for a transaction that pays an address of another
/// network.
pub fn create_raw_transaction(transaction: UnsignedTransaction, network: Network) -> (made: Result<
    NodeRequest,
    FailureKind,
>)
    ensures
        outcome(made) == creation_request(transaction@, network),
{
    let mut checked: usize = 0;
    while checked < transaction.outputs.len()
        invariant
            checked <= transaction.outputs.len(),
            forall|i: int|
                0 <= i < checked ==> (#[trigger] transaction.outputs[i])@.destination.network
                    == network,
        decreases transaction.outputs.len() - checked,
    {
        if !transaction.outputs[checked].destination.is_on(network) {
            assert(transaction@.outputs[checked as int] == transaction.outputs[checked as int]@);
            return Err(FailureKind::NetworkMismatch);
        }
        checked = checked + 1;
    }
    Ok(NodeRequest::CreateRawTransaction { unsigned: transaction })
}

/// Makes the request that produces `count` blocks for `address` on a node of
/// `network`. No request is made for an address of another network.
pub fn generate_to_address(count: u64, address: Address, network: Network) -> (made: Result<
    NodeRequest,
    FailureKind,
>)
    requires
        count >= 1,
    ensures
        outcome(made) == generation_request(count as nat, address@, network),
{
    if address.is_on(network) {
        Ok(NodeRequest::GenerateToAddress { count, address })
    } else {
        Err(FailureKind::NetworkMismatch)
    }
}

} // verus!
