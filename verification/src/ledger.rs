//! The ledger's vocabulary: networks, identifiers, addresses and outputs.

use vstd::prelude::*;

verus! {

/// The networks a node can serve. An address belongs to exactly one of them.
#[derive(Clone, Copy, Debug, PartialEq, Eq, Hash, Structural)]
pub enum Network {
    Mainnet,
    Testnet,
    Signet,
    Regtest,
}

/// The content-derived identifier of a transaction.
#[derive(Clone, Copy, Debug, PartialEq, Eq, Hash)]
pub struct TransactionId {
    pub bytes: [u8; 32],
}

/// The identifier of a block.
#[derive(Clone, Copy, Debug, PartialEq, Eq, Hash)]
pub struct BlockHash {
    pub bytes: [u8; 32],
}

/// One output of one transaction: what an input of a later transaction spends.
#[derive(Clone, Copy, Debug, PartialEq, Eq, Hash)]
pub struct OutputReference {
    pub transaction_id: TransactionId,
    pub output_index: u32,
}

impl View for OutputReference {
    type V = OutputReference;

    open spec fn view(&self) -> OutputReference {
        *self
    }
}

/// One entry of the node's listing of unspent outputs. The amount is in the
/// smallest unit of the ledger.
#[derive(Clone, Copy, Debug, PartialEq, Eq, Hash)]
pub struct UnspentOutput {
    pub transaction_id: TransactionId,
    pub output_index: u32,
    pub amount: u64,
}

impl UnspentOutput {
    /// The output that this entry lists.
    pub open spec fn reference(self) -> OutputReference {
        OutputReference { transaction_id: self.transaction_id, output_index: self.output_index }
    }

    /// The reference by which a transaction spends this output.
    pub fn to_reference(&self) -> (reference: OutputReference)
        ensures
            reference == self.reference(),
    {
        OutputReference { transaction_id: self.transaction_id, output_index: self.output_index }
    }
}

/// An address in its textual form, with the network it belongs to.
#[derive(Debug, PartialEq, Eq, Hash)]
pub struct Address {
    pub text: String,
    pub network: Network,
}

/// What an [`Address`] stands for.
pub struct AddressView {
    pub text: Seq<char>,
    pub network: Network,
}

impl View for Address {
    type V = AddressView;

    open spec fn view(&self) -> AddressView {
        AddressView { text: self.text@, network: self.network }
    }
}

impl Clone for Address {
    fn clone(&self) -> (copy: Address)
        ensures
            copy@ == self@,
    {
        Address { text: self.text.clone(), network: self.network }
    }
}

impl Address {
    /// Whether this address belongs to `network`.
    pub fn is_on(&self, network: Network) -> (on: bool)
        ensures
            on == (self@.network == network),
    {
        self.network == network
    }
}

/// An amount paid to a destination, in the smallest unit of the ledger.
#[derive(Clone, Debug, PartialEq, Eq)]
pub struct Payment {
    pub destination: Address,
    pub amount: i64,
}

/// What a [`Payment`] stands for.
pub struct PaymentView {
    pub destination: AddressView,
    pub amount: int,
}

impl View for Payment {
    type V = PaymentView;

    open spec fn view(&self) -> PaymentView {
        PaymentView { destination: self.destination@, amount: self.amount as int }
    }
}

impl DeepView for Payment {
    type V = PaymentView;

    open spec fn deep_view(&self) -> PaymentView {
        self@
    }
}

} // verus!
