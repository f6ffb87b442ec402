use utxo_pipeline::failure::FailureKind;
use utxo_pipeline::ledger::{Address, Network, OutputReference, Payment, TransactionId};
use utxo_pipeline::node::{create_raw_transaction, generate_to_address, wallet_endpoint, NodeRequest};
use utxo_pipeline::transaction::UnsignedTransaction;

fn address(text: &str, network: Network) -> Address {
    Address { text: text.to_string(), network }
}

fn payment(text: &str, network: Network, amount: i64) -> Payment {
    Payment { destination: address(text, network), amount }
}

fn input() -> OutputReference {
    OutputReference { transaction_id: TransactionId { bytes: [1; 32] }, output_index: 0 }
}

#[test]
fn creation_is_asked_for_outputs_of_the_network() {
    let transaction = UnsignedTransaction {
        inputs: vec![input()],
        outputs: vec![payment("a", Network::Regtest, 5), payment("b", Network::Regtest, 6)],
    };
    let expected = UnsignedTransaction {
        inputs: vec![input()],
        outputs: vec![payment("a", Network::Regtest, 5), payment("b", Network::Regtest, 6)],
    };
    assert_eq!(
        create_raw_transaction(transaction, Network::Regtest),
        Ok(NodeRequest::CreateRawTransaction { unsigned: expected })
    );
}

#[test]
fn creation_is_refused_for_one_foreign_output() {
    let last_foreign = UnsignedTransaction {
        inputs: vec![input()],
        outputs: vec![payment("a", Network::Regtest, 5), payment("b", Network::Testnet, 6)],
    };
    assert_eq!(
        create_raw_transaction(last_foreign, Network::Regtest),
        Err(FailureKind::NetworkMismatch)
    );
    let first_foreign = UnsignedTransaction {
        inputs: vec![input()],
        outputs: vec![payment("a", Network::Mainnet, 5), payment("b", Network::Regtest, 6)],
    };
    assert_eq!(
        create_raw_transaction(first_foreign, Network::Regtest),
        Err(FailureKind::NetworkMismatch)
    );
}

#[test]
fn creation_without_outputs_has_nothing_to_refuse() {
    let transaction = UnsignedTransaction { inputs: vec![input()], outputs: Vec::new() };
    assert_eq!(
        create_raw_transaction(transaction, Network::Signet),
        Ok(NodeRequest::CreateRawTransaction {
            unsigned: UnsignedTransaction { inputs: vec![input()], outputs: Vec::new() }
        })
    );
}

#[test]
fn generation_is_asked_for_an_address_of_the_network() {
    assert_eq!(
        generate_to_address(101, address("bcrt1qminer", Network::Regtest), Network::Regtest),
        Ok(NodeRequest::GenerateToAddress {
            count: 101,
            address: address("bcrt1qminer", Network::Regtest)
        })
    );
    assert_eq!(
        generate_to_address(1, address("bcrt1qminer", Network::Regtest), Network::Regtest),
        Ok(NodeRequest::GenerateToAddress {
            count: 1,
            address: address("bcrt1qminer", Network::Regtest)
        })
    );
}

#[test]
fn generation_is_refused_for_a_foreign_address() {
    assert_eq!(
        generate_to_address(1, address("tb1qminer", Network::Testnet), Network::Regtest),
        Err(FailureKind::NetworkMismatch)
    );
}

#[test]
fn wallet_endpoint_is_base_then_segment_then_name() {
    assert_eq!(
        wallet_endpoint("http://localhost:18443", "testwallet"),
        "http://localhost:18443/wallet/testwallet"
    );
    assert_eq!(wallet_endpoint("", ""), "/wallet/");
}
