use utxo_pipeline::failure::{FailureKind, RemoteFault, Stage};
use utxo_pipeline::ledger::{
    Address, BlockHash, Network, OutputReference, Payment, TransactionId, UnspentOutput,
};
use utxo_pipeline::node::{NodeReply, NodeRequest};
use utxo_pipeline::orchestrator::{
    chained_input, ChainPlan, Orchestrator, CHAINED_OUTPUT_INDEX, INTERMEDIATE_BLOCKS,
};
use utxo_pipeline::transaction::{PipelineResult, UnsignedTransaction};

const COIN: i64 = 100_000_000;

fn address(text: &str) -> Address {
    Address { text: text.to_string(), network: Network::Regtest }
}

fn chain_plan() -> ChainPlan {
    ChainPlan {
        network: Network::Regtest,
        fee_rate: COIN / 10,
        first: Payment { destination: address("bcrt1qfirst"), amount: 10 * COIN },
        second: Payment { destination: address("bcrt1qsecond"), amount: 5 * COIN },
        confirm_address: address("bcrt1qfirst"),
        final_blocks: 101,
    }
}

fn listing() -> Vec<UnspentOutput> {
    vec![
        UnspentOutput {
            transaction_id: TransactionId { bytes: [0xc0; 32] },
            output_index: 0,
            amount: 50 * 100_000_000,
        },
        UnspentOutput {
            transaction_id: TransactionId { bytes: [0xc1; 32] },
            output_index: 0,
            amount: 50 * 100_000_000,
        },
    ]
}

fn first_run_replies(transaction: u8) -> Vec<NodeReply> {
    vec![
        NodeReply::Unspent { listing: listing() },
        NodeReply::RawTransaction { raw: vec![1] },
        NodeReply::Funded { raw: vec![2] },
        NodeReply::Signed { raw: vec![3], complete: true },
        NodeReply::Sent { transaction_id: TransactionId { bytes: [transaction; 32] } },
        NodeReply::Generated { block_hashes: vec![BlockHash { bytes: [0xb0; 32] }] },
    ]
}

fn advance(
    chain: Orchestrator,
    replies: Vec<NodeReply>,
) -> (Orchestrator, Option<NodeRequest>, Vec<NodeRequest>) {
    let mut chain = chain;
    let mut request = None;
    let mut asked = Vec::new();
    for reply in replies {
        let next = chain.step(reply);
        chain = next.0;
        if let Some(made) = &next.1 {
            asked.push(made.clone());
        }
        request = next.1;
    }
    (chain, request, asked)
}

#[test]
fn chain_starts_with_the_listing() {
    let (chain, request) = Orchestrator::start(chain_plan());
    assert_eq!(request, Some(NodeRequest::ListUnspent));
    assert!(!chain.in_second_run());
    assert_eq!(chain.stage(), Stage::Selecting);
    assert!(chain.first_result().is_none());
    assert!(chain.second_result().is_none());
    assert!(chain.failure().is_none());
}

#[test]
fn second_run_spends_the_first_output_of_the_first_transaction() {
    let (chain, _) = Orchestrator::start(chain_plan());
    let (chain, request, _) = advance(chain, first_run_replies(0xe1));
    assert!(chain.in_second_run());
    assert_eq!(chain.stage(), Stage::Building);
    assert_eq!(
        request,
        Some(NodeRequest::CreateRawTransaction {
            unsigned: UnsignedTransaction {
                inputs: vec![OutputReference {
                    transaction_id: TransactionId { bytes: [0xe1; 32] },
                    output_index: 0
                }],
                outputs: vec![Payment {
                    destination: address("bcrt1qsecond"),
                    amount: 500_000_000
                }],
            }
        })
    );
    assert_eq!(
        chain.first_result(),
        Some(&PipelineResult {
            transaction_id: TransactionId { bytes: [0xe1; 32] },
            confirming_block_hashes: vec![BlockHash { bytes: [0xb0; 32] }]
        })
    );
}

#[test]
fn chained_input_is_output_zero_of_the_result() {
    let result = PipelineResult {
        transaction_id: TransactionId { bytes: [0x42; 32] },
        confirming_block_hashes: Vec::new(),
    };
    assert_eq!(
        chained_input(&result),
        OutputReference { transaction_id: TransactionId { bytes: [0x42; 32] }, output_index: 0 }
    );
    assert_eq!(CHAINED_OUTPUT_INDEX, 0);
    assert_eq!(INTERMEDIATE_BLOCKS, 1);
}

#[test]
fn first_run_is_confirmed_by_one_block_and_the_second_by_the_plan() {
    let (chain, _) = Orchestrator::start(chain_plan());
    let mut replies = first_run_replies(0xe1);
    replies.pop();
    let (chain, request, _) = advance(chain, replies);
    assert_eq!(chain.stage(), Stage::Confirming);
    assert_eq!(
        request,
        Some(NodeRequest::GenerateToAddress { count: 1, address: address("bcrt1qfirst") })
    );
    let (chain, _, _) = advance(
        chain,
        vec![
            NodeReply::Generated { block_hashes: vec![BlockHash { bytes: [0xb0; 32] }] },
            NodeReply::RawTransaction { raw: vec![4] },
            NodeReply::Funded { raw: vec![5] },
            NodeReply::Signed { raw: vec![6], complete: true },
        ],
    );
    let (chain, request) =
        chain.step(NodeReply::Sent { transaction_id: TransactionId { bytes: [0xe2; 32] } });
    assert!(chain.in_second_run());
    assert_eq!(chain.stage(), Stage::Confirming);
    assert_eq!(
        request,
        Some(NodeRequest::GenerateToAddress { count: 101, address: address("bcrt1qfirst") })
    );
}

#[test]
fn two_runs_complete_with_both_results() {
    let (chain, _) = Orchestrator::start(chain_plan());
    let (chain, _, _) = advance(chain, first_run_replies(0xe1));
    let final_blocks: Vec<BlockHash> = (0..101u8).map(|i| BlockHash { bytes: [i; 32] }).collect();
    let (chain, request, asked) = advance(
        chain,
        vec![
            NodeReply::RawTransaction { raw: vec![4] },
            NodeReply::Funded { raw: vec![5] },
            NodeReply::Signed { raw: vec![6], complete: true },
            NodeReply::Sent { transaction_id: TransactionId { bytes: [0xe2; 32] } },
            NodeReply::Generated { block_hashes: final_blocks.clone() },
        ],
    );
    assert_eq!(request, None);
    assert_eq!(chain.stage(), Stage::Done);
    assert!(chain.failure().is_none());
    assert_eq!(asked.len(), 4);
    assert_eq!(chain.first_result().unwrap().transaction_id.bytes, [0xe1; 32]);
    assert_eq!(chain.first_result().unwrap().confirming_block_hashes.len(), 1);
    let second = chain.second_result().unwrap();
    assert_eq!(second.transaction_id.bytes, [0xe2; 32]);
    assert_eq!(second.confirming_block_hashes, final_blocks);
}

#[test]
fn listing_is_asked_for_once() {
    let (chain, first_request) = Orchestrator::start(chain_plan());
    assert_eq!(first_request, Some(NodeRequest::ListUnspent));
    let (chain, _, mut asked) = advance(chain, first_run_replies(0xe1));
    let (_, _, more) = advance(
        chain,
        vec![
            NodeReply::RawTransaction { raw: vec![4] },
            NodeReply::Funded { raw: vec![5] },
            NodeReply::Signed { raw: vec![6], complete: true },
            NodeReply::Sent { transaction_id: TransactionId { bytes: [0xe2; 32] } },
            NodeReply::Generated { block_hashes: vec![BlockHash { bytes: [1; 32] }] },
        ],
    );
    asked.extend(more);
    assert_eq!(asked.len(), 10);
    for request in &asked {
        assert_ne!(request, &NodeRequest::ListUnspent);
    }
}

#[test]
fn failure_of_the_first_run_stops_the_chain() {
    let (chain, _) = Orchestrator::start(chain_plan());
    let (chain, request) = chain.step(NodeReply::Unspent { listing: Vec::new() });
    assert_eq!(request, None);
    assert!(!chain.in_second_run());
    assert_eq!(chain.failure(), Some((Stage::Selecting, &FailureKind::NoSpendableOutput)));
    let (chain, request) = chain.step(NodeReply::Unspent { listing: listing() });
    assert_eq!(request, None);
    assert!(!chain.in_second_run());
    assert_eq!(chain.failure(), Some((Stage::Selecting, &FailureKind::NoSpendableOutput)));
    assert!(chain.first_result().is_none());
    assert!(chain.second_result().is_none());
}

#[test]
fn second_run_does_not_begin_before_the_confirming_block() {
    let (chain, _) = Orchestrator::start(chain_plan());
    let mut replies = first_run_replies(0xe1);
    replies.pop();
    let (chain, _, _) = advance(chain, replies);
    assert!(!chain.in_second_run());
    let (chain, request) =
        chain.step(NodeReply::Failure { fault: RemoteFault::Unreachable });
    assert_eq!(request, None);
    assert!(!chain.in_second_run());
    assert_eq!(chain.failure(), Some((Stage::Confirming, &FailureKind::ConnectionFailed)));
}

#[test]
fn second_run_does_not_begin_without_a_confirming_block() {
    let (chain, _) = Orchestrator::start(chain_plan());
    let mut replies = first_run_replies(0xe1);
    replies.pop();
    replies.push(NodeReply::Generated { block_hashes: Vec::new() });
    let (chain, request, _) = advance(chain, replies);
    assert_eq!(request, None);
    assert!(!chain.in_second_run());
    assert_eq!(chain.stage(), Stage::Failed);
    assert!(chain.first_result().is_none());
}

#[test]
fn failure_of_the_second_run_keeps_the_first_result() {
    let (chain, _) = Orchestrator::start(chain_plan());
    let (chain, _, _) = advance(chain, first_run_replies(0xe1));
    let (chain, request, _) = advance(
        chain,
        vec![
            NodeReply::RawTransaction { raw: vec![4] },
            NodeReply::Failure {
                fault: RemoteFault::Refused {
                    code: -4,
                    message: "Insufficient funds".to_string(),
                },
            },
        ],
    );
    assert_eq!(request, None);
    assert!(chain.in_second_run());
    assert_eq!(chain.failure(), Some((Stage::Funding, &FailureKind::FundingFailed)));
    assert_eq!(chain.first_result().unwrap().transaction_id.bytes, [0xe1; 32]);
    assert!(chain.second_result().is_none());
}

#[test]
fn second_payment_that_cannot_be_built_fails_without_a_request() {
    let mut plan = chain_plan();
    plan.second.amount = 0;
    let (chain, _) = Orchestrator::start(plan);
    let (chain, request, _) = advance(chain, first_run_replies(0xe1));
    assert_eq!(request, None);
    assert!(chain.in_second_run());
    assert_eq!(chain.failure(), Some((Stage::Building, &FailureKind::InvalidAmount)));

    let mut plan = chain_plan();
    plan.second.destination = Address { text: "tb1q".to_string(), network: Network::Testnet };
    let (chain, _) = Orchestrator::start(plan);
    let (chain, request, _) = advance(chain, first_run_replies(0xe1));
    assert_eq!(request, None);
    assert_eq!(chain.failure(), Some((Stage::Building, &FailureKind::NetworkMismatch)));
}

#[test]
fn incomplete_signature_in_either_run_asks_for_no_broadcast() {
    let (chain, _) = Orchestrator::start(chain_plan());
    let (chain, request, asked) = advance(
        chain,
        vec![
            NodeReply::Unspent { listing: listing() },
            NodeReply::RawTransaction { raw: vec![1] },
            NodeReply::Funded { raw: vec![2] },
            NodeReply::Signed { raw: vec![3], complete: false },
        ],
    );
    assert_eq!(request, None);
    assert_eq!(chain.failure(), Some((Stage::Signing, &FailureKind::IncompleteSignature)));
    for made in &asked {
        assert!(!matches!(made, NodeRequest::SendRawTransaction { .. }));
    }

    let (chain, _) = Orchestrator::start(chain_plan());
    let (chain, _, _) = advance(chain, first_run_replies(0xe1));
    let (chain, request, asked) = advance(
        chain,
        vec![
            NodeReply::RawTransaction { raw: vec![4] },
            NodeReply::Funded { raw: vec![5] },
            NodeReply::Signed { raw: vec![6], complete: false },
        ],
    );
    assert_eq!(request, None);
    assert!(chain.in_second_run());
    assert_eq!(chain.failure(), Some((Stage::Signing, &FailureKind::IncompleteSignature)));
    for made in &asked {
        assert!(!matches!(made, NodeRequest::SendRawTransaction { .. }));
    }
}
