use utxo_pipeline::failure::{
    classify, unexpected_reply_failure, FailureKind, RemoteFault, Stage, UNREADABLE_REPLY,
};

fn refused(code: i32, message: &str) -> RemoteFault {
    RemoteFault::Refused { code, message: message.to_string() }
}

fn stages() -> Vec<Stage> {
    vec![
        Stage::Selecting,
        Stage::Building,
        Stage::Funding,
        Stage::Signing,
        Stage::Broadcasting,
        Stage::Confirming,
    ]
}

#[test]
fn unreachable_node_is_a_connection_failure_at_every_stage() {
    for stage in stages() {
        assert_eq!(classify(stage, RemoteFault::Unreachable), FailureKind::ConnectionFailed);
    }
}

#[test]
fn refusal_while_funding_is_funding_failed() {
    assert_eq!(classify(Stage::Funding, refused(-4, "Insufficient funds")), FailureKind::FundingFailed);
}

#[test]
fn refusal_while_broadcasting_carries_the_reason() {
    assert_eq!(
        classify(Stage::Broadcasting, refused(-26, "txn-mempool-conflict")),
        FailureKind::BroadcastRejected { reason: "txn-mempool-conflict".to_string() }
    );
}

#[test]
fn refusal_elsewhere_is_a_remote_error_with_code_and_message() {
    for stage in [Stage::Selecting, Stage::Building, Stage::Signing, Stage::Confirming] {
        assert_eq!(
            classify(stage, refused(-8, "Invalid parameter")),
            FailureKind::RemoteError { code: -8, message: "Invalid parameter".to_string() }
        );
    }
}

#[test]
fn unreadable_answer_is_a_remote_error_without_a_code_of_the_node() {
    for stage in stages() {
        assert_eq!(
            classify(stage, RemoteFault::Unreadable { message: "expected value".to_string() }),
            FailureKind::RemoteError {
                code: UNREADABLE_REPLY,
                message: "expected value".to_string()
            }
        );
    }
    assert_eq!(UNREADABLE_REPLY, 0);
}

#[test]
fn unexpected_reply_has_its_own_message() {
    assert_eq!(
        unexpected_reply_failure(),
        FailureKind::RemoteError {
            code: 0,
            message: "the reply does not answer the request".to_string()
        }
    );
}

#[test]
fn only_done_and_failed_are_ends() {
    for stage in stages() {
        assert!(!stage.terminal());
    }
    assert!(Stage::Done.terminal());
    assert!(Stage::Failed.terminal());
}

#[test]
fn failure_kinds_copy_faithfully() {
    let kinds = vec![
        FailureKind::ConnectionFailed,
        FailureKind::NetworkMismatch,
        FailureKind::NoSpendableOutput,
        FailureKind::InvalidAmount,
        FailureKind::FundingFailed,
        FailureKind::IncompleteSignature,
        FailureKind::BroadcastRejected { reason: "dust".to_string() },
        FailureKind::RemoteError { code: -1, message: "misc".to_string() },
    ];
    for kind in &kinds {
        assert_eq!(&kind.clone(), kind);
    }
    assert_ne!(kinds[6], FailureKind::BroadcastRejected { reason: "other".to_string() });
}
