//! Why a run stops: the kinds of failure, the stage at which one occurred,
//! and how a failure reported by the node is classified.

use vstd::prelude::*;

verus! {

/// The stages of one run, in the order in which a run passes through them.
/// `Done` and `Failed` are the two ways in which a run ends.
#[derive(Clone, Copy, Debug, PartialEq, Eq, Hash, Structural)]
pub enum Stage {
    Selecting,
    Building,
    Funding,
    Signing,
    Broadcasting,
    Confirming,
    Done,
    Failed,
}

impl Stage {
    /// Whether a run that has reached this stage has ended.
    pub open spec fn is_terminal(self) -> bool {
        self == Stage::Done || self == Stage::Failed
    }

    /// Whether a run that has reached this stage has ended.
    pub fn terminal(&self) -> (terminal: bool)
        ensures
            terminal == self.is_terminal(),
    {
        match self {
            Stage::Done => true,
            Stage::Failed => true,
            _ => false,
        }
    }
}

/// The code of a [`FailureKind::RemoteError`] that stands for an answer of the
/// node that carries no code of its own: one that could not be read, or that
/// does not answer the request that was made.
pub const UNREADABLE_REPLY: i32 = 0;

/// The message of the [`FailureKind::RemoteError`] that reports an answer to
/// another request than the one that was made.
pub open spec fn unexpected_reply_message() -> Seq<char> {
    "the reply does not answer the request"@
}

/// The kinds of failure that end a run.
#[derive(Clone, Debug, PartialEq, Eq)]
pub enum FailureKind {
    /// The node could not be reached.
    ConnectionFailed,
    /// An address belongs to another network than the configured one.
    NetworkMismatch,
    /// The node lists no unspent output.
    NoSpendableOutput,
    /// An amount or a fee rate is not strictly positive.
    InvalidAmount,
    /// The node refused to fund the transaction.
    FundingFailed,
    /// The wallet did not sign every input.
    IncompleteSignature,
    /// The node refused to relay the transaction, for the reason given.
    BroadcastRejected { reason: String },
    /// Any other failure that the node reported.
    RemoteError { code: i32, message: String },
}

/// What a [`FailureKind`] stands for.
pub enum FailureKindView {
    ConnectionFailed,
    NetworkMismatch,
    NoSpendableOutput,
    InvalidAmount,
    FundingFailed,
    IncompleteSignature,
    BroadcastRejected { reason: Seq<char> },
    RemoteError { code: int, message: Seq<char> },
}

impl View for FailureKind {
    type V = FailureKindView;

    open spec fn view(&self) -> FailureKindView {
        match self {
            FailureKind::ConnectionFailed => FailureKindView::ConnectionFailed,
            FailureKind::NetworkMismatch => FailureKindView::NetworkMismatch,
            FailureKind::NoSpendableOutput => FailureKindView::NoSpendableOutput,
            FailureKind::InvalidAmount => FailureKindView::InvalidAmount,
            FailureKind::FundingFailed => FailureKindView::FundingFailed,
            FailureKind::IncompleteSignature => FailureKindView::IncompleteSignature,
            FailureKind::BroadcastRejected { reason } => FailureKindView::BroadcastRejected {
                reason: reason@,
            },
            FailureKind::RemoteError { code, message } => FailureKindView::RemoteError {
                code: *code as int,
                message: message@,
            },
        }
    }
}

/// What the result of a decision stands for: the view of what it produced,
/// or the view of the failure.
pub open spec fn outcome<T: View>(result: Result<T, FailureKind>) -> Result<T::V, FailureKindView> {
    match result {
        Ok(value) => Ok(value@),
        Err(kind) => Err(kind@),
    }
}

/// What went wrong with one remote operation, as the transport reports it.
#[derive(Clone, Debug, PartialEq, Eq)]
pub enum RemoteFault {
    /// No answer came: the request did not reach the node, or its answer did
    /// not reach the caller.
    Unreachable,
    /// The node answered with an error of its own.
    Refused { code: i32, message: String },
    /// The node answered, and the answer could not be read.
    Unreadable { message: String },
}

/// What a [`RemoteFault`] stands for.
pub enum RemoteFaultView {
    Unreachable,
    Refused { code: int, message: Seq<char> },
    Unreadable { message: Seq<char> },
}

impl View for RemoteFault {
    type V = RemoteFaultView;

    open spec fn view(&self) -> RemoteFaultView {
        match self {
            RemoteFault::Unreachable => RemoteFaultView::Unreachable,
            RemoteFault::Refused { code, message } => RemoteFaultView::Refused {
                code: *code as int,
                message: message@,
            },
            RemoteFault::Unreadable { message } => RemoteFaultView::Unreadable {
                message: message@,
            },
        }
    }
}

/// The kind of failure that a run reports when the remote operation of
/// `stage` meets `fault`.
///
/// A node that cannot be reached is `ConnectionFailed` at every stage. An
/// error of the node's own is `FundingFailed` while funding,
/// `BroadcastRejected` with the node's message while broadcasting, and a
/// `RemoteError` with the node's code and message everywhere else. An answer
/// that could not be read is a `RemoteError` with the code
/// [`UNREADABLE_REPLY`].
pub open spec fn classified(stage: Stage, fault: RemoteFaultView) -> FailureKindView {
    match fault {
        RemoteFaultView::Unreachable => FailureKindView::ConnectionFailed,
        RemoteFaultView::Refused { code, message } => match stage {
            Stage::Funding => FailureKindView::FundingFailed,
            Stage::Broadcasting => FailureKindView::BroadcastRejected { reason: message },
            _ => FailureKindView::RemoteError { code, message },
        },
        RemoteFaultView::Unreadable { message } => FailureKindView::RemoteError {
            code: UNREADABLE_REPLY as int,
            message,
        },
    }
}

/// The failure that a run reports when the node answers another request than
/// the one that was made.
pub open spec fn unexpected_reply() -> FailureKindView {
    FailureKindView::RemoteError {
        code: UNREADABLE_REPLY as int,
        message: unexpected_reply_message(),
    }
}

/// Classifies the fault that the remote operation of `stage` met.
pub fn classify(stage: Stage, fault: RemoteFault) -> (kind: FailureKind)
    ensures
        kind@ == classified(stage, fault@),
{
    match fault {
        RemoteFault::Unreachable => FailureKind::ConnectionFailed,
        RemoteFault::Refused { code, message } => match stage {
            Stage::Funding => FailureKind::FundingFailed,
            Stage::Broadcasting => FailureKind::BroadcastRejected { reason: message },
            _ => FailureKind::RemoteError { code, message },
        },
        RemoteFault::Unreadable { message } => FailureKind::RemoteError {
            code: UNREADABLE_REPLY,
            message,
        },
    }
}

/// The failure that reports an answer to another request than the one made.
pub fn unexpected_reply_failure() -> (kind: FailureKind)
    ensures
        kind@ == unexpected_reply(),
{
    FailureKind::RemoteError {
        code: UNREADABLE_REPLY,
        message: "the reply does not answer the request".to_owned(),
    }
}

} // verus!
