//! One run of the pipeline as a state machine. A run starts from the node's
//! listing of unspent outputs, or from an output that is already known. Each
//! step takes the node's reply to the last request and gives the next state
//! with the next request; a run that has ended gives no request.

use crate::builder::{build_transaction, built};
use crate::failure::{
    classified, classify, unexpected_reply, unexpected_reply_failure, FailureKind,
    FailureKindView, Stage,
};
use crate::ledger::{Address, AddressView, Network, OutputReference, Payment, PaymentView, TransactionId};
use crate::node::{
    create_raw_transaction, creation_request, generate_to_address, generation_request, NodeReply,
    NodeReplyView, NodeRequest, NodeRequestView,
};
use crate::selector::{select_output, selected};
use crate::stages::{
    accept_funding, broadcast_request, check_signature, confirm, confirmed, funded,
    funding_request, request_broadcast, request_funding, request_signature, signature_checked,
    signing_request,
};
use crate::transaction::{PipelineResult, PipelineResultView};
use vstd::prelude::*;

verus! {

/// What one run is to do.
#[derive(Clone, Debug, PartialEq, Eq)]
pub struct RunPlan {
    /// The network that the node serves.
    pub network: Network,
    /// What the transaction pays, and to whom.
    pub payment: Payment,
    /// The fee rate that the node is asked to fund at.
    pub fee_rate: i64,
    /// The address that the confirming blocks pay their reward to.
    pub confirm_address: Address,
    /// How many blocks confirm the transaction: at least one.
    pub confirm_blocks: u64,
}

/// What a [`RunPlan`] stands for.
pub struct RunPlanView {
    pub network: Network,
    pub payment: PaymentView,
    pub fee_rate: int,
    pub confirm_address: AddressView,
    pub confirm_blocks: nat,
}

impl View for RunPlan {
    type V = RunPlanView;

    open spec fn view(&self) -> RunPlanView {
        RunPlanView {
            network: self.network,
            payment: self.payment@,
            fee_rate: self.fee_rate as int,
            confirm_address: self.confirm_address@,
            confirm_blocks: self.confirm_blocks as nat,
        }
    }
}

impl RunPlanView {
    /// Whether the plan asks for at least one confirming block.
    pub open spec fn well_formed(self) -> bool {
        self.confirm_blocks >= 1
    }
}

/// Where a run stands, with what it has to remember there.
pub enum RunStateView {
    /// The listing of unspent outputs has been asked for.
    Selecting,
    /// The transaction is built, and its serialised form has been asked for.
    Building,
    /// The funding of the serialised transaction has been asked for.
    Funding,
    /// The signing of the funded transaction has been asked for.
    Signing,
    /// The relay of the completely signed transaction has been asked for.
    Broadcasting,
    /// The node relays the transaction, and the confirming blocks have been
    /// asked for.
    Confirming { transaction_id: TransactionId },
    /// The run has reached its end: at least one block confirms what it
    /// broadcast.
    Done { result: PipelineResultView },
    /// The run has failed at `stage`.
    Failed { stage: Stage, kind: FailureKindView },
}

/// What a [`Pipeline`] stands for: the plan and the state of one run.
pub struct PipelineView {
    pub plan: RunPlanView,
    pub state: RunStateView,
}

impl PipelineView {
    /// The stage that the run has reached.
    pub open spec fn stage(self) -> Stage {
        match self.state {
            RunStateView::Selecting => Stage::Selecting,
            RunStateView::Building => Stage::Building,
            RunStateView::Funding => Stage::Funding,
            RunStateView::Signing => Stage::Signing,
            RunStateView::Broadcasting => Stage::Broadcasting,
            RunStateView::Confirming { .. } => Stage::Confirming,
            RunStateView::Done { .. } => Stage::Done,
            RunStateView::Failed { .. } => Stage::Failed,
        }
    }

    /// Whether the plan is well formed, a failure names the stage at which it
    /// occurred, which is none of the two ends of a run, and a result names
    /// at least one confirming block.
    pub open spec fn well_formed(self) -> bool {
        &&& self.plan.well_formed()
        &&& self.state matches RunStateView::Failed { stage, .. } ==> !stage.is_terminal()
        &&& self.state matches RunStateView::Done { result } ==> result.is_confirmed()
    }
}

/// A state of a run with the request to make next, if there is one.
pub type Step = (PipelineView, Option<NodeRequestView>);

/// The end of a run of `plan` that fails at `stage` with `kind`. No request
/// follows a failure.
pub open spec fn failed(plan: RunPlanView, stage: Stage, kind: FailureKindView) -> Step {
    (PipelineView { plan, state: RunStateView::Failed { stage, kind } }, None)
}

/// The end of a run of `plan` whose request at `stage` met `reply`, where
/// `reply` is not the answer that the stage waits for: the failure that the
/// reply reports, classified for the stage, or an unexpected reply.
pub open spec fn refused(plan: RunPlanView, stage: Stage, reply: NodeReplyView) -> Step {
    match reply {
        NodeReplyView::Failure { fault } => failed(plan, stage, classified(stage, fault)),
        _ => failed(plan, stage, unexpected_reply()),
    }
}

/// The start of a run of `plan` that selects its input from the node's
/// listing: the listing is asked for.
pub open spec fn begun_from_listing(plan: RunPlanView) -> Step {
    (PipelineView { plan, state: RunStateView::Selecting }, Some(NodeRequestView::ListUnspent))
}

/// The start of a run of `plan` that spends `input`: the transaction is
/// built and its serialised form asked for, or the run fails at `Building`
/// before any request is made.
pub open spec fn begun_from_output(plan: RunPlanView, input: OutputReference) -> Step {
    match built(input, plan.payment, plan.network) {
        Ok(transaction) => match creation_request(transaction, plan.network) {
            Ok(request) => (PipelineView { plan, state: RunStateView::Building }, Some(request)),
            Err(kind) => failed(plan, Stage::Building, kind),
        },
        Err(kind) => failed(plan, Stage::Building, kind),
    }
}

/// The step that a run takes on `reply`.
///
/// A run that has ended stays as it is. Otherwise the reply that the stage
/// waits for moves the run to the next stage, with the request of that stage,
/// or ends it with the failure that the next stage finds; any other reply
/// ends the run at the stage it has reached.
pub open spec fn stepped(pipeline: PipelineView, reply: NodeReplyView) -> Step {
    let plan = pipeline.plan;
    match pipeline.state {
        RunStateView::Selecting => match reply {
            NodeReplyView::Unspent { listing } => match selected(listing) {
                Ok(input) => begun_from_output(plan, input),
                Err(kind) => failed(plan, Stage::Selecting, kind),
            },
            _ => refused(plan, Stage::Selecting, reply),
        },
        RunStateView::Building => match reply {
            NodeReplyView::RawTransaction { raw } => match funding_request(raw, plan.fee_rate) {
                Ok(request) => (PipelineView { plan, state: RunStateView::Funding }, Some(request)),
                Err(kind) => failed(plan, Stage::Funding, kind),
            },
            _ => refused(plan, Stage::Building, reply),
        },
        RunStateView::Funding => match reply {
            NodeReplyView::Funded { raw } => (
                PipelineView { plan, state: RunStateView::Signing },
                Some(signing_request(funded(raw))),
            ),
            _ => refused(plan, Stage::Funding, reply),
        },
        RunStateView::Signing => match reply {
            NodeReplyView::Signed { raw, complete } => match signature_checked(raw, complete) {
                Ok(transaction) => match broadcast_request(transaction) {
                    Ok(request) => (
                        PipelineView { plan, state: RunStateView::Broadcasting },
                        Some(request),
                    ),
                    Err(kind) => failed(plan, Stage::Broadcasting, kind),
                },
                Err(kind) => failed(plan, Stage::Signing, kind),
            },
            _ => refused(plan, Stage::Signing, reply),
        },
        RunStateView::Broadcasting => match reply {
            NodeReplyView::Sent { transaction_id } => match generation_request(
                plan.confirm_blocks,
                plan.confirm_address,
                plan.network,
            ) {
                Ok(request) => (
                    PipelineView { plan, state: RunStateView::Confirming { transaction_id } },
                    Some(request),
                ),
                Err(kind) => failed(plan, Stage::Confirming, kind),
            },
            _ => refused(plan, Stage::Broadcasting, reply),
        },
        RunStateView::Confirming { transaction_id } => match reply {
            NodeReplyView::Generated { block_hashes } => match confirmed(
                transaction_id,
                block_hashes,
            ) {
                Ok(result) => (PipelineView { plan, state: RunStateView::Done { result } }, None),
                Err(kind) => failed(plan, Stage::Confirming, kind),
            },
            _ => refused(plan, Stage::Confirming, reply),
        },
        RunStateView::Done { .. } => (pipeline, None),
        RunStateView::Failed { .. } => (pipeline, None),
    }
}

enum RunState {
    Selecting,
    Building,
    Funding,
    Signing,
    Broadcasting,
    Confirming { transaction_id: TransactionId },
    Done { result: PipelineResult },
    Failed { stage: Stage, kind: FailureKind },
}

impl View for RunState {
    type V = RunStateView;

    closed spec fn view(&self) -> RunStateView {
        match self {
            RunState::Selecting => RunStateView::Selecting,
            RunState::Building => RunStateView::Building,
            RunState::Funding => RunStateView::Funding,
            RunState::Signing => RunStateView::Signing,
            RunState::Broadcasting => RunStateView::Broadcasting,
            RunState::Confirming { transaction_id } => RunStateView::Confirming {
                transaction_id: *transaction_id,
            },
            RunState::Done { result } => RunStateView::Done { result: result@ },
            RunState::Failed { stage, kind } => RunStateView::Failed { stage: *stage, kind: kind@ },
        }
    }
}

/// One run of the pipeline: its plan and the state it has reached.
pub struct Pipeline {
    plan: RunPlan,
    state: RunState,
}

impl View for Pipeline {
    type V = PipelineView;

    closed spec fn view(&self) -> PipelineView {
        PipelineView { plan: self.plan@, state: self.state@ }
    }
}

impl Pipeline {
    #[verifier::type_invariant]
    spec fn holds_together(self) -> bool {
        self@.well_formed()
    }

    fn fail(plan: RunPlan, stage: Stage, kind: FailureKind) -> (next: (Pipeline, Option<NodeRequest>))
        requires
            plan@.well_formed(),
            !stage.is_terminal(),
        ensures
            (next.0@, next.1.deep_view()) == failed(plan@, stage, kind@),
            next.0@.well_formed(),
    {
        (Pipeline { plan, state: RunState::Failed { stage, kind } }, None)
    }

    fn refuse(plan: RunPlan, stage: Stage, reply: NodeReply) -> (next: (
        Pipeline,
        Option<NodeRequest>,
    ))
        requires
            plan@.well_formed(),
            !stage.is_terminal(),
        ensures
            (next.0@, next.1.deep_view()) == refused(plan@, stage, reply@),
            next.0@.well_formed(),
    {
        match reply {
            NodeReply::Failure { fault } => {
                let kind = classify(stage, fault);
                Pipeline::fail(plan, stage, kind)
            },
            _ => Pipeline::fail(plan, stage, unexpected_reply_failure()),
        }
    }

    /// Starts a run that selects its input from the node's listing of
    /// unspent outputs.
    pub fn from_listing(plan: RunPlan) -> (next: (Pipeline, Option<NodeRequest>))
        requires
            plan@.well_formed(),
        ensures
            (next.0@, next.1.deep_view()) == begun_from_listing(plan@),
            next.0@.well_formed(),
    {
        (Pipeline { plan, state: RunState::Selecting }, Some(NodeRequest::ListUnspent))
    }

    /// Starts a run that spends `input`. The listing of unspent outputs is
    /// not asked for.
    pub fn from_output(plan: RunPlan, input: OutputReference) -> (next: (
        Pipeline,
        Option<NodeRequest>,
    ))
        requires
            plan@.well_formed(),
        ensures
            (next.0@, next.1.deep_view()) == begun_from_output(plan@, input),
            next.0@.well_formed(),
    {
        let destination = plan.payment.destination.clone();
        match build_transaction(input, destination, plan.payment.amount, plan.network) {
            Ok(transaction) => match create_raw_transaction(transaction, plan.network) {
                Ok(request) => (Pipeline { plan, state: RunState::Building }, Some(request)),
                Err(kind) => Pipeline::fail(plan, Stage::Building, kind),
            },
            Err(kind) => Pipeline::fail(plan, Stage::Building, kind),
        }
    }

    /// Takes the node's reply to the request that the last step gave, and
    /// gives the next state with the next request.
    pub fn step(self, reply: NodeReply) -> (next: (Pipeline, Option<NodeRequest>))
        ensures
            (next.0@, next.1.deep_view()) == stepped(self@, reply@),
            self@.well_formed(),
            next.0@.well_formed(),
    {
        proof {
            use_type_invariant(&self);
        }
        let Pipeline { plan, state } = self;
        match state {
            RunState::Selecting => match reply {
                NodeReply::Unspent { listing } => match select_output(&listing) {
                    Ok(input) => Pipeline::from_output(plan, input),
                    Err(kind) => Pipeline::fail(plan, Stage::Selecting, kind),
                },
                _ => Pipeline::refuse(plan, Stage::Selecting, reply),
            },
            RunState::Building => match reply {
                NodeReply::RawTransaction { raw } => match request_funding(raw, plan.fee_rate) {
                    Ok(request) => (Pipeline { plan, state: RunState::Funding }, Some(request)),
                    Err(kind) => Pipeline::fail(plan, Stage::Funding, kind),
                },
                _ => Pipeline::refuse(plan, Stage::Building, reply),
            },
            RunState::Funding => match reply {
                NodeReply::Funded { raw } => {
                    let request = request_signature(accept_funding(raw));
                    (Pipeline { plan, state: RunState::Signing }, Some(request))
                },
                _ => Pipeline::refuse(plan, Stage::Funding, reply),
            },
            RunState::Signing => match reply {
                NodeReply::Signed { raw, complete } => match check_signature(raw, complete) {
                    Ok(transaction) => match request_broadcast(transaction) {
                        Ok(request) => (
                            Pipeline { plan, state: RunState::Broadcasting },
                            Some(request),
                        ),
                        Err(kind) => Pipeline::fail(plan, Stage::Broadcasting, kind),
                    },
                    Err(kind) => Pipeline::fail(plan, Stage::Signing, kind),
                },
                _ => Pipeline::refuse(plan, Stage::Signing, reply),
            },
            RunState::Broadcasting => match reply {
                NodeReply::Sent { transaction_id } => {
                    let address = plan.confirm_address.clone();
                    match generate_to_address(plan.confirm_blocks, address, plan.network) {
                        Ok(request) => (
                            Pipeline { plan, state: RunState::Confirming { transaction_id } },
                            Some(request),
                        ),
                        Err(kind) => Pipeline::fail(plan, Stage::Confirming, kind),
                    }
                },
                _ => Pipeline::refuse(plan, Stage::Broadcasting, reply),
            },
            RunState::Confirming { transaction_id } => match reply {
                NodeReply::Generated { block_hashes } => match confirm(
                    transaction_id,
                    block_hashes,
                ) {
                    Ok(result) => (Pipeline { plan, state: RunState::Done { result } }, None),
                    Err(kind) => Pipeline::fail(plan, Stage::Confirming, kind),
                },
                _ => Pipeline::refuse(plan, Stage::Confirming, reply),
            },
            RunState::Done { result } => (Pipeline { plan, state: RunState::Done { result } }, None),
            RunState::Failed { stage, kind } => (
                Pipeline { plan, state: RunState::Failed { stage, kind } },
                None,
            ),
        }
    }

    /// The stage that the run has reached.
    pub fn stage(&self) -> (stage: Stage)
        ensures
            stage == self@.stage(),
    {
        match &self.state {
            RunState::Selecting => Stage::Selecting,
            RunState::Building => Stage::Building,
            RunState::Funding => Stage::Funding,
            RunState::Signing => Stage::Signing,
            RunState::Broadcasting => Stage::Broadcasting,
            RunState::Confirming { .. } => Stage::Confirming,
            RunState::Done { .. } => Stage::Done,
            RunState::Failed { .. } => Stage::Failed,
        }
    }

    /// The stage at which the run failed and the kind of the failure, where
    /// it has failed.
    pub fn failure(&self) -> (failure: Option<(Stage, &FailureKind)>)
        ensures
            match failure {
                Some((stage, kind)) => self@.state == (RunStateView::Failed { stage, kind: kind@ }),
                None => !(self@.state is Failed),
            },
    {
        match &self.state {
            RunState::Failed { stage, kind } => Some((*stage, kind)),
            _ => None,
        }
    }

    /// Gives up the run for what it has achieved, where it has reached its
    /// end; any other run is handed back as it is.
    pub fn into_result(self) -> (result: Result<PipelineResult, Pipeline>)
        ensures
            match result {
                Ok(result) => self@.state == (RunStateView::Done { result: result@ }),
                Err(run) => run@ == self@ && !(self@.state is Done),
            },
    {
        proof {
            use_type_invariant(&self);
        }
        let Pipeline { plan, state } = self;
        match state {
            RunState::Done { result } => Ok(result),
            other => Err(Pipeline { plan, state: other }),
        }
    }

    /// What the run has achieved, where it has reached its end.
    pub fn result(&self) -> (result: Option<&PipelineResult>)
        ensures
            match result {
                Some(result) => self@.state == (RunStateView::Done { result: result@ }),
                None => !(self@.state is Done),
            },
    {
        match &self.state {
            RunState::Done { result } => Some(result),
            _ => None,
        }
    }
}

} // verus!
