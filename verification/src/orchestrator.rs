//! Two runs in sequence. The first selects its input from the node's listing
//! and is confirmed by one block. The second spends the first output of the
//! transaction that the first run broadcast, without looking at the listing
//! again, and is confirmed by as many blocks as the plan asks for.

use crate::failure::{FailureKind, Stage};
use crate::ledger::{Address, AddressView, Network, OutputReference, Payment, PaymentView};
use crate::node::{NodeReply, NodeReplyView, NodeRequest, NodeRequestView};
use crate::pipeline::{
    begun_from_listing, begun_from_output, stepped, Pipeline, PipelineView, RunPlan, RunPlanView,
    RunStateView,
};
use crate::transaction::{PipelineResult, PipelineResultView};
use vstd::prelude::*;

verus! {

/// How many blocks confirm the first run before the second begins.
pub const INTERMEDIATE_BLOCKS: u64 = 1;

/// The index of the output of the first run's transaction that the second
/// run spends.
pub const CHAINED_OUTPUT_INDEX: u32 = 0;

/// What the two runs are to do.
#[derive(Clone, Debug, PartialEq, Eq)]
pub struct ChainPlan {
    /// The network that the node serves.
    pub network: Network,
    /// The fee rate that the node is asked to fund both transactions at.
    pub fee_rate: i64,
    /// What the first transaction pays, and to whom.
    pub first: Payment,
    /// What the second transaction pays, and to whom.
    pub second: Payment,
    /// The address that the confirming blocks pay their reward to.
    pub confirm_address: Address,
    /// How many blocks confirm the second run, and with it both: at least one.
    pub final_blocks: u64,
}

/// What a [`ChainPlan`] stands for.
pub struct ChainPlanView {
    pub network: Network,
    pub fee_rate: int,
    pub first: PaymentView,
    pub second: PaymentView,
    pub confirm_address: AddressView,
    pub final_blocks: nat,
}

impl View for ChainPlan {
    type V = ChainPlanView;

    open spec fn view(&self) -> ChainPlanView {
        ChainPlanView {
            network: self.network,
            fee_rate: self.fee_rate as int,
            first: self.first@,
            second: self.second@,
            confirm_address: self.confirm_address@,
            final_blocks: self.final_blocks as nat,
        }
    }
}

impl ChainPlanView {
    /// Whether the plan asks for at least one block to confirm the second run.
    pub open spec fn well_formed(self) -> bool {
        self.final_blocks >= 1
    }

    /// The plan of the first run: the first payment, confirmed by one block.
    pub open spec fn first_run(self) -> RunPlanView {
        RunPlanView {
            network: self.network,
            payment: self.first,
            fee_rate: self.fee_rate,
            confirm_address: self.confirm_address,
            confirm_blocks: INTERMEDIATE_BLOCKS as nat,
        }
    }

    /// The plan of the second run: the second payment, confirmed by the
    /// plan's final blocks.
    pub open spec fn second_run(self) -> RunPlanView {
        RunPlanView {
            network: self.network,
            payment: self.second,
            fee_rate: self.fee_rate,
            confirm_address: self.confirm_address,
            confirm_blocks: self.final_blocks,
        }
    }
}

/// The input of the run that follows a run with `result`: the output of
/// index [`CHAINED_OUTPUT_INDEX`] of the transaction that the run broadcast.
pub open spec fn chained(result: PipelineResultView) -> OutputReference {
    OutputReference {
        transaction_id: result.transaction_id,
        output_index: CHAINED_OUTPUT_INDEX,
    }
}

/// Gives the input of the run that follows a run with `result`.
pub fn chained_input(result: &PipelineResult) -> (input: OutputReference)
    ensures
        input == chained(result@),
{
    OutputReference { transaction_id: result.transaction_id, output_index: CHAINED_OUTPUT_INDEX }
}

/// What an [`Orchestrator`] stands for: the run that is under way, with what
/// is kept for the other one.
pub enum OrchestratorView {
    /// The first run is under way or has failed; `second` is the plan of the
    /// run that follows it.
    First { run: PipelineView, second: RunPlanView },
    /// The first run has ended with `first`, and the second run is under way
    /// or has ended.
    Second { first: PipelineResultView, run: PipelineView },
}

impl OrchestratorView {
    /// The run that is under way or was the last to be so.
    pub open spec fn current(self) -> PipelineView {
        match self {
            OrchestratorView::First { run, .. } => run,
            OrchestratorView::Second { run, .. } => run,
        }
    }

    /// Whether both runs have reached their end.
    pub open spec fn is_complete(self) -> bool {
        self is Second && self.current().state is Done
    }

    /// Whether one of the runs has failed.
    pub open spec fn is_failed(self) -> bool {
        self.current().state is Failed
    }

    /// Whether both plans are well formed, a first run that has reached its
    /// end has been followed by the second, and the second run has begun
    /// after a block confirmed the first, and not from the listing.
    pub open spec fn well_formed(self) -> bool {
        match self {
            OrchestratorView::First { run, second } => {
                &&& run.well_formed()
                &&& second.well_formed()
                &&& !(run.state is Done)
            },
            OrchestratorView::Second { first, run } => {
                &&& first.is_confirmed()
                &&& run.well_formed()
                &&& !(run.state is Selecting)
            },
        }
    }
}

/// A state of the two runs with the request to make next, if there is one.
pub type ChainStep = (OrchestratorView, Option<NodeRequestView>);

/// The start of the two runs of `plan`: the first run starts from the
/// node's listing.
pub open spec fn chain_begun(plan: ChainPlanView) -> ChainStep {
    let (run, request) = begun_from_listing(plan.first_run());
    (OrchestratorView::First { run, second: plan.second_run() }, request)
}

/// The step that the two runs take on `reply`.
///
/// The run that is under way takes the step. Where that brings the first run
/// to its end, the second run starts at once, from the chained output of the
/// first run's transaction.
pub open spec fn chain_stepped(orchestrator: OrchestratorView, reply: NodeReplyView) -> ChainStep {
    match orchestrator {
        OrchestratorView::First { run, second } => {
            let (next, request) = stepped(run, reply);
            match next.state {
                RunStateView::Done { result } => {
                    let (started, first_request) = begun_from_output(second, chained(result));
                    (OrchestratorView::Second { first: result, run: started }, first_request)
                },
                _ => (OrchestratorView::First { run: next, second }, request),
            }
        },
        OrchestratorView::Second { first, run } => {
            let (next, request) = stepped(run, reply);
            (OrchestratorView::Second { first, run: next }, request)
        },
    }
}

enum Phase {
    First { run: Pipeline, second: RunPlan },
    Second { first: PipelineResult, run: Pipeline },
}

/// The two runs in sequence, with the state that links them.
pub struct Orchestrator {
    phase: Phase,
}

impl View for Orchestrator {
    type V = OrchestratorView;

    closed spec fn view(&self) -> OrchestratorView {
        match self.phase {
            Phase::First { run, second } => OrchestratorView::First { run: run@, second: second@ },
            Phase::Second { first, run } => OrchestratorView::Second { first: first@, run: run@ },
        }
    }
}

impl Orchestrator {
    #[verifier::type_invariant]
    spec fn holds_together(self) -> bool {
        self@.well_formed()
    }

    /// Starts the two runs of `plan`.
    pub fn start(plan: ChainPlan) -> (next: (Orchestrator, Option<NodeRequest>))
        requires
            plan@.well_formed(),
        ensures
            (next.0@, next.1.deep_view()) == chain_begun(plan@),
            next.0@.well_formed(),
    {
        let ChainPlan { network, fee_rate, first, second, confirm_address, final_blocks } = plan;
        let first_plan = RunPlan {
            network,
            payment: first,
            fee_rate,
            confirm_address: confirm_address.clone(),
            confirm_blocks: INTERMEDIATE_BLOCKS,
        };
        let second_plan = RunPlan {
            network,
            payment: second,
            fee_rate,
            confirm_address,
            confirm_blocks: final_blocks,
        };
        let (run, request) = Pipeline::from_listing(first_plan);
        (Orchestrator { phase: Phase::First { run, second: second_plan } }, request)
    }

    /// Takes the node's reply to the request that the last step gave, and
    /// gives the next state with the next request.
    pub fn step(self, reply: NodeReply) -> (next: (Orchestrator, Option<NodeRequest>))
        ensures
            (next.0@, next.1.deep_view()) == chain_stepped(self@, reply@),
            self@.well_formed(),
            next.0@.well_formed(),
    {
        proof {
            use_type_invariant(&self);
        }
        let Orchestrator { phase } = self;
        match phase {
            Phase::First { run, second } => {
                let (next, request) = run.step(reply);
                match next.into_result() {
                    Ok(first) => {
                        let input = chained_input(&first);
                        let (started, first_request) = Pipeline::from_output(second, input);
                        (Orchestrator { phase: Phase::Second { first, run: started } }, first_request)
                    },
                    Err(next) => (Orchestrator { phase: Phase::First { run: next, second } }, request),
                }
            },
            Phase::Second { first, run } => {
                let (next, request) = run.step(reply);
                (Orchestrator { phase: Phase::Second { first, run: next } }, request)
            },
        }
    }

    /// Whether the second run has begun.
    pub fn in_second_run(&self) -> (second: bool)
        ensures
            second == (self@ is Second),
    {
        match &self.phase {
            Phase::First { .. } => false,
            Phase::Second { .. } => true,
        }
    }

    /// The stage that the run under way has reached.
    pub fn stage(&self) -> (stage: Stage)
        ensures
            stage == self@.current().stage(),
    {
        match &self.phase {
            Phase::First { run, .. } => run.stage(),
            Phase::Second { run, .. } => run.stage(),
        }
    }

    /// The stage at which a run failed and the kind of the failure, where one
    /// has failed.
    pub fn failure(&self) -> (failure: Option<(Stage, &FailureKind)>)
        ensures
            match failure {
                Some((stage, kind)) => self@.current().state == (RunStateView::Failed {
                    stage,
                    kind: kind@,
                }),
                None => !self@.is_failed(),
            },
    {
        match &self.phase {
            Phase::First { run, .. } => run.failure(),
            Phase::Second { run, .. } => run.failure(),
        }
    }

    /// What the first run has achieved, where it has reached its end.
    pub fn first_result(&self) -> (result: Option<&PipelineResult>)
        ensures
            match result {
                Some(result) => self@ is Second && self@->first == result@,
                None => self@ is First,
            },
    {
        match &self.phase {
            Phase::First { .. } => None,
            Phase::Second { first, .. } => Some(first),
        }
    }

    /// What the second run has achieved, where it has reached its end.
    pub fn second_result(&self) -> (result: Option<&PipelineResult>)
        ensures
            match result {
                Some(result) => self@.is_complete() && self@.current().state == (
                RunStateView::Done { result: result@ }),
                None => !self@.is_complete(),
            },
    {
        proof {
            use_type_invariant(self);
        }
        match &self.phase {
            Phase::First { .. } => None,
            Phase::Second { run, .. } => run.result(),
        }
    }
}

} // verus!
