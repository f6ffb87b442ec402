//! What holds of the pipeline as a whole, stated over the model of its
//! states, requests and replies, and proved from the definitions of the
//! single steps.

use crate::builder::built;
use crate::failure::{FailureKindView, RemoteFaultView, Stage};
use crate::ledger::{BlockHash, OutputReference, TransactionId, UnspentOutput};
use crate::node::{creation_request, NodeReplyView, NodeRequestView};
use crate::orchestrator::{chain_begun, chain_stepped, chained, ChainPlanView, OrchestratorView};
use crate::pipeline::{
    begun_from_listing, begun_from_output, failed, stepped, PipelineView, RunPlanView,
    RunStateView, Step,
};
use crate::selector::selected;
use crate::transaction::{
    FundedTransactionView, PipelineResultView, SignedTransactionView, UnsignedTransactionView,
};
use vstd::prelude::*;

verus! {

/// Whether `plan` names a payment that can be built: a strictly positive
/// amount, to an address of the plan's network.
pub open spec fn payable(plan: RunPlanView) -> bool {
    &&& plan.payment.amount > 0
    &&& plan.payment.destination.network == plan.network
}

/// The stage that follows `stage` where nothing fails. The two ends of a run
/// follow themselves.
pub open spec fn following(stage: Stage) -> Stage {
    match stage {
        Stage::Selecting => Stage::Building,
        Stage::Building => Stage::Funding,
        Stage::Funding => Stage::Signing,
        Stage::Signing => Stage::Broadcasting,
        Stage::Broadcasting => Stage::Confirming,
        Stage::Confirming => Stage::Done,
        Stage::Done => Stage::Done,
        Stage::Failed => Stage::Failed,
    }
}

/// What the builder builds has exactly one input and exactly one output
/// entry, its outputs are a mapping, and the node client makes the request
/// to serialise it.
pub proof fn lemma_built_is_single(
    input: OutputReference,
    plan: RunPlanView,
)
    requires
        payable(plan),
    ensures
        built(input, plan.payment, plan.network) matches Ok(transaction) && {
            &&& transaction.inputs == seq![input]
            &&& transaction.outputs == seq![plan.payment]
            &&& transaction.inputs.len() == 1
            &&& transaction.outputs.len() == 1
            &&& transaction.is_mapping()
            &&& creation_request(transaction, plan.network) is Ok
        },
{
}

/// Build, fund, sign. For every input, every payment of a strictly positive
/// amount to an address of the plan's network, and every strictly positive
/// fee rate: the run that spends the input asks for the serialised form of
/// the transaction with exactly that input and that payment. Whatever form
/// the node returns, the run asks to fund it at the plan's rate. Where the
/// node funds it, the run asks the wallet to sign what the node returned;
/// and where the wallet signs completely, the run reaches `Broadcasting`
/// with a signed transaction whose `complete` is true. Where the node
/// refuses to fund, the run fails at `Funding` with `FundingFailed`, and
/// makes no further request.
pub proof fn lemma_build_fund_sign(
    plan: RunPlanView,
    input: OutputReference,
    serialised: Seq<u8>,
    funded_raw: Seq<u8>,
    signed_raw: Seq<u8>,
    code: int,
    message: Seq<char>,
)
    requires
        payable(plan),
        plan.fee_rate > 0,
    ensures
        ({
            let (built_run, creation) = begun_from_output(plan, input);
            let (funding, fund) = stepped(
                built_run,
                (NodeReplyView::RawTransaction { raw: serialised }),
            );
            let (signing, sign) = stepped(funding, (NodeReplyView::Funded { raw: funded_raw }));
            let (broadcasting, send) = stepped(
                signing,
                (NodeReplyView::Signed { raw: signed_raw, complete: true }),
            );
            let (unfunded, after) = stepped(
                funding,
                (NodeReplyView::Failure {
                    fault: RemoteFaultView::Refused { code, message },
                }),
            );
            &&& built_run.state is Building
            &&& creation == Some(
                (NodeRequestView::CreateRawTransaction {
                    unsigned: UnsignedTransactionView::single(input, plan.payment),
                }),
            )
            &&& funding.state is Funding
            &&& fund == Some(
                (NodeRequestView::FundRawTransaction { raw: serialised, fee_rate: plan.fee_rate }),
            )
            &&& signing.state is Signing
            &&& sign == Some(
                (NodeRequestView::SignRawTransactionWithWallet {
                    funded: FundedTransactionView { raw: funded_raw, fee_applied: true },
                }),
            )
            &&& broadcasting.state is Broadcasting
            &&& send == Some(
                (NodeRequestView::SendRawTransaction {
                    signed: SignedTransactionView { raw: signed_raw, complete: true },
                }),
            )
            &&& unfunded.state == (RunStateView::Failed {
                stage: Stage::Funding,
                kind: FailureKindView::FundingFailed,
            })
            &&& after is None
        }),
{
    lemma_built_is_single(input, plan);
}

/// Whether the node can be asked to confirm a run of `plan`: the address that
/// the confirming blocks pay belongs to the plan's network.
pub open spec fn confirmable(plan: RunPlanView) -> bool {
    plan.confirm_address.network == plan.network
}

/// The state and the request that a run reaches from `built_run`, a run that
/// waits for the serialised form of its transaction, where the node answers
/// each request in turn: with the serialised form, with the funded form,
/// with the completely signed form, with the identifier of the transaction
/// that it relays, and with the confirming blocks.
pub open spec fn answered_in_turn(
    built_run: PipelineView,
    serialised: Seq<u8>,
    funded_raw: Seq<u8>,
    signed_raw: Seq<u8>,
    transaction_id: TransactionId,
    block_hashes: Seq<BlockHash>,
) -> Step {
    let funding = stepped(built_run, (NodeReplyView::RawTransaction { raw: serialised })).0;
    let signing = stepped(funding, (NodeReplyView::Funded { raw: funded_raw })).0;
    let broadcasting = stepped(
        signing,
        (NodeReplyView::Signed { raw: signed_raw, complete: true }),
    ).0;
    let confirming = stepped(broadcasting, (NodeReplyView::Sent { transaction_id })).0;
    stepped(confirming, (NodeReplyView::Generated { block_hashes }))
}

/// A run reaches its end where nothing stands in its way. For a plan whose
/// payment can be built, whose fee rate is strictly positive and whose
/// confirming address is of the plan's network, and a listing that is not
/// empty: where the node answers each request in turn and produces at least
/// one block, the run ends in `Done`, asks for nothing more, and its result
/// names the transaction that the node relayed and the blocks that it
/// produced, in their order.
pub proof fn lemma_run_completes(
    plan: RunPlanView,
    listing: Seq<UnspentOutput>,
    serialised: Seq<u8>,
    funded_raw: Seq<u8>,
    signed_raw: Seq<u8>,
    transaction_id: TransactionId,
    block_hashes: Seq<BlockHash>,
)
    requires
        payable(plan),
        plan.fee_rate > 0,
        confirmable(plan),
        listing.len() > 0,
        block_hashes.len() >= 1,
    ensures
        ({
            let built_run = stepped(begun_from_listing(plan).0, (NodeReplyView::Unspent { listing })).0;
            let (done, request) = answered_in_turn(
                built_run,
                serialised,
                funded_raw,
                signed_raw,
                transaction_id,
                block_hashes,
            );
            &&& built_run == begun_from_output(plan, listing[0].reference()).0
            &&& built_run.state is Building
            &&& request is None
            &&& done.state == (RunStateView::Done {
                result: PipelineResultView { transaction_id, confirming_block_hashes: block_hashes },
            })
        }),
{
    lemma_built_is_single(listing[0].reference(), plan);
}

/// The two runs in sequence reach their end where nothing stands in their
/// way. For a plan whose two payments can be built, whose fee rate is
/// strictly positive and whose confirming address is of the plan's network,
/// and a listing that is not empty: where the node answers each request of
/// the first run in turn, the second run begins with the first output of the
/// first transaction as its only input; and where the node answers each
/// request of the second run in turn, both runs are complete, each with the
/// transaction that the node relayed for it and the blocks that confirmed
/// it.
pub proof fn lemma_chain_completes(
    plan: ChainPlanView,
    listing: Seq<UnspentOutput>,
    first_raws: (Seq<u8>, Seq<u8>, Seq<u8>),
    first_id: TransactionId,
    first_blocks: Seq<BlockHash>,
    second_raws: (Seq<u8>, Seq<u8>, Seq<u8>),
    second_id: TransactionId,
    second_blocks: Seq<BlockHash>,
)
    requires
        plan.well_formed(),
        payable(plan.first_run()),
        payable(plan.second_run()),
        plan.fee_rate > 0,
        plan.confirm_address.network == plan.network,
        listing.len() > 0,
        first_blocks.len() >= 1,
        second_blocks.len() >= 1,
    ensures
        ({
            let c0 = chain_begun(plan).0;
            let c1 = chain_stepped(c0, (NodeReplyView::Unspent { listing })).0;
            let c2 = chain_stepped(c1, (NodeReplyView::RawTransaction { raw: first_raws.0 })).0;
            let c3 = chain_stepped(c2, (NodeReplyView::Funded { raw: first_raws.1 })).0;
            let c4 = chain_stepped(
                c3,
                (NodeReplyView::Signed { raw: first_raws.2, complete: true }),
            ).0;
            let c5 = chain_stepped(c4, (NodeReplyView::Sent { transaction_id: first_id })).0;
            let (c6, chained_request) = chain_stepped(
                c5,
                (NodeReplyView::Generated { block_hashes: first_blocks }),
            );
            let c7 = chain_stepped(c6, (NodeReplyView::RawTransaction { raw: second_raws.0 })).0;
            let c8 = chain_stepped(c7, (NodeReplyView::Funded { raw: second_raws.1 })).0;
            let c9 = chain_stepped(
                c8,
                (NodeReplyView::Signed { raw: second_raws.2, complete: true }),
            ).0;
            let c10 = chain_stepped(c9, (NodeReplyView::Sent { transaction_id: second_id })).0;
            let (c11, last_request) = chain_stepped(
                c10,
                (NodeReplyView::Generated { block_hashes: second_blocks }),
            );
            &&& c5 is First
            &&& c6 is Second
            &&& chained_request == Some(
                (NodeRequestView::CreateRawTransaction {
                    unsigned: UnsignedTransactionView::single(
                        (OutputReference { transaction_id: first_id, output_index: 0 }),
                        plan.second,
                    ),
                }),
            )
            &&& c11.is_complete()
            &&& last_request is None
            &&& c11->first == (PipelineResultView {
                transaction_id: first_id,
                confirming_block_hashes: first_blocks,
            })
            &&& c11.current().state == (RunStateView::Done {
                result: PipelineResultView {
                    transaction_id: second_id,
                    confirming_block_hashes: second_blocks,
                },
            })
        }),
{
    lemma_built_is_single(listing[0].reference(), plan.first_run());
    lemma_built_is_single(
        (OutputReference { transaction_id: first_id, output_index: 0 }),
        plan.second_run(),
    );
}

/// A transaction that is not completely signed never reaches the broadcast.
/// Whatever the state of a run and whatever the reply: the step asks for the
/// relay only of a transaction whose `complete` is true; the run moves to
/// `Broadcasting` only from `Signing`, on a reply of the wallet whose
/// `complete` is true; and a reply of the wallet whose `complete` is false
/// ends a run that waits for it at `Signing` with `IncompleteSignature`, with
/// no further request.
pub proof fn lemma_incomplete_never_broadcast(pipeline: PipelineView, reply: NodeReplyView)
    ensures
        ({
            let (next, request) = stepped(pipeline, reply);
            &&& request matches Some(NodeRequestView::SendRawTransaction { signed })
                ==> signed.complete
            &&& next.state is Broadcasting ==> {
                &&& pipeline.state is Signing
                &&& reply matches NodeReplyView::Signed { complete, .. } && complete
            }
            &&& reply matches NodeReplyView::Signed { complete, .. } ==> (pipeline.state is Signing
                && !complete) ==> {
                &&& next.state == (RunStateView::Failed {
                    stage: Stage::Signing,
                    kind: FailureKindView::IncompleteSignature,
                })
                &&& request is None
            }
        }),
{
}

/// Neither the start of the two runs in sequence nor any of their steps asks
/// for the relay of a transaction that is not completely signed.
pub proof fn lemma_chain_never_broadcasts_incomplete(
    plan: ChainPlanView,
    orchestrator: OrchestratorView,
    reply: NodeReplyView,
)
    ensures
        !(chain_begun(plan).1 matches Some(NodeRequestView::SendRawTransaction { .. })),
        chain_stepped(orchestrator, reply).1 matches Some(
            NodeRequestView::SendRawTransaction { signed },
        ) ==> signed.complete,
{
    lemma_incomplete_never_broadcast(orchestrator.current(), reply);
}

/// Selection is repeatable: two listings with the same entries in the same
/// order give the same selection.
pub proof fn lemma_selection_repeatable(first: Seq<UnspentOutput>, second: Seq<UnspentOutput>)
    requires
        first.len() == second.len(),
        forall|i: int| 0 <= i < first.len() ==> first[i] == second[i],
    ensures
        selected(first) == selected(second),
{
}

/// Selection looks at the first entry alone: a listing that is not empty
/// gives the output of its first entry, whatever follows it.
pub proof fn lemma_selection_is_first_listed(listing: Seq<UnspentOutput>)
    requires
        listing.len() > 0,
    ensures
        selected(listing) == Ok::<OutputReference, FailureKindView>(listing[0].reference()),
        selected(listing) == selected(listing.take(1)),
{
}

/// Chaining. Where a reply brings the first run to its end with `result`,
/// the second run starts at once from the output of index 0 of the
/// transaction that the first run broadcast, and from nothing else: the
/// state that follows keeps `result`, and the run in it is the run of the
/// second plan that spends exactly that output. A request follows if and
/// only if the second payment can be built, and the transaction that it
/// asks to serialise has that output as its only input.
pub proof fn lemma_second_run_is_chained(orchestrator: OrchestratorView, reply: NodeReplyView)
    requires
        orchestrator is First,
        stepped(orchestrator->First_run, reply).0.state is Done,
    ensures
        ({
            let result = stepped(orchestrator->First_run, reply).0.state->Done_result;
            let second = orchestrator->second;
            let input = OutputReference {
                transaction_id: result.transaction_id,
                output_index: 0,
            };
            let (next, request) = chain_stepped(orchestrator, reply);
            &&& chained(result) == input
            &&& next == (OrchestratorView::Second {
                first: result,
                run: begun_from_output(second, input).0,
            })
            &&& request == begun_from_output(second, input).1
            &&& request is Some <==> payable(second)
            &&& request is Some ==> request == Some(
                (NodeRequestView::CreateRawTransaction {
                    unsigned: UnsignedTransactionView::single(input, second.payment),
                }),
            )
        }),
{
    let result = stepped(orchestrator->First_run, reply).0.state->Done_result;
    if payable(orchestrator->second) {
        lemma_built_is_single(chained(result), orchestrator->second);
    }
}

/// The second run waits for the first. The two runs move from the first to
/// the second only on the reply that brings the confirming blocks of the
/// first run, and only where there is at least one: the first run has then
/// broadcast its transaction and has had it confirmed. Once begun, the
/// second run stays the run under way.
pub proof fn lemma_second_run_waits_for_confirmation(
    orchestrator: OrchestratorView,
    reply: NodeReplyView,
)
    requires
        orchestrator.well_formed(),
        orchestrator is First,
        chain_stepped(orchestrator, reply).0 is Second,
    ensures
        orchestrator->First_run.state is Confirming,
        reply matches NodeReplyView::Generated { block_hashes } && block_hashes.len() >= 1,
        chain_stepped(orchestrator, reply).0->first.is_confirmed(),
        chain_stepped(orchestrator, reply).0->first.transaction_id
            == orchestrator->First_run.state->transaction_id,
{
}

/// The listing is asked for once. The start of the two runs asks for it; no
/// step does, so the input of the second run is never looked up in a
/// listing. A second run never waits for a listing either.
pub proof fn lemma_listing_asked_once(
    plan: ChainPlanView,
    orchestrator: OrchestratorView,
    reply: NodeReplyView,
)
    requires
        orchestrator.well_formed(),
    ensures
        chain_begun(plan).1 == Some(NodeRequestView::ListUnspent),
        chain_stepped(orchestrator, reply).1 != Some(NodeRequestView::ListUnspent),
        chain_stepped(orchestrator, reply).0 is Second ==> !(chain_stepped(
            orchestrator,
            reply,
        ).0.current().state is Selecting),
{
}

/// A destination of another network than the plan's fails the build with
/// `NetworkMismatch`, whatever the input and the amount, before anything is
/// asked of the node for the transaction: a run that starts from an output
/// fails at `Building` without a request, and a run that starts from the
/// listing fails there as soon as an output is selected, again without a
/// request.
pub proof fn lemma_network_mismatch_fails_build(
    plan: RunPlanView,
    input: OutputReference,
    listing: Seq<UnspentOutput>,
)
    requires
        plan.payment.destination.network != plan.network,
        listing.len() > 0,
    ensures
        built(input, plan.payment, plan.network) == Err::<
            UnsignedTransactionView,
            FailureKindView,
        >(FailureKindView::NetworkMismatch),
        begun_from_output(plan, input) == failed(
            plan,
            Stage::Building,
            FailureKindView::NetworkMismatch,
        ),
        stepped(begun_from_listing(plan).0, (NodeReplyView::Unspent { listing })) == failed(
            plan,
            Stage::Building,
            FailureKindView::NetworkMismatch,
        ),
        failed(plan, Stage::Building, FailureKindView::NetworkMismatch).1 is None,
{
}

/// An empty listing ends the run at `Selecting` with `NoSpendableOutput`.
/// The only request that the run has made is the one for the listing.
pub proof fn lemma_empty_listing_halts(plan: RunPlanView)
    ensures
        begun_from_listing(plan).1 == Some(NodeRequestView::ListUnspent),
        stepped(
            begun_from_listing(plan).0,
            (NodeReplyView::Unspent { listing: Seq::<UnspentOutput>::empty() }),
        ) == failed(plan, Stage::Selecting, FailureKindView::NoSpendableOutput),
        failed(plan, Stage::Selecting, FailureKindView::NoSpendableOutput).1 is None,
{
}

/// A run passes through its stages in order and never branches but to fail:
/// a step on a run that has not ended leads to the stage that follows, or
/// to `Failed` at the stage it has reached or at the one that follows. A run
/// that has ended stays as it is, and asks for nothing. No step changes the
/// plan.
pub proof fn lemma_stages_in_order(pipeline: PipelineView, reply: NodeReplyView)
    ensures
        ({
            let (next, request) = stepped(pipeline, reply);
            let stage = pipeline.stage();
            &&& next.plan == pipeline.plan
            &&& stage.is_terminal() ==> next == pipeline && request is None
            &&& !stage.is_terminal() ==> {
                ||| next.stage() == following(stage)
                ||| next.state matches RunStateView::Failed { stage: at, .. } && (at == stage || at
                    == following(stage))
            }
        }),
{
}

/// Every request comes from its own stage, and carries what the stage before
/// it produced. A step asks for the serialised form only of the transaction
/// that spends the first listed output and makes the plan's payment; for
/// funding only of the form that the node has just returned, at the plan's
/// rate; for a signature only of what the node has just funded; for the relay
/// only of what the wallet has just signed completely; and for confirming
/// blocks only once the node has taken the transaction, as many as the plan
/// says, for the plan's address. So no stage can be skipped, and none is
/// handed anything but the product of the stage before it.
pub proof fn lemma_requests_follow_the_stages(pipeline: PipelineView, reply: NodeReplyView)
    ensures
        ({
            let (next, request) = stepped(pipeline, reply);
            let plan = pipeline.plan;
            match request {
                None => true,
                Some(NodeRequestView::ListUnspent) => false,
                Some(NodeRequestView::CreateRawTransaction { unsigned }) => {
                    &&& pipeline.state is Selecting
                    &&& next.state is Building
                    &&& payable(plan)
                    &&& reply is Unspent
                    &&& reply->listing.len() > 0
                    &&& unsigned == UnsignedTransactionView::single(
                        reply->listing[0].reference(),
                        plan.payment,
                    )
                },
                Some(NodeRequestView::FundRawTransaction { raw, fee_rate }) => {
                    &&& pipeline.state is Building
                    &&& next.state is Funding
                    &&& reply == (NodeReplyView::RawTransaction { raw })
                    &&& fee_rate == plan.fee_rate
                    &&& fee_rate > 0
                },
                Some(NodeRequestView::SignRawTransactionWithWallet { funded }) => {
                    &&& pipeline.state is Funding
                    &&& next.state is Signing
                    &&& reply == (NodeReplyView::Funded { raw: funded.raw })
                    &&& funded.fee_applied
                },
                Some(NodeRequestView::SendRawTransaction { signed }) => {
                    &&& pipeline.state is Signing
                    &&& next.state is Broadcasting
                    &&& reply == (NodeReplyView::Signed { raw: signed.raw, complete: true })
                    &&& signed.complete
                },
                Some(NodeRequestView::GenerateToAddress { count, address }) => {
                    &&& pipeline.state is Broadcasting
                    &&& reply is Sent
                    &&& next.state == (RunStateView::Confirming {
                        transaction_id: reply->transaction_id,
                    })
                    &&& count == plan.confirm_blocks
                    &&& address == plan.confirm_address
                    &&& address.network == plan.network
                },
            }
        }),
{
    if pipeline.state is Selecting && reply is Unspent && reply->listing.len() > 0 && payable(
        pipeline.plan,
    ) {
        lemma_built_is_single(reply->listing[0].reference(), pipeline.plan);
    }
}

/// A run asks for something exactly as long as it has not ended: a step
/// gives a request if and only if the state that it leads to is neither
/// `Done` nor `Failed`. After a failure nothing more is asked of the node.
pub proof fn lemma_request_until_the_end(pipeline: PipelineView, reply: NodeReplyView)
    ensures
        stepped(pipeline, reply).1 is Some <==> !stepped(pipeline, reply).0.stage().is_terminal(),
{
}

/// The first failure is the one reported: a run that has failed keeps the
/// stage and the kind of its failure whatever reply it is given later.
pub proof fn lemma_first_failure_stands(pipeline: PipelineView, reply: NodeReplyView)
    requires
        pipeline.state is Failed,
    ensures
        stepped(pipeline, reply).0.state == pipeline.state,
        stepped(pipeline, reply).1 is None,
{
}

/// The steps keep the states well formed: the start of a run of a well
/// formed plan is well formed, and so is what a step makes of a well formed
/// state.
pub proof fn lemma_well_formed_is_kept(
    plan: RunPlanView,
    input: OutputReference,
    pipeline: PipelineView,
    reply: NodeReplyView,
)
    ensures
        plan.well_formed() ==> begun_from_listing(plan).0.well_formed(),
        plan.well_formed() ==> begun_from_output(plan, input).0.well_formed(),
        pipeline.well_formed() ==> stepped(pipeline, reply).0.well_formed(),
{
}

/// The two runs in sequence stay well formed.
pub proof fn lemma_chain_well_formed_is_kept(
    plan: ChainPlanView,
    orchestrator: OrchestratorView,
    reply: NodeReplyView,
)
    ensures
        plan.well_formed() ==> chain_begun(plan).0.well_formed(),
        orchestrator.well_formed() ==> chain_stepped(orchestrator, reply).0.well_formed(),
        orchestrator is Second ==> chain_stepped(orchestrator, reply).0 is Second,
{
}

} // verus!
