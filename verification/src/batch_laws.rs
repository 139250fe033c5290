//! What holds of every batch, whatever the router and the executor answer.

use crate::asset::AssetId;
use crate::batch::{
    assembled, begin, filled, outflow, output_data, Batch, BatchProgressView,
    HandleBatchSwapsView, OutputAssembledView, StageView,
};
use crate::circuit_breaker::{available_of, ExecutionCircuitBreaker, MAX_PATH_SEARCHES};
use crate::fill_laws::{
    asks, lemma_start_sound, lemma_step_keeps, lemma_step_sound, steps_left,
};
use crate::route_and_fill::{ProgressView, RequestView, ResponseView};
use vstd::prelude::*;

verus! {

/// Every response of `responses`, in turn, is one that the batch takes
/// when it arrives.
pub open spec fn batch_accepted(progress: BatchProgressView, responses: Seq<ResponseView>) -> bool
    decreases responses.len(),
{
    if responses.len() == 0 {
        true
    } else {
        match progress {
            BatchProgressView::Pending(batch, _) => batch.accepts(responses.first())
                && batch_accepted(batch.next(responses.first()), responses.drop_first()),
            _ => false,
        }
    }
}

/// Where the batch stands once `responses` have been taken in turn.
pub open spec fn batch_run(
    progress: BatchProgressView,
    responses: Seq<ResponseView>,
) -> BatchProgressView
    decreases responses.len(),
{
    if responses.len() == 0 {
        progress
    } else {
        match progress {
            BatchProgressView::Pending(batch, _) => batch_run(
                batch.next(responses.first()),
                responses.drop_first(),
            ),
            _ => progress,
        }
    }
}

/// An upper bound on the number of responses that a batch can still take.
pub open spec fn batch_steps_left(progress: BatchProgressView) -> nat {
    match progress {
        BatchProgressView::Pending(batch, request) => match batch.stage {
            StageView::OneForTwo(fill) => steps_left(ProgressView::Pending(fill, request)) + 3
                * MAX_PATH_SEARCHES as nat,
            StageView::TwoForOne(_, fill) => steps_left(ProgressView::Pending(fill, request)),
        },
        _ => 0,
    }
}

/// Conservation: in each direction, what the execution consumed and what
/// is unfilled add up to what was put in, and what flowed out is what the
/// execution produced. A direction has no execution exactly if nothing was
/// put in.
pub open spec fn conserves(output: OutputAssembledView) -> bool {
    let data = output.output_data;
    &&& filled(output.swap_execution_1_for_2) + data.unfilled_1 == data.delta_1
    &&& filled(output.swap_execution_2_for_1) + data.unfilled_2 == data.delta_2
    &&& data.lambda_2 == outflow(output.swap_execution_1_for_2)
    &&& data.lambda_1 == outflow(output.swap_execution_2_for_1)
    &&& output.swap_execution_1_for_2 is None <==> data.delta_1 == 0
    &&& output.swap_execution_2_for_1 is None <==> data.delta_2 == 0
}

/// `progress` is a state that the batch `batch` under `available` can be
/// in, and its request is what the fill under way asks for.
pub open spec fn batch_sound(
    progress: BatchProgressView,
    batch: Batch,
    available: Map<AssetId, u128>,
) -> bool {
    match progress {
        BatchProgressView::Pending(state, request) => {
            &&& state.wf()
            &&& asks(state.fill(), request)
            &&& state.batch == batch
            &&& state.available == available
        },
        BatchProgressView::Assembled(output) => {
            &&& conserves(output)
            &&& output.output_data == output_data(
                batch,
                output.swap_execution_1_for_2,
                output.swap_execution_2_for_1,
            )
            &&& output.available == available
        },
        BatchProgressView::Failed(_) => true,
    }
}

/// A batch begins in a state that it can be in, and can take at most three
/// responses for each path search that its two breakers allow.
pub proof fn lemma_begin_sound(batch: Batch, available: Map<AssetId, u128>)
    ensures
        batch_sound(begin(batch, available), batch, available),
        batch_steps_left(begin(batch, available)) <= 6 * MAX_PATH_SEARCHES,
{
    let pair = batch.trading_pair;
    lemma_start_sound(
        pair.first(),
        pair.second(),
        batch.delta_1,
        batch.params,
        ExecutionCircuitBreaker::fresh(),
    );
    lemma_start_sound(
        pair.second(),
        pair.first(),
        batch.delta_2,
        batch.params,
        ExecutionCircuitBreaker::fresh(),
    );
}

/// A decision leads from a state that a batch can be in to another such
/// state, and brings the batch nearer to its end.
pub proof fn lemma_batch_step_sound(
    state: HandleBatchSwapsView,
    request: RequestView,
    response: ResponseView,
)
    requires
        state.wf(),
        state.accepts(response),
    ensures
        batch_sound(state.next(response), state.batch, state.available),
        batch_steps_left(state.next(response)) < batch_steps_left(
            BatchProgressView::Pending(state, request),
        ),
{
    let batch = state.batch;
    let pair = batch.trading_pair;
    lemma_step_keeps(state.fill(), response);
    lemma_step_sound(state.fill(), request, response);
    lemma_start_sound(
        pair.second(),
        pair.first(),
        batch.delta_2,
        batch.params,
        ExecutionCircuitBreaker::fresh(),
    );
}

/// From any state of a batch, and whatever is answered, the batch stays in
/// states that it can be in and takes no more responses than
/// [`batch_steps_left`] allows.
pub proof fn lemma_batch_run(
    state: HandleBatchSwapsView,
    request: RequestView,
    responses: Seq<ResponseView>,
)
    requires
        state.wf(),
        asks(state.fill(), request),
        batch_accepted(BatchProgressView::Pending(state, request), responses),
    ensures
        responses.len() <= batch_steps_left(BatchProgressView::Pending(state, request)),
        batch_sound(
            batch_run(BatchProgressView::Pending(state, request), responses),
            state.batch,
            state.available,
        ),
    decreases responses.len(),
{
    reveal_with_fuel(batch_accepted, 2);
    reveal_with_fuel(batch_run, 2);
    if responses.len() > 0 {
        let first = responses.first();
        let rest = responses.drop_first();
        lemma_batch_step_sound(state, request, first);
        match state.next(first) {
            BatchProgressView::Pending(then, asked) => {
                lemma_batch_run(then, asked, rest);
            },
            _ => {
                assert(rest.len() == 0);
            },
        }
    }
}

/// Conservation and boundedness of a whole batch. Whatever the router and
/// the executor answer:
/// the batch takes at most three responses for each path search that its
/// two breakers allow;
/// and once its output data is assembled, in each direction what the
/// execution consumed and what is unfilled add up to what was put in.
pub proof fn lemma_batch(batch: Batch, available: Map<AssetId, u128>, responses: Seq<ResponseView>)
    requires
        batch_accepted(begin(batch, available), responses),
    ensures
        responses.len() <= 6 * MAX_PATH_SEARCHES,
        batch_sound(batch_run(begin(batch, available), responses), batch, available),
        batch_run(begin(batch, available), responses) matches BatchProgressView::Assembled(output)
            ==> {
            &&& conserves(output)
            &&& output.output_data.delta_1 == batch.delta_1
            &&& output.output_data.delta_2 == batch.delta_2
            &&& output.output_data.unfilled_1 <= batch.delta_1
            &&& output.output_data.unfilled_2 <= batch.delta_2
        },
{
    lemma_begin_sound(batch, available);
    match begin(batch, available) {
        BatchProgressView::Pending(state, request) => {
            lemma_batch_run(state, request, responses);
        },
        _ => {
            assert(responses.len() == 0);
        },
    }
}

/// What was traded, by direction.
pub struct Ledger {
    /// The asset 1 that executions consumed.
    pub consumed_1: nat,
    /// The asset 2 that they produced for it.
    pub produced_2: nat,
    /// The asset 2 that executions consumed.
    pub consumed_2: nat,
    /// The asset 1 that they produced for it.
    pub produced_1: nat,
}

impl Ledger {
    /// Nothing was traded.
    pub open spec fn empty() -> Ledger {
        Ledger { consumed_1: 0, produced_2: 0, consumed_2: 0, produced_1: 0 }
    }

    /// Both ledgers together.
    pub open spec fn and(self, other: Ledger) -> Ledger {
        Ledger {
            consumed_1: self.consumed_1 + other.consumed_1,
            produced_2: self.produced_2 + other.produced_2,
            consumed_2: self.consumed_2 + other.consumed_2,
            produced_1: self.produced_1 + other.produced_1,
        }
    }
}

/// What a response adds to the ledger when it is given to a batch in the
/// state `state`: what an execution consumed and produced, in the
/// direction of the fill under way.
pub open spec fn entry_of(state: HandleBatchSwapsView, response: ResponseView) -> Ledger {
    match response {
        ResponseView::Filled { execution, .. } => match state.stage {
            StageView::OneForTwo(_) => Ledger {
                consumed_1: execution.input.amount as nat,
                produced_2: execution.output.amount as nat,
                consumed_2: 0,
                produced_1: 0,
            },
            StageView::TwoForOne(_, _) => Ledger {
                consumed_1: 0,
                produced_2: 0,
                consumed_2: execution.input.amount as nat,
                produced_1: execution.output.amount as nat,
            },
        },
        _ => Ledger::empty(),
    }
}

/// What the executions among `responses` traded, each counted in the
/// direction of the fill that was under way when it was answered.
pub open spec fn executed(progress: BatchProgressView, responses: Seq<ResponseView>) -> Ledger
    decreases responses.len(),
{
    if responses.len() == 0 {
        Ledger::empty()
    } else {
        match progress {
            BatchProgressView::Pending(state, _) => entry_of(state, responses.first()).and(
                executed(state.next(responses.first()), responses.drop_first()),
            ),
            _ => Ledger::empty(),
        }
    }
}

/// What a batch has on its books: what its fills and its executions say
/// was consumed and produced.
pub open spec fn booked(progress: BatchProgressView) -> Ledger {
    match progress {
        BatchProgressView::Pending(state, _) => match state.stage {
            StageView::OneForTwo(fill) => Ledger {
                consumed_1: (fill.input - fill.total_unfilled_1) as nat,
                produced_2: fill.total_output_2,
                consumed_2: 0,
                produced_1: 0,
            },
            StageView::TwoForOne(one_for_two, fill) => Ledger {
                consumed_1: filled(one_for_two) as nat,
                produced_2: outflow(one_for_two) as nat,
                consumed_2: (fill.input - fill.total_unfilled_1) as nat,
                produced_1: fill.total_output_2,
            },
        },
        BatchProgressView::Assembled(output) => Ledger {
            consumed_1: filled(output.swap_execution_1_for_2) as nat,
            produced_2: outflow(output.swap_execution_1_for_2) as nat,
            consumed_2: filled(output.swap_execution_2_for_1) as nat,
            produced_1: outflow(output.swap_execution_2_for_1) as nat,
        },
        BatchProgressView::Failed(_) => Ledger::empty(),
    }
}

/// A decision books exactly what the response says was traded.
pub proof fn lemma_batch_step_books(
    state: HandleBatchSwapsView,
    request: RequestView,
    response: ResponseView,
)
    requires
        state.wf(),
        state.accepts(response),
    ensures
        state.next(response) is Failed || booked(state.next(response)) == booked(
            BatchProgressView::Pending(state, request),
        ).and(entry_of(state, response)),
{
    lemma_step_keeps(state.fill(), response);
}

/// The books of a batch are true: from any state of a batch, and whatever
/// is answered, what the batch has on its books afterwards is what it had
/// before and what the executions traded since, unless it failed.
pub proof fn lemma_batch_run_books(
    state: HandleBatchSwapsView,
    request: RequestView,
    responses: Seq<ResponseView>,
)
    requires
        state.wf(),
        batch_accepted(BatchProgressView::Pending(state, request), responses),
    ensures
        batch_run(BatchProgressView::Pending(state, request), responses) is Failed || booked(
            batch_run(BatchProgressView::Pending(state, request), responses),
        ) == booked(BatchProgressView::Pending(state, request)).and(
            executed(BatchProgressView::Pending(state, request), responses),
        ),
    decreases responses.len(),
{
    reveal_with_fuel(batch_accepted, 2);
    reveal_with_fuel(batch_run, 2);
    reveal_with_fuel(executed, 2);
    if responses.len() > 0 {
        let first = responses.first();
        let rest = responses.drop_first();
        lemma_batch_step_sound(state, request, first);
        lemma_batch_step_books(state, request, first);
        match state.next(first) {
            BatchProgressView::Pending(then, asked) => {
                lemma_batch_run_books(then, asked, rest);
            },
            _ => {
                assert(rest.len() == 0);
            },
        }
    }
}

/// The output data accounts for every execution. Whatever the router and
/// the executor answer to a batch, once the output data is assembled:
/// what flowed out of each asset is what the executions produced of it,
/// and what is unfilled of each asset is what was put in less what the
/// executions consumed of it.
pub proof fn lemma_output_accounts_for_executions(
    batch: Batch,
    available: Map<AssetId, u128>,
    responses: Seq<ResponseView>,
)
    requires
        batch_accepted(begin(batch, available), responses),
    ensures
        batch_run(begin(batch, available), responses) matches BatchProgressView::Assembled(output)
            ==> {
            let traded = executed(begin(batch, available), responses);
            &&& output.output_data.lambda_1 == traded.produced_1
            &&& output.output_data.lambda_2 == traded.produced_2
            &&& output.output_data.unfilled_1 + traded.consumed_1 == batch.delta_1
            &&& output.output_data.unfilled_2 + traded.consumed_2 == batch.delta_2
        },
{
    lemma_begin_sound(batch, available);
    lemma_batch(batch, available, responses);
    match begin(batch, available) {
        BatchProgressView::Pending(state, request) => {
            lemma_batch_run_books(state, request, responses);
        },
        _ => {
            assert(responses.len() == 0);
        },
    }
}

/// `request` belongs to trading `asset_in` for `asset_out`: a search is
/// from the one to the other, and an execution is given `asset_in`.
pub open spec fn asks_of(request: RequestView, asset_in: AssetId, asset_out: AssetId) -> bool {
    match request {
        RequestView::PathSearch { src, dst, .. } => src == asset_in && dst == asset_out,
        RequestView::FillRoute { input, .. } => input.asset_id == asset_in,
        RequestView::ClosePosition { .. } => true,
    }
}

/// An outflow beyond what is available is not within the limits, so that
/// such a batch cannot be committed.
pub proof fn lemma_outflow_beyond_available(output: OutputAssembledView)
    requires
        output.output_data.lambda_1 > available_of(
            output.available,
            output.output_data.trading_pair.first(),
        ) || output.output_data.lambda_2 > available_of(
            output.available,
            output.output_data.trading_pair.second(),
        ),
    ensures
        !output.within_limits(),
{
}

/// A direction in which nothing was put in is skipped. If no asset 1 was
/// put in, then whatever is answered, every request of the batch comes
/// from the fill of asset 2 for asset 1, and the output data has no
/// asset 2 flowing out and no asset 1 unfilled.
pub proof fn lemma_skips_first_on_zero(
    batch: Batch,
    available: Map<AssetId, u128>,
    responses: Seq<ResponseView>,
)
    requires
        batch.delta_1 == 0,
        batch_accepted(begin(batch, available), responses),
    ensures
        match batch_run(begin(batch, available), responses) {
            BatchProgressView::Pending(state, request) => {
                &&& state.stage matches StageView::TwoForOne(None, fill)
                &&& asks_of(request, batch.trading_pair.second(), batch.trading_pair.first())
            },
            BatchProgressView::Assembled(output) => {
                &&& output.swap_execution_1_for_2 is None
                &&& output.output_data.lambda_2 == 0
                &&& output.output_data.unfilled_1 == 0
                &&& output.output_data.delta_1 == 0
            },
            BatchProgressView::Failed(_) => true,
        },
{
    lemma_batch(batch, available, responses);
}

/// If no asset 2 was put in, then whatever is answered, every request of
/// the batch comes from the fill of asset 1 for asset 2, and the output
/// data has no asset 1 flowing out and no asset 2 unfilled.
pub proof fn lemma_skips_second_on_zero(
    batch: Batch,
    available: Map<AssetId, u128>,
    responses: Seq<ResponseView>,
)
    requires
        batch.delta_2 == 0,
        batch_accepted(begin(batch, available), responses),
    ensures
        match batch_run(begin(batch, available), responses) {
            BatchProgressView::Pending(state, request) => {
                &&& state.stage matches StageView::OneForTwo(fill)
                &&& asks_of(request, batch.trading_pair.first(), batch.trading_pair.second())
            },
            BatchProgressView::Assembled(output) => {
                &&& output.swap_execution_2_for_1 is None
                &&& output.output_data.lambda_1 == 0
                &&& output.output_data.unfilled_2 == 0
                &&& output.output_data.delta_2 == 0
            },
            BatchProgressView::Failed(_) => true,
        },
{
    lemma_batch(batch, available, responses);
}

/// With nothing put in either way, the batch asks for no outside work at
/// all: its output data is assembled at once, and is all zeros.
pub proof fn lemma_empty_batch(batch: Batch, available: Map<AssetId, u128>)
    requires
        batch.delta_1 == 0,
        batch.delta_2 == 0,
    ensures
        begin(batch, available) == assembled(batch, available, None, None),
        output_data(batch, None, None).lambda_1 == 0,
        output_data(batch, None, None).lambda_2 == 0,
        output_data(batch, None, None).unfilled_1 == 0,
        output_data(batch, None, None).unfilled_2 == 0,
{
}

} // verus!
