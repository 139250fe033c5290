//! Settling the swaps of one block in one market.
//!
//! The flow of a market is traded in both directions, asset 1 for asset 2
//! first, each direction by a fill of its own. What came out and what was
//! left over is assembled into the market's output data, which is
//! committed only if no more has flowed out than the value circuit breaker
//! has available.

use crate::asset::{AssetId, TradingPair, Value};
use crate::circuit_breaker::{available_of, ExecutionCircuitBreaker, ValueCircuitBreaker};
use crate::fill_laws::lemma_step_keeps;
use crate::route_and_fill::{
    start, Progress, ProgressView, Request, RequestView, Response, ResponseView, RouteAndFill,
    RouteAndFillView, RouteError,
};
use crate::swap::{
    BatchSwapOutputData, RoutingParams, SwapExecution, SwapExecutionView, SwapFlow,
};
use vstd::prelude::*;

verus! {

/// What is to be settled: a market, its flow, and where in the chain.
#[derive(Clone, Copy, Debug, PartialEq, Eq, Structural)]
pub struct Batch {
    /// The market.
    pub trading_pair: TradingPair,
    /// The amount of asset 1 that was put in.
    pub delta_1: u128,
    /// The amount of asset 2 that was put in.
    pub delta_2: u128,
    /// The height of the block.
    pub block_height: u64,
    /// The height at which the block's epoch began.
    pub epoch_starting_height: u64,
    /// What the router is told, in both directions.
    pub params: RoutingParams,
}

/// What a direction's execution consumed: nothing if it was skipped.
pub open spec fn filled(execution: Option<SwapExecutionView>) -> u128 {
    match execution {
        Some(execution) => execution.input.amount,
        None => 0,
    }
}

/// What a direction's execution produced: nothing if it was skipped.
pub open spec fn outflow(execution: Option<SwapExecutionView>) -> u128 {
    match execution {
        Some(execution) => execution.output.amount,
        None => 0,
    }
}

/// The output data of `batch` when trading asset 1 for asset 2 ended in
/// `one_for_two` and trading asset 2 for asset 1 in `two_for_one`.
pub open spec fn output_data(
    batch: Batch,
    one_for_two: Option<SwapExecutionView>,
    two_for_one: Option<SwapExecutionView>,
) -> BatchSwapOutputData {
    BatchSwapOutputData {
        delta_1: batch.delta_1,
        delta_2: batch.delta_2,
        lambda_1: outflow(two_for_one),
        lambda_2: outflow(one_for_two),
        unfilled_1: (batch.delta_1 - filled(one_for_two)) as u128,
        unfilled_2: (batch.delta_2 - filled(two_for_one)) as u128,
        height: batch.block_height,
        trading_pair: batch.trading_pair,
        epoch_starting_height: batch.epoch_starting_height,
    }
}

/// The fill that is under way in a batch, as a mathematical value.
pub enum StageView {
    /// Asset 1 is traded for asset 2.
    OneForTwo(RouteAndFillView),
    /// Asset 2 is traded for asset 1, after trading asset 1 for asset 2
    /// ended as given, or was skipped.
    TwoForOne(Option<SwapExecutionView>, RouteAndFillView),
}

/// A batch in progress, as a mathematical value.
pub struct HandleBatchSwapsView {
    pub batch: Batch,
    /// What the value circuit breaker has available.
    pub available: Map<AssetId, u128>,
    pub stage: StageView,
}

/// A batch whose output data is assembled, as a mathematical value.
pub struct OutputAssembledView {
    pub output_data: BatchSwapOutputData,
    pub swap_execution_1_for_2: Option<SwapExecutionView>,
    pub swap_execution_2_for_1: Option<SwapExecutionView>,
    /// What the value circuit breaker has available.
    pub available: Map<AssetId, u128>,
}

/// What is committed of a batch, as a mathematical value.
pub struct SettlementView {
    pub output_data: BatchSwapOutputData,
    pub swap_execution_1_for_2: Option<SwapExecutionView>,
    pub swap_execution_2_for_1: Option<SwapExecutionView>,
}

/// Where a batch stands after a decision, as a mathematical value.
pub enum BatchProgressView {
    /// The batch goes on once the request has been answered.
    Pending(HandleBatchSwapsView, RequestView),
    /// Both directions are done and the output data is assembled.
    Assembled(OutputAssembledView),
    /// A fill failed, and the batch with it.
    Failed(RouteError),
}

/// Both directions are done.
pub open spec fn assembled(
    batch: Batch,
    available: Map<AssetId, u128>,
    one_for_two: Option<SwapExecutionView>,
    two_for_one: Option<SwapExecutionView>,
) -> BatchProgressView {
    BatchProgressView::Assembled(
        OutputAssembledView {
            output_data: output_data(batch, one_for_two, two_for_one),
            swap_execution_1_for_2: one_for_two,
            swap_execution_2_for_1: two_for_one,
            available,
        },
    )
}

/// Where the batch stands when the fill of asset 2 for asset 1 stands at
/// `progress`.
pub open spec fn second_at(
    batch: Batch,
    available: Map<AssetId, u128>,
    one_for_two: Option<SwapExecutionView>,
    progress: ProgressView,
) -> BatchProgressView {
    match progress {
        ProgressView::Pending(fill, request) => BatchProgressView::Pending(
            HandleBatchSwapsView { batch, available, stage: StageView::TwoForOne(one_for_two, fill) },
            request,
        ),
        ProgressView::Complete(execution) => assembled(
            batch,
            available,
            one_for_two,
            Some(execution),
        ),
        ProgressView::Failed(error) => BatchProgressView::Failed(error),
    }
}

/// The first direction is done, or was skipped: asset 2 is traded for
/// asset 1 if any of it was put in, by a fill with a fresh breaker.
pub open spec fn second(
    batch: Batch,
    available: Map<AssetId, u128>,
    one_for_two: Option<SwapExecutionView>,
) -> BatchProgressView {
    if batch.delta_2 > 0 {
        second_at(
            batch,
            available,
            one_for_two,
            start(
                batch.trading_pair.second(),
                batch.trading_pair.first(),
                batch.delta_2,
                batch.params,
                ExecutionCircuitBreaker::fresh(),
            ),
        )
    } else {
        assembled(batch, available, one_for_two, None)
    }
}

/// Where the batch stands when the fill of asset 1 for asset 2 stands at
/// `progress`.
pub open spec fn first_at(
    batch: Batch,
    available: Map<AssetId, u128>,
    progress: ProgressView,
) -> BatchProgressView {
    match progress {
        ProgressView::Pending(fill, request) => BatchProgressView::Pending(
            HandleBatchSwapsView { batch, available, stage: StageView::OneForTwo(fill) },
            request,
        ),
        ProgressView::Complete(execution) => second(batch, available, Some(execution)),
        ProgressView::Failed(error) => BatchProgressView::Failed(error),
    }
}

/// The first decision of a batch: asset 1 is traded for asset 2 if any of
/// it was put in, by a fill with a fresh breaker.
pub open spec fn begin(batch: Batch, available: Map<AssetId, u128>) -> BatchProgressView {
    if batch.delta_1 > 0 {
        first_at(
            batch,
            available,
            start(
                batch.trading_pair.first(),
                batch.trading_pair.second(),
                batch.delta_1,
                batch.params,
                ExecutionCircuitBreaker::fresh(),
            ),
        )
    } else {
        second(batch, available, None)
    }
}

/// `execution` is the outcome of a fill of at most `input` of `asset_in`
/// for `asset_out`.
pub open spec fn outcome_within(
    execution: SwapExecutionView,
    input: u128,
    asset_in: AssetId,
    asset_out: AssetId,
) -> bool {
    &&& execution.input.amount <= input
    &&& execution.input.asset_id == asset_in
    &&& execution.output.asset_id == asset_out
}

/// `fill` trades `input` of `asset_in` for `asset_out` under `params`.
pub open spec fn fill_of(
    fill: RouteAndFillView,
    input: u128,
    asset_in: AssetId,
    asset_out: AssetId,
    params: RoutingParams,
) -> bool {
    &&& fill.wf()
    &&& fill.input == input
    &&& fill.asset_1 == asset_in
    &&& fill.asset_2 == asset_out
    &&& fill.params == params
}

impl HandleBatchSwapsView {
    /// The fill that is under way.
    pub open spec fn fill(self) -> RouteAndFillView {
        match self.stage {
            StageView::OneForTwo(fill) => fill,
            StageView::TwoForOne(_, fill) => fill,
        }
    }

    /// What holds of every state that a batch can be in: the fill that is
    /// under way is the one of its direction, and the first direction, if
    /// it is done, consumed no more than was put in.
    pub open spec fn wf(self) -> bool {
        let pair = self.batch.trading_pair;
        match self.stage {
            StageView::OneForTwo(fill) => {
                &&& self.batch.delta_1 > 0
                &&& fill_of(fill, self.batch.delta_1, pair.first(), pair.second(), self.batch.params)
            },
            StageView::TwoForOne(one_for_two, fill) => {
                &&& self.batch.delta_2 > 0
                &&& fill_of(fill, self.batch.delta_2, pair.second(), pair.first(), self.batch.params)
                &&& one_for_two is None <==> self.batch.delta_1 == 0
                &&& one_for_two matches Some(execution) ==> outcome_within(
                    execution,
                    self.batch.delta_1,
                    pair.first(),
                    pair.second(),
                )
            },
        }
    }

    /// `response` is one that the fill under way takes.
    pub open spec fn accepts(self, response: ResponseView) -> bool {
        self.fill().accepts(response)
    }

    /// The decision that `response` leads to.
    pub open spec fn next(self, response: ResponseView) -> BatchProgressView {
        match self.stage {
            StageView::OneForTwo(fill) => first_at(self.batch, self.available, fill.next(response)),
            StageView::TwoForOne(one_for_two, fill) => second_at(
                self.batch,
                self.available,
                one_for_two,
                fill.next(response),
            ),
        }
    }
}

impl OutputAssembledView {
    /// No more of either asset has flowed out than is available of it.
    pub open spec fn within_limits(self) -> bool {
        let pair = self.output_data.trading_pair;
        &&& self.output_data.lambda_1 <= available_of(self.available, pair.first())
        &&& self.output_data.lambda_2 <= available_of(self.available, pair.second())
    }

    /// What is committed.
    pub open spec fn settlement(self) -> SettlementView {
        SettlementView {
            output_data: self.output_data,
            swap_execution_1_for_2: self.swap_execution_1_for_2,
            swap_execution_2_for_1: self.swap_execution_2_for_1,
        }
    }
}

/// What `execution` holds, as a mathematical value.
pub open spec fn execution_view(execution: Option<SwapExecution>) -> Option<SwapExecutionView> {
    match execution {
        Some(execution) => Some(execution@),
        None => None,
    }
}

/// The fill that is under way in a batch.
#[derive(Debug)]
enum Stage {
    OneForTwo(RouteAndFill),
    TwoForOne(Option<SwapExecution>, RouteAndFill),
}

/// A batch that is waiting for outside work.
#[derive(Debug)]
pub struct HandleBatchSwaps {
    batch: Batch,
    value_circuit_breaker: ValueCircuitBreaker,
    stage: Stage,
}

impl View for HandleBatchSwaps {
    type V = HandleBatchSwapsView;

    closed spec fn view(&self) -> HandleBatchSwapsView {
        HandleBatchSwapsView {
            batch: self.batch,
            available: self.value_circuit_breaker@,
            stage: match self.stage {
                Stage::OneForTwo(fill) => StageView::OneForTwo(fill@),
                Stage::TwoForOne(one_for_two, fill) => StageView::TwoForOne(
                    execution_view(one_for_two),
                    fill@,
                ),
            },
        }
    }
}

/// A batch whose directions are both done and whose output data is
/// assembled. It is committed by [`OutputAssembled::commit`].
#[derive(Debug)]
pub struct OutputAssembled {
    output_data: BatchSwapOutputData,
    swap_execution_1_for_2: Option<SwapExecution>,
    swap_execution_2_for_1: Option<SwapExecution>,
    value_circuit_breaker: ValueCircuitBreaker,
}

impl View for OutputAssembled {
    type V = OutputAssembledView;

    closed spec fn view(&self) -> OutputAssembledView {
        OutputAssembledView {
            output_data: self.output_data,
            swap_execution_1_for_2: execution_view(self.swap_execution_1_for_2),
            swap_execution_2_for_1: execution_view(self.swap_execution_2_for_1),
            available: self.value_circuit_breaker@,
        }
    }
}

/// What is committed of a batch: the output data of the market, and the
/// execution of each direction that was not skipped.
#[derive(Debug)]
pub struct Settlement {
    pub output_data: BatchSwapOutputData,
    pub swap_execution_1_for_2: Option<SwapExecution>,
    pub swap_execution_2_for_1: Option<SwapExecution>,
}

impl View for Settlement {
    type V = SettlementView;

    open spec fn view(&self) -> SettlementView {
        SettlementView {
            output_data: self.output_data,
            swap_execution_1_for_2: execution_view(self.swap_execution_1_for_2),
            swap_execution_2_for_1: execution_view(self.swap_execution_2_for_1),
        }
    }
}

/// Where a batch stands after a decision.
#[derive(Debug)]
pub enum BatchProgress {
    /// The batch goes on once the request has been answered: hand the
    /// answer to [`HandleBatchSwaps::resume`].
    Pending(HandleBatchSwaps, Request),
    /// Both directions are done and the output data is assembled.
    Assembled(OutputAssembled),
    /// A fill failed, and the batch with it: nothing is to be committed.
    Failed(RouteError),
}

impl View for BatchProgress {
    type V = BatchProgressView;

    open spec fn view(&self) -> BatchProgressView {
        match *self {
            BatchProgress::Pending(batch, request) => BatchProgressView::Pending(batch@, request@),
            BatchProgress::Assembled(output) => BatchProgressView::Assembled(output@),
            BatchProgress::Failed(error) => BatchProgressView::Failed(error),
        }
    }
}

/// What `progress` must be for it to be the progress of a fill of `input`
/// of `asset_in` for `asset_out` under `params`.
spec fn progress_of(
    progress: ProgressView,
    input: u128,
    asset_in: AssetId,
    asset_out: AssetId,
    params: RoutingParams,
) -> bool {
    match progress {
        ProgressView::Pending(fill, _) => fill_of(fill, input, asset_in, asset_out, params),
        ProgressView::Complete(execution) => outcome_within(execution, input, asset_in, asset_out),
        ProgressView::Failed(_) => true,
    }
}

impl BatchSwapOutputData {
    /// The output data of `batch` when trading asset 1 for asset 2 ended in
    /// `one_for_two` and trading asset 2 for asset 1 in `two_for_one`; a
    /// direction that was skipped has no execution. What is unfilled in a
    /// direction is what was put in, less what its execution consumed.
    pub fn assemble(
        batch: &Batch,
        one_for_two: &Option<SwapExecution>,
        two_for_one: &Option<SwapExecution>,
    ) -> (data: BatchSwapOutputData)
        requires
            filled(execution_view(*one_for_two)) <= batch.delta_1,
            filled(execution_view(*two_for_one)) <= batch.delta_2,
        ensures
            data == output_data(*batch, execution_view(*one_for_two), execution_view(*two_for_one)),
    {
        let (lambda_2, unfilled_1) = match one_for_two {
            Some(swap_execution) => (
                swap_execution.output.amount,
                batch.delta_1 - swap_execution.input.amount,
            ),
            None => (0, batch.delta_1),
        };
        let (lambda_1, unfilled_2) = match two_for_one {
            Some(swap_execution) => (
                swap_execution.output.amount,
                batch.delta_2 - swap_execution.input.amount,
            ),
            None => (0, batch.delta_2),
        };
        BatchSwapOutputData {
            delta_1: batch.delta_1,
            delta_2: batch.delta_2,
            lambda_1,
            lambda_2,
            unfilled_1,
            unfilled_2,
            height: batch.block_height,
            trading_pair: batch.trading_pair,
            epoch_starting_height: batch.epoch_starting_height,
        }
    }
}

/// Both directions are done.
fn finish(
    batch: Batch,
    value_circuit_breaker: ValueCircuitBreaker,
    one_for_two: Option<SwapExecution>,
    two_for_one: Option<SwapExecution>,
) -> (progress: BatchProgress)
    requires
        filled(execution_view(one_for_two)) <= batch.delta_1,
        filled(execution_view(two_for_one)) <= batch.delta_2,
    ensures
        progress@ == assembled(
            batch,
            value_circuit_breaker@,
            execution_view(one_for_two),
            execution_view(two_for_one),
        ),
{
    let output_data = BatchSwapOutputData::assemble(&batch, &one_for_two, &two_for_one);
    BatchProgress::Assembled(
        OutputAssembled {
            output_data,
            swap_execution_1_for_2: one_for_two,
            swap_execution_2_for_1: two_for_one,
            value_circuit_breaker,
        },
    )
}

/// The batch when the fill of asset 2 for asset 1 stands at `progress`.
fn continue_second(
    batch: Batch,
    value_circuit_breaker: ValueCircuitBreaker,
    one_for_two: Option<SwapExecution>,
    progress: Progress,
) -> (outcome: BatchProgress)
    requires
        batch.delta_2 > 0,
        one_for_two is None <==> batch.delta_1 == 0,
        one_for_two matches Some(execution) ==> outcome_within(
            execution@,
            batch.delta_1,
            batch.trading_pair.first(),
            batch.trading_pair.second(),
        ),
        progress_of(
            progress@,
            batch.delta_2,
            batch.trading_pair.second(),
            batch.trading_pair.first(),
            batch.params,
        ),
    ensures
        outcome@ == second_at(
            batch,
            value_circuit_breaker@,
            execution_view(one_for_two),
            progress@,
        ),
{
    match progress {
        Progress::Pending(fill, request) => BatchProgress::Pending(
            HandleBatchSwaps {
                batch,
                value_circuit_breaker,
                stage: Stage::TwoForOne(one_for_two, fill),
            },
            request,
        ),
        Progress::Complete(execution) => finish(
            batch,
            value_circuit_breaker,
            one_for_two,
            Some(execution),
        ),
        Progress::Failed(error) => BatchProgress::Failed(error),
    }
}

/// The first direction is done, or was skipped.
fn enter_second(
    batch: Batch,
    value_circuit_breaker: ValueCircuitBreaker,
    one_for_two: Option<SwapExecution>,
) -> (outcome: BatchProgress)
    requires
        one_for_two is None <==> batch.delta_1 == 0,
        one_for_two matches Some(execution) ==> outcome_within(
            execution@,
            batch.delta_1,
            batch.trading_pair.first(),
            batch.trading_pair.second(),
        ),
    ensures
        outcome@ == second(batch, value_circuit_breaker@, execution_view(one_for_two)),
{
    if batch.delta_2 > 0 {
        let progress = RouteAndFill::route_and_fill(
            batch.trading_pair.asset_2(),
            batch.trading_pair.asset_1(),
            batch.delta_2,
            batch.params,
            ExecutionCircuitBreaker::default(),
        );
        continue_second(batch, value_circuit_breaker, one_for_two, progress)
    } else {
        finish(batch, value_circuit_breaker, one_for_two, None)
    }
}

/// The batch when the fill of asset 1 for asset 2 stands at `progress`.
fn continue_first(batch: Batch, value_circuit_breaker: ValueCircuitBreaker, progress: Progress) -> (outcome:
    BatchProgress)
    requires
        batch.delta_1 > 0,
        progress_of(
            progress@,
            batch.delta_1,
            batch.trading_pair.first(),
            batch.trading_pair.second(),
            batch.params,
        ),
    ensures
        outcome@ == first_at(batch, value_circuit_breaker@, progress@),
{
    match progress {
        Progress::Pending(fill, request) => BatchProgress::Pending(
            HandleBatchSwaps { batch, value_circuit_breaker, stage: Stage::OneForTwo(fill) },
            request,
        ),
        Progress::Complete(execution) => enter_second(batch, value_circuit_breaker, Some(execution)),
        Progress::Failed(error) => BatchProgress::Failed(error),
    }
}

impl HandleBatchSwaps {
    /// A batch in progress is in a state that a batch can be in.
    #[verifier::type_invariant]
    pub open spec fn well_formed(self) -> bool {
        self@.wf()
    }

    /// Begins to settle the flow `batch_data` of the market `trading_pair`
    /// in the block at `block_height`. `value_circuit_breaker` is what was
    /// stored before the batch: the default where nothing was.
    ///
    /// A direction in which nothing was put in is skipped: no path is
    /// searched and nothing is executed for it.
    pub fn handle_batch_swaps(
        trading_pair: TradingPair,
        batch_data: SwapFlow,
        block_height: u64,
        epoch_starting_height: u64,
        params: RoutingParams,
        value_circuit_breaker: ValueCircuitBreaker,
    ) -> (progress: BatchProgress)
        ensures
            progress@ == begin(
                Batch {
                    trading_pair,
                    delta_1: batch_data.0,
                    delta_2: batch_data.1,
                    block_height,
                    epoch_starting_height,
                    params,
                },
                value_circuit_breaker@,
            ),
    {
        let batch = Batch {
            trading_pair,
            delta_1: batch_data.0,
            delta_2: batch_data.1,
            block_height,
            epoch_starting_height,
            params,
        };
        if batch.delta_1 > 0 {
            let progress = RouteAndFill::route_and_fill(
                trading_pair.asset_1(),
                trading_pair.asset_2(),
                batch.delta_1,
                params,
                ExecutionCircuitBreaker::default(),
            );
            continue_first(batch, value_circuit_breaker, progress)
        } else {
            enter_second(batch, value_circuit_breaker, None)
        }
    }

    /// Whether `response` is one that [`HandleBatchSwaps::resume`] takes.
    pub fn accepts(&self, response: &Response) -> (ok: bool)
        ensures
            ok == self@.accepts(response@),
    {
        match &self.stage {
            Stage::OneForTwo(fill) => fill.accepts(response),
            Stage::TwoForOne(_, fill) => fill.accepts(response),
        }
    }

    /// Takes the answer to the request that is under way and decides what
    /// comes next.
    pub fn resume(self, response: Response) -> (progress: BatchProgress)
        requires
            self@.accepts(response@),
        ensures
            progress@ == self@.next(response@),
    {
        proof {
            use_type_invariant(&self);
        }
        let HandleBatchSwaps { batch, value_circuit_breaker, stage } = self;
        match stage {
            Stage::OneForTwo(fill) => {
                proof {
                    lemma_step_keeps(fill@, response@);
                }
                let progress = fill.resume(response);
                continue_first(batch, value_circuit_breaker, progress)
            },
            Stage::TwoForOne(one_for_two, fill) => {
                proof {
                    lemma_step_keeps(fill@, response@);
                }
                let progress = fill.resume(response);
                continue_second(batch, value_circuit_breaker, one_for_two, progress)
            },
        }
    }
}

impl OutputAssembled {
    /// The output data that was assembled.
    pub fn output_data(&self) -> (data: BatchSwapOutputData)
        ensures
            data == self@.output_data,
    {
        self.output_data
    }

    /// The amount of asset 1 that the value circuit breaker has available.
    pub fn available_asset_1(&self) -> (value: Value)
        ensures
            value.asset_id == self@.output_data.trading_pair.first(),
            value.amount == available_of(self@.available, value.asset_id),
    {
        self.value_circuit_breaker.available(self.output_data.trading_pair.asset_1())
    }

    /// The amount of asset 2 that the value circuit breaker has available.
    pub fn available_asset_2(&self) -> (value: Value)
        ensures
            value.asset_id == self@.output_data.trading_pair.second(),
            value.amount == available_of(self@.available, value.asset_id),
    {
        self.value_circuit_breaker.available(self.output_data.trading_pair.asset_2())
    }

    /// Whether no more of either asset has flowed out than the value
    /// circuit breaker has available of it.
    pub fn within_limits(&self) -> (ok: bool)
        ensures
            ok == self@.within_limits(),
    {
        let pair = self.output_data.trading_pair;
        let available_asset_1 = self.value_circuit_breaker.available(pair.asset_1());
        let available_asset_2 = self.value_circuit_breaker.available(pair.asset_2());
        self.output_data.lambda_1 <= available_asset_1.amount && self.output_data.lambda_2
            <= available_asset_2.amount
    }

    /// Hands out what is to be written to the chain's state. An outflow
    /// beyond what is available means that the accounts of the liquidity
    /// positions are broken, and such a batch is never committed.
    pub fn commit(self) -> (settlement: Settlement)
        requires
            self@.within_limits(),
        ensures
            settlement@ == self@.settlement(),
            settlement@.output_data.lambda_1 <= available_of(
                self@.available,
                settlement@.output_data.trading_pair.first(),
            ),
            settlement@.output_data.lambda_2 <= available_of(
                self@.available,
                settlement@.output_data.trading_pair.second(),
            ),
    {
        Settlement {
            output_data: self.output_data,
            swap_execution_1_for_2: self.swap_execution_1_for_2,
            swap_execution_2_for_1: self.swap_execution_2_for_1,
        }
    }
}

} // verus!
