//! Trading one asset for another, fill by fill.
//!
//! A directional fill alternates between work that is done elsewhere
//! (searching the liquidity graph for a path, executing along a path,
//! closing a position) and decisions. The decisions are made here: a
//! [`RouteAndFill`] is the state of one such fill between two pieces of
//! outside work. It hands out a [`Request`], takes the [`Response`], and
//! says what comes next, until the fill is complete or has failed.

use crate::asset::{AssetId, Value};
use crate::circuit_breaker::ExecutionCircuitBreaker;
use crate::position::{PositionId, MAX_RESERVE_AMOUNT};
use crate::price::Price;
use crate::swap::{traces_view, lemma_traces_view_add, RoutingParams, SwapExecution, SwapExecutionView};
use vstd::prelude::*;

verus! {

/// The outside work whose result a fill is waiting for.
#[derive(Clone, Copy, Debug, PartialEq, Eq, Structural)]
pub enum Awaiting {
    /// The search for a path.
    Path,
    /// The execution along the path that was found.
    Fill,
    /// The closing of a position that made an execution overflow.
    Close,
}

/// Why a fill was given up.
#[derive(Clone, Copy, Debug, PartialEq, Eq, Structural)]
pub enum RouteError {
    /// The search for a path failed.
    PathSearch,
    /// An execution failed, and not by an overflow.
    Fill,
}

/// What is said of a fill that was given up.
pub open spec fn error_text(error: RouteError) -> Seq<char> {
    match error {
        RouteError::PathSearch => "error finding best path"@,
        RouteError::Fill => "error filling route"@,
    }
}

impl RouteError {
    /// What is said of this failure.
    pub fn message(&self) -> (text: &'static str)
        ensures
            text@ == error_text(*self),
    {
        match self {
            RouteError::PathSearch => "error finding best path",
            RouteError::Fill => "error filling route",
        }
    }
}

/// Outside work that a fill asks for.
#[derive(Debug)]
pub enum Request {
    /// Find the best path from `src` to `dst` under `params`.
    PathSearch { src: AssetId, dst: AssetId, params: RoutingParams },
    /// Trade `input` along `path`, up to `spill_price`.
    FillRoute { input: Value, path: Vec<AssetId>, spill_price: Option<Price> },
    /// Close the position `id`.
    ClosePosition { id: PositionId },
}

/// A [`Request`] as a mathematical value.
pub enum RequestView {
    PathSearch { src: AssetId, dst: AssetId, params: RoutingParams },
    FillRoute { input: Value, path: Seq<AssetId>, spill_price: Option<Price> },
    ClosePosition { id: PositionId },
}

impl View for Request {
    type V = RequestView;

    open spec fn view(&self) -> RequestView {
        match *self {
            Request::PathSearch { src, dst, params } => RequestView::PathSearch { src, dst, params },
            Request::FillRoute { input, path, spill_price } => RequestView::FillRoute {
                input,
                path: path@,
                spill_price,
            },
            Request::ClosePosition { id } => RequestView::ClosePosition { id },
        }
    }
}

/// The result of outside work.
#[derive(Debug)]
pub enum Response {
    /// The search ended: with the best path and the price up to which it is
    /// the best, or with no path.
    PathSearched { path: Option<Vec<AssetId>>, spill_price: Option<Price> },
    /// The search failed.
    PathSearchFailed,
    /// The execution succeeded: what it consumed of the input that it was
    /// given, what it produced, its traces, and the highest price at which
    /// it traded, if it traded at all.
    Filled { execution: SwapExecution, max_price: Option<Price> },
    /// The execution overflowed at `position`. Nothing was changed.
    FillOverflowed { position: PositionId },
    /// The execution failed in another way. Nothing was changed.
    FillFailed,
    /// The position was closed.
    PositionClosed,
}

/// A [`Response`] as a mathematical value.
pub enum ResponseView {
    PathSearched { path: Option<Seq<AssetId>>, spill_price: Option<Price> },
    PathSearchFailed,
    Filled { execution: SwapExecutionView, max_price: Option<Price> },
    FillOverflowed { position: PositionId },
    FillFailed,
    PositionClosed,
}

impl View for Response {
    type V = ResponseView;

    open spec fn view(&self) -> ResponseView {
        match *self {
            Response::PathSearched { path, spill_price } => ResponseView::PathSearched {
                path: match path {
                    Some(p) => Some(p@),
                    None => None,
                },
                spill_price,
            },
            Response::PathSearchFailed => ResponseView::PathSearchFailed,
            Response::Filled { execution, max_price } => ResponseView::Filled {
                execution: execution@,
                max_price,
            },
            Response::FillOverflowed { position } => ResponseView::FillOverflowed { position },
            Response::FillFailed => ResponseView::FillFailed,
            Response::PositionClosed => ResponseView::PositionClosed,
        }
    }
}

/// The state of a directional fill, as a mathematical value.
pub struct RouteAndFillView {
    /// The asset that is put in.
    pub asset_1: AssetId,
    /// The asset that is to come out.
    pub asset_2: AssetId,
    /// The amount of `asset_1` that is to be traded.
    pub input: nat,
    /// What the router is told.
    pub params: RoutingParams,
    /// The work done so far, and its limits.
    pub breaker: ExecutionCircuitBreaker,
    /// The part of `input` that no execution has consumed yet.
    pub total_unfilled_1: nat,
    /// What the executions have produced so far.
    pub total_output_2: nat,
    /// The traces of the executions so far, oldest first.
    pub traces: Seq<Seq<Value>>,
    /// The outside work that is under way.
    pub awaiting: Awaiting,
}

/// Where a fill stands after a decision, as a mathematical value.
pub enum ProgressView {
    /// The fill goes on once the request has been answered.
    Pending(RouteAndFillView, RequestView),
    /// The fill is complete.
    Complete(SwapExecutionView),
    /// The fill was given up.
    Failed(RouteError),
}

impl RouteAndFillView {
    /// What holds of every state that a fill can be in.
    pub open spec fn wf(self) -> bool {
        &&& self.total_unfilled_1 <= self.input <= u128::MAX
        &&& self.total_output_2 <= u128::MAX
        &&& self.breaker.current_executions < self.breaker.max_executions
        &&& self.breaker.current_path_searches <= self.breaker.max_path_searches
        &&& self.awaiting == Awaiting::Path ==> self.breaker.current_path_searches
            < self.breaker.max_path_searches
    }

    /// The input of the next execution: all that is unfilled, but no more
    /// than a reserve may hold.
    pub open spec fn offered(self) -> nat {
        if self.total_unfilled_1 <= MAX_RESERVE_AMOUNT {
            self.total_unfilled_1
        } else {
            MAX_RESERVE_AMOUNT as nat
        }
    }

    /// The outcome of the fill if it ends in this state.
    pub open spec fn execution(self) -> SwapExecutionView {
        SwapExecutionView {
            traces: self.traces,
            input: Value {
                amount: (self.input - self.total_unfilled_1) as u128,
                asset_id: self.asset_1,
            },
            output: Value { amount: self.total_output_2 as u128, asset_id: self.asset_2 },
        }
    }

    /// The head of the loop: the fill ends if the breaker has tripped, and
    /// searches for a path if not.
    pub open spec fn proceed(self) -> ProgressView {
        if self.breaker.exceeded() {
            ProgressView::Complete(self.execution())
        } else {
            ProgressView::Pending(
                RouteAndFillView { awaiting: Awaiting::Path, ..self },
                RequestView::PathSearch { src: self.asset_1, dst: self.asset_2, params: self.params },
            )
        }
    }

    /// The state after an execution that consumed `execution.input` of
    /// what it was offered and produced `execution.output`: what it was
    /// offered leaves what is unfilled, and what it left of that comes
    /// back; what it produced is added to the output, its traces follow
    /// those that are there, and it is counted.
    pub open spec fn filled(self, execution: SwapExecutionView) -> RouteAndFillView {
        let unfilled = (self.offered() - execution.input.amount) as nat;
        RouteAndFillView {
            total_unfilled_1: (self.total_unfilled_1 - self.offered() + unfilled) as nat,
            total_output_2: self.total_output_2 + execution.output.amount as nat,
            traces: self.traces + execution.traces,
            breaker: ExecutionCircuitBreaker {
                current_executions: (self.breaker.current_executions + 1) as u32,
                ..self.breaker
            },
            ..self
        }
    }

    /// `response` answers the request that is under way, and is one that a
    /// sound router and executor can give: an execution consumes no more
    /// than it was offered, produces the asset that was asked for, and the
    /// total produced stays within the range of amounts.
    pub open spec fn accepts(self, response: ResponseView) -> bool {
        match response {
            ResponseView::PathSearched { .. } => self.awaiting == Awaiting::Path,
            ResponseView::PathSearchFailed => self.awaiting == Awaiting::Path,
            ResponseView::Filled { execution, .. } => {
                &&& self.awaiting == Awaiting::Fill
                &&& execution.input.amount <= self.offered()
                &&& execution.output.asset_id == self.asset_2
                &&& self.total_output_2 + execution.output.amount <= u128::MAX
            },
            ResponseView::FillOverflowed { .. } => self.awaiting == Awaiting::Fill,
            ResponseView::FillFailed => self.awaiting == Awaiting::Fill,
            ResponseView::PositionClosed => self.awaiting == Awaiting::Close,
        }
    }

    /// The decision that `response` leads to.
    pub open spec fn next(self, response: ResponseView) -> ProgressView {
        match response {
            ResponseView::PathSearched { path, spill_price } => {
                if path is Some && path->0.len() > 0 {
                    ProgressView::Pending(
                        RouteAndFillView {
                            breaker: ExecutionCircuitBreaker {
                                current_path_searches: (self.breaker.current_path_searches
                                    + 1) as u32,
                                ..self.breaker
                            },
                            awaiting: Awaiting::Fill,
                            ..self
                        },
                        RequestView::FillRoute {
                            input: Value {
                                amount: self.offered() as u128,
                                asset_id: self.asset_1,
                            },
                            path: path->0,
                            spill_price,
                        },
                    )
                } else {
                    ProgressView::Complete(self.execution())
                }
            },
            ResponseView::PathSearchFailed => ProgressView::Failed(RouteError::PathSearch),
            ResponseView::Filled { execution, max_price } => {
                let after = self.filled(execution);
                if after.total_unfilled_1 == 0 {
                    ProgressView::Complete(after.execution())
                } else if max_price is None {
                    ProgressView::Complete(after.execution())
                } else if self.params.price_limit is Some && (max_price->0).reaches(
                    self.params.price_limit->0,
                ) {
                    ProgressView::Complete(after.execution())
                } else {
                    after.proceed()
                }
            },
            ResponseView::FillOverflowed { position } => ProgressView::Pending(
                RouteAndFillView { awaiting: Awaiting::Close, ..self },
                RequestView::ClosePosition { id: position },
            ),
            ResponseView::FillFailed => ProgressView::Failed(RouteError::Fill),
            ResponseView::PositionClosed => self.proceed(),
        }
    }
}

/// The first decision of a fill of `input` of `asset_1` for `asset_2`:
/// nothing is filled, nothing has come out, and no trace is recorded.
pub open spec fn start(
    asset_1: AssetId,
    asset_2: AssetId,
    input: u128,
    params: RoutingParams,
    breaker: ExecutionCircuitBreaker,
) -> ProgressView {
    (RouteAndFillView {
        asset_1,
        asset_2,
        input: input as nat,
        params,
        breaker,
        total_unfilled_1: input as nat,
        total_output_2: 0,
        traces: Seq::empty(),
        awaiting: Awaiting::Path,
    }).proceed()
}

/// The fields of a fill. A fill in progress is a `State` of which
/// [`RouteAndFillView::wf`] holds.
#[derive(Debug)]
struct State {
    asset_1: AssetId,
    asset_2: AssetId,
    input: u128,
    params: RoutingParams,
    execution_circuit_breaker: ExecutionCircuitBreaker,
    total_unfilled_1: u128,
    total_output_2: u128,
    traces: Vec<Vec<Value>>,
    awaiting: Awaiting,
}

impl State {
    spec fn model(&self) -> RouteAndFillView {
        RouteAndFillView {
            asset_1: self.asset_1,
            asset_2: self.asset_2,
            input: self.input as nat,
            params: self.params,
            breaker: self.execution_circuit_breaker,
            total_unfilled_1: self.total_unfilled_1 as nat,
            total_output_2: self.total_output_2 as nat,
            traces: traces_view(self.traces@),
            awaiting: self.awaiting,
        }
    }

    /// The input of the next execution.
    fn offered(&self) -> (amount: u128)
        ensures
            amount == self.model().offered(),
    {
        if self.total_unfilled_1 <= MAX_RESERVE_AMOUNT {
            self.total_unfilled_1
        } else {
            MAX_RESERVE_AMOUNT
        }
    }

    /// Ends the fill.
    fn finish(self) -> (execution: SwapExecution)
        requires
            self.total_unfilled_1 <= self.input,
        ensures
            execution@ == self.model().execution(),
    {
        SwapExecution {
            traces: self.traces,
            input: Value { amount: self.input - self.total_unfilled_1, asset_id: self.asset_1 },
            output: Value { amount: self.total_output_2, asset_id: self.asset_2 },
        }
    }

    /// The head of the loop.
    fn proceed(self) -> (progress: Progress)
        requires
            self.total_unfilled_1 <= self.input,
        ensures
            progress@ == self.model().proceed(),
    {
        if self.execution_circuit_breaker.exceeded_limits() {
            Progress::Complete(self.finish())
        } else {
            let request = Request::PathSearch {
                src: self.asset_1,
                dst: self.asset_2,
                params: self.params,
            };
            let mut state = self;
            state.awaiting = Awaiting::Path;
            Progress::Pending(RouteAndFill { state }, request)
        }
    }
}

/// A directional fill that is waiting for outside work.
#[derive(Debug)]
pub struct RouteAndFill {
    state: State,
}

impl View for RouteAndFill {
    type V = RouteAndFillView;

    closed spec fn view(&self) -> RouteAndFillView {
        self.state.model()
    }
}

/// Where a fill stands after a decision.
#[derive(Debug)]
pub enum Progress {
    /// The fill goes on once the request has been answered: hand the
    /// answer to [`RouteAndFill::resume`].
    Pending(RouteAndFill, Request),
    /// The fill is complete.
    Complete(SwapExecution),
    /// The fill was given up. Nothing that it did is undone.
    Failed(RouteError),
}

impl View for Progress {
    type V = ProgressView;

    open spec fn view(&self) -> ProgressView {
        match *self {
            Progress::Pending(fill, request) => ProgressView::Pending(fill@, request@),
            Progress::Complete(execution) => ProgressView::Complete(execution@),
            Progress::Failed(error) => ProgressView::Failed(error),
        }
    }
}

impl RouteAndFill {
    /// A fill in progress is in a state that a fill can be in.
    #[verifier::type_invariant]
    pub open spec fn well_formed(self) -> bool {
        self@.wf()
    }

    /// Begins to trade `input` of `asset_1` for `asset_2`: the fill asks
    /// for its first path search, or is complete at once, with nothing
    /// traded, if the breaker has tripped before it began.
    pub fn route_and_fill(
        asset_1: AssetId,
        asset_2: AssetId,
        input: u128,
        params: RoutingParams,
        execution_circuit_breaker: ExecutionCircuitBreaker,
    ) -> (progress: Progress)
        ensures
            progress@ == start(asset_1, asset_2, input, params, execution_circuit_breaker),
    {
        let state = State {
            asset_1,
            asset_2,
            input,
            params,
            execution_circuit_breaker,
            total_unfilled_1: input,
            total_output_2: 0,
            traces: Vec::new(),
            awaiting: Awaiting::Path,
        };
        assert(traces_view(state.traces@) =~= Seq::<Seq<Value>>::empty());
        state.proceed()
    }

    /// The outside work that is under way.
    pub fn awaiting(&self) -> (awaiting: Awaiting)
        ensures
            awaiting == self@.awaiting,
    {
        self.state.awaiting
    }

    /// The part of the input that no execution has consumed yet.
    pub fn total_unfilled(&self) -> (amount: u128)
        ensures
            amount == self@.total_unfilled_1,
            amount <= self@.input,
    {
        proof {
            use_type_invariant(self);
        }
        self.state.total_unfilled_1
    }

    /// What the executions have produced so far.
    pub fn total_output(&self) -> (amount: u128)
        ensures
            amount == self@.total_output_2,
    {
        self.state.total_output_2
    }

    /// The work counted so far, and its limits. Neither counter is beyond
    /// its limit.
    pub fn execution_circuit_breaker(&self) -> (breaker: ExecutionCircuitBreaker)
        ensures
            breaker == self@.breaker,
            breaker.current_path_searches <= breaker.max_path_searches,
            breaker.current_executions < breaker.max_executions,
    {
        proof {
            use_type_invariant(self);
        }
        self.state.execution_circuit_breaker
    }

    /// Whether `response` is one that [`RouteAndFill::resume`] takes. One
    /// that it does not take shows that the accounts of the executor are
    /// broken, or that the fill was answered out of turn: the fill cannot
    /// go on, and its caller has to stop.
    pub fn accepts(&self, response: &Response) -> (ok: bool)
        ensures
            ok == self@.accepts(response@),
    {
        match response {
            Response::PathSearched { .. } => self.state.awaiting == Awaiting::Path,
            Response::PathSearchFailed => self.state.awaiting == Awaiting::Path,
            Response::Filled { execution, .. } => {
                self.state.awaiting == Awaiting::Fill && execution.input.amount
                    <= self.state.offered() && execution.output.asset_id == self.state.asset_2
                    && execution.output.amount <= u128::MAX - self.state.total_output_2
            },
            Response::FillOverflowed { .. } => self.state.awaiting == Awaiting::Fill,
            Response::FillFailed => self.state.awaiting == Awaiting::Fill,
            Response::PositionClosed => self.state.awaiting == Awaiting::Close,
        }
    }

    /// Takes the answer to the request that is under way and decides what
    /// comes next: another request, the end of the fill, or its failure.
    pub fn resume(self, response: Response) -> (progress: Progress)
        requires
            self@.accepts(response@),
        ensures
            progress@ == self@.next(response@),
    {
        proof {
            use_type_invariant(&self);
        }
        let mut state = self.state;
        match response {
            Response::PathSearched { path, spill_price } => {
                match path {
                    Some(path) => {
                        if path.len() > 0 {
                            let input = Value { amount: state.offered(), asset_id: state.asset_1 };
                            state.execution_circuit_breaker.current_path_searches += 1;
                            state.awaiting = Awaiting::Fill;
                            Progress::Pending(
                                RouteAndFill { state },
                                Request::FillRoute { input, path, spill_price },
                            )
                        } else {
                            Progress::Complete(state.finish())
                        }
                    },
                    None => Progress::Complete(state.finish()),
                }
            },
            Response::PathSearchFailed => Progress::Failed(RouteError::PathSearch),
            Response::Filled { execution, max_price } => {
                let ghost before = state.model();
                let ghost added = execution@;
                let offered = state.offered();
                let unfilled = offered - execution.input.amount;
                let mut traces = execution.traces;
                proof {
                    lemma_traces_view_add(state.traces@, traces@);
                }
                state.traces.append(&mut traces);
                state.total_output_2 = state.total_output_2 + execution.output.amount;
                state.total_unfilled_1 = state.total_unfilled_1 - offered + unfilled;
                state.execution_circuit_breaker.current_executions += 1;
                assert(state.model() == before.filled(added));
                if state.total_unfilled_1 == 0 {
                    return Progress::Complete(state.finish());
                }
                match max_price {
                    None => Progress::Complete(state.finish()),
                    Some(max_price) => {
                        match state.params.price_limit {
                            Some(price_limit) => {
                                if max_price.at_least(&price_limit) {
                                    Progress::Complete(state.finish())
                                } else {
                                    state.proceed()
                                }
                            },
                            None => state.proceed(),
                        }
                    },
                }
            },
            Response::FillOverflowed { position } => {
                state.awaiting = Awaiting::Close;
                Progress::Pending(RouteAndFill { state }, Request::ClosePosition { id: position })
            },
            Response::FillFailed => Progress::Failed(RouteError::Fill),
            Response::PositionClosed => state.proceed(),
        }
    }
}

} // verus!
