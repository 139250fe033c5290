//! What holds of every directional fill, whatever the router and the
//! executor answer.

use crate::asset::{AssetId, Value};
use crate::circuit_breaker::ExecutionCircuitBreaker;
use crate::position::PositionId;
use crate::price::Price;
use crate::route_and_fill::{
    start, Awaiting, ProgressView, RequestView, ResponseView, RouteAndFillView,
};
use crate::swap::{RoutingParams, SwapExecutionView};
use vstd::prelude::*;

verus! {

/// Every response of `responses`, in turn, answers the request that is
/// under way when it arrives and is one that the fill takes.
pub open spec fn accepted(progress: ProgressView, responses: Seq<ResponseView>) -> bool
    decreases responses.len(),
{
    if responses.len() == 0 {
        true
    } else {
        match progress {
            ProgressView::Pending(fill, _) => fill.accepts(responses.first()) && accepted(
                fill.next(responses.first()),
                responses.drop_first(),
            ),
            _ => false,
        }
    }
}

/// Where the fill stands once `responses` have been taken in turn.
pub open spec fn run(progress: ProgressView, responses: Seq<ResponseView>) -> ProgressView
    decreases responses.len(),
{
    if responses.len() == 0 {
        progress
    } else {
        match progress {
            ProgressView::Pending(fill, _) => run(
                fill.next(responses.first()),
                responses.drop_first(),
            ),
            _ => progress,
        }
    }
}

/// The sum of what the executions among `responses` consumed.
pub open spec fn consumed(responses: Seq<ResponseView>) -> nat
    decreases responses.len(),
{
    if responses.len() == 0 {
        0
    } else {
        let rest = consumed(responses.drop_first());
        match responses.first() {
            ResponseView::Filled { execution, .. } => execution.input.amount as nat + rest,
            _ => rest,
        }
    }
}

/// The sum of what the executions among `responses` produced.
pub open spec fn produced(responses: Seq<ResponseView>) -> nat
    decreases responses.len(),
{
    if responses.len() == 0 {
        0
    } else {
        let rest = produced(responses.drop_first());
        match responses.first() {
            ResponseView::Filled { execution, .. } => execution.output.amount as nat + rest,
            _ => rest,
        }
    }
}

/// The traces of the executions among `responses`, in their order.
pub open spec fn recorded(responses: Seq<ResponseView>) -> Seq<Seq<Value>>
    decreases responses.len(),
{
    if responses.len() == 0 {
        Seq::empty()
    } else {
        let rest = recorded(responses.drop_first());
        match responses.first() {
            ResponseView::Filled { execution, .. } => execution.traces + rest,
            _ => rest,
        }
    }
}

/// How many of `responses` are searches that found a path.
pub open spec fn paths_found(responses: Seq<ResponseView>) -> nat
    decreases responses.len(),
{
    if responses.len() == 0 {
        0
    } else {
        let rest = paths_found(responses.drop_first());
        match responses.first() {
            ResponseView::PathSearched { path, .. } => if path is Some && path->0.len() > 0 {
                1 + rest
            } else {
                rest
            },
            _ => rest,
        }
    }
}

/// How many of `responses` are executions that succeeded.
pub open spec fn fills(responses: Seq<ResponseView>) -> nat
    decreases responses.len(),
{
    if responses.len() == 0 {
        0
    } else {
        let rest = fills(responses.drop_first());
        match responses.first() {
            ResponseView::Filled { .. } => 1 + rest,
            _ => rest,
        }
    }
}

/// An upper bound on the number of responses that a fill can still take.
pub open spec fn steps_left(progress: ProgressView) -> nat {
    match progress {
        ProgressView::Pending(fill, _) => {
            let searches = (fill.breaker.max_path_searches
                - fill.breaker.current_path_searches) as nat;
            match fill.awaiting {
                Awaiting::Path => 3 * searches,
                Awaiting::Close => 3 * searches + 1,
                Awaiting::Fill => 3 * searches + 2,
            }
        },
        _ => 0,
    }
}

/// `request` is what a fill in the state `fill` asks for: a search for a
/// path from the asset that is put in to the asset that is to come out,
/// or an execution of what is offered along a path that is not empty, or
/// the closing of a position.
pub open spec fn asks(fill: RouteAndFillView, request: RequestView) -> bool {
    match fill.awaiting {
        Awaiting::Path => request == (RequestView::PathSearch {
            src: fill.asset_1,
            dst: fill.asset_2,
            params: fill.params,
        }),
        Awaiting::Fill => request matches RequestView::FillRoute { input, path, .. } && input == (
        Value { amount: fill.offered() as u128, asset_id: fill.asset_1 }) && path.len() > 0,
        Awaiting::Close => request is ClosePosition,
    }
}

/// `progress` is no state that a fill cannot be in, and its request is
/// what that state asks for.
pub open spec fn sound(progress: ProgressView) -> bool {
    match progress {
        ProgressView::Pending(fill, request) => fill.wf() && asks(fill, request),
        _ => true,
    }
}

/// A fill begins in a state that a fill can be in.
pub proof fn lemma_start_sound(
    asset_1: AssetId,
    asset_2: AssetId,
    input: u128,
    params: RoutingParams,
    breaker: ExecutionCircuitBreaker,
)
    ensures
        sound(start(asset_1, asset_2, input, params, breaker)),
        steps_left(start(asset_1, asset_2, input, params, breaker)) <= 3 * breaker.max_path_searches,
{
}

/// A decision leads from a state that a fill can be in to another such
/// state, and brings the fill nearer to its end: the loop cannot go on for
/// ever.
pub proof fn lemma_step_sound(fill: RouteAndFillView, request: RequestView, response: ResponseView)
    requires
        fill.wf(),
        fill.accepts(response),
    ensures
        sound(fill.next(response)),
        steps_left(fill.next(response)) < steps_left(ProgressView::Pending(fill, request)),
{
}

/// A decision never changes what a fill trades, and a fill that ends has
/// consumed no more than it was to trade.
pub proof fn lemma_step_keeps(fill: RouteAndFillView, response: ResponseView)
    requires
        fill.wf(),
        fill.accepts(response),
    ensures
        match fill.next(response) {
            ProgressView::Pending(then, _) => {
                &&& then.wf()
                &&& then.input == fill.input
                &&& then.asset_1 == fill.asset_1
                &&& then.asset_2 == fill.asset_2
                &&& then.params == fill.params
            },
            ProgressView::Complete(execution) => {
                &&& execution.input.amount <= fill.input
                &&& execution.input.asset_id == fill.asset_1
                &&& execution.output.asset_id == fill.asset_2
            },
            ProgressView::Failed(_) => true,
        },
{
}

/// What a fill has consumed, produced and recorded when it ends.
pub open spec fn outcome_of(
    fill: RouteAndFillView,
    responses: Seq<ResponseView>,
) -> SwapExecutionView {
    SwapExecutionView {
        traces: fill.traces + recorded(responses),
        input: Value {
            amount: (fill.input - fill.total_unfilled_1 + consumed(responses)) as u128,
            asset_id: fill.asset_1,
        },
        output: Value {
            amount: (fill.total_output_2 + produced(responses)) as u128,
            asset_id: fill.asset_2,
        },
    }
}

/// From any state of a fill, and whatever is answered:
/// the fill takes no more responses than [`steps_left`] allows;
/// every request is what the state of the fill asks for;
/// the paths that it is given and the executions that it makes stay within
/// what the breaker has left;
/// what is unfilled goes down by exactly what the executions consume, and
/// never below nothing;
/// and a fill that ends has consumed, produced and recorded what its
/// executions did, in their order, on top of what it had before.
pub proof fn lemma_run(fill: RouteAndFillView, request: RequestView, responses: Seq<ResponseView>)
    requires
        fill.wf(),
        asks(fill, request),
        accepted(ProgressView::Pending(fill, request), responses),
    ensures
        responses.len() <= steps_left(ProgressView::Pending(fill, request)),
        fill.breaker.current_path_searches + paths_found(responses)
            <= fill.breaker.max_path_searches,
        fill.breaker.current_executions + fills(responses) <= fill.breaker.max_executions,
        consumed(responses) <= fill.total_unfilled_1,
        fill.total_output_2 + produced(responses) <= u128::MAX,
        match run(ProgressView::Pending(fill, request), responses) {
            ProgressView::Pending(end, asked) => {
                &&& end.wf()
                &&& asks(end, asked)
                &&& end.asset_1 == fill.asset_1
                &&& end.asset_2 == fill.asset_2
                &&& end.input == fill.input
                &&& end.params == fill.params
                &&& end.total_unfilled_1 + consumed(responses) == fill.total_unfilled_1
                &&& end.total_output_2 == fill.total_output_2 + produced(responses)
                &&& end.traces == fill.traces + recorded(responses)
                &&& end.breaker.current_path_searches == fill.breaker.current_path_searches
                    + paths_found(responses)
                &&& end.breaker.current_executions == fill.breaker.current_executions + fills(
                    responses,
                )
            },
            ProgressView::Complete(execution) => execution == outcome_of(fill, responses),
            ProgressView::Failed(_) => true,
        },
    decreases responses.len(),
{
    reveal_with_fuel(accepted, 2);
    reveal_with_fuel(run, 2);
    reveal_with_fuel(consumed, 2);
    reveal_with_fuel(produced, 2);
    reveal_with_fuel(recorded, 2);
    reveal_with_fuel(paths_found, 2);
    reveal_with_fuel(fills, 2);
    if responses.len() == 0 {
        assert(fill.traces + recorded(responses) =~= fill.traces);
    } else {
        let first = responses.first();
        let rest = responses.drop_first();
        lemma_step_sound(fill, request, first);
        match fill.next(first) {
            ProgressView::Pending(then, asked) => {
                lemma_run(then, asked, rest);
                assert((then.traces + recorded(rest)) =~= (fill.traces + recorded(responses)));
            },
            ProgressView::Complete(execution) => {
                assert(rest.len() == 0);
                assert(execution.traces =~= fill.traces + recorded(responses));
            },
            ProgressView::Failed(_) => {
                assert(rest.len() == 0);
            },
        }
    }
}

/// Conservation and boundedness of a whole fill. Whatever the router and
/// the executor answer to a fill of `input`:
/// it takes at most three responses for each path search that the breaker
/// allows, is given at most that many paths and makes at most as many
/// executions as the breaker allows;
/// while it goes on, it asks for searches from `asset_1` to `asset_2` and
/// for executions of `asset_1`, and what is unfilled and what the
/// executions consumed add up to `input`;
/// and when it ends, its input is what the executions consumed, which is at
/// most `input`, its output is what they produced, and its traces are
/// theirs, in their order.
pub proof fn lemma_fill(
    asset_1: AssetId,
    asset_2: AssetId,
    input: u128,
    params: RoutingParams,
    breaker: ExecutionCircuitBreaker,
    responses: Seq<ResponseView>,
)
    requires
        accepted(start(asset_1, asset_2, input, params, breaker), responses),
    ensures
        responses.len() <= 3 * breaker.max_path_searches,
        paths_found(responses) <= breaker.max_path_searches,
        fills(responses) <= breaker.max_executions,
        consumed(responses) <= input,
        match run(start(asset_1, asset_2, input, params, breaker), responses) {
            ProgressView::Pending(end, asked) => {
                &&& end.wf()
                &&& asks(end, asked)
                &&& end.asset_1 == asset_1
                &&& end.asset_2 == asset_2
                &&& end.input == input
                &&& end.total_unfilled_1 + consumed(responses) == input
                &&& end.total_output_2 == produced(responses)
                &&& end.traces == recorded(responses)
            },
            ProgressView::Complete(execution) => {
                &&& execution.input == Value { amount: consumed(responses) as u128, asset_id: asset_1 }
                &&& execution.output == Value {
                    amount: produced(responses) as u128,
                    asset_id: asset_2,
                }
                &&& execution.traces == recorded(responses)
            },
            ProgressView::Failed(_) => true,
        },
{
    lemma_start_sound(asset_1, asset_2, input, params, breaker);
    match start(asset_1, asset_2, input, params, breaker) {
        ProgressView::Pending(fill, request) => {
            lemma_run(fill, request, responses);
            assert(fill.traces + recorded(responses) =~= recorded(responses));
        },
        _ => {
            assert(responses.len() == 0);
        },
    }
}

/// The price limit is respected: an execution whose highest price is at
/// the limit or above it ends the fill, however much is still unfilled.
pub proof fn lemma_price_limit_ends_fill(
    fill: RouteAndFillView,
    execution: SwapExecutionView,
    max_price: Price,
)
    requires
        fill.params.price_limit is Some,
        max_price.reaches(fill.params.price_limit->0),
    ensures
        fill.next(ResponseView::Filled { execution, max_price: Some(max_price) })
            == ProgressView::Complete(fill.filled(execution).execution()),
{
}

/// Recovery from an overflow: the position that overflowed is closed, and
/// once it is closed the fill is back at the head of its loop with
/// nothing consumed, nothing produced and nothing counted.
pub proof fn lemma_overflow_recovery(fill: RouteAndFillView, position: PositionId)
    requires
        fill.wf(),
        fill.awaiting == Awaiting::Fill,
    ensures
        fill.accepts(ResponseView::FillOverflowed { position }),
        fill.next(ResponseView::FillOverflowed { position }) matches ProgressView::Pending(
            closing,
            request,
        ) && {
            &&& request == RequestView::ClosePosition { id: position }
            &&& closing == RouteAndFillView { awaiting: Awaiting::Close, ..fill }
            &&& closing.wf()
            &&& closing.accepts(ResponseView::PositionClosed)
            &&& closing.next(ResponseView::PositionClosed) == fill.proceed()
        },
{
}

} // verus!
