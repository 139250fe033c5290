//! The records that a batch of swaps is made of.

use crate::asset::{TradingPair, Value};
use crate::price::Price;
use vstd::prelude::*;

verus! {

/// All swap intents of one block for one market, added up: the amount of
/// asset 1 that was put in, and the amount of asset 2.
#[derive(Clone, Copy, Debug, PartialEq, Eq, Structural)]
pub struct SwapFlow(pub u128, pub u128);

/// What the router is told.
#[derive(Clone, Copy, Debug, PartialEq, Eq, Structural)]
pub struct RoutingParams {
    /// Filling stops once an execution's highest price is at this price or
    /// above it.
    pub price_limit: Option<Price>,
    /// The most hops that a path may have.
    pub max_hops: usize,
}

/// The steps of one fill along one path: the amount that went in, then
/// what it had become after each hop.
pub type Trace = Vec<Value>;

/// What `traces` hold, as mathematical sequences.
pub open spec fn traces_view(traces: Seq<Vec<Value>>) -> Seq<Seq<Value>> {
    Seq::new(traces.len(), |i: int| traces[i]@)
}

/// Appending traces appends what they hold.
pub proof fn lemma_traces_view_add(a: Seq<Vec<Value>>, b: Seq<Vec<Value>>)
    ensures
        traces_view(a + b) == traces_view(a) + traces_view(b),
{
    assert(traces_view(a + b) =~= traces_view(a) + traces_view(b));
}

/// The outcome of trading in one direction: what was consumed, what came
/// out, and the traces of the fills in the order in which they were made.
#[derive(Debug)]
pub struct SwapExecution {
    pub traces: Vec<Trace>,
    pub input: Value,
    pub output: Value,
}

/// A [`SwapExecution`] as a mathematical value.
pub struct SwapExecutionView {
    pub traces: Seq<Seq<Value>>,
    pub input: Value,
    pub output: Value,
}

impl View for SwapExecution {
    type V = SwapExecutionView;

    open spec fn view(&self) -> SwapExecutionView {
        SwapExecutionView {
            traces: traces_view(self.traces@),
            input: self.input,
            output: self.output,
        }
    }
}

/// The settlement of one market in one block.
#[derive(Clone, Copy, Debug, PartialEq, Eq, Structural)]
pub struct BatchSwapOutputData {
    /// The amount of asset 1 that was put in.
    pub delta_1: u128,
    /// The amount of asset 2 that was put in.
    pub delta_2: u128,
    /// The amount of asset 1 that came out (of trading asset 2 for it).
    pub lambda_1: u128,
    /// The amount of asset 2 that came out (of trading asset 1 for it).
    pub lambda_2: u128,
    /// The amount of asset 1 that was put in and found no match.
    pub unfilled_1: u128,
    /// The amount of asset 2 that was put in and found no match.
    pub unfilled_2: u128,
    /// The height of the block.
    pub height: u64,
    /// The market.
    pub trading_pair: TradingPair,
    /// The height at which the block's epoch began.
    pub epoch_starting_height: u64,
}

} // verus!
