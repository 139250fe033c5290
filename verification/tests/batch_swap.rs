use batch_swap::asset::{AssetId, TradingPair, Value};
use batch_swap::batch::{Batch, BatchProgress, HandleBatchSwaps, OutputAssembled};
use batch_swap::circuit_breaker::ValueCircuitBreaker;
use batch_swap::price::Price;
use batch_swap::route_and_fill::{Request, Response, RouteError};
use batch_swap::swap::{BatchSwapOutputData, RoutingParams, SwapExecution, SwapFlow};

fn a() -> AssetId {
    AssetId { hi: 0, lo: 1 }
}

fn b() -> AssetId {
    AssetId { hi: 0, lo: 2 }
}

fn params() -> RoutingParams {
    RoutingParams { price_limit: None, max_hops: 4 }
}

fn plenty() -> ValueCircuitBreaker {
    ValueCircuitBreaker::new()
        .with_available(Value { amount: 1_000_000, asset_id: a() })
        .with_available(Value { amount: 1_000_000, asset_id: b() })
}

/// A market with one path each way, which takes `capacity` of input in
/// all, `per_fill` at a time, and gives `rate` units for one.
struct Market {
    capacity: u128,
    per_fill: u128,
    rate: u128,
    fail_fill: bool,
    searched: Vec<(AssetId, AssetId)>,
    fills: u32,
}

impl Market {
    fn new(capacity: u128, per_fill: u128, rate: u128) -> Market {
        Market { capacity, per_fill, rate, fail_fill: false, searched: Vec::new(), fills: 0 }
    }

    fn answer(&mut self, request: Request) -> Response {
        match request {
            Request::PathSearch { src, dst, .. } => {
                self.searched.push((src, dst));
                if self.capacity > 0 {
                    Response::PathSearched { path: Some(vec![src, dst]), spill_price: None }
                } else {
                    Response::PathSearched { path: None, spill_price: None }
                }
            }
            Request::FillRoute { input, path, .. } => {
                if self.fail_fill {
                    return Response::FillFailed;
                }
                self.fills += 1;
                let consumed = input.amount.min(self.capacity).min(self.per_fill);
                self.capacity -= consumed;
                let output = Value { amount: consumed * self.rate, asset_id: path[path.len() - 1] };
                Response::Filled {
                    execution: SwapExecution {
                        traces: vec![vec![Value { amount: consumed, asset_id: input.asset_id }, output]],
                        input: Value { amount: consumed, asset_id: input.asset_id },
                        output,
                    },
                    max_price: Some(Price { integral: 1, fractional: 0 }),
                }
            }
            Request::ClosePosition { .. } => Response::PositionClosed,
        }
    }
}

fn drive(progress: BatchProgress, market: &mut Market) -> Result<OutputAssembled, RouteError> {
    let mut progress = progress;
    loop {
        match progress {
            BatchProgress::Pending(batch, request) => {
                let response = market.answer(request);
                assert!(batch.accepts(&response));
                progress = batch.resume(response);
            }
            BatchProgress::Assembled(output) => return Ok(output),
            BatchProgress::Failed(error) => return Err(error),
        }
    }
}

fn begin(delta_1: u128, delta_2: u128, breaker: ValueCircuitBreaker) -> BatchProgress {
    HandleBatchSwaps::handle_batch_swaps(
        TradingPair::new(a(), b()),
        SwapFlow(delta_1, delta_2),
        17,
        10,
        params(),
        breaker,
    )
}

#[test]
fn settles_one_direction_with_a_remainder() {
    let mut market = Market::new(600, 300, 2);
    let output = drive(begin(1000, 0, plenty()), &mut market).unwrap();
    assert!(output.within_limits());
    assert_eq!(
        output.output_data(),
        BatchSwapOutputData {
            delta_1: 1000,
            delta_2: 0,
            lambda_1: 0,
            lambda_2: 1200,
            unfilled_1: 400,
            unfilled_2: 0,
            height: 17,
            trading_pair: TradingPair::new(a(), b()),
            epoch_starting_height: 10,
        }
    );
    let settlement = output.commit();
    assert_eq!(settlement.output_data.lambda_2, 1200);
    assert_eq!(settlement.output_data.unfilled_1, 400);
    let one_for_two = settlement.swap_execution_1_for_2.unwrap();
    assert_eq!(one_for_two.input, Value { amount: 600, asset_id: a() });
    assert_eq!(one_for_two.output, Value { amount: 1200, asset_id: b() });
    assert_eq!(one_for_two.traces.len(), 2);
    assert!(settlement.swap_execution_2_for_1.is_none());
    assert_eq!(market.fills, 2);
    assert_eq!(market.searched, vec![(a(), b()), (a(), b()), (a(), b())]);
}

#[test]
fn settles_both_directions() {
    let mut market = Market::new(700, 700, 3);
    let output = drive(begin(500, 400, plenty()), &mut market).unwrap();
    let data = output.output_data();
    assert_eq!((data.delta_1, data.delta_2), (500, 400));
    assert_eq!((data.lambda_2, data.unfilled_1), (1500, 0));
    assert_eq!((data.lambda_1, data.unfilled_2), (600, 200));
    assert_eq!(market.searched, vec![(a(), b()), (b(), a()), (b(), a())]);
    let settlement = output.commit();
    assert_eq!(settlement.swap_execution_1_for_2.unwrap().input.amount, 500);
    assert_eq!(settlement.swap_execution_2_for_1.unwrap().input.amount, 200);
}

#[test]
fn conserves_what_was_put_in() {
    for (delta_1, delta_2, capacity, per_fill) in
        [(1000u128, 0u128, 600u128, 300u128), (5, 9, 7, 2), (0, 44, 100, 10), (64, 64, 1000, 1), (200, 200, 1000, 1)]
    {
        let mut market = Market::new(capacity, per_fill, 2);
        let settlement = drive(begin(delta_1, delta_2, plenty()), &mut market).unwrap().commit();
        let data = settlement.output_data;
        let filled_1 = settlement.swap_execution_1_for_2.map_or(0, |e| e.input.amount);
        let filled_2 = settlement.swap_execution_2_for_1.map_or(0, |e| e.input.amount);
        assert_eq!(filled_1 + data.unfilled_1, delta_1);
        assert_eq!(filled_2 + data.unfilled_2, delta_2);
        assert_eq!(data.lambda_2, 2 * filled_1);
        assert_eq!(data.lambda_1, 2 * filled_2);
    }
}

#[test]
fn skips_the_first_direction_when_nothing_was_put_in() {
    let mut market = Market::new(1000, 1000, 1);
    let output = drive(begin(0, 30, plenty()), &mut market).unwrap();
    let data = output.output_data();
    assert_eq!((data.delta_1, data.lambda_2, data.unfilled_1), (0, 0, 0));
    assert_eq!((data.lambda_1, data.unfilled_2), (30, 0));
    assert_eq!(market.searched, vec![(b(), a())]);
    let settlement = output.commit();
    assert!(settlement.swap_execution_1_for_2.is_none());
    assert!(settlement.swap_execution_2_for_1.is_some());
}

#[test]
fn skips_the_second_direction_when_nothing_was_put_in() {
    let mut market = Market::new(1000, 1000, 1);
    let output = drive(begin(30, 0, plenty()), &mut market).unwrap();
    let data = output.output_data();
    assert_eq!((data.delta_2, data.lambda_1, data.unfilled_2), (0, 0, 0));
    assert_eq!(market.searched, vec![(a(), b())]);
    assert!(output.commit().swap_execution_2_for_1.is_none());
}

#[test]
fn empty_flow_is_assembled_at_once() {
    let progress = begin(0, 0, ValueCircuitBreaker::default());
    let BatchProgress::Assembled(output) = progress else { panic!("the output was expected") };
    assert!(output.within_limits());
    let settlement = output.commit();
    let data = settlement.output_data;
    assert_eq!((data.lambda_1, data.lambda_2, data.unfilled_1, data.unfilled_2), (0, 0, 0, 0));
    assert!(settlement.swap_execution_1_for_2.is_none());
    assert!(settlement.swap_execution_2_for_1.is_none());
}

#[test]
fn outflow_beyond_what_is_available_is_not_within_limits() {
    let breaker = ValueCircuitBreaker::new()
        .with_available(Value { amount: 100, asset_id: a() })
        .with_available(Value { amount: 1000, asset_id: b() });
    let mut market = Market::new(1000, 1000, 1);
    let output = drive(begin(0, 101, breaker), &mut market).unwrap();
    assert_eq!(output.output_data().lambda_1, 101);
    assert!(!output.within_limits());
}

#[test]
fn outflow_of_all_that_is_available_is_within_limits() {
    let breaker = ValueCircuitBreaker::new()
        .with_available(Value { amount: 100, asset_id: a() })
        .with_available(Value { amount: 1000, asset_id: b() });
    let mut market = Market::new(1000, 1000, 1);
    let output = drive(begin(0, 100, breaker), &mut market).unwrap();
    assert_eq!(output.output_data().lambda_1, 100);
    assert!(output.within_limits());
    assert_eq!(output.commit().output_data.lambda_1, 100);
}

#[test]
fn outflow_of_the_second_asset_is_limited_too() {
    let breaker = ValueCircuitBreaker::new().with_available(Value { amount: 100, asset_id: a() });
    let mut market = Market::new(1000, 1000, 1);
    let output = drive(begin(1, 0, breaker), &mut market).unwrap();
    assert_eq!(output.output_data().lambda_2, 1);
    assert!(!output.within_limits());
}

#[test]
fn missing_breaker_makes_nothing_available() {
    let mut market = Market::new(1000, 1000, 1);
    let output = drive(begin(5, 0, ValueCircuitBreaker::default()), &mut market).unwrap();
    assert!(!output.within_limits());
    let mut market = Market::new(0, 0, 1);
    let output = drive(begin(5, 0, ValueCircuitBreaker::default()), &mut market).unwrap();
    assert_eq!(output.output_data().unfilled_1, 5);
    assert!(output.within_limits());
}

#[test]
fn failure_in_the_first_direction_fails_the_batch() {
    let mut market = Market::new(1000, 1000, 1);
    market.fail_fill = true;
    let outcome = drive(begin(10, 10, plenty()), &mut market);
    assert_eq!(outcome.err(), Some(RouteError::Fill));
    assert_eq!(market.searched, vec![(a(), b())]);
}

#[test]
fn failed_search_in_the_second_direction_fails_the_batch() {
    let mut market = Market::new(1000, 1000, 1);
    let mut progress = begin(10, 10, plenty());
    let mut answered = 0;
    let error = loop {
        match progress {
            BatchProgress::Pending(batch, request) => {
                let second = matches!(request, Request::PathSearch { src, .. } if src == b());
                let response = if second { Response::PathSearchFailed } else { market.answer(request) };
                assert!(batch.accepts(&response));
                answered += 1;
                progress = batch.resume(response);
            }
            BatchProgress::Assembled(_) => panic!("a failure was expected"),
            BatchProgress::Failed(error) => break error,
        }
    };
    assert_eq!(error, RouteError::PathSearch);
    assert_eq!(answered, 3);
}

#[test]
fn assembled_output_tells_what_is_available() {
    let breaker = ValueCircuitBreaker::new()
        .with_available(Value { amount: 100, asset_id: a() })
        .with_available(Value { amount: 7, asset_id: b() });
    let mut market = Market::new(1000, 1000, 1);
    let output = drive(begin(3, 0, breaker), &mut market).unwrap();
    assert_eq!(output.available_asset_1(), Value { amount: 100, asset_id: a() });
    assert_eq!(output.available_asset_2(), Value { amount: 7, asset_id: b() });
    assert!(output.within_limits());
}

#[test]
fn each_direction_has_a_breaker_of_its_own() {
    let mut market = Market::new(u128::MAX, 1, 1);
    let settlement = drive(begin(1000, 1000, plenty()), &mut market).unwrap().commit();
    assert_eq!(settlement.swap_execution_1_for_2.unwrap().input.amount, 64);
    assert_eq!(settlement.swap_execution_2_for_1.unwrap().input.amount, 64);
    assert_eq!(market.searched.len(), 128);
    assert_eq!(settlement.output_data.unfilled_1, 936);
    assert_eq!(settlement.output_data.unfilled_2, 936);
}

#[test]
fn assembles_output_data_from_executions() {
    let batch = Batch {
        trading_pair: TradingPair::new(b(), a()),
        delta_1: 50,
        delta_2: 60,
        block_height: 3,
        epoch_starting_height: 1,
        params: params(),
    };
    let one_for_two = Some(SwapExecution {
        traces: Vec::new(),
        input: Value { amount: 20, asset_id: a() },
        output: Value { amount: 7, asset_id: b() },
    });
    let data = BatchSwapOutputData::assemble(&batch, &one_for_two, &None);
    assert_eq!(data.trading_pair.asset_1(), a());
    assert_eq!(data.trading_pair.asset_2(), b());
    assert_eq!((data.delta_1, data.delta_2), (50, 60));
    assert_eq!((data.lambda_1, data.lambda_2), (0, 7));
    assert_eq!((data.unfilled_1, data.unfilled_2), (30, 60));
    assert_eq!((data.height, data.epoch_starting_height), (3, 1));
}
