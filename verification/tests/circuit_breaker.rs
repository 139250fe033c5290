use batch_swap::asset::{AssetId, Value};
use batch_swap::circuit_breaker::{ExecutionCircuitBreaker, ValueCircuitBreaker};

fn asset(n: u128) -> AssetId {
    AssetId { hi: 0, lo: n }
}

#[test]
fn default_execution_breaker_has_counted_nothing() {
    let breaker = ExecutionCircuitBreaker::default();
    assert_eq!(breaker.max_path_searches, 64);
    assert_eq!(breaker.max_executions, 64);
    assert_eq!(breaker.current_path_searches, 0);
    assert_eq!(breaker.current_executions, 0);
    assert!(!breaker.exceeded_limits());
}

#[test]
fn value_breaker_without_entry_has_nothing_available() {
    let breaker = ValueCircuitBreaker::default();
    assert_eq!(breaker.available(asset(1)), Value { amount: 0, asset_id: asset(1) });
}

#[test]
fn execution_breaker_trips_when_a_counter_reaches_its_limit() {
    let mut breaker = ExecutionCircuitBreaker::new(2, 3);
    assert!(!breaker.exceeded_limits());
    breaker.current_path_searches = 1;
    breaker.current_executions = 2;
    assert!(!breaker.exceeded_limits());
    breaker.current_path_searches = 2;
    assert!(breaker.exceeded_limits());
    breaker.current_path_searches = 0;
    breaker.current_executions = 3;
    assert!(breaker.exceeded_limits());
    assert!(ExecutionCircuitBreaker::new(0, 5).exceeded_limits());
}

#[test]
fn value_breaker_keeps_one_amount_for_each_asset() {
    let breaker = ValueCircuitBreaker::new()
        .with_available(Value { amount: 5, asset_id: asset(1) })
        .with_available(Value { amount: 7, asset_id: asset(2) })
        .with_available(Value { amount: 9, asset_id: asset(1) });
    assert_eq!(breaker.available(asset(1)).amount, 9);
    assert_eq!(breaker.available(asset(2)).amount, 7);
    assert_eq!(breaker.available(asset(3)).amount, 0);
    assert_eq!(breaker.available(AssetId { hi: 1, lo: 1 }).amount, 0);
    assert_eq!(breaker.available(asset(3)).asset_id, asset(3));
}

#[test]
fn value_breaker_lists_its_entries() {
    let breaker = ValueCircuitBreaker::new()
        .with_available(Value { amount: 5, asset_id: asset(1) })
        .with_available(Value { amount: 7, asset_id: asset(2) })
        .with_available(Value { amount: 9, asset_id: asset(1) });
    assert_eq!(
        breaker.entries(),
        vec![Value { amount: 9, asset_id: asset(1) }, Value { amount: 7, asset_id: asset(2) }]
    );
    assert!(ValueCircuitBreaker::default().entries().is_empty());
}
