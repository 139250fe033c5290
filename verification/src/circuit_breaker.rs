//! The two guards of a batch: one bounds the work done for it, the other
//! the value that may flow out.

use crate::asset::{AssetId, Value};
use vstd::prelude::*;

verus! {

/// How many path searches one directional fill may make unless told otherwise.
pub const MAX_PATH_SEARCHES: u32 = 64;

/// How many executions one directional fill may make unless told otherwise.
pub const MAX_EXECUTIONS: u32 = 64;

/// Counts the path searches and the executions of one directional fill
/// against fixed limits.
#[derive(Clone, Copy, Debug, PartialEq, Eq, Structural)]
pub struct ExecutionCircuitBreaker {
    /// The limit on path searches.
    pub max_path_searches: u32,
    /// The path searches counted so far.
    pub current_path_searches: u32,
    /// The limit on executions.
    pub max_executions: u32,
    /// The executions counted so far.
    pub current_executions: u32,
}

impl ExecutionCircuitBreaker {
    /// The breaker that every directional fill of a batch begins with: the
    /// default limits, and nothing counted.
    pub open spec fn fresh() -> ExecutionCircuitBreaker {
        ExecutionCircuitBreaker {
            max_path_searches: MAX_PATH_SEARCHES,
            current_path_searches: 0,
            max_executions: MAX_EXECUTIONS,
            current_executions: 0,
        }
    }

    /// Either counter has reached its limit.
    pub open spec fn exceeded(self) -> bool {
        self.current_path_searches >= self.max_path_searches || self.current_executions
            >= self.max_executions
    }

    /// A breaker with the given limits that has counted nothing yet.
    pub fn new(max_path_searches: u32, max_executions: u32) -> (breaker: ExecutionCircuitBreaker)
        ensures
            breaker == (ExecutionCircuitBreaker {
                max_path_searches,
                current_path_searches: 0,
                max_executions,
                current_executions: 0,
            }),
    {
        ExecutionCircuitBreaker {
            max_path_searches,
            current_path_searches: 0,
            max_executions,
            current_executions: 0,
        }
    }

    /// Whether either counter has reached its limit.
    pub fn exceeded_limits(&self) -> (r: bool)
        ensures
            r == self.exceeded(),
    {
        self.current_path_searches >= self.max_path_searches || self.current_executions
            >= self.max_executions
    }
}

impl Default for ExecutionCircuitBreaker {
    /// A breaker with the default limits that has counted nothing yet.
    fn default() -> (breaker: ExecutionCircuitBreaker)
        ensures
            breaker == ExecutionCircuitBreaker::fresh(),
    {
        ExecutionCircuitBreaker::new(MAX_PATH_SEARCHES, MAX_EXECUTIONS)
    }
}

/// No asset occurs twice among `entries`.
pub open spec fn distinct_assets(entries: Seq<Value>) -> bool {
    forall|i: int, j: int|
        0 <= i < j < entries.len() ==> (#[trigger] entries[i]).asset_id != (
        #[trigger] entries[j]).asset_id
}

/// Some entry of `entries` is for `asset`.
pub open spec fn has_entry(entries: Seq<Value>, asset: AssetId) -> bool {
    exists|i: int| 0 <= i < entries.len() && (#[trigger] entries[i]).asset_id == asset
}

/// The mapping that `entries` stand for: each entry's asset to its amount.
pub open spec fn ceilings(entries: Seq<Value>) -> Map<AssetId, u128> {
    Map::new(
        |asset: AssetId| has_entry(entries, asset),
        |asset: AssetId|
            entries[choose|i: int|
                0 <= i < entries.len() && (#[trigger] entries[i]).asset_id == asset].amount,
    )
}

/// The amount of `asset` that is available under `available`: its entry,
/// or nothing.
pub open spec fn available_of(available: Map<AssetId, u128>, asset: AssetId) -> u128 {
    if available.dom().contains(asset) {
        available[asset]
    } else {
        0
    }
}

/// Where no asset occurs twice, each entry is what the mapping holds for
/// its asset.
proof fn lemma_ceilings_at(entries: Seq<Value>, i: int)
    requires
        distinct_assets(entries),
        0 <= i < entries.len(),
    ensures
        ceilings(entries).dom().contains(entries[i].asset_id),
        ceilings(entries)[entries[i].asset_id] == entries[i].amount,
{
    let asset = entries[i].asset_id;
    let k = choose|k: int| 0 <= k < entries.len() && (#[trigger] entries[k]).asset_id == asset;
    assert(has_entry(entries, asset));
    if k < i {
        assert(entries[k].asset_id != entries[i].asset_id);
    }
    if i < k {
        assert(entries[i].asset_id != entries[k].asset_id);
    }
}

/// For each asset, the most of it that may leave the liquidity positions in
/// one batch. An asset that has no entry has nothing available.
#[derive(Debug)]
pub struct ValueCircuitBreaker {
    entries: Vec<Value>,
}

impl View for ValueCircuitBreaker {
    type V = Map<AssetId, u128>;

    closed spec fn view(&self) -> Map<AssetId, u128> {
        ceilings(self.entries@)
    }
}

impl ValueCircuitBreaker {
    #[verifier::type_invariant]
    spec fn well_formed(self) -> bool {
        distinct_assets(self.entries@)
    }

    /// The amount of `asset` that is available.
    pub open spec fn available_amount(self, asset: AssetId) -> u128 {
        available_of(self@, asset)
    }

    /// A breaker under which nothing is available.
    pub fn new() -> (breaker: ValueCircuitBreaker)
        ensures
            breaker@ == Map::<AssetId, u128>::empty(),
    {
        let breaker = ValueCircuitBreaker { entries: Vec::new() };
        assert(breaker@ =~= Map::<AssetId, u128>::empty());
        breaker
    }

    /// The breaker that makes `value.amount` the available amount of
    /// `value.asset_id` and agrees with `self` on every other asset.
    pub fn with_available(self, value: Value) -> (breaker: ValueCircuitBreaker)
        ensures
            breaker@ == self@.insert(value.asset_id, value.amount),
    {
        proof {
            use_type_invariant(&self);
        }
        let mut entries = self.entries;
        let ghost before = entries@;
        let n = entries.len();
        let mut i: usize = 0;
        while i < n
            invariant
                n == entries@.len(),
                entries@ == before,
                i <= n,
                forall|j: int| 0 <= j < i ==> (#[trigger] before[j]).asset_id != value.asset_id,
            ensures
                i <= n,
                i < n ==> before[i as int].asset_id == value.asset_id,
            decreases n - i,
        {
            if entries[i].asset_id == value.asset_id {
                break ;
            }
            i += 1;
        }
        if i < n {
            entries[i] = value;
        } else {
            entries.push(value);
        }
        proof {
            let after = entries@;
            let at = i as int;
            assert(after[at] == value);
            assert(distinct_assets(after)) by {
                assert forall|a: int, b: int| 0 <= a < b < after.len() implies (
                #[trigger] after[a]).asset_id != (#[trigger] after[b]).asset_id by {
                    if b < before.len() {
                        assert(before[a].asset_id != before[b].asset_id);
                    }
                }
            }
            let expected = ceilings(before).insert(value.asset_id, value.amount);
            assert forall|asset: AssetId|
                ceilings(after).dom().contains(asset) == expected.dom().contains(asset) by {
                if has_entry(after, asset) {
                    let k = choose|k: int|
                        0 <= k < after.len() && (#[trigger] after[k]).asset_id == asset;
                    if k != at {
                        assert(before[k].asset_id == asset);
                    }
                }
                if has_entry(before, asset) {
                    let k = choose|k: int|
                        0 <= k < before.len() && (#[trigger] before[k]).asset_id == asset;
                    assert(after[k].asset_id == asset);
                }
            }
            assert forall|asset: AssetId| #[trigger]
                ceilings(after).dom().contains(asset) implies ceilings(after)[asset]
                == expected[asset] by {
                let k = choose|k: int|
                    0 <= k < after.len() && (#[trigger] after[k]).asset_id == asset;
                lemma_ceilings_at(after, k);
                if asset != value.asset_id {
                    assert(before[k] == after[k]);
                    lemma_ceilings_at(before, k);
                } else {
                    lemma_ceilings_at(after, at);
                }
            }
            assert(ceilings(after) =~= expected);
        }
        ValueCircuitBreaker { entries }
    }

    /// What is available, asset by asset: no asset twice, and together
    /// the entries stand for this breaker.
    pub fn entries(&self) -> (entries: Vec<Value>)
        ensures
            distinct_assets(entries@),
            ceilings(entries@) == self@,
    {
        proof {
            use_type_invariant(self);
        }
        let n = self.entries.len();
        let mut entries: Vec<Value> = Vec::new();
        let mut i: usize = 0;
        while i < n
            invariant
                n == self.entries@.len(),
                i <= n,
                entries@ == self.entries@.take(i as int),
            decreases n - i,
        {
            entries.push(self.entries[i]);
            assert(entries@ =~= self.entries@.take(i + 1));
            i += 1;
        }
        assert(entries@ =~= self.entries@);
        entries
    }

    /// The amount of `asset_id` that may flow out in this batch.
    pub fn available(&self, asset_id: AssetId) -> (value: Value)
        ensures
            value.asset_id == asset_id,
            value.amount == self.available_amount(asset_id),
    {
        proof {
            use_type_invariant(self);
        }
        let n = self.entries.len();
        let mut i: usize = 0;
        while i < n
            invariant
                n == self.entries@.len(),
                i <= n,
                distinct_assets(self.entries@),
                forall|j: int| 0 <= j < i ==> (#[trigger] self.entries@[j]).asset_id != asset_id,
            decreases n - i,
        {
            if self.entries[i].asset_id == asset_id {
                proof {
                    lemma_ceilings_at(self.entries@, i as int);
                }
                return Value { amount: self.entries[i].amount, asset_id };
            }
            i += 1;
        }
        assert(!has_entry(self.entries@, asset_id));
        Value { amount: 0, asset_id }
    }
}

impl Default for ValueCircuitBreaker {
    /// The breaker of a chain that has stored none yet: nothing is
    /// available.
    fn default() -> (breaker: ValueCircuitBreaker)
        ensures
            breaker@ == Map::<AssetId, u128>::empty(),
    {
        ValueCircuitBreaker::new()
    }
}

} // verus!
