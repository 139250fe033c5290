//! Assets, amounts of them, and the markets they form.

use vstd::prelude::*;

verus! {

/// Identifier of an asset: a 256-bit number, held as its upper and lower
/// halves.
#[derive(Clone, Copy, Debug, PartialEq, Eq, Structural)]
pub struct AssetId {
    pub hi: u128,
    pub lo: u128,
}

impl AssetId {
    /// `self` comes strictly before `other` when both are read as 256-bit
    /// numbers.
    pub open spec fn precedes(self, other: AssetId) -> bool {
        self.hi < other.hi || (self.hi == other.hi && self.lo < other.lo)
    }

    /// Decides [`AssetId::precedes`].
    pub fn is_before(&self, other: &AssetId) -> (r: bool)
        ensures
            r == self.precedes(*other),
    {
        self.hi < other.hi || (self.hi == other.hi && self.lo < other.lo)
    }
}

/// The order on asset identifiers is strict and total: of two identifiers
/// exactly one precedes the other, unless they are the same.
pub proof fn lemma_asset_order_total(a: AssetId, b: AssetId)
    ensures
        a == b <==> !a.precedes(b) && !b.precedes(a),
        !(a.precedes(b) && b.precedes(a)),
{
}

/// The order on asset identifiers is transitive.
pub proof fn lemma_asset_order_transitive(a: AssetId, b: AssetId, c: AssetId)
    requires
        a.precedes(b),
        b.precedes(c),
    ensures
        a.precedes(c),
{
}

/// An amount of one asset. Amounts are whole numbers; there are no
/// fractional amounts.
#[derive(Clone, Copy, Debug, PartialEq, Eq, Structural)]
pub struct Value {
    pub amount: u128,
    pub asset_id: AssetId,
}

/// A market: an unordered pair of assets. Whichever way round the two
/// assets are given, the one that comes first in the order of identifiers
/// is asset 1.
#[derive(Clone, Copy, Debug, PartialEq, Eq, Structural)]
pub struct TradingPair {
    asset_1: AssetId,
    asset_2: AssetId,
}

impl TradingPair {
    #[verifier::type_invariant]
    spec fn canonical(self) -> bool {
        !self.asset_2.precedes(self.asset_1)
    }

    /// Asset 1 of the pair.
    pub closed spec fn first(self) -> AssetId {
        self.asset_1
    }

    /// Asset 2 of the pair.
    pub closed spec fn second(self) -> AssetId {
        self.asset_2
    }

    /// The market of `a` and `b`.
    pub fn new(a: AssetId, b: AssetId) -> (pair: TradingPair)
        ensures
            pair.first() == (if a.precedes(b) { a } else { b }),
            pair.second() == (if a.precedes(b) { b } else { a }),
            !pair.second().precedes(pair.first()),
    {
        if a.is_before(&b) {
            TradingPair { asset_1: a, asset_2: b }
        } else {
            TradingPair { asset_1: b, asset_2: a }
        }
    }

    /// Asset 1: the asset of the pair that does not come after the other.
    pub fn asset_1(&self) -> (id: AssetId)
        ensures
            id == self.first(),
            !self.second().precedes(id),
    {
        proof {
            use_type_invariant(self);
        }
        self.asset_1
    }

    /// Asset 2: the asset of the pair that does not come before the other.
    pub fn asset_2(&self) -> (id: AssetId)
        ensures
            id == self.second(),
            !id.precedes(self.first()),
    {
        proof {
            use_type_invariant(self);
        }
        self.asset_2
    }
}

/// A market does not depend on the order in which its assets are named.
pub proof fn lemma_trading_pair_unordered(a: AssetId, b: AssetId, ab: TradingPair, ba: TradingPair)
    requires
        ab.first() == (if a.precedes(b) { a } else { b }),
        ab.second() == (if a.precedes(b) { b } else { a }),
        ba.first() == (if b.precedes(a) { b } else { a }),
        ba.second() == (if b.precedes(a) { a } else { b }),
    ensures
        ab == ba,
{
    lemma_asset_order_total(a, b);
}

} // verus!
