//! Prices as fixed-point numbers.

use vstd::prelude::*;

verus! {

/// Two to the power 128: the scale of a [`Price`].
pub open spec fn price_scale() -> nat {
    u128::MAX as nat + 1
}

/// A price: a non-negative fixed-point number with 128 bits before and 128
/// bits after the point.
#[derive(Clone, Copy, Debug, PartialEq, Eq, Structural)]
pub struct Price {
    /// The whole part.
    pub integral: u128,
    /// The part after the point, in units of two to the power -128.
    pub fractional: u128,
}

impl Price {
    /// The price multiplied by two to the power 128, a whole number.
    pub open spec fn scaled(self) -> nat {
        self.integral as nat * price_scale() + self.fractional as nat
    }

    /// `self` is at least `limit`.
    pub open spec fn reaches(self, limit: Price) -> bool {
        self.scaled() >= limit.scaled()
    }

    /// Decides [`Price::reaches`].
    pub fn at_least(&self, limit: &Price) -> (r: bool)
        ensures
            r == self.reaches(*limit),
    {
        proof {
            if self.integral > limit.integral {
                lemma_scaled_order(*self, *limit);
            }
            if limit.integral > self.integral {
                lemma_scaled_order(*limit, *self);
            }
        }
        self.integral > limit.integral || (self.integral == limit.integral && self.fractional
            >= limit.fractional)
    }
}

/// A price with the larger whole part is the larger price, whatever the
/// parts after the point.
pub proof fn lemma_scaled_order(p: Price, q: Price)
    requires
        p.integral > q.integral,
    ensures
        p.scaled() > q.scaled(),
{
    let s = price_scale() as int;
    let a = p.integral as int;
    let b = q.integral as int;
    assert(a * s >= (b + 1) * s) by (nonlinear_arith)
        requires
            a >= b + 1,
            s > 0,
    ;
    assert((b + 1) * s == b * s + s) by (nonlinear_arith);
}

} // verus!
