//! What the settlement of a batch needs to know of liquidity positions.

use vstd::prelude::*;

verus! {

/// The most that one reserve of a liquidity position may hold, and so the
/// most that is handed to one execution: two to the power 80, less one.
pub const MAX_RESERVE_AMOUNT: u128 = 1208925819614629174706175;

/// Identifier of a liquidity position: a 256-bit number, held as its upper
/// and lower halves. A batch only ever names a position; it never looks
/// inside one.
#[derive(Clone, Copy, Debug, PartialEq, Eq, Structural)]
pub struct PositionId {
    pub hi: u128,
    pub lo: u128,
}

} // verus!
