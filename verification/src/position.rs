//! A single position and what a change in yield is worth to it.

use crate::curve::{Curves, Tenor, Yield};
use vstd::prelude::*;

verus! {

/// An amount of exposure, in currency units. Positive by convention; a
/// negative amount is valued by the same formula.
pub type Notional = i64;

/// One trade: where on the curve it sits, which way it faces, how large it
/// is, and the yield it was entered at.
#[derive(Clone, Copy, Debug, PartialEq, Eq, Structural)]
pub struct Position {
    /// The point on the curve that this position is exposed to.
    pub tenor: Tenor,
    /// Long if true, short if false.
    pub is_long: bool,
    /// The size of the exposure.
    pub notional: Notional,
    /// The initial curve's yield at `tenor` when the position was added.
    pub entry_yield: Yield,
}

/// The worth of a move from `entry_yield` to `exit_yield` before direction is
/// applied: the change in yield, times the notional, times the tenor in years.
pub open spec fn yield_move_value(
    entry_yield: Yield,
    exit_yield: Yield,
    tenor: Tenor,
    notional: Notional,
) -> int {
    (exit_yield - entry_yield) * notional * tenor
}

/// `raw` for a long position, its negation for a short one.
pub open spec fn directed(is_long: bool, raw: int) -> int {
    if is_long {
        raw
    } else {
        -raw
    }
}

impl Position {
    /// The yield this position is marked at under `curves`: the final curve's
    /// value at its tenor, or its own entry yield where there is none.
    pub open spec fn exit_yield(self, curves: Curves) -> Yield {
        curves.exit_yield(self.tenor, self.entry_yield)
    }

    /// Profit (positive) or loss (negative) of this position under `curves`.
    pub open spec fn profit_loss(self, curves: Curves) -> int {
        directed(
            self.is_long,
            yield_move_value(self.entry_yield, self.exit_yield(curves), self.tenor, self.notional),
        )
    }
}

/// No valuation exceeds this in magnitude: the widest yield change, times the
/// largest notional, times the longest tenor.
pub open spec fn value_limit() -> int {
    0xFFFF_FFFFint * 0x8000_0000_0000_0000int * 0xFFFF_FFFFint
}

proof fn lemma_product_within(a: int, b: int, x: int, y: int)
    by (nonlinear_arith)
    requires
        -x <= a <= x,
        -y <= b <= y,
    ensures
        -(x * y) <= a * b <= x * y,
{
    assert((x - a) * (y - b) >= 0);
    assert((x + a) * (y + b) >= 0);
    assert((x - a) * (y + b) >= 0);
    assert((x + a) * (y - b) >= 0);
}

/// Every valuation fits comfortably in 128 bits, whatever the inputs.
pub proof fn lemma_value_within_limit(
    entry_yield: Yield,
    exit_yield: Yield,
    tenor: Tenor,
    notional: Notional,
)
    ensures
        -value_limit() <= yield_move_value(entry_yield, exit_yield, tenor, notional)
            <= value_limit(),
        value_limit() < i128::MAX,
{
    let change: int = exit_yield - entry_yield;
    lemma_product_within(change, notional as int, 0xFFFF_FFFF, 0x8000_0000_0000_0000);
    lemma_product_within(
        change * notional,
        tenor as int,
        0xFFFF_FFFFint * 0x8000_0000_0000_0000int,
        0xFFFF_FFFF,
    );
}

/// A yield that has not moved is worth nothing, whatever the size and tenor.
pub proof fn lemma_no_move_no_value(at: Yield, tenor: Tenor, notional: Notional)
    ensures
        yield_move_value(at, at, tenor, notional) == 0,
{
    assert(0 * notional * tenor == 0) by (nonlinear_arith);
}

/// Values a move in yield by the tenor-as-duration rule.
pub fn value_yield_move(
    entry_yield: Yield,
    exit_yield: Yield,
    tenor: Tenor,
    notional: Notional,
) -> (value: i128)
    ensures
        value == yield_move_value(entry_yield, exit_yield, tenor, notional),
{
    let change: i128 = exit_yield as i128 - entry_yield as i128;
    proof {
        lemma_product_within(change as int, notional as int, 0xFFFF_FFFF, 0x8000_0000_0000_0000);
        lemma_value_within_limit(entry_yield, exit_yield, tenor, notional);
    }
    change * (notional as i128) * (tenor as i128)
}

} // verus!
