//! The ledger: positions entered against a curve store, and their valuation.

use crate::curve::{lists_curve, CurveStore, Curves, Tenor, Yield};
use crate::position::{
    lemma_no_move_no_value, lemma_value_within_limit, value_yield_move, Notional, Position,
};
use vstd::prelude::*;

verus! {

/// The sum of the positions' profits and losses, as an unbounded integer.
pub open spec fn total_profit_loss(curves: Curves, positions: Seq<Position>) -> int
    decreases positions.len(),
{
    if positions.len() == 0 {
        0
    } else {
        total_profit_loss(curves, positions.drop_last()) + positions.last().profit_loss(curves)
    }
}

/// What a [`PositionLedger`] holds: the curves it values against and its
/// positions in the order they were added.
pub struct LedgerState {
    pub curves: Curves,
    pub positions: Seq<Position>,
}

impl LedgerState {
    /// Every position carries the entry yield that the initial curve gives
    /// for its tenor.
    pub open spec fn consistent(self) -> bool {
        forall|i: int|
            0 <= i < self.positions.len() ==> (#[trigger] self.positions[i]).entry_yield
                == self.curves.entry_yield(self.positions[i].tenor)
    }

    /// The ledger's total profit or loss.
    pub open spec fn total(self) -> int {
        total_profit_loss(self.curves, self.positions)
    }
}

/// `value` as an `i128` where it is one, and `None` where it is out of range.
pub open spec fn as_i128(value: int) -> Option<i128> {
    if i128::MIN <= value <= i128::MAX {
        Some(value as i128)
    } else {
        None
    }
}

/// Two to the 128th: the span of an `i128`.
spec fn wrap_span() -> int {
    0x1_0000_0000_0000_0000_0000_0000_0000_0000int
}

/// Adds two 128-bit numbers without overflow: the sum wrapped into an
/// `i128`, and a carry of -1, 0 or 1 counting the spans of 2^128 taken off.
fn carrying_add(a: i128, b: i128) -> (sum: (i128, i128))
    ensures
        sum.0 + sum.1 * wrap_span() == a + b,
        -1 <= sum.1 <= 1,
{
    if b >= 0 {
        if a <= i128::MAX - b {
            (a + b, 0)
        } else {
            ((a + i128::MIN) + (b + i128::MIN), 1)
        }
    } else {
        if a >= i128::MIN - b {
            (a + b, 0)
        } else {
            ((a - i128::MIN) + (b - i128::MIN), -1)
        }
    }
}

/// Everything a report of a ledger shows, as plain data: both curves, the
/// positions in the order they were added, and the total. Rendering it as
/// text is left to the caller.
#[derive(Debug, PartialEq, Eq)]
pub struct Summary {
    pub initial_curve: Vec<(Tenor, Yield)>,
    pub final_curve: Vec<(Tenor, Yield)>,
    pub positions: Vec<Position>,
    /// The total profit or loss; `None` if it does not fit in an `i128`.
    pub total_pl: Option<i128>,
}

/// An ordered book of positions, valued against a fixed pair of curves.
///
/// Positions are only ever appended, each with the entry yield that the
/// initial curve gives at that moment; none is changed or removed.
pub struct PositionLedger {
    curves: CurveStore,
    positions: Vec<Position>,
}

impl View for PositionLedger {
    type V = LedgerState;

    closed spec fn view(&self) -> LedgerState {
        LedgerState { curves: self.curves@, positions: self.positions@ }
    }
}

impl PositionLedger {
    #[verifier::type_invariant]
    spec fn entries_match_curve(self) -> bool {
        self@.consistent()
    }

    /// An empty ledger over `curves`.
    pub fn new(curves: CurveStore) -> (ledger: Self)
        ensures
            ledger@.curves == curves@,
            ledger@.positions == Seq::<Position>::empty(),
    {
        PositionLedger { curves, positions: Vec::new() }
    }

    /// The curves this ledger values against.
    pub fn curves(&self) -> (curves: &CurveStore)
        ensures
            curves@ == self@.curves,
    {
        &self.curves
    }

    /// The positions, oldest first.
    pub fn positions(&self) -> (positions: &Vec<Position>)
        ensures
            positions@ == self@.positions,
            self@.consistent(),
    {
        proof {
            use_type_invariant(self);
        }
        &self.positions
    }

    /// Appends a position at `tenor`, entered at the initial curve's yield
    /// for that tenor, or at zero if the initial curve has no such tenor.
    pub fn add_position(&mut self, tenor: Tenor, is_long: bool, notional: Notional)
        ensures
            final(self)@.curves == old(self)@.curves,
            final(self)@.positions == old(self)@.positions.push(
                (Position {
                    tenor,
                    is_long,
                    notional,
                    entry_yield: old(self)@.curves.entry_yield(tenor),
                }),
            ),
            old(self)@.curves.initial_curve.contains_key(tenor)
                ==> final(self)@.positions.last().entry_yield
                    == old(self)@.curves.initial_curve[tenor],
            !old(self)@.curves.initial_curve.contains_key(tenor)
                ==> final(self)@.positions.last().entry_yield == 0,
            final(self)@.consistent(),
    {
        proof {
            use_type_invariant(&*self);
        }
        let entry_yield: Yield = self.curves.lookup_initial(tenor);
        // The vector is grown outside the ledger, which stays valid (empty)
        // in the meantime, and put back once the new position is in place.
        let mut positions = Vec::new();
        std::mem::swap(&mut positions, &mut self.positions);
        let ghost earlier = positions@;
        positions.push(Position { tenor, is_long, notional, entry_yield });
        proof {
            assert forall|i: int| 0 <= i < positions@.len() implies (#[trigger] positions@[i])
                .entry_yield == self.curves@.entry_yield(positions@[i].tenor) by {
                if i < earlier.len() {
                    assert(positions@[i] == old(self)@.positions[i]);
                }
            }
        }
        self.positions = positions;
    }

    /// Profit or loss of one position under this ledger's curves: the move
    /// from its entry yield to the final curve's yield at its tenor, times
    /// notional, times tenor; negated for a short. Where the final curve has
    /// no such tenor the yield counts as unchanged and the result is zero.
    pub fn compute_position_pl(&self, position: &Position) -> (pl: i128)
        ensures
            pl == position.profit_loss(self@.curves),
            !self@.curves.final_curve.contains_key(position.tenor) ==> pl == 0,
    {
        let exit_yield: Yield = self.curves.lookup_final(position.tenor, position.entry_yield);
        let raw: i128 = value_yield_move(
            position.entry_yield,
            exit_yield,
            position.tenor,
            position.notional,
        );
        proof {
            lemma_value_within_limit(
                position.entry_yield,
                exit_yield,
                position.tenor,
                position.notional,
            );
            lemma_no_move_no_value(position.entry_yield, position.tenor, position.notional);
        }
        if position.is_long {
            raw
        } else {
            -raw
        }
    }

    /// The sum of every position's profit or loss, or `None` if that sum
    /// does not fit in an `i128`. The empty ledger totals zero.
    pub fn compute_total_pl(&self) -> (total: Option<i128>)
        ensures
            total == as_i128(self@.total()),
    {
        // The running sum is `low + wraps * 2^128`: it may leave the range of
        // an `i128` part of the way and come back by the end.
        let mut low: i128 = 0;
        let mut wraps: i128 = 0;
        let mut i: usize = 0;
        while i < self.positions.len()
            invariant
                i <= self.positions.len(),
                -i <= wraps <= i,
                low + wraps * wrap_span() == total_profit_loss(
                    self@.curves,
                    self.positions@.take(i as int),
                ),
            decreases self.positions.len() - i,
        {
            let pl: i128 = self.compute_position_pl(&self.positions[i]);
            let (sum, carry): (i128, i128) = carrying_add(low, pl);
            proof {
                let next = self.positions@.take(i + 1);
                assert(next.drop_last() =~= self.positions@.take(i as int));
                assert(next.last() == self.positions@[i as int]);
            }
            low = sum;
            wraps = wraps + carry;
            i = i + 1;
        }
        proof {
            assert(self.positions@.take(i as int) =~= self.positions@);
        }
        if wraps == 0 {
            Some(low)
        } else {
            None
        }
    }

    /// A snapshot of the ledger for reporting. Nothing is changed. The
    /// curves' points come in no particular order; the positions come oldest
    /// first.
    pub fn summarize(&self) -> (summary: Summary)
        ensures
            lists_curve(summary.initial_curve@, self@.curves.initial_curve),
            lists_curve(summary.final_curve@, self@.curves.final_curve),
            summary.positions@ == self@.positions,
            summary.total_pl == as_i128(self@.total()),
    {
        let mut positions: Vec<Position> = Vec::new();
        let mut i: usize = 0;
        while i < self.positions.len()
            invariant
                i <= self.positions.len(),
                positions@ == self.positions@.take(i as int),
            decreases self.positions.len() - i,
        {
            positions.push(self.positions[i]);
            assert(self.positions@.take(i + 1) =~= self.positions@.take(i as int).push(
                self.positions@[i as int],
            ));
            i = i + 1;
        }
        assert(self.positions@.take(i as int) =~= self.positions@);
        Summary {
            initial_curve: self.curves.initial_points(),
            final_curve: self.curves.final_points(),
            positions,
            total_pl: self.compute_total_pl(),
        }
    }
}

} // verus!
