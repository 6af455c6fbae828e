//! What holds of valuation in general, proved once for every curve and ledger.

use crate::curve::Curves;
use crate::ledger::total_profit_loss;
use crate::position::{lemma_no_move_no_value, Position};
use vstd::prelude::*;

verus! {

/// A long position earns the change in yield from entry to exit, times its
/// notional, times its tenor; the same position held short earns exactly the
/// negation of that.
pub proof fn lemma_long_earns_move_short_its_negation(curves: Curves, position: Position)
    ensures
        position.is_long ==> position.profit_loss(curves) == (position.exit_yield(curves)
            - position.entry_yield) * position.notional * position.tenor,
        !position.is_long ==> position.profit_loss(curves) == -((position.exit_yield(curves)
            - position.entry_yield) * position.notional * position.tenor),
        ({
            let long = Position { is_long: true, ..position };
            let short = Position { is_long: false, ..position };
            short.profit_loss(curves) == -long.profit_loss(curves)
        }),
{
}

/// A position whose tenor the final curve lacks is marked at its own entry
/// yield, so it contributes nothing, whatever its size and direction.
pub proof fn lemma_tenor_absent_from_final_curve_earns_nothing(curves: Curves, position: Position)
    requires
        !curves.final_curve.contains_key(position.tenor),
    ensures
        position.exit_yield(curves) == position.entry_yield,
        position.profit_loss(curves) == 0,
{
    lemma_no_move_no_value(position.entry_yield, position.tenor, position.notional);
}

/// With no positions the total is zero.
pub proof fn lemma_empty_total_is_zero(curves: Curves)
    ensures
        total_profit_loss(curves, Seq::<Position>::empty()) == 0,
{
}

/// Adding a position adds exactly its own profit or loss to the total.
pub proof fn lemma_total_after_push(curves: Curves, positions: Seq<Position>, added: Position)
    ensures
        total_profit_loss(curves, positions.push(added)) == total_profit_loss(curves, positions)
            + added.profit_loss(curves),
{
    assert(positions.push(added).drop_last() =~= positions);
}

/// Taking any one position out lowers the total by that position's own
/// profit or loss.
pub proof fn lemma_total_without(curves: Curves, positions: Seq<Position>, at: int)
    requires
        0 <= at < positions.len(),
    ensures
        total_profit_loss(curves, positions) == total_profit_loss(curves, positions.remove(at))
            + positions[at].profit_loss(curves),
    decreases positions.len(),
{
    if at == positions.len() - 1 {
        assert(positions.remove(at) =~= positions.drop_last());
    } else {
        lemma_total_without(curves, positions.drop_last(), at);
        assert(positions.remove(at).drop_last() =~= positions.drop_last().remove(at));
        assert(positions.remove(at).last() == positions.last());
    }
}

/// The total does not depend on the order in which positions were added: two
/// sequences holding the same positions the same number of times total alike.
pub proof fn lemma_total_ignores_order(curves: Curves, one: Seq<Position>, other: Seq<Position>)
    requires
        one.to_multiset() == other.to_multiset(),
    ensures
        total_profit_loss(curves, one) == total_profit_loss(curves, other),
    decreases one.len(),
{
    one.to_multiset_ensures();
    other.to_multiset_ensures();
    if one.len() > 0 {
        let last = one.last();
        assert(one.contains(last));
        assert(other.to_multiset().count(last) > 0);
        assert(other.contains(last));
        let at: int = choose|i: int| 0 <= i < other.len() && other[i] == last;
        assert(one.drop_last() =~= one.remove(one.len() - 1));
        assert(one.remove(one.len() - 1).to_multiset() == one.to_multiset().remove(last));
        assert(other.remove(at).to_multiset() == other.to_multiset().remove(last));
        lemma_total_ignores_order(curves, one.drop_last(), other.remove(at));
        lemma_total_without(curves, other, at);
    }
}

} // verus!
