//! The yield curve at two moments: lookups by tenor, and listings for reports.

use std::collections::HashMap;
use vstd::prelude::*;
use vstd::std_specs::hash::group_hash_axioms;
use vstd::std_specs::iter::IteratorSpec;

verus! {

/// A point on the curve: a bond's term in whole years.
pub type Tenor = u32;

/// A yield as a fixed-point integer (with millionths, `25_000` is 2.50 %).
pub type Yield = i32;

/// What a [`CurveStore`] holds, as mathematical maps.
pub struct Curves {
    /// The curve when positions are entered.
    pub initial_curve: Map<Tenor, Yield>,
    /// The curve when positions are marked.
    pub final_curve: Map<Tenor, Yield>,
}

impl Curves {
    /// The yield a position at `tenor` is entered at: the initial curve's
    /// value, or zero where the initial curve has no such tenor.
    pub open spec fn entry_yield(self, tenor: Tenor) -> Yield {
        if self.initial_curve.contains_key(tenor) {
            self.initial_curve[tenor]
        } else {
            0
        }
    }

    /// The yield a position at `tenor` is marked at: the final curve's value,
    /// or `fallback` where the final curve has no such tenor.
    pub open spec fn exit_yield(self, tenor: Tenor, fallback: Yield) -> Yield {
        if self.final_curve.contains_key(tenor) {
            self.final_curve[tenor]
        } else {
            fallback
        }
    }
}

/// Whether `points` lists `curve` exactly: only points of the curve, every
/// tenor of the curve, and none of them twice. The order is left open.
pub open spec fn lists_curve(points: Seq<(Tenor, Yield)>, curve: Map<Tenor, Yield>) -> bool {
    &&& forall|i: int|
        0 <= i < points.len() ==> curve.contains_key((#[trigger] points[i]).0)
            && curve[points[i].0] == points[i].1
    &&& forall|tenor: Tenor|
        (#[trigger] curve.contains_key(tenor)) ==> exists|i: int|
            0 <= i < points.len() && (#[trigger] points[i]).0 == tenor
    &&& forall|i: int, j: int|
        0 <= i < j < points.len() ==> (#[trigger] points[i]).0 != (#[trigger] points[j]).0
}

/// The points of one snapshot, in the order the map yields them.
fn points_of(curve: &HashMap<Tenor, Yield>) -> (points: Vec<(Tenor, Yield)>)
    ensures
        lists_curve(points@, curve@),
{
    broadcast use group_hash_axioms;

    let mut points: Vec<(Tenor, Yield)> = Vec::new();
    let entries = curve.iter();
    let ghost all = entries.remaining();
    for entry in it: entries
        invariant
            it.seq() == all,
            points@.len() == it.index(),
            forall|j: int|
                0 <= j < points@.len() ==> #[trigger] points@[j] == (*all[j].0, *all[j].1),
    {
        points.push((*entry.0, *entry.1));
    }
    proof {
        assert(points@.len() == all.len());
        assert forall|tenor: Tenor| (#[trigger] curve@.contains_key(tenor)) implies exists|i: int|
            0 <= i < points@.len() && (#[trigger] points@[i]).0 == tenor by {
            assert(all.contains((&tenor, &curve@[tenor])));
            let i: int = choose|i: int| 0 <= i < all.len() && all[i] == (&tenor, &curve@[tenor]);
            assert(points@[i].0 == tenor);
        }
        assert forall|i: int, j: int| 0 <= i < j < points@.len() implies (#[trigger] points@[i]).0
            != (#[trigger] points@[j]).0 by {
            if points@[i].0 == points@[j].0 {
                assert(curve@[*all[i].0] == *all[i].1);
                assert(curve@[*all[j].0] == *all[j].1);
                assert(all[i] == all[j]);
            }
        }
    }
    points
}

/// Two snapshots of one yield curve, fixed once built.
pub struct CurveStore {
    initial_curve: HashMap<Tenor, Yield>,
    final_curve: HashMap<Tenor, Yield>,
}

impl View for CurveStore {
    type V = Curves;

    closed spec fn view(&self) -> Curves {
        Curves { initial_curve: self.initial_curve@, final_curve: self.final_curve@ }
    }
}

impl CurveStore {
    /// Takes the two snapshots as they are; any tenors and yields are accepted.
    pub fn new(initial_curve: HashMap<Tenor, Yield>, final_curve: HashMap<Tenor, Yield>) -> (store:
        Self)
        ensures
            store@.initial_curve == initial_curve@,
            store@.final_curve == final_curve@,
    {
        CurveStore { initial_curve, final_curve }
    }

    /// The initial yield at `tenor`, or zero if the initial curve lacks it.
    pub fn lookup_initial(&self, tenor: Tenor) -> (y: Yield)
        ensures
            y == self@.entry_yield(tenor),
    {
        broadcast use group_hash_axioms;

        match self.initial_curve.get(&tenor) {
            Some(y) => *y,
            None => 0,
        }
    }

    /// The final yield at `tenor`, or `fallback` if the final curve lacks it.
    pub fn lookup_final(&self, tenor: Tenor, fallback: Yield) -> (y: Yield)
        ensures
            y == self@.exit_yield(tenor, fallback),
    {
        broadcast use group_hash_axioms;

        match self.final_curve.get(&tenor) {
            Some(y) => *y,
            None => fallback,
        }
    }

    /// Every point of the initial curve, in no particular order.
    pub fn initial_points(&self) -> (points: Vec<(Tenor, Yield)>)
        ensures
            lists_curve(points@, self@.initial_curve),
    {
        points_of(&self.initial_curve)
    }

    /// Every point of the final curve, in no particular order.
    pub fn final_points(&self) -> (points: Vec<(Tenor, Yield)>)
        ensures
            lists_curve(points@, self@.final_curve),
    {
        points_of(&self.final_curve)
    }
}

} // verus!
