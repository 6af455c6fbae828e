use std::collections::HashMap;
use yield_curve_trading::{CurveStore, Position, PositionLedger};

fn curve(points: &[(u32, i32)]) -> HashMap<u32, i32> {
    let mut map = HashMap::new();
    for (tenor, rate) in points {
        map.insert(*tenor, *rate);
    }
    map
}

fn store() -> CurveStore {
    CurveStore::new(
        curve(&[(1, 10_000), (2, 15_000), (10, 25_000), (30, -500)]),
        curve(&[(2, 18_000), (10, 23_000), (30, 700), (50, 41_000)]),
    )
}

fn sorted(mut points: Vec<(u32, i32)>) -> Vec<(u32, i32)> {
    points.sort();
    points
}

#[test]
fn lookup_initial_gives_the_yield_or_zero() {
    let curves = store();
    assert_eq!(curves.lookup_initial(2), 15_000);
    assert_eq!(curves.lookup_initial(30), -500);
    assert_eq!(curves.lookup_initial(50), 0);
    assert_eq!(curves.lookup_initial(0), 0);
}

#[test]
fn lookup_final_gives_the_yield_or_the_fallback() {
    let curves = store();
    assert_eq!(curves.lookup_final(2, 99), 18_000);
    assert_eq!(curves.lookup_final(50, 99), 41_000);
    assert_eq!(curves.lookup_final(1, 99), 99);
    assert_eq!(curves.lookup_final(1, -7), -7);
}

#[test]
fn same_tenor_differs_between_snapshots() {
    let curves = store();
    assert_eq!(curves.lookup_initial(10), 25_000);
    assert_eq!(curves.lookup_final(10, 0), 23_000);
}

#[test]
fn points_list_each_snapshot_once() {
    let curves = store();
    assert_eq!(
        sorted(curves.initial_points()),
        vec![(1, 10_000), (2, 15_000), (10, 25_000), (30, -500)]
    );
    assert_eq!(
        sorted(curves.final_points()),
        vec![(2, 18_000), (10, 23_000), (30, 700), (50, 41_000)]
    );
}

#[test]
fn points_of_an_empty_curve_are_none() {
    let curves = CurveStore::new(curve(&[]), curve(&[(4, 1)]));
    assert_eq!(curves.initial_points(), vec![]);
    assert_eq!(curves.final_points(), vec![(4, 1)]);
}

#[test]
fn new_ledger_is_empty_and_totals_zero() {
    let ledger = PositionLedger::new(store());
    assert!(ledger.positions().is_empty());
    assert_eq!(ledger.compute_total_pl(), Some(0));
    assert_eq!(ledger.curves().lookup_initial(2), 15_000);
}

#[test]
fn added_position_takes_the_initial_yield_of_its_tenor() {
    let mut ledger = PositionLedger::new(store());
    ledger.add_position(10, true, 500);
    ledger.add_position(30, false, 7);
    assert_eq!(
        ledger.positions()[0],
        Position { tenor: 10, is_long: true, notional: 500, entry_yield: 25_000 }
    );
    assert_eq!(
        ledger.positions()[1],
        Position { tenor: 30, is_long: false, notional: 7, entry_yield: -500 }
    );
}

#[test]
fn added_position_for_unknown_tenor_enters_at_zero() {
    let mut ledger = PositionLedger::new(store());
    ledger.add_position(50, true, 500);
    assert_eq!(
        ledger.positions()[0],
        Position { tenor: 50, is_long: true, notional: 500, entry_yield: 0 }
    );
}

#[test]
fn positions_keep_the_order_they_were_added_in() {
    let mut ledger = PositionLedger::new(store());
    ledger.add_position(30, true, 1);
    ledger.add_position(2, false, 2);
    ledger.add_position(30, true, 3);
    let notionals: Vec<i64> = ledger.positions().iter().map(|p| p.notional).collect();
    assert_eq!(notionals, vec![1, 2, 3]);
    assert_eq!(ledger.positions().len(), 3);
}

#[test]
fn total_is_the_sum_over_positions() {
    let mut ledger = PositionLedger::new(store());
    ledger.add_position(2, false, 1_000);
    ledger.add_position(10, true, 2_000);
    ledger.add_position(30, true, -40);
    ledger.add_position(1, true, 9_999);
    ledger.add_position(50, false, 3);
    let mut sum: i128 = 0;
    for position in ledger.positions() {
        sum += ledger.compute_position_pl(position);
    }
    assert_eq!(ledger.compute_total_pl(), Some(sum));
    let expected: i128 = -(3_000 * 1_000 * 2) + (-2_000 * 2_000 * 10) + (1_200 * -40 * 30)
        - (41_000 * 3 * 50);
    assert_eq!(sum, expected);
}

#[test]
fn total_does_not_depend_on_insertion_order() {
    let trades: [(u32, bool, i64); 4] =
        [(2, false, 1_000_000), (10, true, 750_000), (30, false, 12), (50, true, 1)];
    let orders: [[usize; 4]; 4] = [[0, 1, 2, 3], [3, 2, 1, 0], [1, 3, 0, 2], [2, 0, 3, 1]];
    let mut totals = Vec::new();
    for order in orders {
        let mut ledger = PositionLedger::new(store());
        for at in order {
            let (tenor, is_long, notional) = trades[at];
            ledger.add_position(tenor, is_long, notional);
        }
        totals.push(ledger.compute_total_pl());
    }
    let expected: i128 =
        -(3_000 * 1_000_000 * 2) + (-2_000 * 750_000 * 10) - (1_200 * 12 * 30) + 41_000 * 50;
    assert_eq!(totals, vec![Some(expected); 4]);
}

fn widest() -> (PositionLedger, i128) {
    let curves = CurveStore::new(curve(&[(u32::MAX, i32::MIN)]), curve(&[(u32::MAX, i32::MAX)]));
    let span: i128 = (1 << 32) - 1;
    (PositionLedger::new(curves), span * (i64::MAX as i128) * span)
}

#[test]
fn total_too_large_for_128_bits_is_none() {
    let (mut ledger, largest) = widest();
    ledger.add_position(u32::MAX, true, i64::MAX);
    assert_eq!(ledger.compute_total_pl(), Some(largest));
    ledger.add_position(u32::MAX, true, i64::MAX);
    assert_eq!(ledger.compute_total_pl(), None);
    ledger.add_position(u32::MAX, true, i64::MAX);
    assert_eq!(ledger.compute_total_pl(), None);
}

#[test]
fn total_too_small_for_128_bits_is_none() {
    let (mut ledger, largest) = widest();
    ledger.add_position(u32::MAX, false, i64::MAX);
    ledger.add_position(u32::MAX, false, i64::MAX);
    assert_eq!(ledger.compute_total_pl(), None);
    ledger.add_position(u32::MAX, true, i64::MAX);
    assert_eq!(ledger.compute_total_pl(), Some(-largest));
}

#[test]
fn total_that_fits_is_exact_though_partial_sums_do_not() {
    let (mut ledger, largest) = widest();
    ledger.add_position(u32::MAX, true, i64::MAX);
    ledger.add_position(u32::MAX, true, i64::MAX);
    ledger.add_position(u32::MAX, true, i64::MAX);
    ledger.add_position(u32::MAX, false, i64::MAX);
    ledger.add_position(u32::MAX, false, i64::MAX);
    assert_eq!(ledger.compute_total_pl(), Some(largest));
    ledger.add_position(u32::MAX, false, i64::MAX);
    ledger.add_position(u32::MAX, false, i64::MAX);
    assert_eq!(ledger.compute_total_pl(), Some(-largest));
    ledger.add_position(u32::MAX, true, 5);
    let span: i128 = (1 << 32) - 1;
    assert_eq!(ledger.compute_total_pl(), Some(-largest + span * 5 * span));
}

#[test]
fn summary_shows_curves_positions_and_total() {
    let mut ledger = PositionLedger::new(store());
    ledger.add_position(2, false, 1_000_000);
    ledger.add_position(10, true, 1_000_000);
    let summary = ledger.summarize();
    assert_eq!(
        sorted(summary.initial_curve),
        vec![(1, 10_000), (2, 15_000), (10, 25_000), (30, -500)]
    );
    assert_eq!(
        sorted(summary.final_curve),
        vec![(2, 18_000), (10, 23_000), (30, 700), (50, 41_000)]
    );
    assert_eq!(
        summary.positions,
        vec![
            Position { tenor: 2, is_long: false, notional: 1_000_000, entry_yield: 15_000 },
            Position { tenor: 10, is_long: true, notional: 1_000_000, entry_yield: 25_000 },
        ]
    );
    assert_eq!(summary.total_pl, Some(-26_000_000_000));
}

#[test]
fn summary_of_an_empty_ledger() {
    let ledger = PositionLedger::new(CurveStore::new(curve(&[]), curve(&[])));
    let summary = ledger.summarize();
    assert!(summary.initial_curve.is_empty());
    assert!(summary.final_curve.is_empty());
    assert!(summary.positions.is_empty());
    assert_eq!(summary.total_pl, Some(0));
}

#[test]
fn summarizing_changes_nothing() {
    let mut ledger = PositionLedger::new(store());
    ledger.add_position(30, true, 8);
    let first = ledger.summarize();
    let second = ledger.summarize();
    assert_eq!(first.positions, second.positions);
    assert_eq!(first.total_pl, second.total_pl);
    assert_eq!(sorted(first.initial_curve), sorted(second.initial_curve));
    assert_eq!(ledger.positions().len(), 1);
    assert_eq!(ledger.compute_total_pl(), Some(1_200 * 8 * 30));
}
