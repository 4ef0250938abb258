use racetrack::floatbits::f64_bits_gt;
use racetrack::physics::{advance, check_bounds, update_velocity};
use racetrack::policy::select_greedy;
use racetrack::state::{start_state, Action, GameState};
use racetrack::track::TrackMap;
use racetrack::values::ValueTable;

fn empty_track() -> TrackMap {
    TrackMap::load(&vec![3u8; 2500]).unwrap()
}

fn active_state(position: (i32, i32), velocity: (i32, i32)) -> GameState {
    GameState { position, velocity, ended: false, success: false }
}

fn table_with(entries: &[(usize, f64)], fill: f64) -> ValueTable {
    let mut blob = Vec::with_capacity(180000);
    for _ in 0..22500 {
        blob.extend_from_slice(&fill.to_le_bytes());
    }
    for &(idx, v) in entries {
        blob[8 * idx..8 * idx + 8].copy_from_slice(&v.to_le_bytes());
    }
    ValueTable::load(&blob).unwrap()
}

fn value_index(pos: (i32, i32), a: (i32, i32)) -> usize {
    (pos.0 + 50 * pos.1 + 2500 * (a.0 + 1) + 7500 * (a.1 + 1)) as usize
}

#[test]
fn float_pattern_order_matches_ieee_comparison() {
    let samples: [f64; 12] = [
        0.0, -0.0, 1.5, -1.5, 42.0, -42.0, 1e-300, -1e-300, f64::INFINITY, f64::NEG_INFINITY,
        f64::NAN, f64::MIN_POSITIVE / 2.0,
    ];
    for &a in &samples {
        for &b in &samples {
            assert_eq!(f64_bits_gt(a.to_bits(), b.to_bits()), a > b, "{} > {}", a, b);
        }
    }
}

#[test]
fn start_state_is_ended_placeholder() {
    let s = start_state();
    assert_eq!(s.position, (0, 0));
    assert_eq!(s.velocity, (0, 0));
    assert!(s.ended);
    assert!(s.success);
}

#[test]
fn action_from_tuple_keeps_components() {
    let a = Action::from_tuple((-1, 1));
    assert_eq!(a.xacc, -1);
    assert_eq!(a.yacc, 1);
}

#[test]
fn velocity_clamps_at_five() {
    assert_eq!(check_bounds(6), 5);
    assert_eq!(check_bounds(-6), -5);
    assert_eq!(check_bounds(3), 3);
    assert_eq!(update_velocity((5, 5), Action { xacc: 1, yacc: 1 }), (5, 5));
    assert_eq!(update_velocity((-5, -5), Action { xacc: -1, yacc: -1 }), (-5, -5));
    assert_eq!(update_velocity((2, -3), Action { xacc: 1, yacc: -1 }), (3, -4));
}

#[test]
fn velocity_stays_saturated_over_repeated_steps() {
    let track = empty_track();
    let push = Action { xacc: 1, yacc: 1 };
    let mut s = active_state((10, 10), (5, 5));
    for _ in 0..2 {
        s = advance(&track, s, push);
        assert!(!s.ended);
        assert_eq!(s.velocity, (5, 5));
    }
    assert_eq!(s.position, (20, 20));
}

#[test]
fn full_step_covers_velocity_magnitude() {
    let track = empty_track();
    let s = advance(&track, active_state((10, 10), (1, 0)), Action { xacc: 0, yacc: 0 });
    assert!(!s.ended);
    assert_eq!(s.position, (11, 10));
    assert_eq!(s.velocity, (1, 0));
}

#[test]
fn boundary_crossing_ends_without_success() {
    let track = empty_track();
    let s = advance(&track, active_state((49, 10), (4, 0)), Action { xacc: 1, yacc: 0 });
    assert!(s.ended);
    assert!(!s.success);
    assert_eq!(s.position, (0, 0));
    assert_eq!(s.velocity, (0, 0));
}

#[test]
fn negative_coordinate_truncates_toward_zero_before_crossing() {
    // with velocity (-1, 0) from x == 0 the continuous coordinate stays in
    // cell 0 for four sub-steps (it truncates toward zero) and only the
    // fifth crosses the edge
    let track = empty_track();
    let s = advance(&track, active_state((0, 10), (0, 0)), Action { xacc: -1, yacc: 0 });
    assert!(s.ended);
    assert!(!s.success);
    let t = advance(&track, active_state((1, 10), (0, 0)), Action { xacc: -1, yacc: 0 });
    assert!(!t.ended);
    assert_eq!(t.position, (0, 10));
}

#[test]
fn goal_crossing_ends_with_success() {
    let mut bytes = vec![3u8; 2500];
    bytes[5] = 1;  // End cell at (5, 0)
    let track = TrackMap::load(&bytes).unwrap();
    let s = advance(&track, active_state((4, 0), (1, 0)), Action { xacc: 0, yacc: 0 });
    assert!(s.ended);
    assert!(s.success);
    assert_eq!(s.position, (0, 0));
    assert_eq!(s.velocity, (0, 0));
}

#[test]
fn hitting_boundary_cell_ends_without_success() {
    let mut bytes = vec![3u8; 2500];
    bytes[6 + 50 * 10] = 0;  // Boundary cell at (6, 10)
    let track = TrackMap::load(&bytes).unwrap();
    let s = advance(&track, active_state((5, 10), (1, 0)), Action { xacc: 0, yacc: 0 });
    assert!(s.ended);
    assert!(!s.success);
}

#[test]
fn hitting_beginning_cell_ends_without_success() {
    let mut bytes = vec![3u8; 2500];
    bytes[6 + 50 * 10] = 2;  // Beginning cell at (6, 10)
    let track = TrackMap::load(&bytes).unwrap();
    let s = advance(&track, active_state((5, 10), (1, 0)), Action { xacc: 0, yacc: 0 });
    assert!(s.ended);
    assert!(!s.success);
}

#[test]
fn greedy_picks_strict_maximum() {
    let pos = (10, 20);
    let t = table_with(&[(value_index(pos, (1, 1)), 9.0)], 0.0);
    let a = select_greedy(&t, active_state(pos, (0, 0)));
    assert_eq!(a, Action { xacc: 1, yacc: 1 });
}

#[test]
fn greedy_tie_breaks_to_earliest_enumerated() {
    // candidates enumerate xacc outer, yacc inner: (0, 1) comes before (1, 0)
    let pos = (10, 20);
    let t = table_with(
        &[(value_index(pos, (0, 1)), 5.0), (value_index(pos, (1, 0)), 5.0)],
        0.0,
    );
    let a = select_greedy(&t, active_state(pos, (0, 0)));
    assert_eq!(a, Action { xacc: 0, yacc: 1 });
}

#[test]
fn greedy_three_way_tie_still_earliest() {
    let pos = (0, 0);
    let t = table_with(
        &[
            (value_index(pos, (-1, 0)), 7.5),
            (value_index(pos, (0, 0)), 7.5),
            (value_index(pos, (1, 1)), 7.5),
        ],
        -2.0,
    );
    let a = select_greedy(&t, active_state(pos, (0, 0)));
    assert_eq!(a, Action { xacc: -1, yacc: 0 });
}

#[test]
fn greedy_all_negative_infinity_keeps_zero_action() {
    let t = table_with(&[], f64::NEG_INFINITY);
    let a = select_greedy(&t, active_state((25, 25), (0, 0)));
    assert_eq!(a, Action { xacc: 0, yacc: 0 });
}

#[test]
fn greedy_all_nan_keeps_zero_action() {
    let t = table_with(&[], f64::NAN);
    let a = select_greedy(&t, active_state((25, 25), (0, 0)));
    assert_eq!(a, Action { xacc: 0, yacc: 0 });
}

#[test]
fn greedy_prefers_finite_over_negative_infinity() {
    let pos = (1, 1);
    let t = table_with(&[(value_index(pos, (0, -1)), -123.25)], f64::NEG_INFINITY);
    let a = select_greedy(&t, active_state(pos, (0, 0)));
    assert_eq!(a, Action { xacc: 0, yacc: -1 });
}
