use vstd::prelude::*;
use vstd::arithmetic::div_mod::lemma_fundamental_div_mod_converse;
use crate::state::{Action, GameState};
use crate::track::{cell_index, TrackMap, TrackPoint};

verus! {

// One tick advances the state by one velocity-length move, split into 5
// equal sub-steps so that a fast agent cannot tunnel through a narrow
// boundary or goal cell.  The continuous coordinate after k sub-steps is
// position + k * velocity / 5, an exact multiple of one fifth; it is held
// here as its numerator, the integer 5 * position + k * velocity, and the
// grid cell under it is the numerator divided by 5, truncated toward zero.

/// One velocity component clamped to [-5, 5].
pub open spec fn clamp_velocity(v: int) -> int {
    if v > 5 {
        5
    } else if v < -5 {
        -5
    } else {
        v
    }
}

/// Division by 5 truncated toward zero, as the continuous coordinate
/// truncates to a grid coordinate.
pub open spec fn trunc_div5(a: int) -> int {
    if a >= 0 {
        a / 5
    } else {
        -((-a) / 5)
    }
}

/// The terminal state every episode ends in: the origin with no velocity,
/// flagged ended, successful only when the goal was reached.
pub open spec fn terminal_state(success: bool) -> GameState {
    GameState { position: (0, 0), velocity: (0, 0), ended: true, success }
}

/// The remaining sub-steps of one tick, starting after `k` of the 5 are
/// done, with `nx`/`ny` the numerators (in fifths) of the continuous
/// coordinates and `vx`/`vy` the already-clamped new velocity.  Each
/// sub-step advances the coordinates by one fifth of the velocity and
/// inspects the grid cell under them: off the grid or a Boundary or a
/// Beginning cell ends the episode without success, an End cell ends it
/// with success, and an Empty cell lets the next sub-step run.
pub open spec fn advance_from(
    cells: Seq<TrackPoint>,
    nx: int,
    ny: int,
    vx: int,
    vy: int,
    k: int,
) -> GameState
    decreases 5 - k,
{
    if k >= 5 {
        GameState {
            position: (trunc_div5(nx) as i32, trunc_div5(ny) as i32),
            velocity: (vx as i32, vy as i32),
            ended: false,
            success: false,
        }
    } else {
        let nx2 = nx + vx;
        let ny2 = ny + vy;
        let px = trunc_div5(nx2);
        let py = trunc_div5(ny2);
        if px < 0 || px >= 50 || py < 0 || py >= 50 {
            terminal_state(false)
        } else {
            let tp = cells[px + 50 * py];
            if tp == TrackPoint::End {
                terminal_state(true)
            } else if tp == TrackPoint::Beginning || tp == TrackPoint::Boundary {
                terminal_state(false)
            } else {
                advance_from(cells, nx2, ny2, vx, vy, k + 1)
            }
        }
    }
}

/// One whole physics step: clamp the velocity raised by the action, then
/// run the 5 sub-steps from the current position.
pub open spec fn advance_spec(cells: Seq<TrackPoint>, st: GameState, a: Action) -> GameState {
    let vx = clamp_velocity(st.velocity.0 + a.xacc);
    let vy = clamp_velocity(st.velocity.1 + a.yacc);
    advance_from(cells, 5 * st.position.0, 5 * st.position.1, vx, vy, 0)
}

/// A step from a well-formed active state lands in a well-formed state:
/// a terminal one is reset to the origin, a non-terminal one keeps the
/// clamped velocity and stays on the grid.
pub proof fn lemma_advance_from_wf(
    cells: Seq<TrackPoint>,
    nx: int,
    ny: int,
    vx: int,
    vy: int,
    k: int,
)
    requires
        cells.len() == 2500,
        -5 <= vx <= 5,
        -5 <= vy <= 5,
        0 <= k <= 5,
    ensures
        ({
            let r = advance_from(cells, nx, ny, vx, vy, k);
            &&& r.ended ==> r == terminal_state(r.success)
            &&& !r.ended ==> r.velocity == (vx as i32, vy as i32)
            &&& (!r.ended && k < 5) ==> (0 <= r.position.0 < 50 && 0 <= r.position.1 < 50)
        }),
    decreases 5 - k,
{
    if k < 5 {
        let nx2 = nx + vx;
        let ny2 = ny + vy;
        let px = trunc_div5(nx2);
        let py = trunc_div5(ny2);
        if 0 <= px < 50 && 0 <= py < 50 {
            let tp = cells[px + 50 * py];
            if tp != TrackPoint::End && tp != TrackPoint::Beginning && tp != TrackPoint::Boundary {
                lemma_advance_from_wf(cells, nx2, ny2, vx, vy, k + 1);
                if k + 1 == 5 {
                    let r = advance_from(cells, nx2, ny2, vx, vy, 5);
                    assert(r.position == (px as i32, py as i32));
                }
            }
        }
    }
}

/// Clamps one velocity component to [-5, 5].
pub fn check_bounds(v: i32) -> (r: i32)
    requires
        -6 <= v <= 6,
    ensures
        r == clamp_velocity(v as int),
{
    if v > 5 {
        5
    } else if v < -5 {
        -5
    } else {
        v
    }
}

/// The velocity one tick leaves: the action added componentwise, then
/// each component clamped to [-5, 5].
pub fn update_velocity(velocity: (i32, i32), action: Action) -> (r: (i32, i32))
    requires
        -5 <= velocity.0 <= 5,
        -5 <= velocity.1 <= 5,
        action.wf(),
    ensures
        r.0 == clamp_velocity(velocity.0 + action.xacc),
        r.1 == clamp_velocity(velocity.1 + action.yacc),
        -5 <= r.0 <= 5,
        -5 <= r.1 <= 5,
    {
    (check_bounds(velocity.0 + action.xacc), check_bounds(velocity.1 + action.yacc))
}

/// Division by 5 truncated toward zero on a small numerator.
fn div5_toward_zero(n: i32) -> (r: i32)
    requires
        -300 <= n <= 300,
    ensures
        r == trunc_div5(n as int),
{
    if n >= 0 {
        (((n as u32) / 5) as i32)
    } else {
        -((((-n) as u32) / 5) as i32)
    }
}

/// One discrete physics step from an active state.  The returned state is
/// exactly the one `advance_spec` describes; in particular a non-terminal
/// result stays on the grid with the clamped velocity, and a terminal one
/// is reset to the origin.
pub fn advance(track: &TrackMap, state: GameState, action: Action) -> (r: GameState)
    requires
        track.wf(),
        !state.ended,
        state.position_on_grid(),
        state.velocity_clamped(),
        action.wf(),
    ensures
        r == advance_spec(track.cells(), state, action),
        r.wf(),
        !r.ended ==> r.position_on_grid() && r.velocity_clamped(),
        r.ended ==> r.position.0 == 0 && r.position.1 == 0 && r.velocity.0 == 0 && r.velocity.1
            == 0,
{
    let (vx, vy) = update_velocity(state.velocity, action);
    let mut nx: i32 = 5 * state.position.0;
    let mut ny: i32 = 5 * state.position.1;
    let ghost cells = track.cells();
    let mut k: usize = 0;
    while k < 5
        invariant
            track.wf(),
            cells == track.cells(),
            -5 <= vx <= 5,
            -5 <= vy <= 5,
            0 <= k <= 5,
            nx == 5 * state.position.0 + k * vx,
            ny == 5 * state.position.1 + k * vy,
            0 <= state.position.0 < 50,
            0 <= state.position.1 < 50,
            k > 0 ==> 0 <= trunc_div5(nx as int) < 50 && 0 <= trunc_div5(ny as int) < 50,
            advance_from(cells, nx as int, ny as int, vx as int, vy as int, k as int)
                == advance_spec(track.cells(), state, action),
        decreases 5 - k,
    {
        nx = nx + vx;
        ny = ny + vy;
        let px = div5_toward_zero(nx);
        let py = div5_toward_zero(ny);
        if px < 0 || px >= 50 || py < 0 || py >= 50 {
            return GameState { position: (0, 0), velocity: (0, 0), ended: true, success: false };
        }
        let tp = track.classify((px, py));
        if tp == TrackPoint::End {
            return GameState { position: (0, 0), velocity: (0, 0), ended: true, success: true };
        } else if tp == TrackPoint::Beginning || tp == TrackPoint::Boundary {
            return GameState { position: (0, 0), velocity: (0, 0), ended: true, success: false };
        }
        proof {
            assert((k + 1) * (vx as int) == k * (vx as int) + vx) by (nonlinear_arith);
            assert((k + 1) * (vy as int) == k * (vy as int) + vy) by (nonlinear_arith);
        }
        k += 1;
    }
    let px = div5_toward_zero(nx);
    let py = div5_toward_zero(ny);
    GameState { position: (px, py), velocity: (vx, vy), ended: false, success: false }
}

/// Law: a step whose very first sub-step leaves the grid ends the
/// episode at once: no success, position and velocity reset to the
/// origin.  A state one cell from an edge with its new velocity aimed
/// fully off the grid is the typical such state.
pub proof fn lemma_boundary_crossing(cells: Seq<TrackPoint>, st: GameState, a: Action)
    requires
        ({
            let vx = clamp_velocity(st.velocity.0 + a.xacc);
            let vy = clamp_velocity(st.velocity.1 + a.yacc);
            let px = trunc_div5(5 * st.position.0 + vx);
            let py = trunc_div5(5 * st.position.1 + vy);
            px < 0 || px >= 50 || py < 0 || py >= 50
        }),
    ensures
        advance_spec(cells, st, a) == terminal_state(false),
{
}

/// Law: standing on an Empty cell with an End cell as the right-hand
/// neighbour, one step with velocity (1, 0) and no acceleration crosses
/// into the End cell on its last sub-step and ends the episode with
/// success.
pub proof fn lemma_goal_crossing(cells: Seq<TrackPoint>, st: GameState, a: Action)
    requires
        cells.len() == 2500,
        0 <= st.position.0 < 49,
        0 <= st.position.1 < 50,
        st.velocity.0 == 1,
        st.velocity.1 == 0,
        a.xacc == 0,
        a.yacc == 0,
        cells[cell_index(st.position)] == TrackPoint::Empty,
        cells[cell_index(((st.position.0 + 1) as i32, st.position.1))] == TrackPoint::End,
    ensures
        advance_spec(cells, st, a) == terminal_state(true),
{
    let x = st.position.0 as int;
    let y = st.position.1 as int;
    assert(clamp_velocity(st.velocity.0 + a.xacc) == 1);
    assert(clamp_velocity(st.velocity.1 + a.yacc) == 0);
    lemma_fundamental_div_mod_converse(5 * y, 5, y, 0);
    assert(trunc_div5(5 * y) == y);
    assert forall|k: int| 1 <= k <= 5 implies #[trigger] trunc_div5(5 * x + k) == (if k < 5 {
        x
    } else {
        x + 1
    }) by {
        if k < 5 {
            lemma_fundamental_div_mod_converse(5 * x + k, 5, x, k);
        } else {
            lemma_fundamental_div_mod_converse(5 * x + k, 5, x + 1, 0);
        }
    }
    assert(cell_index(((st.position.0 + 1) as i32, st.position.1)) == x + 1 + 50 * y);
    assert(advance_from(cells, 5 * x, 5 * y, 1, 0, 0) == advance_from(cells, 5 * x + 1, 5 * y, 1, 0, 1));
    assert(advance_from(cells, 5 * x + 1, 5 * y, 1, 0, 1) == advance_from(cells, 5 * x + 2, 5 * y, 1, 0, 2));
    assert(advance_from(cells, 5 * x + 2, 5 * y, 1, 0, 2) == advance_from(cells, 5 * x + 3, 5 * y, 1, 0, 3));
    assert(advance_from(cells, 5 * x + 3, 5 * y, 1, 0, 3) == advance_from(cells, 5 * x + 4, 5 * y, 1, 0, 4));
    assert(advance_from(cells, 5 * x + 4, 5 * y, 1, 0, 4) == terminal_state(true));
}

/// Law: with the velocity already saturated at (5, 5), continuing to
/// accelerate by (1, 1) leaves the clamped velocity at (5, 5); so as long
/// as such a step stays on the track, repeating it keeps the velocity
/// there indefinitely.
pub proof fn lemma_velocity_saturates(cells: Seq<TrackPoint>, st: GameState, a: Action)
    requires
        cells.len() == 2500,
        st.velocity.0 == 5,
        st.velocity.1 == 5,
        a == (Action { xacc: 1, yacc: 1 }),
    ensures
        !advance_spec(cells, st, a).ended ==> advance_spec(cells, st, a).velocity.0 == 5
            && advance_spec(cells, st, a).velocity.1 == 5,
{
    assert(clamp_velocity(st.velocity.0 + a.xacc) == 5);
    assert(clamp_velocity(st.velocity.1 + a.yacc) == 5);
    lemma_advance_from_wf(cells, 5 * st.position.0, 5 * st.position.1, 5, 5, 0);
}

/// The state after `n` whole steps under one constant action, stopping
/// early when an episode ends.
pub open spec fn advance_iter(cells: Seq<TrackPoint>, st: GameState, a: Action, n: nat) -> GameState
    decreases n,
{
    if n == 0 {
        st
    } else {
        let p = advance_iter(cells, st, a, (n - 1) as nat);
        if p.ended {
            p
        } else {
            advance_spec(cells, p, a)
        }
    }
}

/// Law: starting from a saturated velocity (5, 5), applying the action
/// (1, 1) any number of times leaves the velocity at (5, 5) for as long
/// as the episode stays active.
pub proof fn lemma_velocity_saturates_forever(
    cells: Seq<TrackPoint>,
    st: GameState,
    a: Action,
    n: nat,
)
    requires
        cells.len() == 2500,
        st.velocity.0 == 5,
        st.velocity.1 == 5,
        a == (Action { xacc: 1, yacc: 1 }),
    ensures
        ({
            let r = advance_iter(cells, st, a, n);
            !r.ended ==> r.velocity.0 == 5 && r.velocity.1 == 5
        }),
    decreases n,
{
    if n > 0 {
        lemma_velocity_saturates_forever(cells, st, a, (n - 1) as nat);
        let p = advance_iter(cells, st, a, (n - 1) as nat);
        if !p.ended {
            lemma_velocity_saturates(cells, p, a);
        }
    }
}

} // verus!
