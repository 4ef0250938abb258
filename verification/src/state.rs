use vstd::prelude::*;

verus! {

/// The full per-episode simulation state: an integer grid position, an
/// integer velocity, and the two termination flags.  While an episode is
/// active (`ended == false`) each position component lies in [0, 49] and
/// each velocity component in [-5, 5].
#[derive(Copy, Clone, PartialEq, Eq, Debug)]
pub struct GameState {
    pub position: (i32, i32),
    pub velocity: (i32, i32),
    pub ended: bool,
    pub success: bool,
}

/// One acceleration command; each component is in {-1, 0, 1}.
#[derive(Copy, Clone, PartialEq, Eq, Structural, Debug)]
pub struct Action {
    pub xacc: i32,
    pub yacc: i32,
}

impl GameState {
    /// Both position components lie on the 50x50 grid.
    pub open spec fn position_on_grid(self) -> bool {
        0 <= self.position.0 < 50 && 0 <= self.position.1 < 50
    }

    /// Both velocity components are clamped to [-5, 5].
    pub open spec fn velocity_clamped(self) -> bool {
        -5 <= self.velocity.0 <= 5 && -5 <= self.velocity.1 <= 5
    }

    /// A state the rest of the engine can work with: either it marks a
    /// finished episode, or it is an in-bounds active state.
    pub open spec fn wf(self) -> bool {
        self.ended || (self.position_on_grid() && self.velocity_clamped())
    }
}

impl Action {
    /// Both acceleration components are in {-1, 0, 1}.
    pub open spec fn wf(self) -> bool {
        -1 <= self.xacc <= 1 && -1 <= self.yacc <= 1
    }

    /// Builds an action from an `(xacc, yacc)` pair.
    pub fn from_tuple(a: (i32, i32)) -> (r: Action)
        ensures
            r == (Action { xacc: a.0, yacc: a.1 }),
    {
        Action { xacc: a.0, yacc: a.1 }
    }
}

/// The state every controller starts from: a finished placeholder episode,
/// so that the first drive call immediately starts a fresh one.
pub fn start_state() -> (r: GameState)
    ensures
        r == (GameState { position: (0, 0), velocity: (0, 0), ended: true, success: true }),
{
    GameState { position: (0, 0), velocity: (0, 0), ended: true, success: true }
}

} // verus!
