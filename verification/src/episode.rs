use vstd::prelude::*;
use crate::physics::{advance, advance_spec};
use crate::policy::{select_greedy, select_greedy_spec};
use crate::state::GameState;
use crate::track::{cell_index, lemma_start_positions_valid, TrackMap, TrackPoint};
use crate::values::ValueTable;

verus! {

/// How many scheduler ticks make one drive of the controller.  The host
/// clock runs at 60 ticks per second and the controller acts once per
/// second; the cadence is configuration, not physics.
pub const TICKS_PER_DRIVE: u32 = 60;

/// Draws a start index below `n`.
/// Relies on rand's thread_rng and Rng::gen_range: a draw from the
/// non-empty range 0..n lies in that range.
#[verifier::external_body]
fn random_below(n: usize) -> (r: usize)
    requires
        0 < n,
    ensures
        r < n,
{
    rand::Rng::gen_range(&mut rand::thread_rng(), 0..n)
}

/// The per-episode state machine.  It owns the current state and the
/// trajectory history of the running episode, and reads the track and
/// the value table, which never change after loading.
pub struct EpisodeController {
    track: TrackMap,
    table: ValueTable,
    state: GameState,
    history: Vec<(i32, i32)>,
    ticks: u32,
}

/// What one drive call does to a controller, apart from the tick count:
/// a finished episode is replaced by a fresh one at some start position,
/// with no velocity and that position as the whole history; an active
/// episode takes the greedy action through one physics step and appends
/// the resulting position to the history.
pub open spec fn drive_step(pre: EpisodeController, post: EpisodeController) -> bool {
    &&& post.track() == pre.track()
    &&& post.table() == pre.table()
    &&& (pre.state().ended ==> exists|i: int|
        {
            &&& 0 <= i < pre.track().starts().len()
            &&& post.state() == (GameState {
                position: pre.track().starts()[i],
                velocity: (0, 0),
                ended: false,
                success: false,
            })
            &&& post.history() == seq![pre.track().starts()[i]]
        })
    &&& (!pre.state().ended ==> {
        let a = select_greedy_spec(pre.table().values(), pre.state().position);
        &&& post.state() == advance_spec(pre.track().cells(), pre.state(), a)
        &&& post.history() == pre.history().push(post.state().position)
    })
}

impl EpisodeController {
    /// The classification grid the controller reads.
    pub closed spec fn track(&self) -> TrackMap {
        self.track
    }

    /// The value table the controller reads.
    pub closed spec fn table(&self) -> ValueTable {
        self.table
    }

    /// The current episode state.
    pub closed spec fn state(&self) -> GameState {
        self.state
    }

    /// The positions the running episode has visited.
    pub closed spec fn history(&self) -> Seq<(i32, i32)> {
        self.history@
    }

    /// How many ticks of the current cadence window have passed.
    pub closed spec fn ticks(&self) -> u32 {
        self.ticks
    }

    /// The data is well formed, the start list is non-empty (else no
    /// episode could ever begin), the state is on the grid while active,
    /// and the tick count stays inside one cadence window.
    pub open spec fn wf(&self) -> bool {
        &&& self.track().wf()
        &&& self.table().wf()
        &&& self.track().starts().len() > 0
        &&& self.state().wf()
        &&& self.ticks() < TICKS_PER_DRIVE
    }

    /// A fresh controller over loaded data: a finished placeholder
    /// episode, an empty history, a cadence window at its start.
    pub fn new(track: TrackMap, table: ValueTable) -> (r: EpisodeController)
        requires
            track.wf(),
            table.wf(),
            track.starts().len() > 0,
        ensures
            r.wf(),
            r.track() == track,
            r.table() == table,
            r.state() == (GameState {
                position: (0, 0),
                velocity: (0, 0),
                ended: true,
                success: true,
            }),
            r.history() == Seq::<(i32, i32)>::empty(),
            r.ticks() == 0,
    {
        EpisodeController {
            track,
            table,
            state: crate::state::start_state(),
            history: Vec::new(),
            ticks: 0,
        }
    }

    /// One drive of the state machine, as `drive_step` describes.  After
    /// a finished episode the new position is some start position, so it
    /// is classified Beginning and the history holds exactly it.
    pub fn drive(&mut self)
        requires
            old(self).wf(),
        ensures
            final(self).wf(),
            final(self).ticks() == old(self).ticks(),
            drive_step(*old(self), *final(self)),
            old(self).state().ended ==> {
                &&& final(self).history().len() == 1
                &&& final(self).history()[0] == final(self).state().position
                &&& final(self).track().cells()[cell_index(final(self).state().position)]
                    == TrackPoint::Beginning
                &&& final(self).state().velocity.0 == 0 && final(self).state().velocity.1 == 0
                &&& !final(self).state().ended
            },
    {
        if self.state.ended {
            let n = self.track.start_count();
            let i = random_below(n);
            let p = self.track.start_at(i);
            proof {
                lemma_start_positions_valid(&self.track, i as int);
            }
            self.state = GameState { position: p, velocity: (0, 0), ended: false, success: false };
            let mut h: Vec<(i32, i32)> = Vec::new();
            h.push(p);
            self.history = h;
            proof {
                assert(self.history@ =~= seq![p]);
            }
        } else {
            let action = select_greedy(&self.table, self.state);
            self.state = advance(&self.track, self.state, action);
            self.history.push(self.state.position);
        }
    }

    /// One scheduler tick.  It only counts until the cadence window is
    /// full; the drive that ends the window resets the count.
    pub fn tick(&mut self)
        requires
            old(self).wf(),
        ensures
            final(self).wf(),
            old(self).ticks() + 1 < TICKS_PER_DRIVE ==> {
                &&& final(self).ticks() == old(self).ticks() + 1
                &&& final(self).state() == old(self).state()
                &&& final(self).history() == old(self).history()
                &&& final(self).track() == old(self).track()
                &&& final(self).table() == old(self).table()
            },
            old(self).ticks() + 1 == TICKS_PER_DRIVE ==> {
                &&& final(self).ticks() == 0
                &&& drive_step(*old(self), *final(self))
            },
    {
        if self.ticks + 1 == TICKS_PER_DRIVE {
            self.ticks = 0;
            self.drive();
        } else {
            self.ticks = self.ticks + 1;
        }
    }

    /// The classification grid, for the renderer.
    pub fn track_ref(&self) -> (r: &TrackMap)
        ensures
            *r == self.track(),
    {
        &self.track
    }

    /// The current episode state, for the renderer and for tests.
    pub fn current_state(&self) -> (r: GameState)
        ensures
            r == self.state(),
    {
        self.state
    }

    /// How many positions the running episode has visited.
    pub fn history_len(&self) -> (n: usize)
        ensures
            n == self.history().len(),
    {
        self.history.len()
    }

    /// One visited position of the running episode.
    pub fn history_at(&self, i: usize) -> (p: (i32, i32))
        requires
            i < self.history().len(),
        ensures
            p == self.history()[i as int],
    {
        self.history[i]
    }
}

} // verus!
