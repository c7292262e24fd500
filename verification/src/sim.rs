//! The simulation context: the agent, the train and the wall map, advanced
//! together once per tick in a fixed order.
//!
//! Each tick runs the movement resolver first, then records the agent's
//! cell in the track ledger, then shifts the follower chain along the
//! ledger. The tick clock lives outside this context: the driver advances
//! it each frame and calls [`Simulation::tick`] only on frames where it
//! fired.

use vstd::prelude::*;

use crate::grid::Direction;
use crate::grid::GridCoords;
use crate::level::LevelWalls;
use crate::player::Player;
use crate::player::spec_move;
use crate::train::Track;
use crate::train::Train;
use crate::train::TrainError;
use crate::train::advanced_chain;
use crate::train::init_train;
use crate::train::is_first_index_of;

verus! {

/// Everything the tick-driven core owns: the agent, the follower chain with
/// its ledger, and the read-only wall map.
#[derive(Clone, PartialEq, Eq, Debug)]
pub struct Simulation {
    pub player: Player,
    pub train: Train,
    pub level_walls: LevelWalls,
}

impl Simulation {
    /// Well-formedness of the whole context: the input buffer is within its
    /// capacity and the train's chain/ledger invariants hold.
    pub open spec fn wf(self) -> bool {
        &&& self.player.direction_inputs.wf()
        &&& self.train.wf()
    }

    /// A fresh run: the agent at `spawn` facing `facing`, the carriages in
    /// a column below the spawn cell, and the ledger seeded with that
    /// column, ending at the spawn cell.
    pub fn new(spawn: GridCoords, facing: Direction, carriage_number: usize,
        level_walls: LevelWalls) -> (r: Simulation)
        requires
            carriage_number <= i32::MAX,
            spawn.y - carriage_number >= i32::MIN,
        ensures
            r.wf(),
            r.player.position == spawn,
            r.player.direction == facing,
            r.player.previous_direction == facing,
            r.player.direction_inputs@ == Seq::<Direction>::empty(),
            r.train.carriages@.len() == carriage_number,
            r.train.tracks@.len() == carriage_number + 1,
            forall|j: int|
                0 <= j <= carriage_number ==> r.train.tracks@[j] == (Track {
                    position: GridCoords { x: spawn.x, y: (spawn.y - carriage_number + j) as i32 },
                    direction_from: Direction::North,
                    direction_to: Direction::North,
                }),
            forall|i: int|
                0 <= i < carriage_number ==> r.train.carriages@[i] == (GridCoords {
                    x: spawn.x,
                    y: (spawn.y - 1 - i) as i32,
                }),
            r.level_walls == level_walls,
    {
        Simulation {
            player: Player::new(spawn, facing),
            train: init_train(spawn, carriage_number),
            level_walls,
        }
    }

    /// One full simulation tick, in the fixed order: movement resolution,
    /// then ledger append, then follower-chain shift.
    ///
    /// The ledger grows by exactly one entry when the agent's cell after
    /// the move is new, else not at all, and it never acquires a duplicate.
    /// The chain update fails fast when the foremost carriage's cell is
    /// missing from the ledger, which cannot happen from a well-formed
    /// state.
    pub fn tick(&mut self) -> (r: Result<(), TrainError>)
        requires
            old(self).player.position.in_interior(),
            old(self).player.direction_inputs.wf(),
        ensures
            final(self).level_walls == old(self).level_walls,
            final(self).player.abs() == spec_move(
                old(self).player.abs(),
                old(self).level_walls@,
            ),
            final(self).player.direction_inputs.wf(),
            final(self).train.carriages@.len() == old(self).train.carriages@.len(),
            ({
                let moved = spec_move(old(self).player.abs(), old(self).level_walls@);
                let entry = Track {
                    position: moved.position,
                    direction_from: moved.previous_direction,
                    direction_to: moved.direction,
                };
                final(self).train.tracks@ == (if old(self).train.track_positions().contains(
                    moved.position,
                ) {
                    old(self).train.tracks@
                } else {
                    old(self).train.tracks@.push(entry)
                })
            }),
            final(self).train.tracks@.len() == old(self).train.tracks@.len()
                || final(self).train.tracks@.len() == old(self).train.tracks@.len() + 1,
            old(self).train.tracks_deduped() ==> final(self).train.tracks_deduped(),
            ({
                let moved = spec_move(old(self).player.abs(), old(self).level_walls@);
                let mid_positions = final(self).train.track_positions();
                let chain = old(self).train.carriages@;
                chain.len() > 0 ==> {
                    &&& (r is Err <==> !mid_positions.contains(chain[0]))
                    &&& (r is Err ==> r->Err_0 == TrainError::CarriageOffTrack
                        && final(self).train.carriages@ == chain)
                    &&& forall|k: int|
                        is_first_index_of(mid_positions, chain[0], k)
                            ==> final(self).train.carriages@ == (if k + 1 < mid_positions.len() {
                            advanced_chain(chain, mid_positions, k)
                        } else {
                            chain
                        })
                }
            }),
            old(self).train.carriages@.len() == 0 ==> r is Ok && final(self).train.carriages@
                == old(self).train.carriages@,
            old(self).wf() ==> r is Ok && final(self).wf(),
    {
        self.player.move_player(&self.level_walls);
        self.train.spawn_track(
            self.player.position,
            self.player.previous_direction,
            self.player.direction,
        );
        let r = self.train.move_carriages();
        proof {
            if old(self).train.carriages@.len() > 0 {
                assert(self.train.tracks@.len() > 0);
            }
        }
        r
    }
}

} // verus!
