//! The track ledger and the follower chain.
//!
//! The ledger is an append-only, deduplicated, order-preserving record of
//! every cell the agent has occupied. The chain of carriages trails the
//! agent along the ledger: once per tick the foremost carriage advances to
//! the ledger entry after its own, and every other carriage takes the cell
//! of the carriage ahead of it, preserving one-cell spacing along the path.

use vstd::prelude::*;

use crate::grid::Direction;
use crate::grid::GridCoords;

verus! {

/// A ledger entry: a visited cell, tagged with the direction the agent was
/// moving before it entered the cell and the direction it was facing when it
/// entered.
#[derive(Clone, Copy, PartialEq, Eq, Structural, Debug)]
pub struct Track {
    pub position: GridCoords,
    pub direction_from: Direction,
    pub direction_to: Direction,
}

/// Failures of the follower-chain update.
#[derive(Clone, Copy, PartialEq, Eq, Structural, Debug)]
pub enum TrainError {
    /// The foremost carriage's cell is missing from the ledger: the chain
    /// was updated out of order with the ledger, and the simulation step is
    /// aborted rather than silently clamped.
    CarriageOffTrack,
}

/// The follower chain and the track ledger.
///
/// `carriages[0]` is the entity immediately behind the agent and the last
/// element is the tail. `tracks` is the ledger, in traversal order.
#[derive(Clone, PartialEq, Eq, Debug)]
pub struct Train {
    pub carriages: Vec<GridCoords>,
    pub tracks: Vec<Track>,
}

/// `k` is the position of the first occurrence of `x` in `s`.
pub open spec fn is_first_index_of(s: Seq<GridCoords>, x: GridCoords, k: int) -> bool {
    &&& 0 <= k < s.len()
    &&& s[k] == x
    &&& forall|j: int| 0 <= j < k ==> s[j] != x
}

/// The chain after one advance: the foremost carriage moves to the ledger
/// cell at `k + 1` and every other carriage takes the previous cell of the
/// carriage ahead of it.
pub open spec fn advanced_chain(
    carriages: Seq<GridCoords>,
    positions: Seq<GridCoords>,
    k: int,
) -> Seq<GridCoords> {
    Seq::new(
        carriages.len(),
        |i: int|
            if i == 0 {
                positions[k + 1]
            } else {
                carriages[i - 1]
            },
    )
}

impl Train {
    /// The cells of the ledger, in traversal order.
    pub open spec fn track_positions(self) -> Seq<GridCoords> {
        self.tracks@.map_values(|t: Track| t.position)
    }

    /// No cell appears twice in the ledger.
    pub open spec fn tracks_deduped(self) -> bool {
        forall|i: int, j: int|
            0 <= i < j < self.tracks@.len() ==> self.track_positions()[i]
                != self.track_positions()[j]
    }

    /// The carriages occupy consecutive ledger cells, in descending ledger
    /// order starting at index `k`: exact one-cell spacing along the path.
    pub open spec fn chain_aligned_at(self, k: int) -> bool {
        &&& self.carriages@.len() - 1 <= k < self.track_positions().len()
        &&& forall|i: int|
            0 <= i < self.carriages@.len() ==> self.carriages@[i] == self.track_positions()[k - i]
    }

    /// Well-formedness: the ledger is deduplicated and a non-empty chain is
    /// aligned with consecutive ledger cells.
    pub open spec fn wf(self) -> bool {
        &&& self.tracks_deduped()
        &&& (self.carriages@.len() > 0 ==> exists|k: int| self.chain_aligned_at(k))
    }

    /// Appends a newly visited cell to the ledger; a cell already recorded
    /// is left alone, so the ledger never holds a duplicate and grows by at
    /// most one entry.
    pub fn spawn_track(&mut self, position: GridCoords, direction_from: Direction,
        direction_to: Direction)
        ensures
            final(self).carriages@ == old(self).carriages@,
            old(self).track_positions().contains(position) ==> final(self).tracks@ == old(
                self,
            ).tracks@,
            !old(self).track_positions().contains(position) ==> final(self).tracks@ == old(
                self,
            ).tracks@.push(Track { position, direction_from, direction_to }),
            final(self).tracks@.len() == old(self).tracks@.len() || final(self).tracks@.len()
                == old(self).tracks@.len() + 1,
            old(self).tracks_deduped() ==> final(self).tracks_deduped(),
            old(self).wf() ==> final(self).wf(),
    {
        let n = self.tracks.len();
        let mut i: usize = 0;
        while i < n
            invariant
                n == self.tracks.len(),
                0 <= i <= n,
                forall|j: int| 0 <= j < i ==> self.tracks@[j].position != position,
            decreases n - i,
        {
            if self.tracks[i].position == position {
                proof {
                    assert(self.track_positions()[i as int] == position);
                }
                return;
            }
            i = i + 1;
        }
        proof {
            assert forall|j: int| 0 <= j < self.tracks@.len() implies self.track_positions()[j]
                != position by {
                assert(self.tracks@[j].position != position);
            };
            assert(!self.track_positions().contains(position));
        }
        self.tracks.push(Track { position, direction_from, direction_to });
        proof {
            let pre = old(self);
            assert(self.track_positions() =~= pre.track_positions().push(position));
            if pre.tracks_deduped() {
                assert forall|i2: int, j2: int|
                    0 <= i2 < j2 < self.tracks@.len() implies self.track_positions()[i2]
                    != self.track_positions()[j2] by {
                    if j2 < pre.tracks@.len() {
                        assert(pre.track_positions()[i2] != pre.track_positions()[j2]);
                    } else {
                        assert(self.track_positions()[j2] == position);
                        assert(self.track_positions()[i2] == pre.track_positions()[i2]);
                        assert(!pre.track_positions().contains(position));
                    }
                };
            }
            if pre.wf() && pre.carriages@.len() > 0 {
                let k = choose|k: int| pre.chain_aligned_at(k);
                assert(self.chain_aligned_at(k));
            }
        }
    }

    /// Advances the follower chain one cell along the ledger.
    ///
    /// With no carriages or an empty ledger there is nothing to do. When the
    /// foremost carriage already sits on the last ledger cell the chain has
    /// caught up with the agent and does not move this tick. A foremost
    /// carriage whose cell is missing from the ledger aborts the step.
    pub fn move_carriages(&mut self) -> (r: Result<(), TrainError>)
        ensures
            final(self).tracks@ == old(self).tracks@,
            final(self).carriages@.len() == old(self).carriages@.len(),
            old(self).carriages@.len() == 0 || old(self).tracks@.len() == 0 ==> r is Ok
                && final(self).carriages@ == old(self).carriages@,
            old(self).carriages@.len() > 0 && old(self).tracks@.len() > 0 ==> {
                let positions = old(self).track_positions();
                let head = old(self).carriages@[0];
                &&& (r is Err <==> !positions.contains(head))
                &&& (r is Err ==> r->Err_0 == TrainError::CarriageOffTrack && final(self).carriages@
                    == old(self).carriages@)
                &&& forall|k: int|
                    is_first_index_of(positions, head, k) ==> final(self).carriages@ == (if k + 1
                        < positions.len() {
                        advanced_chain(old(self).carriages@, positions, k)
                    } else {
                        old(self).carriages@
                    })
            },
            old(self).wf() ==> final(self).wf(),
    {
        if self.carriages.len() == 0 || self.tracks.len() == 0 {
            return Ok(());
        }
        let head = self.carriages[0];
        let n = self.tracks.len();
        let mut current_index: usize = 0;
        let mut found = false;
        while current_index < n
            invariant_except_break
                !found,
                0 <= current_index <= n,
            invariant
                n == self.tracks.len(),
                self.tracks@ == old(self).tracks@,
                self.carriages@ == old(self).carriages@,
                forall|j: int| 0 <= j < current_index ==> self.track_positions()[j] != head,
            ensures
                0 <= current_index <= n,
                found ==> current_index < n && self.track_positions()[current_index as int]
                    == head,
                !found ==> current_index == n,
            decreases n - current_index,
        {
            if self.tracks[current_index].position == head {
                found = true;
                break;
            }
            proof {
                assert(self.track_positions()[current_index as int] == self.tracks@[
                    current_index as int].position);
            }
            current_index = current_index + 1;
        }
        if !found {
            proof {
                assert forall|j: int| 0 <= j < self.track_positions().len() implies self
                    .track_positions()[j] != head by {}
            }
            return Err(TrainError::CarriageOffTrack);
        }
        proof {
            assert(is_first_index_of(self.track_positions(), head, current_index as int));
            assert forall|k: int|
                is_first_index_of(old(self).track_positions(), head, k) implies k
                == current_index as int by {}
        }
        if current_index + 1 >= n {
            return Ok(());
        }
        let next_coords = self.tracks[current_index + 1].position;
        let len = self.carriages.len();
        let mut i: usize = len - 1;
        while i >= 1
            invariant
                len == self.carriages.len(),
                self.tracks@ == old(self).tracks@,
                0 <= i <= len - 1,
                forall|j: int| 0 <= j <= i ==> self.carriages@[j] == old(self).carriages@[j],
                forall|j: int|
                    i < j < len ==> self.carriages@[j] == old(self).carriages@[j - 1],
            decreases i,
        {
            let prev = self.carriages[i - 1];
            self.carriages.set(i, prev);
            i = i - 1;
        }
        self.carriages.set(0, next_coords);
        proof {
            let pre = old(self);
            let positions = pre.track_positions();
            let k = current_index as int;
            assert(self.carriages@ =~= advanced_chain(pre.carriages@, positions, k));
            if pre.wf() {
                let ka = choose|ka: int| pre.chain_aligned_at(ka);
                assert(positions[ka] == pre.carriages@[0]);
                assert(ka == k) by {
                    if ka != k {
                        assert(positions[ka] == positions[k]);
                    }
                }
                assert forall|i2: int|
                    0 <= i2 < self.carriages@.len() implies self.carriages@[i2]
                    == self.track_positions()[k + 1 - i2] by {
                    if i2 > 0 {
                        assert(pre.carriages@[i2 - 1] == positions[ka - (i2 - 1)]);
                    }
                };
                assert(self.chain_aligned_at(k + 1));
            }
        }
        Ok(())
    }
}

/// An initial train at level start: the foremost carriage sits one cell
/// below `first_position` (the agent's spawn cell) and the rest extend
/// downward, one cell apart; the ledger is seeded with exactly that column,
/// bottom first, ending at the spawn cell.
pub fn init_train(first_position: GridCoords, carriage_number: usize) -> (t: Train)
    requires
        carriage_number <= i32::MAX,
        first_position.y - carriage_number >= i32::MIN,
    ensures
        t.carriages@.len() == carriage_number,
        t.tracks@.len() == carriage_number + 1,
        forall|j: int|
            0 <= j <= carriage_number ==> t.tracks@[j] == (Track {
                position: GridCoords {
                    x: first_position.x,
                    y: (first_position.y - carriage_number + j) as i32,
                },
                direction_from: Direction::North,
                direction_to: Direction::North,
            }),
        forall|i: int|
            0 <= i < carriage_number ==> t.carriages@[i] == (GridCoords {
                x: first_position.x,
                y: (first_position.y - 1 - i) as i32,
            }),
        t.wf(),
        carriage_number > 0 ==> t.chain_aligned_at(carriage_number - 1),
{
    let count = carriage_number as i32;
    let bottom_y = first_position.y - count;
    let mut tracks: Vec<Track> = Vec::new();
    let mut j: usize = 0;
    while j <= carriage_number
        invariant
            carriage_number <= i32::MAX,
            first_position.y - carriage_number >= i32::MIN,
            count == carriage_number,
            bottom_y == first_position.y - carriage_number,
            0 <= j <= carriage_number + 1,
            tracks@.len() == j,
            forall|m: int|
                0 <= m < j ==> tracks@[m] == (Track {
                    position: GridCoords { x: first_position.x, y: (bottom_y + m) as i32 },
                    direction_from: Direction::North,
                    direction_to: Direction::North,
                }),
        decreases carriage_number + 1 - j,
    {
        tracks.push(
            Track {
                position: GridCoords { x: first_position.x, y: bottom_y + (j as i32) },
                direction_from: Direction::North,
                direction_to: Direction::North,
            },
        );
        j = j + 1;
    }
    let mut carriages: Vec<GridCoords> = Vec::new();
    let mut i: usize = 0;
    while i < carriage_number
        invariant
            carriage_number <= i32::MAX,
            first_position.y - carriage_number >= i32::MIN,
            0 <= i <= carriage_number,
            carriages@.len() == i,
            forall|m: int|
                0 <= m < i ==> carriages@[m] == (GridCoords {
                    x: first_position.x,
                    y: (first_position.y - 1 - m) as i32,
                }),
        decreases carriage_number - i,
    {
        carriages.push(GridCoords { x: first_position.x, y: first_position.y - 1 - (i as i32) });
        i = i + 1;
    }
    let t = Train { carriages, tracks };
    proof {
        assert forall|m: int, m2: int|
            0 <= m < m2 < t.tracks@.len() implies t.track_positions()[m] != t.track_positions()[
            m2] by {
            assert(t.track_positions()[m].y == first_position.y - carriage_number + m);
            assert(t.track_positions()[m2].y == first_position.y - carriage_number + m2);
        };
        if carriage_number > 0 {
            let k = carriage_number - 1;
            assert forall|m: int|
                0 <= m < t.carriages@.len() implies t.carriages@[m] == t.track_positions()[k
                - m] by {
                assert(t.track_positions()[k - m].y == first_position.y - carriage_number + (k
                    - m));
            };
            assert(t.chain_aligned_at(k));
        }
    }
    t
}

/// Pairwise distinctness of the followers: a well-formed chain with a
/// strictly longer ledger never puts two carriages on the same cell, and
/// every carriage sits on a ledger cell.
pub proof fn lemma_followers_distinct(t: Train)
    requires
        t.wf(),
        t.carriages@.len() < t.track_positions().len(),
    ensures
        forall|i: int, j: int|
            0 <= i < j < t.carriages@.len() ==> t.carriages@[i] != t.carriages@[j],
        forall|i: int|
            0 <= i < t.carriages@.len() ==> t.track_positions().contains(t.carriages@[i]),
{
    if t.carriages@.len() > 0 {
        let k = choose|k: int| t.chain_aligned_at(k);
        assert forall|i: int, j: int|
            0 <= i < j < t.carriages@.len() implies t.carriages@[i] != t.carriages@[j] by {
            assert(t.carriages@[i] == t.track_positions()[k - i]);
            assert(t.carriages@[j] == t.track_positions()[k - j]);
        };
        assert forall|i: int|
            0 <= i < t.carriages@.len() implies t.track_positions().contains(
            t.carriages@[i],
        ) by {
            assert(0 <= k - i < t.track_positions().len() && t.track_positions()[k - i]
                == t.carriages@[i]);
        };
    }
}

} // verus!
