//! The wall map: a read-only membership test for blocked grid cells,
//! populated by the level loader before the simulation runs.

use vstd::prelude::*;

use crate::grid::GridCoords;

verus! {

/// The set of grid cells that are impassable in the current level.
///
/// The simulation core only reads this; it is filled in once per level by
/// whatever loads the level data.
#[derive(Clone, PartialEq, Eq, Debug)]
pub struct LevelWalls {
    wall_locations: Vec<GridCoords>,
}

impl View for LevelWalls {
    type V = Set<GridCoords>;

    closed spec fn view(&self) -> Set<GridCoords> {
        Set::new(|c: GridCoords| self.wall_locations@.contains(c))
    }
}

impl LevelWalls {
    /// A wall map with no blocked cells.
    pub fn new() -> (r: LevelWalls)
        ensures
            r@ == Set::<GridCoords>::empty(),
    {
        let r = LevelWalls { wall_locations: Vec::new() };
        proof {
            assert(r@ =~= Set::<GridCoords>::empty());
        }
        r
    }

    /// Marks one cell as blocked.
    pub fn insert(&mut self, coord: GridCoords)
        ensures
            final(self)@ == old(self)@.insert(coord),
    {
        self.wall_locations.push(coord);
        proof {
            let s_old = old(self).wall_locations@;
            let s_new = self.wall_locations@;
            assert forall|c: GridCoords| s_new.contains(c) implies (s_old.contains(c) || c
                == coord) by {
                let i = choose|i: int| 0 <= i < s_new.len() && s_new[i] == c;
                if i < s_old.len() {
                    assert(s_old[i] == c);
                }
            };
            assert forall|c: GridCoords| s_old.contains(c) implies s_new.contains(c) by {
                let i = choose|i: int| 0 <= i < s_old.len() && s_old[i] == c;
                assert(s_new[i] == c);
            };
            assert(s_new[s_old.len() as int] == coord);
            assert(s_new.contains(coord));
            assert(self@ =~= old(self)@.insert(coord));
        }
    }

    /// Whether the given cell is blocked.
    pub fn in_wall(&self, grid_coords: &GridCoords) -> (r: bool)
        ensures
            r == self@.contains(*grid_coords),
    {
        let n = self.wall_locations.len();
        let mut i: usize = 0;
        while i < n
            invariant
                n == self.wall_locations.len(),
                0 <= i <= n,
                forall|j: int| 0 <= j < i ==> self.wall_locations@[j] != *grid_coords,
            decreases n - i,
        {
            if self.wall_locations[i] == *grid_coords {
                return true;
            }
            i = i + 1;
        }
        false
    }
}

} // verus!
