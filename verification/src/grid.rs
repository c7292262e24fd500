//! Grid coordinates and the four cardinal directions.

use vstd::prelude::*;

verus! {

/// A cell of the integer grid, compared by value.
#[derive(Clone, Copy, PartialEq, Eq, Structural, Hash, Debug)]
pub struct GridCoords {
    pub x: i32,
    pub y: i32,
}

/// One of the four cardinal directions of the grid.
#[derive(Clone, Copy, PartialEq, Eq, Structural, Debug)]
pub enum Direction {
    North,
    South,
    East,
    West,
}

impl Direction {
    /// The direction pointing the opposite way: North and South swap,
    /// East and West swap.
    pub open spec fn spec_opposite(self) -> Direction {
        match self {
            Direction::North => Direction::South,
            Direction::South => Direction::North,
            Direction::East => Direction::West,
            Direction::West => Direction::East,
        }
    }

    /// Horizontal component of the unit displacement for this direction.
    pub open spec fn dx(self) -> int {
        match self {
            Direction::North => 0,
            Direction::South => 0,
            Direction::East => 1,
            Direction::West => -1,
        }
    }

    /// Vertical component of the unit displacement for this direction.
    pub open spec fn dy(self) -> int {
        match self {
            Direction::North => 1,
            Direction::South => -1,
            Direction::East => 0,
            Direction::West => 0,
        }
    }

    pub fn get_opposite(&self) -> (r: Direction)
        ensures
            r == self.spec_opposite(),
    {
        match self {
            Direction::North => Direction::South,
            Direction::South => Direction::North,
            Direction::East => Direction::West,
            Direction::West => Direction::East,
        }
    }

    /// The unit displacement of this direction in grid space.
    pub fn calculate_vector(&self) -> (r: GridCoords)
        ensures
            r.x == self.dx(),
            r.y == self.dy(),
    {
        match self {
            Direction::North => GridCoords { x: 0, y: 1 },
            Direction::West => GridCoords { x: -1, y: 0 },
            Direction::South => GridCoords { x: 0, y: -1 },
            Direction::East => GridCoords { x: 1, y: 0 },
        }
    }
}

/// Taking the opposite twice yields the original direction.
pub proof fn lemma_opposite_involutive(d: Direction)
    ensures
        d.spec_opposite().spec_opposite() == d,
{
}

impl GridCoords {
    pub fn new(x: i32, y: i32) -> (c: GridCoords)
        ensures
            c == (GridCoords { x, y }),
    {
        GridCoords { x, y }
    }

    /// The neighbouring cells of `self` in every direction have coordinates
    /// that still fit in `i32`.
    pub open spec fn in_interior(self) -> bool {
        &&& i32::MIN < self.x < i32::MAX
        &&& i32::MIN < self.y < i32::MAX
    }

    /// The cell one step from `self` in direction `d`.
    pub open spec fn stepped(self, d: Direction) -> GridCoords {
        GridCoords { x: (self.x + d.dx()) as i32, y: (self.y + d.dy()) as i32 }
    }

    pub fn step(self, d: Direction) -> (r: GridCoords)
        requires
            self.in_interior(),
        ensures
            r == self.stepped(d),
            r.x == self.x + d.dx(),
            r.y == self.y + d.dy(),
    {
        let v = d.calculate_vector();
        GridCoords { x: self.x + v.x, y: self.y + v.y }
    }
}

} // verus!
