//! The eight directions in which a cell has neighbours.

use vstd::prelude::*;

verus! {

/// A compass direction on the grid. Rows grow southwards, columns eastwards.
#[derive(Clone, Copy, Debug, PartialEq, Eq, Structural)]
pub enum Direction {
    N,
    NE,
    E,
    SE,
    S,
    SW,
    W,
    NW,
}

impl Direction {
    /// The step `(rows, columns)` that leads from a cell to its neighbour in this direction.
    pub open spec fn offset(self) -> (int, int) {
        match self {
            Direction::N => (-1, 0),
            Direction::NE => (-1, 1),
            Direction::E => (0, 1),
            Direction::SE => (1, 1),
            Direction::S => (1, 0),
            Direction::SW => (1, -1),
            Direction::W => (0, -1),
            Direction::NW => (-1, -1),
        }
    }

    /// All eight directions, clockwise from north.
    pub open spec fn all() -> Seq<Direction> {
        seq![
            Direction::N,
            Direction::NE,
            Direction::E,
            Direction::SE,
            Direction::S,
            Direction::SW,
            Direction::W,
            Direction::NW,
        ]
    }

    /// The step `(rows, columns)` that leads from a cell to its neighbour in this direction.
    pub fn translation(&self) -> (step: (i32, i32))
        ensures
            (step.0 as int, step.1 as int) == self.offset(),
    {
        match self {
            Direction::N => (-1, 0),
            Direction::NE => (-1, 1),
            Direction::E => (0, 1),
            Direction::SE => (1, 1),
            Direction::S => (1, 0),
            Direction::SW => (1, -1),
            Direction::W => (0, -1),
            Direction::NW => (-1, -1),
        }
    }
}

} // verus!
