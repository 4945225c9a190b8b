//! Cells and their neighbours on a bounded grid.
//!
//! The grid is modelled as a sequence of rows, each a sequence of cell states. Positions are
//! `(row, column)`, counted from zero. The grid does not wrap: a position off the grid holds
//! no cell and counts as `Dead`.

use vstd::prelude::*;
use crate::state::State;

verus! {

/// The rows that a slice of vectors holds, each taken as a sequence.
pub open spec fn rows_of(cells: Seq<Vec<State>>) -> Seq<Seq<State>> {
    Seq::new(cells.len(), |row: int| cells[row]@)
}

/// Every row is as long as the number of rows.
pub open spec fn is_square(rows: Seq<Seq<State>>) -> bool {
    forall|row: int| 0 <= row < rows.len() ==> (#[trigger] rows[row]).len() == rows.len()
}

/// A grid has at least one row and is square.
pub open spec fn is_grid(rows: Seq<Seq<State>>) -> bool {
    rows.len() > 0 && is_square(rows)
}

/// The state at `(row, col)`; `Dead` where the position is off the grid.
pub open spec fn state_at(rows: Seq<Seq<State>>, row: int, col: int) -> State {
    if 0 <= row < rows.len() && 0 <= col < rows[row].len() {
        rows[row][col]
    } else {
        State::Dead
    }
}

/// 1 where the cell at `(row, col)` is on the grid and alive, else 0.
pub open spec fn alive_at(rows: Seq<Seq<State>>, row: int, col: int) -> nat {
    if state_at(rows, row, col) == State::Alive {
        1
    } else {
        0
    }
}

/// The number of alive cells among the eight neighbours of `(row, col)`.
pub open spec fn alive_neighbours(rows: Seq<Seq<State>>, row: int, col: int) -> nat {
    alive_at(rows, row - 1, col) + alive_at(rows, row - 1, col + 1) + alive_at(rows, row, col + 1)
        + alive_at(rows, row + 1, col + 1) + alive_at(rows, row + 1, col) + alive_at(
        rows,
        row + 1,
        col - 1,
    ) + alive_at(rows, row, col - 1) + alive_at(rows, row - 1, col - 1)
}

/// The state of the cell that lies `translation` away from `current_position`: `Dead` where
/// that position is off the grid.
pub fn neighbours_state(
    current_position: (usize, usize),
    cells: &[Vec<State>],
    translation: (i32, i32),
) -> (state: State)
    ensures
        state == state_at(
            rows_of(cells@),
            current_position.0 + translation.0,
            current_position.1 + translation.1,
        ),
{
    let row: i128 = current_position.0 as i128 + translation.0 as i128;
    let col: i128 = current_position.1 as i128 + translation.1 as i128;
    if row < 0 || col < 0 || row >= cells.len() as i128 {
        return State::Dead;
    }
    let neighbours_row = &cells[row as usize];
    if col >= neighbours_row.len() as i128 {
        State::Dead
    } else {
        neighbours_row[col as usize]
    }
}

} // verus!
