//! What holds of every grid and of every generation.

use vstd::prelude::*;
use crate::neighbourhood::{alive_at, alive_neighbours, is_grid, state_at};
use crate::rules::{generation_after, rule};
use crate::state::State;

verus! {

/// `(row, col)` is a position on `rows`.
pub open spec fn on_grid(rows: Seq<Seq<State>>, row: int, col: int) -> bool {
    0 <= row < rows.len() && 0 <= col < rows[row].len()
}

/// A generation has the shape of the one before it: as many rows, and each row as long.
/// So the generation after a grid is a grid of the same size.
pub proof fn generation_keeps_size(rows: Seq<Seq<State>>)
    ensures
        generation_after(rows).len() == rows.len(),
        forall|row: int|
            0 <= row < rows.len() ==> (#[trigger] generation_after(rows)[row]).len()
                == rows[row].len(),
        is_grid(rows) ==> is_grid(generation_after(rows)),
{
    if is_grid(rows) {
        assert forall|row: int| 0 <= row < generation_after(rows).len() implies (
        #[trigger] generation_after(rows)[row]).len() == generation_after(rows).len() by {
            assert(rows[row].len() == rows.len());
        }
    }
}

/// The next generation is a function of the cells alone: two generations that hold the same
/// cells are followed by the same generation.
pub proof fn generation_is_deterministic(first: Seq<Seq<State>>, second: Seq<Seq<State>>)
    requires
        first.len() == second.len(),
        forall|row: int| 0 <= row < first.len() ==> first[row].len() == second[row].len(),
        forall|row: int, col: int| on_grid(first, row, col) ==> first[row][col] == second[row][col],
    ensures
        generation_after(first) == generation_after(second),
{
    assert forall|row: int| 0 <= row < first.len() implies first[row] == second[row] by {
        assert forall|col: int| 0 <= col < first[row].len() implies first[row][col]
            == second[row][col] by {
            assert(on_grid(first, row, col));
        }
        assert(first[row] =~= second[row]);
    }
    assert(first =~= second);
}

/// Every cell of the next generation is decided by the rule from the generation before:
/// from the cell's own state and the number of its alive neighbours there.
pub proof fn next_state_follows_rule(rows: Seq<Seq<State>>, row: int, col: int)
    requires
        on_grid(rows, row, col),
    ensures
        generation_after(rows)[row][col] == rule(rows[row][col], alive_neighbours(rows, row, col)),
{
}

/// A cell's next state depends on nothing but the cell and its eight neighbours in the
/// generation before: where two generations agree on these nine positions, the generations
/// that follow them agree on the cell.
pub proof fn next_state_is_local(
    first: Seq<Seq<State>>,
    second: Seq<Seq<State>>,
    row: int,
    col: int,
)
    requires
        on_grid(first, row, col),
        on_grid(second, row, col),
        forall|down: int, right: int|
            -1 <= down <= 1 && -1 <= right <= 1 ==> #[trigger] state_at(
                first,
                row + down,
                col + right,
            ) == state_at(second, row + down, col + right),
    ensures
        generation_after(first)[row][col] == generation_after(second)[row][col],
{
    assert(state_at(first, row + 0, col + 0) == state_at(second, row + 0, col + 0));
    assert(state_at(first, row + (-1), col + 0) == state_at(second, row + (-1), col + 0));
    assert(state_at(first, row + (-1), col + 1) == state_at(second, row + (-1), col + 1));
    assert(state_at(first, row + 0, col + 1) == state_at(second, row + 0, col + 1));
    assert(state_at(first, row + 1, col + 1) == state_at(second, row + 1, col + 1));
    assert(state_at(first, row + 1, col + 0) == state_at(second, row + 1, col + 0));
    assert(state_at(first, row + 1, col + (-1)) == state_at(second, row + 1, col + (-1)));
    assert(state_at(first, row + 0, col + (-1)) == state_at(second, row + 0, col + (-1)));
    assert(state_at(first, row + (-1), col + (-1)) == state_at(second, row + (-1), col + (-1)));
}

/// A position off the grid holds no alive cell: it counts as `Dead`.
pub proof fn off_grid_is_dead(rows: Seq<Seq<State>>, row: int, col: int)
    requires
        !on_grid(rows, row, col),
    ensures
        state_at(rows, row, col) == State::Dead,
        alive_at(rows, row, col) == 0,
{
}

/// No cell has more than eight alive neighbours. A cell in the first or last row or column of
/// a grid has at most five, and a cell in a corner at most three.
pub proof fn boundary_cells_have_fewer_neighbours(rows: Seq<Seq<State>>, row: int, col: int)
    requires
        is_grid(rows),
        on_grid(rows, row, col),
    ensures
        alive_neighbours(rows, row, col) <= 8,
        row == 0 || row == rows.len() - 1 || col == 0 || col == rows.len() - 1
            ==> alive_neighbours(rows, row, col) <= 5,
        (row == 0 || row == rows.len() - 1) && (col == 0 || col == rows.len() - 1)
            ==> alive_neighbours(rows, row, col) <= 3,
{
    assert(rows[row].len() == rows.len());
    if row > 0 {
        assert(rows[row - 1].len() == rows.len());
    }
    if row < rows.len() - 1 {
        assert(rows[row + 1].len() == rows.len());
    }
}

/// A dead cell comes alive with exactly three alive neighbours, and with no other number.
pub proof fn birth_needs_three(rows: Seq<Seq<State>>, row: int, col: int)
    requires
        on_grid(rows, row, col),
        rows[row][col] == State::Dead,
    ensures
        generation_after(rows)[row][col] == State::Alive <==> alive_neighbours(rows, row, col) == 3,
        generation_after(rows)[row][col] == State::Dead <==> alive_neighbours(rows, row, col) != 3,
{
}

/// An alive cell stays alive with two or three alive neighbours, and with no other number.
pub proof fn survival_needs_two_or_three(rows: Seq<Seq<State>>, row: int, col: int)
    requires
        on_grid(rows, row, col),
        rows[row][col] == State::Alive,
    ensures
        generation_after(rows)[row][col] == State::Alive <==> (alive_neighbours(rows, row, col) == 2
            || alive_neighbours(rows, row, col) == 3),
        generation_after(rows)[row][col] == State::Dead <==> (alive_neighbours(rows, row, col) != 2
            && alive_neighbours(rows, row, col) != 3),
{
}

/// A grid whose only alive cell is at `(row, col)` is followed by a grid without alive cells.
pub proof fn lone_cell_dies(rows: Seq<Seq<State>>, row: int, col: int)
    requires
        is_grid(rows),
        on_grid(rows, row, col),
        forall|r: int, c: int|
            on_grid(rows, r, c) ==> (#[trigger] rows[r][c] == State::Alive <==> r == row && c
                == col),
    ensures
        forall|r: int, c: int|
            on_grid(rows, r, c) ==> #[trigger] generation_after(rows)[r][c] == State::Dead,
{
    assert forall|r: int, c: int| on_grid(rows, r, c) implies #[trigger] generation_after(
        rows,
    )[r][c] == State::Dead by {
        assert forall|r2: int, c2: int| alive_at(rows, r2, c2) == 1 implies r2 == row && c2
            == col by {
            assert(on_grid(rows, r2, c2));
            assert(rows[r2][c2] == State::Alive);
        }
        assert(alive_neighbours(rows, r, c) <= 1);
    }
}

} // verus!
