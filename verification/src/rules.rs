//! The rule that decides a cell's next state.

use vstd::prelude::*;
use crate::direction::Direction;
use crate::neighbourhood::{alive_at, alive_neighbours, neighbours_state, rows_of};
use crate::state::State;

verus! {

/// The next state of a cell that is `current` now and has `alive` alive neighbours: an alive
/// cell survives with two or three of them, a dead cell comes alive with exactly three.
pub open spec fn rule(current: State, alive: nat) -> State {
    match current {
        State::Alive => if alive == 2 || alive == 3 {
            State::Alive
        } else {
            State::Dead
        },
        State::Dead => if alive == 3 {
            State::Alive
        } else {
            State::Dead
        },
    }
}

/// Row `row` of the generation that follows `rows`.
pub open spec fn next_row(rows: Seq<Seq<State>>, row: int) -> Seq<State> {
    Seq::new(rows[row].len(), |col: int| rule(rows[row][col], alive_neighbours(rows, row, col)))
}

/// The generation that follows `rows`: every cell's next state is decided by the rule from
/// its own state and its neighbours in `rows`, all cells at once.
pub open spec fn generation_after(rows: Seq<Seq<State>>) -> Seq<Seq<State>> {
    Seq::new(rows.len(), |row: int| next_row(rows, row))
}

/// 1 where the neighbour of `(row, col)` in direction `towards` is alive, else 0.
spec fn alive_towards(rows: Seq<Seq<State>>, row: int, col: int, towards: Direction) -> nat {
    alive_at(rows, row + towards.offset().0, col + towards.offset().1)
}

/// The number of alive neighbours of `(row, col)` in the given directions, each direction
/// counted as often as it is listed.
spec fn alive_among(rows: Seq<Seq<State>>, row: int, col: int, towards: Seq<Direction>) -> nat
    decreases towards.len(),
{
    if towards.len() == 0 {
        0
    } else {
        alive_among(rows, row, col, towards.drop_last()) + alive_towards(
            rows,
            row,
            col,
            towards.last(),
        )
    }
}

/// Counting over all eight directions gives the number of alive neighbours.
proof fn lemma_alive_among_all(rows: Seq<Seq<State>>, row: int, col: int)
    ensures
        alive_among(rows, row, col, Direction::all()) == alive_neighbours(rows, row, col),
{
    reveal_with_fuel(alive_among, 9);
}

/// The next state of a cell at `current_position` that is `current_state` now, decided by
/// its eight neighbours in `cells`.
pub fn state_based_on_neighbours(
    current_position: (usize, usize),
    cells: &[Vec<State>],
    current_state: &State,
) -> (next: State)
    ensures
        next == rule(
            *current_state,
            alive_neighbours(
                rows_of(cells@),
                current_position.0 as int,
                current_position.1 as int,
            ),
        ),
{
    let neighbours_directions = [
        Direction::N,
        Direction::NE,
        Direction::E,
        Direction::SE,
        Direction::S,
        Direction::SW,
        Direction::W,
        Direction::NW,
    ];
    let ghost rows = rows_of(cells@);
    let ghost row = current_position.0 as int;
    let ghost col = current_position.1 as int;
    assert(neighbours_directions@ =~= Direction::all());

    let mut nmb_alive_neighbours: usize = 0;
    let mut i: usize = 0;
    while i < 8
        invariant
            i <= 8,
            neighbours_directions@ == Direction::all(),
            rows == rows_of(cells@),
            row == current_position.0,
            col == current_position.1,
            nmb_alive_neighbours <= i,
            nmb_alive_neighbours == alive_among(rows, row, col, Direction::all().take(i as int)),
        decreases 8 - i,
    {
        let state = neighbours_state(current_position, cells, neighbours_directions[i].translation());
        proof {
            let counted = Direction::all().take(i + 1);
            assert(counted.drop_last() =~= Direction::all().take(i as int));
            assert(counted.last() == neighbours_directions@[i as int]);
        }
        if state.is_alive() {
            nmb_alive_neighbours += 1;
        }
        i += 1;
    }
    proof {
        assert(Direction::all().take(8) =~= Direction::all());
        lemma_alive_among_all(rows, row, col);
    }

    match current_state {
        State::Alive => match nmb_alive_neighbours {
            2 | 3 => State::Alive,
            _ => State::Dead,
        },
        State::Dead => match nmb_alive_neighbours {
            3 => State::Alive,
            _ => State::Dead,
        },
    }
}

} // verus!
