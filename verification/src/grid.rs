//! The grid of cells and its generations.

use rand::rngs::StdRng;
use vstd::prelude::*;
use crate::neighbourhood::{alive_neighbours, is_grid, is_square, rows_of};
use crate::random::{next_flip, seeded_generator};
use crate::rules::{generation_after, next_row, rule, state_based_on_neighbours};
use crate::state::State;

verus! {

/// Why a grid could not be made.
#[derive(Clone, Copy, Debug, PartialEq, Eq, Structural)]
pub enum GridError {
    /// A grid of size zero was asked for.
    InvalidSize,
    /// A position of a live cell lies off the grid.
    InvalidCoordinate,
    /// The rows given do not form a square.
    NotSquare,
}

/// Every listed position lies on a grid of `size` rows and columns.
pub open spec fn all_on_grid(size: nat, positions: Seq<(usize, usize)>) -> bool {
    forall|i: int|
        0 <= i < positions.len() ==> (#[trigger] positions[i]).0 < size && positions[i].1 < size
}

/// `(row, col)` is among the listed positions.
pub open spec fn is_listed(positions: Seq<(usize, usize)>, row: int, col: int) -> bool {
    exists|i: int|
        0 <= i < positions.len() && (#[trigger] positions[i]).0 == row && positions[i].1 == col
}

/// The rows of a grid of `size` rows and columns in which exactly the listed cells are alive.
pub open spec fn seeded_rows(size: nat, living: Seq<(usize, usize)>) -> Seq<Seq<State>> {
    Seq::new(
        size,
        |row: int|
            Seq::new(
                size,
                |col: int|
                    if is_listed(living, row, col) {
                        State::Alive
                    } else {
                        State::Dead
                    },
            ),
    )
}

/// The rows that rows of coin flips stand for: a cell is alive where its flip is `true`.
pub open spec fn rows_of_flips(flips: Seq<Vec<bool>>) -> Seq<Seq<State>> {
    Seq::new(
        flips.len(),
        |row: int|
            Seq::new(
                flips[row]@.len(),
                |col: int|
                    if flips[row]@[col] {
                        State::Alive
                    } else {
                        State::Dead
                    },
            ),
    )
}

/// Listing one more position adds that position and no other.
proof fn lemma_is_listed_next(positions: Seq<(usize, usize)>, k: int, row: int, col: int)
    requires
        0 <= k < positions.len(),
    ensures
        is_listed(positions.take(k + 1), row, col) <==> is_listed(positions.take(k), row, col) || (
        positions[k].0 == row && positions[k].1 == col),
{
    let shorter = positions.take(k);
    let longer = positions.take(k + 1);
    if is_listed(longer, row, col) {
        let i = choose|i: int|
            0 <= i < longer.len() && (#[trigger] longer[i]).0 == row && longer[i].1 == col;
        if i < k {
            assert(shorter[i] == longer[i]);
        }
    }
    if is_listed(shorter, row, col) {
        let i = choose|i: int|
            0 <= i < shorter.len() && (#[trigger] shorter[i]).0 == row && shorter[i].1 == col;
        assert(longer[i] == shorter[i]);
    }
    if positions[k].0 == row && positions[k].1 == col {
        assert(longer[k] == positions[k]);
    }
}

/// A square grid of cells. Its size is fixed when it is made.
#[derive(Debug)]
pub struct Grid {
    cells: Vec<Vec<State>>,
}

impl View for Grid {
    type V = Seq<Seq<State>>;

    /// The rows of the grid, top to bottom, each from left to right.
    closed spec fn view(&self) -> Seq<Seq<State>> {
        rows_of(self.cells@)
    }
}

impl Clone for Grid {
    /// A grid with the same cells.
    fn clone(&self) -> (copy: Grid)
        ensures
            copy@ == self@,
    {
        proof {
            use_type_invariant(self);
        }
        let cells = self.cells.clone();
        assert(rows_of(cells@) =~= rows_of(self.cells@));
        Grid { cells }
    }
}

impl Grid {
    #[verifier::type_invariant]
    spec fn well_formed(&self) -> bool {
        is_grid(self@)
    }

    /// A grid of `size` rows and columns in which exactly the cells at `living_cells` are
    /// alive. A position may be listed more than once. Fails with `InvalidSize` for size
    /// zero, else with `InvalidCoordinate` where a listed position lies off the grid.
    pub fn seed(size: usize, living_cells: Vec<(usize, usize)>) -> (made: Result<Grid, GridError>)
        ensures
            size == 0 ==> made == Err::<Grid, GridError>(GridError::InvalidSize),
            size > 0 && !all_on_grid(size as nat, living_cells@) ==> made == Err::<Grid, GridError>(
                GridError::InvalidCoordinate,
            ),
            size > 0 && all_on_grid(size as nat, living_cells@) ==> made is Ok,
            made matches Ok(grid) ==> grid@ == seeded_rows(size as nat, living_cells@),
    {
        if size == 0 {
            return Err(GridError::InvalidSize);
        }
        let mut cells: Vec<Vec<State>> = Vec::new();
        let mut row_idx: usize = 0;
        while row_idx < size
            invariant
                row_idx <= size,
                cells@.len() == row_idx,
                forall|r: int| 0 <= r < row_idx ==> (#[trigger] cells@[r])@.len() == size,
                forall|r: int, c: int|
                    0 <= r < row_idx && 0 <= c < size ==> (#[trigger] cells@[r]@[c]) == State::Dead,
            decreases size - row_idx,
        {
            let mut row: Vec<State> = Vec::new();
            let mut col_idx: usize = 0;
            while col_idx < size
                invariant
                    col_idx <= size,
                    row@.len() == col_idx,
                    forall|c: int| 0 <= c < col_idx ==> #[trigger] row@[c] == State::Dead,
                decreases size - col_idx,
            {
                row.push(State::Dead);
                col_idx += 1;
            }
            cells.push(row);
            row_idx += 1;
        }

        let mut placed: usize = 0;
        while placed < living_cells.len()
            invariant
                size > 0,
                placed <= living_cells@.len(),
                cells@.len() == size,
                forall|r: int| 0 <= r < size ==> (#[trigger] cells@[r])@.len() == size,
                all_on_grid(size as nat, living_cells@.take(placed as int)),
                forall|r: int, c: int|
                    0 <= r < size && 0 <= c < size ==> (#[trigger] cells@[r]@[c]) == (if is_listed(
                        living_cells@.take(placed as int),
                        r,
                        c,
                    ) {
                        State::Alive
                    } else {
                        State::Dead
                    }),
            decreases living_cells@.len() - placed,
        {
            let position = living_cells[placed];
            if position.0 >= size || position.1 >= size {
                return Err(GridError::InvalidCoordinate);
            }
            let ghost before = cells@;
            cells[position.0][position.1] = State::Alive;
            proof {
                assert(living_cells@.take(placed + 1)[placed as int] == position);
                assert forall|r: int, c: int| 0 <= r < size && 0 <= c < size implies (
                #[trigger] cells@[r]@[c]) == (if is_listed(living_cells@.take(placed + 1), r, c) {
                    State::Alive
                } else {
                    State::Dead
                }) by {
                    lemma_is_listed_next(living_cells@, placed as int, r, c);
                    assert(before[r]@[c] == cells@[r]@[c] || (r == position.0 && c == position.1));
                }
            }
            placed += 1;
        }
        assert(living_cells@.take(placed as int) =~= living_cells@);
        assert forall|r: int| 0 <= r < size implies #[trigger] rows_of(cells@)[r] == seeded_rows(
            size as nat,
            living_cells@,
        )[r] by {
            assert forall|c: int| 0 <= c < size implies rows_of(cells@)[r][c] == cells@[r]@[c] by {}
            assert(rows_of(cells@)[r] =~= seeded_rows(size as nat, living_cells@)[r]);
        }
        assert(rows_of(cells@) =~= seeded_rows(size as nat, living_cells@));
        Ok(Grid { cells })
    }

    /// The grid that has the given rows. Fails with `InvalidSize` where there is no row,
    /// else with `NotSquare` where some row is not as long as the number of rows.
    pub fn from_rows(rows: Vec<Vec<State>>) -> (made: Result<Grid, GridError>)
        ensures
            rows@.len() == 0 ==> made == Err::<Grid, GridError>(GridError::InvalidSize),
            rows@.len() > 0 && !is_square(rows_of(rows@)) ==> made == Err::<Grid, GridError>(
                GridError::NotSquare,
            ),
            is_grid(rows_of(rows@)) ==> made is Ok,
            made matches Ok(grid) ==> grid@ == rows_of(rows@),
    {
        let size = rows.len();
        if size == 0 {
            return Err(GridError::InvalidSize);
        }
        let mut row_idx: usize = 0;
        while row_idx < size
            invariant
                row_idx <= size,
                size == rows@.len(),
                forall|r: int| 0 <= r < row_idx ==> (#[trigger] rows@[r])@.len() == size,
            decreases size - row_idx,
        {
            if rows[row_idx].len() != size {
                assert(rows_of(rows@)[row_idx as int].len() != rows_of(rows@).len());
                return Err(GridError::NotSquare);
            }
            row_idx += 1;
        }
        Ok(Grid { cells: rows })
    }

    /// The grid that rows of coin flips stand for: the cell at `(row, col)` is alive where
    /// `flips[row][col]` is `true`, and dead where it is `false`. Fails with `InvalidSize`
    /// where there is no row, else with `NotSquare` where some row is not as long as the
    /// number of rows.
    pub fn from_flips(flips: Vec<Vec<bool>>) -> (made: Result<Grid, GridError>)
        ensures
            flips@.len() == 0 ==> made == Err::<Grid, GridError>(GridError::InvalidSize),
            flips@.len() > 0 && !is_square(rows_of_flips(flips@)) ==> made == Err::<
                Grid,
                GridError,
            >(GridError::NotSquare),
            is_grid(rows_of_flips(flips@)) ==> made is Ok,
            made matches Ok(grid) ==> grid@ == rows_of_flips(flips@),
    {
        let mut rows: Vec<Vec<State>> = Vec::new();
        let mut row_idx: usize = 0;
        while row_idx < flips.len()
            invariant
                row_idx <= flips@.len(),
                rows@.len() == row_idx,
                forall|r: int| 0 <= r < row_idx ==> (#[trigger] rows@[r])@ == rows_of_flips(flips@)[r],
            decreases flips@.len() - row_idx,
        {
            let row_flips = &flips[row_idx];
            let mut row: Vec<State> = Vec::new();
            let mut col_idx: usize = 0;
            while col_idx < row_flips.len()
                invariant
                    row_idx < flips@.len(),
                    row_flips == flips@[row_idx as int],
                    col_idx <= row_flips@.len(),
                    row@.len() == col_idx,
                    forall|c: int|
                        0 <= c < col_idx ==> #[trigger] row@[c] == rows_of_flips(
                            flips@,
                        )[row_idx as int][c],
                decreases row_flips@.len() - col_idx,
            {
                row.push(State::from_alive(row_flips[col_idx]));
                col_idx += 1;
            }
            assert(row@ =~= rows_of_flips(flips@)[row_idx as int]);
            rows.push(row);
            row_idx += 1;
        }
        assert(rows_of(rows@) =~= rows_of_flips(flips@));
        Grid::from_rows(rows)
    }

    /// A grid of `size` rows and columns whose cells are alive or dead by independent coin
    /// flips: `size` rows of `size` flips are drawn, row by row from the top and in each row
    /// from the left, and the grid is the one that `from_flips` makes of them. With a seed
    /// the flips come from a generator that the seed starts; without one they come from the
    /// thread's generator. Fails with `InvalidSize` for size zero.
    ///
    /// # Panics
    ///
    /// Without a seed, where the system gives `rand` no entropy to start the thread's
    /// generator with. With a seed it does not panic.
    pub fn random_grid(size: usize, seed: Option<u64>) -> (made: Result<Grid, GridError>)
        ensures
            size == 0 <==> made == Err::<Grid, GridError>(GridError::InvalidSize),
            size > 0 <==> made is Ok,
            made matches Ok(grid) ==> grid@.len() == size && is_grid(grid@),
    {
        if size == 0 {
            return Err(GridError::InvalidSize);
        }
        let mut generator: Option<StdRng> = match seed {
            Some(value) => Some(seeded_generator(value)),
            None => None,
        };
        let mut flips: Vec<Vec<bool>> = Vec::new();
        let mut row_idx: usize = 0;
        while row_idx < size
            invariant
                row_idx <= size,
                flips@.len() == row_idx,
                forall|r: int| 0 <= r < row_idx ==> (#[trigger] flips@[r])@.len() == size,
            decreases size - row_idx,
        {
            let mut row: Vec<bool> = Vec::new();
            let mut col_idx: usize = 0;
            while col_idx < size
                invariant
                    col_idx <= size,
                    row@.len() == col_idx,
                decreases size - col_idx,
            {
                row.push(next_flip(&mut generator));
                col_idx += 1;
            }
            flips.push(row);
            row_idx += 1;
        }
        assert(is_grid(rows_of_flips(flips@))) by {
            assert forall|r: int| 0 <= r < rows_of_flips(flips@).len() implies (
            #[trigger] rows_of_flips(flips@)[r]).len() == rows_of_flips(flips@).len() by {
                assert(flips@[r]@.len() == size);
            }
        }
        Grid::from_flips(flips)
    }

    /// The number of rows, which is the number of columns.
    pub fn size(&self) -> (size: usize)
        ensures
            size == self@.len(),
            is_grid(self@),
    {
        proof {
            use_type_invariant(self);
        }
        self.cells.len()
    }

    /// The rows of the grid, top to bottom, each from left to right.
    pub fn cells(&self) -> (cells: &[Vec<State>])
        ensures
            rows_of(cells@) == self@,
            is_grid(self@),
    {
        proof {
            use_type_invariant(self);
        }
        self.cells.as_slice()
    }

    /// The state of the cell at `(row, col)`, or `None` where that is off the grid.
    pub fn get(&self, row: usize, col: usize) -> (found: Option<State>)
        ensures
            found == (if row < self@.len() && col < self@.len() {
                Some(self@[row as int][col as int])
            } else {
                None
            }),
    {
        proof {
            use_type_invariant(self);
        }
        if row < self.cells.len() && col < self.cells.len() {
            assert(self@[row as int].len() == self@.len());
            Some(self.cells[row][col])
        } else {
            None
        }
    }

    /// Whether the two grids have the same size and the same state in every cell.
    pub fn same_as(&self, other: &Grid) -> (same: bool)
        ensures
            same == (self@ == other@),
    {
        let size = self.cells.len();
        if other.cells.len() != size {
            assert(self@.len() != other@.len());
            return false;
        }
        let mut row_idx: usize = 0;
        while row_idx < size
            invariant
                row_idx <= size,
                size == self.cells@.len(),
                size == other.cells@.len(),
                forall|r: int| 0 <= r < row_idx ==> (#[trigger] self@[r]) == other@[r],
            decreases size - row_idx,
        {
            let row = &self.cells[row_idx];
            let other_row = &other.cells[row_idx];
            let length = row.len();
            if other_row.len() != length {
                assert(self@[row_idx as int].len() != other@[row_idx as int].len());
                return false;
            }
            let mut col_idx: usize = 0;
            while col_idx < length
                invariant
                    col_idx <= length,
                    row_idx < size,
                    size == self.cells@.len(),
                    size == other.cells@.len(),
                    row == self.cells@[row_idx as int],
                    other_row == other.cells@[row_idx as int],
                    length == row@.len(),
                    length == other_row@.len(),
                    forall|c: int| 0 <= c < col_idx ==> #[trigger] row@[c] == other_row@[c],
                decreases length - col_idx,
            {
                if row[col_idx] != other_row[col_idx] {
                    assert(self@[row_idx as int][col_idx as int] != other@[row_idx as int][col_idx as int]);
                    return false;
                }
                col_idx += 1;
            }
            assert(self@[row_idx as int] =~= other@[row_idx as int]);
            row_idx += 1;
        }
        assert(self@ =~= other@);
        true
    }

    /// The next generation: a new grid of the same size in which every cell has the state
    /// that the rule gives it from this generation.
    pub fn next_generation(&self) -> (next: Grid)
        ensures
            next@ == generation_after(self@),
            next@.len() == self@.len(),
            is_grid(next@),
            forall|row: int, col: int|
                0 <= row < self@.len() && 0 <= col < self@.len() ==> #[trigger] next@[row][col]
                    == rule(self@[row][col], alive_neighbours(self@, row, col)),
    {
        proof {
            use_type_invariant(self);
        }
        let size = self.cells.len();
        let mut new_cells: Vec<Vec<State>> = Vec::new();
        let mut row_idx: usize = 0;
        while row_idx < size
            invariant
                row_idx <= size,
                size == self.cells@.len(),
                is_grid(self@),
                new_cells@.len() == row_idx,
                forall|r: int| 0 <= r < row_idx ==> (#[trigger] new_cells@[r])@ == next_row(self@, r),
            decreases size - row_idx,
        {
            let row = &self.cells[row_idx];
            let mut new_row: Vec<State> = Vec::new();
            let mut col_idx: usize = 0;
            while col_idx < row.len()
                invariant
                    row_idx < size,
                    size == self.cells@.len(),
                    row == self.cells@[row_idx as int],
                    col_idx <= row@.len(),
                    new_row@.len() == col_idx,
                    forall|c: int| 0 <= c < col_idx ==> #[trigger] new_row@[c] == next_row(self@, row_idx as int)[c],
                decreases row@.len() - col_idx,
            {
                new_row.push(
                    state_based_on_neighbours(
                        (row_idx, col_idx),
                        self.cells.as_slice(),
                        &row[col_idx],
                    ),
                );
                col_idx += 1;
            }
            assert(new_row@ =~= next_row(self@, row_idx as int));
            new_cells.push(new_row);
            row_idx += 1;
        }
        assert(rows_of(new_cells@) =~= generation_after(self@));
        Grid { cells: new_cells }
    }
}

} // verus!
