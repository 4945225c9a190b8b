use game_of_life::{Grid, State};

fn grid_of(rows: Vec<Vec<State>>) -> Grid {
    Grid::from_rows(rows).unwrap()
}

fn all_dead(size: usize) -> Grid {
    Grid::seed(size, vec![]).unwrap()
}

#[test]
fn blinker_test() {
    let blinker_start = grid_of(vec![
        vec![State::Dead, State::Alive, State::Dead],
        vec![State::Dead, State::Alive, State::Dead],
        vec![State::Dead, State::Alive, State::Dead],
    ]);

    let blinker_end = grid_of(vec![
        vec![State::Dead, State::Dead, State::Dead],
        vec![State::Alive, State::Alive, State::Alive],
        vec![State::Dead, State::Dead, State::Dead],
    ]);

    assert_eq!(blinker_start.next_generation(), blinker_end);
}

#[test]
fn blinker_returns_after_two_generations() {
    let start = Grid::seed(3, vec![(0, 1), (1, 1), (2, 1)]).unwrap();
    let twice = start.next_generation().next_generation();
    assert_eq!(twice, start);
}

#[test]
fn blinker_away_from_the_edges() {
    let start = Grid::seed(5, vec![(1, 2), (2, 2), (3, 2)]).unwrap();
    let end = Grid::seed(5, vec![(2, 1), (2, 2), (2, 3)]).unwrap();
    assert_eq!(start.next_generation(), end);
    assert_eq!(end.next_generation(), start);
}

#[test]
fn block_is_a_still_life() {
    let block = Grid::seed(4, vec![(1, 1), (1, 2), (2, 1), (2, 2)]).unwrap();
    let expected = grid_of(vec![
        vec![State::Dead, State::Dead, State::Dead, State::Dead],
        vec![State::Dead, State::Alive, State::Alive, State::Dead],
        vec![State::Dead, State::Alive, State::Alive, State::Dead],
        vec![State::Dead, State::Dead, State::Dead, State::Dead],
    ]);
    assert_eq!(block, expected);
    assert_eq!(block.next_generation(), expected);
}

#[test]
fn lone_cell_dies() {
    for size in 1..6usize {
        for row in 0..size {
            for col in 0..size {
                let lone = Grid::seed(size, vec![(row, col)]).unwrap();
                assert_eq!(lone.get(row, col), Some(State::Alive));
                assert_eq!(lone.next_generation(), all_dead(size));
            }
        }
    }
}

#[test]
fn dead_grid_stays_dead() {
    for size in 1..6usize {
        assert_eq!(all_dead(size).next_generation(), all_dead(size));
    }
}

#[test]
fn dead_cell_with_three_neighbours_is_born() {
    let grid = Grid::seed(3, vec![(0, 0), (0, 1), (0, 2)]).unwrap();
    assert_eq!(grid.get(1, 1), Some(State::Dead));
    assert_eq!(grid.next_generation().get(1, 1), Some(State::Alive));
}

#[test]
fn dead_cell_with_two_neighbours_stays_dead() {
    let grid = Grid::seed(3, vec![(0, 0), (0, 1)]).unwrap();
    assert_eq!(grid.get(1, 1), Some(State::Dead));
    assert_eq!(grid.next_generation().get(1, 1), Some(State::Dead));
}

#[test]
fn dead_cell_with_four_neighbours_stays_dead() {
    let grid = Grid::seed(3, vec![(0, 0), (0, 1), (0, 2), (1, 0)]).unwrap();
    assert_eq!(grid.get(1, 1), Some(State::Dead));
    assert_eq!(grid.next_generation().get(1, 1), Some(State::Dead));
}

#[test]
fn glider_moves_one_step() {
    let start = grid_of(vec![
        vec![State::Dead, State::Alive, State::Dead, State::Dead, State::Dead],
        vec![State::Dead, State::Dead, State::Alive, State::Dead, State::Dead],
        vec![State::Alive, State::Alive, State::Alive, State::Dead, State::Dead],
        vec![State::Dead, State::Dead, State::Dead, State::Dead, State::Dead],
        vec![State::Dead, State::Dead, State::Dead, State::Dead, State::Dead],
    ]);
    let end = grid_of(vec![
        vec![State::Dead, State::Dead, State::Dead, State::Dead, State::Dead],
        vec![State::Alive, State::Dead, State::Alive, State::Dead, State::Dead],
        vec![State::Dead, State::Alive, State::Alive, State::Dead, State::Dead],
        vec![State::Dead, State::Alive, State::Dead, State::Dead, State::Dead],
        vec![State::Dead, State::Dead, State::Dead, State::Dead, State::Dead],
    ]);
    assert_eq!(start.next_generation(), end);
}

#[test]
fn full_grid_keeps_only_its_corners() {
    let full = grid_of(vec![
        vec![State::Alive, State::Alive, State::Alive],
        vec![State::Alive, State::Alive, State::Alive],
        vec![State::Alive, State::Alive, State::Alive],
    ]);
    let corners = grid_of(vec![
        vec![State::Alive, State::Dead, State::Alive],
        vec![State::Dead, State::Dead, State::Dead],
        vec![State::Alive, State::Dead, State::Alive],
    ]);
    assert_eq!(full.next_generation(), corners);
}

#[test]
fn full_grid_of_two_stays_full() {
    let full = Grid::seed(2, vec![(0, 0), (0, 1), (1, 0), (1, 1)]).unwrap();
    assert_eq!(full.next_generation(), full);
}

#[test]
fn edges_do_not_wrap_around() {
    let left_column = Grid::seed(4, vec![(0, 0), (1, 0), (2, 0)]).unwrap();
    let next = left_column.next_generation();
    let expected = Grid::seed(4, vec![(1, 0), (1, 1)]).unwrap();
    assert_eq!(next, expected);
    for row in 0..4usize {
        assert_eq!(next.get(row, 3), Some(State::Dead));
    }
}

#[test]
fn next_generation_keeps_the_size() {
    for size in 1..9usize {
        let grid = Grid::random_grid(size, Some(size as u64)).unwrap();
        let next = grid.next_generation();
        assert_eq!(next.size(), size);
        assert_eq!(next.cells().len(), size);
        for row in next.cells() {
            assert_eq!(row.len(), size);
        }
    }
}

#[test]
fn next_generation_is_deterministic() {
    let grid = Grid::random_grid(12, Some(2024)).unwrap();
    let copy = grid.clone();
    assert_eq!(grid.next_generation(), grid.next_generation());
    assert_eq!(grid.next_generation(), copy.next_generation());
}

#[test]
fn next_generation_leaves_its_input_alone() {
    let grid = Grid::seed(3, vec![(0, 1), (1, 1), (2, 1)]).unwrap();
    let before = grid.clone();
    let next = grid.next_generation();
    assert_eq!(grid, before);
    assert_ne!(next, grid);
}

#[test]
fn cells_are_updated_all_at_once() {
    // Updated in place from the top left, the middle row would see the top cell already dead.
    let start = Grid::seed(3, vec![(0, 0), (0, 1), (1, 0)]).unwrap();
    let expected = Grid::seed(3, vec![(0, 0), (0, 1), (1, 0), (1, 1)]).unwrap();
    assert_eq!(start.next_generation(), expected);
}
