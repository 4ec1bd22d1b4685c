use game_of_life::cell::{Cell, CellSize, CellState};
use game_of_life::game::{should_quit, Game};
use game_of_life::layout::Rect;

fn make_game(rows: usize, columns: usize, alive: &[(usize, usize)]) -> Game {
    let mut game = Game::new(CellSize::Small);
    let mut cells: Vec<Vec<Cell>> = Vec::new();
    for r in 0..rows {
        let mut row: Vec<Cell> = Vec::new();
        for c in 0..columns {
            let state = if alive.contains(&(r, c)) {
                CellState::Alive
            } else {
                CellState::Dead
            };
            row.push(Cell::new((r, c), state));
        }
        cells.push(row);
    }
    game.cells = cells;
    game
}

fn states(cells: &[Vec<Cell>]) -> Vec<Vec<bool>> {
    cells.iter().map(|row| row.iter().map(|c| c.is_alive()).collect()).collect()
}

#[test]
fn test_game_new_defaults() {
    let game = Game::new(CellSize::Medium);
    assert_eq!(game.tick_rate_ms, 250);
    assert_eq!(game.cell_size, CellSize::Medium);
    assert!(game.cells.is_empty());
}

#[test]
fn test_game_default() {
    let game = Game::default();
    assert_eq!(game.tick_rate_ms, 250);
    assert_eq!(game.cell_size, CellSize::Small);
    assert!(game.cells.is_empty());
}

#[test]
fn test_set_cells_dimensions() {
    let mut game = Game::new(CellSize::Small);
    game.set_cells_dimensions(&Rect::new(0, 0, 10, 6));
    assert_eq!(game.get_cell_rows(), 6);
    assert_eq!(game.get_cell_columns(), 5);
    for row in game.cells.iter() {
        assert_eq!(row.len(), 5);
        for cell in row.iter() {
            assert!(!cell.is_alive());
            assert_eq!(cell.location, (0, 0));
        }
    }
}

#[test]
fn test_initialize_cells_shape_and_locations() {
    let mut game = Game::new(CellSize::Medium);
    game.set_cells_dimensions(&Rect::new(0, 0, 9, 6));
    game.initialize_cells();
    assert_eq!(game.get_cell_rows(), 3);
    assert_eq!(game.get_cell_columns(), 3);
    assert!(game.check_well_formed());
}

#[test]
fn test_initialize_cells_empty_grid_is_noop() {
    let mut game = Game::new(CellSize::Large);
    game.initialize_cells();
    assert_eq!(game.get_cell_rows(), 0);
}

#[test]
fn test_get_neighbors_corner() {
    let game = make_game(3, 3, &[(0, 1), (1, 0)]);
    let corner = game.cells[0][0];
    let neighbors = game.get_neighbors(&corner);
    assert_eq!(neighbors.len(), 2);
    assert_eq!(neighbors[0].location, (0, 1));
    assert_eq!(neighbors[1].location, (1, 0));
}

#[test]
fn test_get_neighbors_center_order() {
    let game = make_game(3, 3, &[]);
    let center = game.cells[1][1];
    let neighbors = game.get_neighbors(&center);
    assert_eq!(neighbors.len(), 4);
    assert_eq!(neighbors[0].location, (1, 0));
    assert_eq!(neighbors[1].location, (1, 2));
    assert_eq!(neighbors[2].location, (0, 1));
    assert_eq!(neighbors[3].location, (2, 1));
}

#[test]
fn test_get_neighbors_single_cell() {
    let game = make_game(1, 1, &[(0, 0)]);
    let only = game.cells[0][0];
    let neighbors = game.get_neighbors(&only);
    assert!(neighbors.is_empty());
}

#[test]
fn test_alive_cell_with_two_neighbors_survives() {
    let game = make_game(3, 3, &[(1, 1), (0, 1), (2, 1)]);
    let next = game.update_cells();
    assert!(next[1][1].is_alive());
}

#[test]
fn test_alive_cell_with_three_neighbors_survives() {
    let game = make_game(3, 3, &[(1, 1), (0, 1), (2, 1), (1, 0)]);
    let next = game.update_cells();
    assert!(next[1][1].is_alive());
}

#[test]
fn test_alive_cell_with_one_neighbor_dies() {
    let game = make_game(3, 3, &[(1, 1), (0, 1)]);
    let next = game.update_cells();
    assert!(!next[1][1].is_alive());
}

#[test]
fn test_alive_cell_with_four_neighbors_dies() {
    let game = make_game(3, 3, &[(1, 1), (0, 1), (2, 1), (1, 0), (1, 2)]);
    let next = game.update_cells();
    assert!(!next[1][1].is_alive());
}

#[test]
fn test_dead_cell_with_three_neighbors_comes_alive() {
    let game = make_game(3, 3, &[(0, 1), (1, 0), (1, 2)]);
    let next = game.update_cells();
    assert!(next[1][1].is_alive());
}

#[test]
fn test_dead_cell_with_two_neighbors_stays_dead() {
    let game = make_game(3, 3, &[(0, 1), (1, 0)]);
    let next = game.update_cells();
    assert!(!next[1][1].is_alive());
}

#[test]
fn test_snapshot_consistency() {
    // The three alive cells each have no alive neighbor of their own, so
    // all three die; the center must still see all three in its count,
    // taken from the pre-advance grid, and come alive. Were counts taken
    // from a partially advanced grid, the center would stay dead.
    let game = make_game(3, 3, &[(0, 1), (1, 0), (1, 2)]);
    let next = game.update_cells();
    let expected = vec![
        vec![false, false, false],
        vec![false, true, false],
        vec![false, false, false],
    ];
    assert_eq!(states(&next), expected);
}

#[test]
fn test_snapshot_example_left_and_up_alive() {
    // The center is dead with exactly its left and up neighbors alive:
    // its pre-advance neighbor count is 2, so it stays dead, and every
    // alive cell dies for want of neighbors.
    let game = make_game(3, 3, &[(0, 1), (1, 0)]);
    let center = game.cells[1][1];
    let neighbors = game.get_neighbors(&center);
    let alive_neighbors = neighbors.iter().filter(|c| c.is_alive()).count();
    assert_eq!(alive_neighbors, 2);
    let next = game.update_cells();
    for row in next.iter() {
        for cell in row.iter() {
            assert!(!cell.is_alive());
        }
    }
}

#[test]
fn test_update_cells_keeps_locations() {
    let game = make_game(2, 3, &[(0, 0), (0, 1), (1, 2)]);
    let next = game.update_cells();
    assert_eq!(next.len(), 2);
    for (r, row) in next.iter().enumerate() {
        assert_eq!(row.len(), 3);
        for (c, cell) in row.iter().enumerate() {
            assert_eq!(cell.location, (r, c));
        }
    }
}

#[test]
fn test_update_cells_empty_grid() {
    let game = Game::new(CellSize::Small);
    let next = game.update_cells();
    assert!(next.is_empty());
}

#[test]
fn test_prepare_cells_initializes_once() {
    let mut game = Game::new(CellSize::Large);
    game.prepare_cells(&Rect::new(0, 0, 75, 18));
    assert_eq!(game.get_cell_rows(), 6);
    assert_eq!(game.get_cell_columns(), 15);
    assert!(game.check_well_formed());
    let snapshot = game.cells.clone();
    game.prepare_cells(&Rect::new(0, 0, 75, 18));
    assert_eq!(game.cells, snapshot);
}

#[test]
fn test_prepare_cells_degenerate_rect() {
    let mut game = Game::new(CellSize::Large);
    game.prepare_cells(&Rect::new(0, 0, 4, 2));
    assert_eq!(game.get_cell_rows(), 0);
}

#[test]
fn test_check_well_formed_detects_bad_location() {
    let mut game = make_game(2, 2, &[]);
    assert!(game.check_well_formed());
    game.cells[1][0] = Cell::new((0, 0), CellState::Dead);
    assert!(!game.check_well_formed());
}

#[test]
fn test_check_well_formed_detects_ragged_rows() {
    let mut game = make_game(2, 2, &[]);
    game.cells[1].pop();
    assert!(!game.check_well_formed());
}

#[test]
fn test_get_neighbors_far_corner_no_wrap() {
    let game = make_game(3, 3, &[(0, 0)]);
    let far = game.cells[2][2];
    let neighbors = game.get_neighbors(&far);
    assert_eq!(neighbors.len(), 2);
    assert_eq!(neighbors[0].location, (2, 1));
    assert_eq!(neighbors[1].location, (1, 2));
    // the alive cell at the opposite corner is never seen from here
    assert!(neighbors.iter().all(|c| !c.is_alive()));
}

#[test]
fn test_two_generations() {
    // A plus of four alive cells around a dead center: the center has 4
    // alive neighbors and stays dead, and every arm sees only dead
    // neighbors, so the whole grid dies out and stays dead.
    let game = make_game(3, 3, &[(0, 1), (1, 0), (1, 2), (2, 1)]);
    let first = game.update_cells();
    assert!(first.iter().flatten().all(|c| !c.is_alive()));
    let mut second_game = make_game(3, 3, &[]);
    second_game.cells = first;
    let second = second_game.update_cells();
    assert!(second.iter().flatten().all(|c| !c.is_alive()));
}

#[test]
fn test_should_quit() {
    assert!(should_quit(Some('q')));
    assert!(!should_quit(Some('x')));
    assert!(!should_quit(Some('Q')));
    assert!(!should_quit(None));
}
