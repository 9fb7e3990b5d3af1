use life_engine::board::Cell;
use life_engine::game::Game;

fn game_with(width: u16, height: u16, cells: &[Cell]) -> Game {
    let mut game = Game::new(width, height);
    for cell in cells {
        game.seed_cell(*cell, true);
    }
    game
}

fn live_cells(game: &Game, width: u16, height: u16) -> Vec<Cell> {
    let mut found = Vec::new();
    for x in 0..width {
        for y in 0..height {
            if game.is_alive((x, y)) {
                found.push((x, y));
            }
        }
    }
    found
}

#[test]
fn new_game_is_empty_at_generation_zero() {
    let game = Game::new(80, 23);
    assert_eq!(game.population(), 0);
    assert_eq!(game.generation(), 0);
    assert_eq!(game.board_shape().width, 80);
    assert_eq!(game.board_shape().height, 23);
    assert!(!game.is_alive((0, 0)));
}

#[test]
fn empty_board_stays_empty() {
    let mut game = Game::new(10, 10);
    game.next();
    assert_eq!(game.population(), 0);
    assert_eq!(game.generation(), 1);
    assert_eq!(live_cells(&game, 10, 10), vec![]);
}

#[test]
fn block_is_a_still_life() {
    let block = [(1, 1), (1, 2), (2, 1), (2, 2)];
    let mut game = game_with(4, 4, &block);
    assert_eq!(game.population(), 4);
    game.next();
    assert_eq!(game.population(), 4);
    assert_eq!(live_cells(&game, 4, 4), block.to_vec());
    game.next();
    assert_eq!(game.population(), 4);
    assert_eq!(live_cells(&game, 4, 4), block.to_vec());
    assert_eq!(game.generation(), 2);
}

#[test]
fn blinker_oscillates_with_period_two() {
    let row = vec![(1, 0), (1, 1), (1, 2)];
    let column = vec![(0, 1), (1, 1), (2, 1)];
    let mut game = game_with(80, 23, &row);
    game.next();
    assert_eq!(game.population(), 3);
    assert_eq!(live_cells(&game, 80, 23), column);
    game.next();
    assert_eq!(game.population(), 3);
    assert_eq!(live_cells(&game, 80, 23), row);
}

#[test]
fn blinker_oscillates_on_a_board_that_just_holds_it() {
    let mut game = game_with(3, 3, &[(1, 0), (1, 1), (1, 2)]);
    game.next();
    assert_eq!(live_cells(&game, 3, 3), vec![(0, 1), (1, 1), (2, 1)]);
    game.next();
    assert_eq!(live_cells(&game, 3, 3), vec![(1, 0), (1, 1), (1, 2)]);
}

#[test]
fn lonely_cell_dies() {
    let mut game = game_with(5, 5, &[(2, 2)]);
    game.next();
    assert_eq!(game.population(), 0);
}

#[test]
fn cell_with_one_neighbor_dies() {
    let mut game = game_with(5, 5, &[(2, 2), (2, 3)]);
    game.next();
    assert!(!game.is_alive((2, 2)));
    assert!(!game.is_alive((2, 3)));
    assert_eq!(game.population(), 0);
}

#[test]
fn cell_with_two_neighbors_survives() {
    // A diagonal of three: only the middle one has two neighbours.
    let mut game = game_with(5, 5, &[(1, 1), (2, 2), (3, 3)]);
    game.next();
    assert_eq!(live_cells(&game, 5, 5), vec![(2, 2)]);
}

#[test]
fn cell_with_four_neighbors_dies() {
    // A plus sign: the centre has four neighbours.
    let plus = [(2, 2), (1, 2), (3, 2), (2, 1), (2, 3)];
    let mut game = game_with(5, 5, &plus);
    game.next();
    assert!(!game.is_alive((2, 2)));
    // Each arm sees the centre and the two arms next to it: three.
    assert!(game.is_alive((1, 2)));
    assert!(game.is_alive((3, 2)));
    assert!(game.is_alive((2, 1)));
    assert!(game.is_alive((2, 3)));
    // The four corners of the square each see two arms and the centre.
    assert!(game.is_alive((1, 1)));
    assert!(game.is_alive((1, 3)));
    assert!(game.is_alive((3, 1)));
    assert!(game.is_alive((3, 3)));
    assert_eq!(game.population(), 8);
}

#[test]
fn dead_cell_with_three_neighbors_is_born() {
    let mut game = game_with(5, 5, &[(0, 0), (0, 2), (2, 1)]);
    game.next();
    assert_eq!(live_cells(&game, 5, 5), vec![(1, 1)]);
}

#[test]
fn dead_cell_with_two_neighbors_stays_dead() {
    let mut game = game_with(5, 5, &[(0, 0), (0, 2)]);
    game.next();
    assert!(!game.is_alive((1, 1)));
    assert!(!game.is_alive((0, 1)));
    assert_eq!(game.population(), 0);
}

#[test]
fn nothing_wraps_around_the_edges() {
    // Three cells in the first column; on a torus the last column would
    // gain a cell, here only the second column does.
    let mut game = game_with(4, 3, &[(0, 0), (0, 1), (0, 2)]);
    game.next();
    assert_eq!(live_cells(&game, 4, 3), vec![(0, 1), (1, 1)]);
}

#[test]
fn generation_counts_each_advance() {
    let mut game = game_with(6, 6, &[(1, 1), (1, 2), (2, 1), (2, 2)]);
    for expected in 1..=25u32 {
        game.next();
        assert_eq!(game.generation(), expected);
    }
    let mut empty = Game::new(6, 6);
    for expected in 1..=25u32 {
        empty.next();
        assert_eq!(empty.generation(), expected);
    }
}

#[test]
fn population_is_the_number_of_live_cells() {
    let mut game = Game::new(8, 8);
    assert_eq!(game.population(), 0);
    game.seed_cell((1, 1), true);
    assert_eq!(game.population(), 1);
    game.seed_cell((1, 1), true);
    assert_eq!(game.population(), 1);
    game.seed_cell((7, 0), true);
    game.seed_cell((0, 7), true);
    assert_eq!(game.population(), 3);
    assert_eq!(live_cells(&game, 8, 8).len(), 3);
}

#[test]
fn glider_moves_one_step_diagonally_in_four_generations() {
    let glider = [(1, 0), (2, 1), (0, 2), (1, 2), (2, 2)];
    let mut game = game_with(10, 10, &glider);
    for _ in 0..4 {
        game.next();
    }
    assert_eq!(
        live_cells(&game, 10, 10),
        vec![(1, 3), (2, 1), (2, 3), (3, 2), (3, 3)]
    );
    assert_eq!(game.population(), 5);
}

#[test]
fn resize_keeps_the_cells_and_the_generation() {
    let mut game = game_with(10, 10, &[(7, 7), (7, 8), (8, 7), (8, 8)]);
    game.next();
    game.resize_board(5, 5);
    assert_eq!(game.board_shape().width, 5);
    assert_eq!(game.board_shape().height, 5);
    assert_eq!(game.population(), 4);
    assert_eq!(game.generation(), 1);
    assert!(game.is_alive((7, 7)));
    assert!(game.is_alive((8, 8)));
}

#[test]
fn advance_after_shrinking_drops_cells_far_outside() {
    let mut game = game_with(10, 10, &[(7, 7), (7, 8), (8, 7), (8, 8)]);
    game.resize_board(5, 5);
    game.next();
    assert_eq!(game.population(), 0);
    assert_eq!(game.generation(), 1);
}

#[test]
fn advance_after_shrinking_counts_only_neighbors_on_the_board() {
    let mut game = game_with(10, 10, &[(4, 1), (4, 2), (4, 3), (5, 2)]);
    game.resize_board(5, 5);
    game.next();
    // (5, 2) lies outside, sees three live cells of the board and stays;
    // (4, 2) sees two; (4, 1) and (4, 3) see one; (3, 2) is born.
    assert!(game.is_alive((5, 2)));
    assert!(game.is_alive((4, 2)));
    assert!(game.is_alive((3, 2)));
    assert!(!game.is_alive((4, 1)));
    assert!(!game.is_alive((4, 3)));
    assert!(!game.is_alive((5, 1)));
    assert!(!game.is_alive((5, 3)));
    assert_eq!(game.population(), 3);
}

#[test]
fn advance_after_growing_uses_the_new_bounds() {
    // On 3 x 3 the column is cut off; after growing, it is a blinker.
    let mut game = game_with(3, 3, &[(2, 0), (2, 1), (2, 2)]);
    game.resize_board(4, 3);
    game.next();
    assert_eq!(live_cells(&game, 4, 3), vec![(1, 1), (2, 1), (3, 1)]);
}

#[test]
fn advance_on_a_board_without_area() {
    let mut game = game_with(0, 0, &[(0, 0), (0, 1), (1, 0)]);
    game.next();
    assert_eq!(game.population(), 0);
    assert_eq!(game.generation(), 1);
    let mut flat = game_with(5, 0, &[]);
    flat.next();
    assert_eq!(flat.population(), 0);
}

#[test]
fn advance_at_the_largest_coordinates() {
    let top = u16::MAX;
    let mut game = game_with(top, top, &[(top, top), (top - 1, top - 1), (top - 1, top - 2), (top - 2, top - 1)]);
    game.next();
    // (top, top) is outside the board and sees one live cell of it.
    assert!(!game.is_alive((top, top)));
    // (top - 1, top - 1) sees two, the other two see two each.
    assert!(game.is_alive((top - 1, top - 1)));
    assert!(game.is_alive((top - 1, top - 2)));
    assert!(game.is_alive((top - 2, top - 1)));
    assert!(game.is_alive((top - 2, top - 2)));
    assert_eq!(game.population(), 4);
}

#[test]
fn generations_of_a_seeded_board_stay_on_the_board() {
    let mut game = Game::new(20, 20);
    game.seed(1, 2);
    for _ in 0..5 {
        game.next();
        assert_eq!(game.population(), live_cells(&game, 20, 20).len());
        for edge in 0..=20 {
            assert!(!game.is_alive((20, edge)));
            assert!(!game.is_alive((edge, 20)));
        }
    }
    assert_eq!(game.generation(), 5);
}

#[test]
fn cells_far_from_any_live_cell_stay_dead() {
    let mut game = game_with(12, 12, &[(1, 1), (1, 2), (2, 1), (2, 2)]);
    game.next();
    for x in 4..12 {
        for y in 0..12 {
            assert!(!game.is_alive((x, y)));
        }
    }
}
