use life_engine::game::Game;
use life_engine::render::{status_line, Glyph, ALIVE_SYMBOL, DEAD_SYMBOL};

#[test]
fn symbols_are_a_full_block_and_a_blank() {
    assert_eq!(ALIVE_SYMBOL.to_string(), "█");
    assert_eq!(DEAD_SYMBOL, ' ');
}

#[test]
fn status_line_of_a_new_game() {
    assert_eq!(status_line(0, 0), "Generation: 0  Population: 0");
}

#[test]
fn status_line_writes_decimal_numerals() {
    assert_eq!(status_line(7, 9), "Generation: 7  Population: 9");
    assert_eq!(status_line(10, 100), "Generation: 10  Population: 100");
    assert_eq!(status_line(12, 3405), "Generation: 12  Population: 3405");
    assert_eq!(
        status_line(u32::MAX, 1234567890),
        "Generation: 4294967295  Population: 1234567890"
    );
}

#[test]
fn frame_lists_the_board_column_by_column() {
    let mut game = Game::new(2, 3);
    game.seed_cell((0, 1), true);
    game.seed_cell((1, 2), true);
    let frame = game.frame();
    let glyph = |column, row, symbol| Glyph { column, row, symbol };
    assert_eq!(
        frame.glyphs,
        vec![
            glyph(0, 0, DEAD_SYMBOL),
            glyph(0, 1, ALIVE_SYMBOL),
            glyph(0, 2, DEAD_SYMBOL),
            glyph(1, 0, DEAD_SYMBOL),
            glyph(1, 1, DEAD_SYMBOL),
            glyph(1, 2, ALIVE_SYMBOL),
        ]
    );
    assert_eq!(frame.status_row, 4);
    assert_eq!(frame.status, "Generation: 0  Population: 2");
}

#[test]
fn frame_leaves_out_cells_outside_the_board() {
    let mut game = Game::new(4, 4);
    game.seed_cell((3, 3), true);
    game.seed_cell((0, 0), true);
    game.resize_board(2, 2);
    let frame = game.frame();
    assert_eq!(frame.glyphs.len(), 4);
    assert_eq!(frame.glyphs[0].symbol, ALIVE_SYMBOL);
    assert_eq!(frame.glyphs[1].symbol, DEAD_SYMBOL);
    assert_eq!(frame.glyphs[2].symbol, DEAD_SYMBOL);
    assert_eq!(frame.glyphs[3].symbol, DEAD_SYMBOL);
    assert_eq!(frame.status_row, 3);
    // The population counts every live cell, on the board or not.
    assert_eq!(frame.status, "Generation: 0  Population: 2");
}

#[test]
fn frame_of_a_board_without_area_has_only_a_status() {
    let game = Game::new(0, 5);
    let frame = game.frame();
    assert_eq!(frame.glyphs.len(), 0);
    assert_eq!(frame.status_row, 6);
    let flat = Game::new(5, 0);
    let frame = flat.frame();
    assert_eq!(frame.glyphs.len(), 0);
    assert_eq!(frame.status_row, 1);
}

#[test]
fn frame_follows_the_generations() {
    let mut game = Game::new(3, 3);
    game.seed_cell((1, 0), true);
    game.seed_cell((1, 1), true);
    game.seed_cell((1, 2), true);
    game.next();
    let frame = game.frame();
    let symbols: String = frame.glyphs.iter().map(|g| g.symbol).collect();
    assert_eq!(symbols, " █  █  █ ");
    assert_eq!(frame.glyphs[7], Glyph { column: 2, row: 1, symbol: ALIVE_SYMBOL });
    assert_eq!(frame.status, "Generation: 1  Population: 3");
}
