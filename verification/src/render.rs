//! What one frame shows: a symbol for every position of the board, and a
//! status line below it.

use crate::board::Cell;
use crate::rules::GameState;
use vstd::prelude::*;

verus! {

/// The symbol drawn for a live cell: a full block.
pub const ALIVE_SYMBOL: char = '\u{2588}';

/// The symbol drawn for a dead cell.
pub const DEAD_SYMBOL: char = ' ';

/// One symbol and the place on the screen where it is drawn.
#[derive(Debug, Clone, Copy, PartialEq, Eq, Structural)]
pub struct Glyph {
    pub column: u16,
    pub row: u16,
    pub symbol: char,
}

/// One frame: the board's positions column by column, each column from the
/// top down, and the status line with the row on which it is written.
#[derive(Debug)]
pub struct Frame {
    pub glyphs: Vec<Glyph>,
    pub status_row: u16,
    pub status: String,
}

/// The symbol for a cell that is alive, or dead.
pub open spec fn symbol_of(alive: bool) -> char {
    if alive {
        ALIVE_SYMBOL
    } else {
        DEAD_SYMBOL
    }
}

/// The glyph at position (`column`, `row`) of the board.
pub open spec fn glyph_at(live: Set<Cell>, column: int, row: int) -> Glyph {
    Glyph {
        column: column as u16,
        row: row as u16,
        symbol: symbol_of(live.contains((column as u16, row as u16))),
    }
}

/// The glyphs of the whole board, in the order in which they are drawn.
pub open spec fn board_glyphs(state: GameState) -> Seq<Glyph> {
    Seq::new(
        (state.shape.width * state.shape.height) as nat,
        |i: int| glyph_at(state.live, i / (state.shape.height as int), i % (state.shape.height as int)),
    )
}

/// The decimal digit for a number below ten.
pub open spec fn digit(d: nat) -> char {
    if d == 0 {
        '0'
    } else if d == 1 {
        '1'
    } else if d == 2 {
        '2'
    } else if d == 3 {
        '3'
    } else if d == 4 {
        '4'
    } else if d == 5 {
        '5'
    } else if d == 6 {
        '6'
    } else if d == 7 {
        '7'
    } else if d == 8 {
        '8'
    } else {
        '9'
    }
}

/// The decimal numeral of `n`, without leading zeros.
pub open spec fn decimal(n: nat) -> Seq<char>
    decreases n,
{
    if n < 10 {
        seq![digit(n)]
    } else {
        decimal(n / 10).push(digit(n % 10))
    }
}

/// The text of the status line.
pub open spec fn status_text(generation: nat, population: nat) -> Seq<char> {
    "Generation: "@ + decimal(generation) + "  Population: "@ + decimal(population)
}

/// The frame shows `state`: every position of the board with its symbol, and
/// the status line one row below the board's height.
pub open spec fn shows(frame: Frame, state: GameState) -> bool {
    &&& frame.glyphs@ == board_glyphs(state)
    &&& frame.status_row == state.shape.height + 1
    &&& frame.status@ == status_text(state.generation, state.live.len())
}

/// The one-character text of a digit.
fn digit_text(d: u64) -> (text: &'static str)
    requires
        d < 10,
    ensures
        text@ == seq![digit(d as nat)],
{
    proof {
        reveal_strlit("0");
        reveal_strlit("1");
        reveal_strlit("2");
        reveal_strlit("3");
        reveal_strlit("4");
        reveal_strlit("5");
        reveal_strlit("6");
        reveal_strlit("7");
        reveal_strlit("8");
        reveal_strlit("9");
    }
    if d == 0 {
        "0"
    } else if d == 1 {
        "1"
    } else if d == 2 {
        "2"
    } else if d == 3 {
        "3"
    } else if d == 4 {
        "4"
    } else if d == 5 {
        "5"
    } else if d == 6 {
        "6"
    } else if d == 7 {
        "7"
    } else if d == 8 {
        "8"
    } else {
        "9"
    }
}

/// Appends the decimal numeral of `n` to `text`.
fn append_decimal(text: &mut String, n: u64)
    ensures
        final(text)@ == old(text)@ + decimal(n as nat),
    decreases n,
{
    if n >= 10 {
        append_decimal(text, n / 10);
    }
    text.append(digit_text(n % 10));
}

/// The status line for a generation count and a population.
pub fn status_line(generation: u32, population: usize) -> (line: String)
    ensures
        line@ == status_text(generation as nat, population as nat),
{
    let mut line = String::from_str("Generation: ");
    append_decimal(&mut line, generation as u64);
    line.append("  Population: ");
    append_decimal(&mut line, population as u64);
    line
}

} // verus!
