//! The game: a sparse set of live cells on a bounded board.

use crate::board::{
    ascending, in_bounds, neighborhood, neighborhood_has_at_most_eight, neighborhood_is_symmetric,
    precedes, BoardShape, Cell,
};
use crate::keys::{
    cell_of, cell_round_trip, cells_of, insert_stores_one_cell, key_of, key_round_trip,
    stores_as_many_cells_as_keys, to_cell, to_key,
};
use crate::random::random_ratio;
use crate::render::{
    board_glyphs, glyph_at, shows, status_line, Frame, Glyph, ALIVE_SYMBOL, DEAD_SYMBOL,
};
use crate::rules::{
    advance, alive_next, can_advance, next_generation, resized, some_neighbor_is_alive, GameState,
};
use std::collections::HashSet;
use vstd::prelude::*;

verus! {

/// A game of life. Only the live cells are stored.
#[derive(Debug)]
pub struct Game {
    cells: HashSet<u32>,
    board_shape: BoardShape,
    generation: u32,
}

impl View for Game {
    type V = GameState;

    closed spec fn view(&self) -> GameState {
        GameState {
            live: cells_of(self.cells@),
            shape: self.board_shape,
            generation: self.generation as nat,
        }
    }
}

/// `found` holds, in ascending order, exactly the positions of `around`
/// that come before (`x`, `y`).
spec fn gathered(found: Seq<Cell>, around: Set<Cell>, x: int, y: int) -> bool {
    &&& ascending(found)
    &&& forall|k: int|
        0 <= k < found.len() ==> around.contains(#[trigger] found[k]) && (found[k].0 < x || (found[k].0
            == x && found[k].1 < y))
    &&& forall|c: Cell| #[trigger]
        around.contains(c) && (c.0 < x || (c.0 == x && c.1 < y)) ==> found.contains(c)
}

/// Every key of `born` belongs to a cell that is alive after `live`.
spec fn sound(born: Set<u32>, live: Set<Cell>, shape: BoardShape) -> bool {
    forall|k: u32| #[trigger] born.contains(k) ==> alive_next(live, shape, cell_of(k))
}

/// If `cell` is alive after `live`, its key is in `born`.
spec fn decided(born: Set<u32>, live: Set<Cell>, shape: BoardShape, cell: Cell) -> bool {
    alive_next(live, shape, cell) ==> born.contains(key_of(cell))
}

/// The cell stored under `key` is decided, and so is each of the first
/// `upto` of its neighbours `around` that is dead.
spec fn settled(
    born: Set<u32>,
    live: Set<Cell>,
    shape: BoardShape,
    key: u32,
    around: Seq<Cell>,
    upto: int,
) -> bool {
    &&& decided(born, live, shape, cell_of(key))
    &&& forall|m: int|
        0 <= m < upto && !live.contains(#[trigger] around[m]) ==> decided(born, live, shape, around[m])
}

/// Every dead position in the neighbourhood of the cell stored under `key`
/// is decided, and the cell itself too.
spec fn finished(born: Set<u32>, live: Set<Cell>, shape: BoardShape, key: u32) -> bool {
    &&& decided(born, live, shape, cell_of(key))
    &&& forall|d: Cell| #[trigger]
        neighborhood(cell_of(key), shape).contains(d) && !live.contains(d) ==> decided(
            born,
            live,
            shape,
            d,
        )
}

/// The key `key` is among `keys` at index `from` or later.
spec fn pending(keys: Seq<&u32>, from: int, key: u32) -> bool {
    exists|i: int| from <= i < keys.len() && *#[trigger] keys[i] == key
}

/// Once every live cell is finished, every cell is decided.
proof fn finished_cells_decide_all(
    born: Set<u32>,
    keys: Set<u32>,
    shape: BoardShape,
    cell: Cell,
)
    requires
        forall|k: u32| keys.contains(k) ==> finished(born, cells_of(keys), shape, k),
    ensures
        decided(born, cells_of(keys), shape, cell),
{
    let live = cells_of(keys);
    if alive_next(live, shape, cell) {
        if live.contains(cell) {
            key_round_trip(cell);
        } else {
            let other = some_neighbor_is_alive(live, shape, cell);
            neighborhood_is_symmetric(cell, other, shape);
            key_round_trip(other);
        }
    }
}

impl Game {
    /// A game without live cells on a board of the given shape, at generation 0.
    pub fn new(width: u16, height: u16) -> (game: Game)
        ensures
            game@ == (GameState {
                live: Set::empty(),
                shape: BoardShape { width, height },
                generation: 0,
            }),
    {
        let game = Game {
            cells: HashSet::new(),
            board_shape: BoardShape { width, height },
            generation: 0,
        };
        assert(game@.live =~= Set::empty());
        game
    }

    /// Marks every position of the board alive with a chance of `numerator`
    /// in `denominator`, each draw on its own. Cells that are alive stay so.
    ///
    /// Whatever is drawn, only positions of the board are added; a chance of
    /// zero adds none, and a chance of one adds them all.
    pub fn seed(&mut self, numerator: u32, denominator: u32)
        requires
            denominator > 0,
            numerator <= denominator,
        ensures
            final(self)@.shape == old(self)@.shape,
            final(self)@.generation == old(self)@.generation,
            old(self)@.live.subset_of(final(self)@.live),
            forall|c: Cell|
                final(self)@.live.contains(c) && !old(self)@.live.contains(c) ==> in_bounds(
                    c,
                    old(self)@.shape,
                ),
            numerator == 0 ==> final(self)@.live == old(self)@.live,
            numerator == denominator ==> forall|c: Cell|
                in_bounds(c, old(self)@.shape) ==> final(self)@.live.contains(c),
    {
        let width = self.board_shape.width;
        let height = self.board_shape.height;
        let ghost before = self@;
        for i in 0..width
            invariant
                width == before.shape.width,
                height == before.shape.height,
                denominator > 0,
                numerator <= denominator,
                self@.shape == before.shape,
                self@.generation == before.generation,
                before.live.subset_of(self@.live),
                forall|c: Cell|
                    self@.live.contains(c) && !before.live.contains(c) ==> in_bounds(c, before.shape),
                numerator == 0 ==> self@.live == before.live,
                numerator == denominator ==> forall|c: Cell|
                    in_bounds(c, before.shape) && c.0 < i ==> self@.live.contains(c),
        {
            for j in 0..height
                invariant
                    i < width,
                    width == before.shape.width,
                    height == before.shape.height,
                    denominator > 0,
                    numerator <= denominator,
                    self@.shape == before.shape,
                    self@.generation == before.generation,
                    before.live.subset_of(self@.live),
                    forall|c: Cell|
                        self@.live.contains(c) && !before.live.contains(c) ==> in_bounds(
                            c,
                            before.shape,
                        ),
                    numerator == 0 ==> self@.live == before.live,
                    numerator == denominator ==> forall|c: Cell|
                        in_bounds(c, before.shape) && precedes(c, (i, j)) ==> self@.live.contains(c),
            {
                let drawn = random_ratio(numerator, denominator);
                self.seed_cell((i, j), drawn);
            }
        }
    }

    /// Settles one position by a draw: `cell` becomes alive if `drawn`,
    /// and nothing changes if not.
    pub fn seed_cell(&mut self, cell: Cell, drawn: bool)
        ensures
            final(self)@.live == if drawn {
                old(self)@.live.insert(cell)
            } else {
                old(self)@.live
            },
            final(self)@.shape == old(self)@.shape,
            final(self)@.generation == old(self)@.generation,
    {
        broadcast use vstd::std_specs::hash::group_hash_axioms;

        if drawn {
            self.cells.insert(to_key(cell));
            proof {
                insert_stores_one_cell(old(self).cells@, cell);
            }
        }
    }

    /// Computes the next generation from the live cells and their
    /// neighbours, replaces the live cells by it and counts the generation.
    pub fn next(&mut self)
        requires
            can_advance(old(self)@),
        ensures
            final(self)@ == advance(old(self)@),
            final(self)@.generation == old(self)@.generation + 1,
    {
        broadcast use vstd::std_specs::hash::group_hash_axioms;

        let ghost live = self@.live;
        let ghost shape = self@.shape;
        let mut upcoming: HashSet<u32> = HashSet::new();
        for stored in iter: self.cells.iter()
            invariant
                live == self@.live,
                shape == self@.shape,
                iter.seq().unref().to_set() == self.cells@,
                sound(upcoming@, live, shape),
                forall|k: u32| #[trigger]
                    self.cells@.contains(k) ==> finished(upcoming@, live, shape, k)
                        || pending(iter.seq(), iter.index(), k),
        {
            let cell = to_cell(*stored);
            proof {
                cell_round_trip(*stored);
            }
            let neighbors = self.cell_neighbors(&cell);
            // Does the cell live on to the next generation?
            let alive_neighbors = self.count_alive(&neighbors);
            if alive_neighbors == 2 || alive_neighbors == 3 {
                upcoming.insert(*stored);
            }
            // Does any of its dead neighbours become alive?
            for j in 0..neighbors.len()
                invariant
                    live == self@.live,
                    shape == self@.shape,
                    cell == cell_of(*stored),
                    neighbors@.to_set() == neighborhood(cell, shape),
                    sound(upcoming@, live, shape),
                    settled(upcoming@, live, shape, *stored, neighbors@, j as int),
                    forall|k: u32| #[trigger]
                        self.cells@.contains(k) ==> finished(upcoming@, live, shape, k)
                            || pending(iter.seq(), iter.index(), k),
            {
                let neighbor = neighbors[j];
                proof {
                    key_round_trip(neighbor);
                    assert(neighbors@.to_set().contains(neighbor));
                }
                if !self.is_alive(neighbor) {
                    let around = self.cell_neighbors(&neighbor);
                    if self.count_alive(&around) == 3 {
                        upcoming.insert(to_key(neighbor));
                    }
                }
            }
            proof {
                assert forall|d: Cell| #[trigger]
                    neighborhood(cell, shape).contains(d) && !live.contains(d) implies decided(
                    upcoming@,
                    live,
                    shape,
                    d,
                ) by {
                    let m = choose|m: int| 0 <= m < neighbors@.len() && neighbors@[m] == d;
                    assert(!live.contains(neighbors@[m]));
                }
                assert forall|k: u32| #[trigger] self.cells@.contains(k) implies finished(
                    upcoming@,
                    live,
                    shape,
                    k,
                ) || pending(iter.seq(), iter.index() + 1, k) by {
                    if k != *stored && !finished(upcoming@, live, shape, k) {
                        let i = choose|i: int|
                            iter.index() <= i < iter.seq().len() && *#[trigger] iter.seq()[i] == k;
                        assert(iter.index() + 1 <= i);
                    }
                }
            }
        }
        proof {
            assert forall|c: Cell| cells_of(upcoming@).contains(c) == alive_next(live, shape, c) by {
                key_round_trip(c);
                finished_cells_decide_all(upcoming@, self.cells@, shape, c);
            }
            assert(cells_of(upcoming@) =~= next_generation(live, shape));
        }
        self.cells = upcoming;
        self.generation += 1;
    }

    /// The frame that shows the game as it stands: a glyph for every
    /// position of the board, and the status line below the board.
    pub fn frame(&self) -> (frame: Frame)
        requires
            self@.shape.height < u16::MAX,
        ensures
            shows(frame, self@),
    {
        let width = self.board_shape.width;
        let height = self.board_shape.height;
        let ghost live = self@.live;
        let mut glyphs: Vec<Glyph> = Vec::new();
        for column in 0..width
            invariant
                live == self@.live,
                height == self@.shape.height,
                glyphs@.len() == column * height,
                forall|i: int|
                    0 <= i < glyphs@.len() ==> glyphs@[i] == glyph_at(
                        live,
                        i / (height as int),
                        i % (height as int),
                    ),
        {
            for row in 0..height
                invariant
                    live == self@.live,
                    height == self@.shape.height,
                    glyphs@.len() == column * height + row,
                    forall|i: int|
                        0 <= i < glyphs@.len() ==> glyphs@[i] == glyph_at(
                            live,
                            i / (height as int),
                            i % (height as int),
                        ),
            {
                let symbol = if self.is_alive((column, row)) {
                    ALIVE_SYMBOL
                } else {
                    DEAD_SYMBOL
                };
                proof {
                    vstd::arithmetic::div_mod::lemma_fundamental_div_mod_converse(
                        column * height + row,
                        height as int,
                        column as int,
                        row as int,
                    );
                }
                glyphs.push(Glyph { column, row, symbol });
            }
            assert((column + 1) * height == column * height + height) by (nonlinear_arith);
        }
        let frame = Frame {
            glyphs,
            status_row: height + 1,
            status: status_line(self.generation, self.population()),
        };
        assert(frame.glyphs@ =~= board_glyphs(self@));
        frame
    }

    /// Replaces the board's shape. The live cells stay as they are, also
    /// those that now lie outside the board: they are not drawn, they count
    /// as no one's neighbour, and they stay or die by the rule like any other.
    pub fn resize_board(&mut self, width: u16, height: u16)
        ensures
            final(self)@ == resized(old(self)@, BoardShape { width, height }),
    {
        self.board_shape.width = width;
        self.board_shape.height = height;
    }

    /// The Moore neighbourhood of `cell` on this board, in ascending order:
    /// up to eight positions, none below zero and none at or beyond the
    /// board's bounds. It does not depend on which cells are alive.
    pub fn cell_neighbors(&self, cell: &Cell) -> (neighbors: Vec<Cell>)
        ensures
            neighbors@.to_set() == neighborhood(*cell, self@.shape),
            ascending(neighbors@),
            neighbors@.no_duplicates(),
            neighbors@.len() <= 8,
    {
        let width: u32 = self.board_shape.width as u32;
        let height: u32 = self.board_shape.height as u32;
        let x: u32 = cell.0 as u32;
        let y: u32 = cell.1 as u32;
        let x_low: u32 = if x > 0 { x - 1 } else { x };
        let y_low: u32 = if y > 0 { y - 1 } else { y };
        let ghost around = neighborhood(*cell, self@.shape);
        let mut neighbors: Vec<Cell> = Vec::new();
        let mut cx: u32 = x_low;
        while cx <= x + 1
            invariant
                around == neighborhood(*cell, self@.shape),
                width == self@.shape.width,
                height == self@.shape.height,
                x == cell.0,
                y == cell.1,
                x_low == if x > 0 { x - 1 } else { 0 },
                y_low == if y > 0 { y - 1 } else { 0 },
                x_low <= cx <= x + 2,
                gathered(neighbors@, around, cx as int, y_low as int),
            decreases x + 2 - cx,
        {
            let mut cy: u32 = y_low;
            while cy <= y + 1
                invariant
                    around == neighborhood(*cell, self@.shape),
                    width == self@.shape.width,
                    height == self@.shape.height,
                    x == cell.0,
                    y == cell.1,
                    x_low == if x > 0 { x - 1 } else { 0 },
                    y_low == if y > 0 { y - 1 } else { 0 },
                    x_low <= cx <= x + 1,
                    y_low <= cy <= y + 2,
                    gathered(neighbors@, around, cx as int, cy as int),
                decreases y + 2 - cy,
            {
                if cx < width && cy < height && (cx != x || cy != y) {
                    let found: Cell = (cx as u16, cy as u16);
                    let ghost before = neighbors@;
                    neighbors.push(found);
                    proof {
                        assert forall|c: Cell| #[trigger]
                            around.contains(c) && (c.0 < cx || (c.0 == cx && c.1 < cy + 1))
                                implies neighbors@.contains(c) by {
                            if c == found {
                                assert(neighbors@[before.len() as int] == c);
                            } else {
                                let k = choose|k: int| 0 <= k < before.len() && before[k] == c;
                                assert(neighbors@[k] == c);
                            }
                        }
                    }
                }
                cy += 1;
            }
            cx += 1;
        }
        proof {
            assert(neighbors@.to_set() =~= around);
            assert forall|i: int, j: int|
                0 <= i < neighbors@.len() && 0 <= j < neighbors@.len() && i != j implies neighbors@[i]
                != neighbors@[j] by {
                if i < j {
                    assert(precedes(neighbors@[i], neighbors@[j]));
                } else {
                    assert(precedes(neighbors@[j], neighbors@[i]));
                }
            }
            neighbors@.unique_seq_to_set();
            neighborhood_has_at_most_eight(*cell, self@.shape);
        }
        neighbors
    }

    /// How many of `cells` are alive.
    fn count_alive(&self, cells: &Vec<Cell>) -> (alive: usize)
        requires
            cells@.no_duplicates(),
        ensures
            alive == cells@.to_set().intersect(self@.live).len(),
            alive <= cells@.len(),
    {
        let ghost live = self@.live;
        let mut alive: usize = 0;
        proof {
            assert(cells@.take(0).to_set().intersect(live) =~= Set::empty());
        }
        for i in 0..cells.len()
            invariant
                live == self@.live,
                cells@.no_duplicates(),
                alive <= i,
                alive == cells@.take(i as int).to_set().intersect(live).len(),
        {
            let found = self.is_alive(cells[i]);
            proof {
                let seen = cells@.take(i as int);
                vstd::seq_lib::seq_to_set_is_finite(seen);
                assert(cells@.take(i + 1) =~= seen.push(cells@[i as int]));
                seen.lemma_push_to_set_commute(cells@[i as int]);
                assert(!seen.to_set().contains(cells@[i as int]));
                if found {
                    assert(cells@.take(i + 1).to_set().intersect(live) =~= seen.to_set().intersect(
                        live,
                    ).insert(cells@[i as int]));
                } else {
                    assert(cells@.take(i + 1).to_set().intersect(live) =~= seen.to_set().intersect(
                        live,
                    ));
                }
            }
            if found {
                alive += 1;
            }
        }
        proof {
            assert(cells@.take(cells@.len() as int) =~= cells@);
        }
        alive
    }

    /// Whether `cell` is alive.
    pub fn is_alive(&self, cell: Cell) -> (alive: bool)
        ensures
            alive == self@.live.contains(cell),
    {
        broadcast use vstd::std_specs::hash::group_hash_axioms;

        self.cells.contains(&to_key(cell))
    }

    /// The number of live cells.
    pub fn population(&self) -> (count: usize)
        ensures
            count == self@.live.len(),
            self@.live.finite(),
    {
        broadcast use vstd::std_specs::hash::group_hash_axioms;

        proof {
            stores_as_many_cells_as_keys(&self.cells);
        }
        self.cells.len()
    }

    /// The number of generations computed so far.
    pub fn generation(&self) -> (count: u32)
        ensures
            count == self@.generation,
    {
        self.generation
    }

    /// The board's shape.
    pub fn board_shape(&self) -> (shape: BoardShape)
        ensures
            shape == self@.shape,
    {
        self.board_shape
    }
}

} // verus!
