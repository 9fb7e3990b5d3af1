//! The transition rule: which cells are alive one generation later.

use crate::board::{in_bounds, neighborhood, neighborhood_has_at_most_eight, BoardShape, Cell};
use vstd::prelude::*;

verus! {

/// The abstract state of a game: the live cells, the board's shape and the
/// number of generations computed so far.
pub struct GameState {
    pub live: Set<Cell>,
    pub shape: BoardShape,
    pub generation: nat,
}

/// The number of live cells in the neighbourhood of `cell`.
pub open spec fn live_neighbors(live: Set<Cell>, shape: BoardShape, cell: Cell) -> nat {
    neighborhood(cell, shape).intersect(live).len()
}

/// Whether `cell` is alive in the generation after `live`: a live cell stays
/// with two or three live neighbours, a dead cell of the board comes alive
/// with exactly three.
pub open spec fn alive_next(live: Set<Cell>, shape: BoardShape, cell: Cell) -> bool {
    let n = live_neighbors(live, shape, cell);
    if live.contains(cell) {
        n == 2 || n == 3
    } else {
        in_bounds(cell, shape) && n == 3
    }
}

/// The live cells of the generation after `live`.
pub open spec fn next_generation(live: Set<Cell>, shape: BoardShape) -> Set<Cell> {
    Set::new(|c: Cell| alive_next(live, shape, c))
}

/// The state one generation later.
pub open spec fn advance(state: GameState) -> GameState {
    GameState {
        live: next_generation(state.live, state.shape),
        shape: state.shape,
        generation: state.generation + 1,
    }
}

/// The state on a board of another shape: the live cells stay as they are,
/// also those that the new board no longer holds.
pub open spec fn resized(state: GameState, shape: BoardShape) -> GameState {
    GameState { live: state.live, shape, generation: state.generation }
}

/// The next generation can be computed: its count fits the counter.
pub open spec fn can_advance(state: GameState) -> bool {
    state.generation < u32::MAX
}

/// Every live cell lies on the board.
pub open spec fn on_board(state: GameState) -> bool {
    forall|c: Cell| state.live.contains(c) ==> in_bounds(c, state.shape)
}

/// A live cell stays alive through one generation if two or three of its
/// neighbours are alive, and dies with fewer or more.
pub proof fn live_cell_survives_with_two_or_three(state: GameState, cell: Cell)
    requires
        state.live.contains(cell),
    ensures
        advance(state).live.contains(cell) <==> (live_neighbors(state.live, state.shape, cell) == 2
            || live_neighbors(state.live, state.shape, cell) == 3),
{
}

/// A dead cell of the board comes alive in one generation if exactly three
/// of its neighbours are alive, and stays dead otherwise.
pub proof fn dead_cell_is_born_with_three(state: GameState, cell: Cell)
    requires
        !state.live.contains(cell),
        in_bounds(cell, state.shape),
    ensures
        advance(state).live.contains(cell) <==> live_neighbors(state.live, state.shape, cell) == 3,
{
}

/// A dead position outside the board stays dead, whatever lives next to it.
pub proof fn nothing_is_born_off_the_board(state: GameState, cell: Cell)
    requires
        !state.live.contains(cell),
        !in_bounds(cell, state.shape),
    ensures
        !advance(state).live.contains(cell),
{
}

/// No position has more than eight live neighbours.
pub proof fn at_most_eight_live_neighbors(live: Set<Cell>, shape: BoardShape, cell: Cell)
    ensures
        live_neighbors(live, shape, cell) <= 8,
{
    neighborhood_has_at_most_eight(cell, shape);
    vstd::set_lib::lemma_len_intersect(neighborhood(cell, shape), live);
}

/// A position with a live neighbour count above zero has a live neighbour.
pub proof fn some_neighbor_is_alive(live: Set<Cell>, shape: BoardShape, cell: Cell) -> (other: Cell)
    requires
        live_neighbors(live, shape, cell) > 0,
    ensures
        live.contains(other),
        neighborhood(cell, shape).contains(other),
{
    let around = neighborhood(cell, shape).intersect(live);
    if forall|c: Cell| !around.contains(c) {
        assert(around =~= Set::empty());
    }
    choose|c: Cell| around.contains(c)
}

/// Only a cell that is alive, or that has a live cell of the board next to
/// it, can be alive one generation later: nothing else needs a look.
pub proof fn change_needs_a_live_neighbor(state: GameState, cell: Cell)
    requires
        advance(state).live.contains(cell),
    ensures
        state.live.contains(cell) || exists|other: Cell|
            state.live.contains(other) && #[trigger] neighborhood(cell, state.shape).contains(other),
{
    if !state.live.contains(cell) {
        let other = some_neighbor_is_alive(state.live, state.shape, cell);
    }
}

/// While every live cell lies on the board, a generation keeps it so.
pub proof fn advance_stays_on_board(state: GameState)
    requires
        on_board(state),
    ensures
        on_board(advance(state)),
{
}

/// Each generation counts as one, whatever the population.
pub proof fn advance_counts_one_generation(state: GameState)
    ensures
        advance(state).generation == state.generation + 1,
        advance(state).shape == state.shape,
{
}

/// A resize never stands in the way of the next generation, also where
/// live cells now lie outside the board: such cells are kept by the resize,
/// and the generation after it holds none outside the board but those.
pub proof fn resize_keeps_advance(state: GameState, shape: BoardShape)
    requires
        can_advance(state),
    ensures
        can_advance(resized(state, shape)),
        resized(state, shape).live == state.live,
        forall|c: Cell|
            advance(resized(state, shape)).live.contains(c) && !in_bounds(c, shape)
                ==> state.live.contains(c),
{
}

/// A board without live cells has none one generation later either: its
/// population stays 0, and the generation is counted.
pub proof fn empty_board_stays_empty(state: GameState)
    requires
        state.live == Set::<Cell>::empty(),
    ensures
        advance(state).live == Set::<Cell>::empty(),
        advance(state).live.len() == 0,
        advance(state).shape == state.shape,
        advance(state).generation == state.generation + 1,
{
    assert forall|c: Cell| !alive_next(state.live, state.shape, c) by {
        assert(neighborhood(c, state.shape).intersect(state.live) =~= Set::empty());
    }
}

} // verus!
