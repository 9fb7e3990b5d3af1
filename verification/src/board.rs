//! Coordinates, the board's shape and the Moore neighbourhood.

use vstd::prelude::*;

verus! {

/// A position on the board: `.0` is bounded by the width, `.1` by the height.
pub type Cell = (u16, u16);

/// The extent of the board: the valid positions are `[0, width) x [0, height)`.
#[derive(Debug, Clone, Copy, PartialEq, Eq, Structural)]
pub struct BoardShape {
    pub width: u16,
    pub height: u16,
}

/// The position lies inside the board's rectangle.
pub open spec fn in_bounds(cell: Cell, shape: BoardShape) -> bool {
    cell.0 < shape.width && cell.1 < shape.height
}

/// Two distinct positions that differ by at most one in each axis.
pub open spec fn adjacent(a: Cell, b: Cell) -> bool {
    &&& a != b
    &&& -1 <= a.0 - b.0 <= 1
    &&& -1 <= a.1 - b.1 <= 1
}

/// The Moore neighbourhood of `cell`, clipped to the board: no position wraps
/// around an edge.
pub open spec fn neighborhood(cell: Cell, shape: BoardShape) -> Set<Cell> {
    Set::new(|c: Cell| adjacent(c, cell) && in_bounds(c, shape))
}

/// Strict lexicographic order on positions.
pub open spec fn precedes(a: Cell, b: Cell) -> bool {
    a.0 < b.0 || (a.0 == b.0 && a.1 < b.1)
}

/// The positions of `cells` come in strictly increasing lexicographic order.
pub open spec fn ascending(cells: Seq<Cell>) -> bool {
    forall|i: int, j: int| 0 <= i < j < cells.len() ==> precedes(cells[i], cells[j])
}

/// Being a neighbour is mutual among positions of the board.
pub proof fn neighborhood_is_symmetric(a: Cell, b: Cell, shape: BoardShape)
    requires
        in_bounds(a, shape),
        neighborhood(a, shape).contains(b),
    ensures
        neighborhood(b, shape).contains(a),
{
}

/// The position `dx` to the right of `cell` and `dy` below it.
spec fn shifted(cell: Cell, dx: int, dy: int) -> Cell {
    ((cell.0 + dx) as u16, (cell.1 + dy) as u16)
}

/// The eight positions around `cell`, wherever the board ends.
spec fn surroundings(cell: Cell) -> Seq<Cell> {
    seq![
        shifted(cell, -1, -1),
        shifted(cell, -1, 0),
        shifted(cell, -1, 1),
        shifted(cell, 0, -1),
        shifted(cell, 0, 1),
        shifted(cell, 1, -1),
        shifted(cell, 1, 0),
        shifted(cell, 1, 1),
    ]
}

/// A position has at most eight neighbours, whatever the board.
pub proof fn neighborhood_has_at_most_eight(cell: Cell, shape: BoardShape)
    ensures
        neighborhood(cell, shape).finite(),
        neighborhood(cell, shape).len() <= 8,
{
    let around = surroundings(cell);
    assert forall|c: Cell| neighborhood(cell, shape).contains(c) implies around.to_set().contains(
        c,
    ) by {
        let dx = c.0 - cell.0;
        let dy = c.1 - cell.1;
        let i = if dx < 0 {
            1 + dy
        } else if dx > 0 {
            6 + dy
        } else if dy < 0 {
            3
        } else {
            4
        };
        assert(around[i] == c);
    }
    vstd::seq_lib::seq_to_set_is_finite(around);
    around.lemma_cardinality_of_set();
    vstd::set_lib::lemma_len_subset(neighborhood(cell, shape), around.to_set());
}

/// On a board of at least two by two, the corner at the origin has exactly
/// the three neighbours (0, 1), (1, 0) and (1, 1).
pub proof fn origin_has_three_neighbors(shape: BoardShape)
    requires
        shape.width >= 2,
        shape.height >= 2,
    ensures
        neighborhood((0u16, 0u16), shape) == set![(0u16, 1u16), (1u16, 0u16), (1u16, 1u16)],
{
}

} // verus!
