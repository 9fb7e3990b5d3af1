//! How the live cells are stored: each cell under one integer key.

use crate::board::Cell;
use std::collections::HashSet;
use vstd::prelude::*;

verus! {

/// The key under which a cell is stored: its two coordinates side by side.
pub closed spec fn key_of(cell: Cell) -> u32 {
    (cell.0 * 65536 + cell.1) as u32
}

/// The cell that is stored under `key`.
pub closed spec fn cell_of(key: u32) -> Cell {
    ((key / 65536) as u16, (key % 65536) as u16)
}

/// The cells stored under `keys`.
pub open spec fn cells_of(keys: Set<u32>) -> Set<Cell> {
    Set::new(|c: Cell| keys.contains(key_of(c)))
}

/// Every cell is found again under its key.
pub proof fn key_round_trip(cell: Cell)
    ensures
        cell_of(key_of(cell)) == cell,
{
}

/// Every key is the key of its cell.
pub proof fn cell_round_trip(key: u32)
    ensures
        key_of(cell_of(key)) == key,
{
}

/// Storing a key stores its cell, and no other.
pub proof fn insert_stores_one_cell(keys: Set<u32>, cell: Cell)
    ensures
        cells_of(keys.insert(key_of(cell))) == cells_of(keys).insert(cell),
{
    assert forall|c: Cell|
        cells_of(keys.insert(key_of(cell))).contains(c) == cells_of(keys).insert(cell).contains(
            c,
        ) by {
        key_round_trip(c);
        key_round_trip(cell);
    }
}

/// As many cells are stored as there are keys.
pub proof fn stores_as_many_cells_as_keys(keys: &HashSet<u32>)
    ensures
        cells_of(keys@).finite(),
        cells_of(keys@).len() == keys@.len(),
{
    broadcast use vstd::seq_lib::seq_to_set_is_finite;

    vstd::std_specs::hash::axiom_spec_hash_keys_iter(keys);
    let unpack = |k: u32| cell_of(k);
    assert(keys@.map(unpack) =~= cells_of(keys@)) by {
        assert forall|c: Cell| cells_of(keys@).contains(c) implies keys@.map(unpack).contains(c) by {
            key_round_trip(c);
        }
        assert forall|c: Cell| keys@.map(unpack).contains(c) implies cells_of(keys@).contains(c) by {
            let k = choose|k: u32| keys@.contains(k) && c == unpack(k);
            cell_round_trip(k);
        }
    }
    assert(vstd::relations::injective_on(unpack, keys@)) by {
        assert forall|k1: u32, k2: u32|
            keys@.contains(k1) && keys@.contains(k2) && #[trigger] unpack(k1) == #[trigger] unpack(
                k2,
            ) implies k1 == k2 by {
            cell_round_trip(k1);
            cell_round_trip(k2);
        }
    }
    vstd::set_lib::lemma_map_size(keys@, cells_of(keys@), unpack);
}

/// Computes the key of a cell.
pub fn to_key(cell: Cell) -> (key: u32)
    ensures
        key == key_of(cell),
{
    (cell.0 as u32) * 65536 + (cell.1 as u32)
}

/// Computes the cell of a key.
pub fn to_cell(key: u32) -> (cell: Cell)
    ensures
        cell == cell_of(key),
{
    ((key / 65536) as u16, (key % 65536) as u16)
}

} // verus!
