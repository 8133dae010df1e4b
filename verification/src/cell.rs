use vstd::prelude::*;

verus! {

/// The state of one grid square. A cell has no identity beyond its value:
/// it is copied, never referenced.
#[derive(Clone, Copy, Debug, PartialEq, Eq, Structural)]
pub enum Cell {
    Dead,
    Alive,
}

/// Numeric weight of a cell when summing live neighbors: one for a live
/// cell, zero for a dead one.
pub open spec fn cell_count(c: Cell) -> int {
    if c is Alive {
        1
    } else {
        0
    }
}

/// The transition rule for a single cell, given how many of its eight
/// neighbors are alive:
/// - a live cell with fewer than two live neighbors dies (underpopulation);
/// - a live cell with two or three live neighbors stays alive (stasis);
/// - a live cell with more than three live neighbors dies (overpopulation);
/// - a dead cell with exactly three live neighbors becomes alive (reproduction);
/// - any other dead cell stays dead.
pub open spec fn next_cell(c: Cell, live_neighbors: int) -> Cell {
    match c {
        Cell::Alive => if live_neighbors < 2 {
            Cell::Dead
        } else if live_neighbors == 2 || live_neighbors == 3 {
            Cell::Alive
        } else {
            Cell::Dead
        },
        Cell::Dead => if live_neighbors == 3 {
            Cell::Alive
        } else {
            Cell::Dead
        },
    }
}

} // verus!
