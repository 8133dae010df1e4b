use vstd::prelude::*;

use crate::cell::Cell;
use crate::grid::{
    cell_at, glyph, grid_wf, lemma_index_decompose, neighbor_count, render_grid, render_row,
    render_rows, seed_cell, step, wrap_contrib,
};
use vstd::arithmetic::div_mod::lemma_mod_bound;

verus! {

/// A fixed-size toroidal Game of Life universe: grid dimensions fixed at
/// construction, and a row-major buffer of exactly `width * height` cells.
/// The cell at `(row, column)` lives at linear index `row * width + column`.
pub struct Universe {
    width: u32,
    height: u32,
    cells: Vec<Cell>,
}

impl Universe {
    /// Well-formedness: positive dimensions, a cell count that fits the
    /// 32-bit index arithmetic, and a buffer of exactly `width * height`
    /// cells. Established by every constructor and preserved by `tick`.
    pub closed spec fn wf(self) -> bool {
        &&& 1 <= self.width
        &&& 1 <= self.height
        &&& self.width * self.height <= u32::MAX
        &&& self.cells@.len() == self.width * self.height
    }

    /// The grid width, as seen by contracts.
    pub closed spec fn spec_width(self) -> int {
        self.width as int
    }

    /// The grid height, as seen by contracts.
    pub closed spec fn spec_height(self) -> int {
        self.height as int
    }

    /// The cell buffer, as seen by contracts: a row-major sequence of cells.
    pub closed spec fn grid(self) -> Seq<Cell> {
        self.cells@
    }

    /// A well-formed universe has a well-formed grid.
    pub proof fn lemma_wf_grid(self)
        requires
            self.wf(),
        ensures
            grid_wf(self.grid(), self.spec_width(), self.spec_height()),
            self.spec_width() * self.spec_height() <= u32::MAX,
    {
    }

    /// Grid width in cells.
    pub fn width(&self) -> (w: u32)
        ensures
            w == self.spec_width(),
    {
        self.width
    }

    /// Grid height in cells.
    pub fn height(&self) -> (h: u32)
        ensures
            h == self.spec_height(),
    {
        self.height
    }

    /// Build a universe from explicit dimensions and a row-major cell buffer.
    pub fn from_cells(width: u32, height: u32, cells: Vec<Cell>) -> (u: Universe)
        requires
            1 <= width,
            1 <= height,
            width * height <= u32::MAX,
            cells@.len() == width * height,
        ensures
            u.wf(),
            u.spec_width() == width,
            u.spec_height() == height,
            u.grid() == cells@,
    {
        Universe { width, height, cells }
    }

    /// Row-major index of `(row, column)`. Internal: callers guarantee the
    /// coordinates are in range.
    fn get_index(&self, row: u32, column: u32) -> (idx: usize)
        requires
            self.wf(),
            row < self.spec_height(),
            column < self.spec_width(),
        ensures
            idx == row * self.spec_width() + column,
            idx < self.grid().len(),
    {
        proof {
            assert((row as int) * (self.width as int) + (column as int) < (self.width as int) * (
            self.height as int)) by (nonlinear_arith)
                requires
                    (row as int) < (self.height as int),
                    (column as int) < (self.width as int),
                    0 <= row as int,
                    0 <= column as int,
                    1 <= self.width as int,
            ;
        }
        (row * self.width + column) as usize
    }

    /// Weight (0 or 1) of the single neighbor reached from `(row, column)`
    /// by the given offsets, both coordinates wrapped by modulo arithmetic.
    fn neighbor_contrib(&self, row: u32, column: u32, delta_row: u32, delta_col: u32) -> (n: u8)
        requires
            self.wf(),
            row < self.spec_height(),
            column < self.spec_width(),
            delta_row <= self.spec_height(),
            delta_col <= self.spec_width(),
        ensures
            n == wrap_contrib(
                self.grid(),
                self.spec_width(),
                self.spec_height(),
                row as int,
                column as int,
                delta_row as int,
                delta_col as int,
            ),
            n <= 1,
    {
        proof {
            lemma_mod_bound(row as int + delta_row as int, self.spec_height());
            lemma_mod_bound(column as int + delta_col as int, self.spec_width());
        }
        let neighbor_row = (((row as u64) + (delta_row as u64)) % (self.height as u64)) as u32;
        let neighbor_col = (((column as u64) + (delta_col as u64)) % (self.width as u64)) as u32;
        let idx = self.get_index(neighbor_row, neighbor_col);
        if self.cells[idx] == Cell::Alive {
            1
        } else {
            0
        }
    }

    /// Number of live cells among the 8 toroidal (Moore) neighbors of
    /// `(row, column)`: the 3x3 neighborhood around the cell, wrapped at the
    /// edges, with the cell itself skipped.
    pub fn live_neighbor_count(&self, row: u32, column: u32) -> (count: u8)
        requires
            self.wf(),
            row < self.spec_height(),
            column < self.spec_width(),
        ensures
            count == neighbor_count(
                self.grid(),
                self.spec_width(),
                self.spec_height(),
                row as int,
                column as int,
            ),
            count <= 8,
    {
        let row_up = self.height - 1;
        let col_left = self.width - 1;
        let mut count: u8 = 0;
        count += self.neighbor_contrib(row, column, row_up, col_left);
        count += self.neighbor_contrib(row, column, row_up, 0);
        count += self.neighbor_contrib(row, column, row_up, 1);
        count += self.neighbor_contrib(row, column, 0, col_left);
        count += self.neighbor_contrib(row, column, 0, 1);
        count += self.neighbor_contrib(row, column, 1, col_left);
        count += self.neighbor_contrib(row, column, 1, 0);
        count += self.neighbor_contrib(row, column, 1, 1);
        count
    }

    /// Advance the universe by exactly one generation, in place. Every cell
    /// of the new grid is the transition rule applied to the old cell and
    /// its old neighbor count: the whole previous generation is read before
    /// any cell is replaced, and the buffer is swapped wholesale.
    #[verifier::loop_isolation(false)]
    pub fn tick(&mut self)
        requires
            old(self).wf(),
        ensures
            final(self).wf(),
            final(self).spec_width() == old(self).spec_width(),
            final(self).spec_height() == old(self).spec_height(),
            final(self).grid() == step(
                old(self).grid(),
                old(self).spec_width(),
                old(self).spec_height(),
            ),
    {
        let ghost g0 = self.cells@;
        let ghost w = self.width as int;
        let ghost h = self.height as int;
        let mut next: Vec<Cell> = Vec::new();
        let mut row: u32 = 0;
        while row < self.height
            invariant
                row <= self.height,
                next@.len() == row * w,
                forall|i: int| 0 <= i < next@.len() ==> next@[i] == step(g0, w, h)[i],
            decreases self.height - row,
        {
            let mut column: u32 = 0;
            while column < self.width
                invariant
                    column <= self.width,
                    next@.len() == row * w + column,
                    forall|i: int| 0 <= i < next@.len() ==> next@[i] == step(g0, w, h)[i],
                decreases self.width - column,
            {
                let idx = self.get_index(row, column);
                let cell = self.cells[idx];
                let live_neighbors = self.live_neighbor_count(row, column);
                let next_state = if cell == Cell::Alive {
                    if live_neighbors < 2 {
                        Cell::Dead
                    } else if live_neighbors == 2 || live_neighbors == 3 {
                        Cell::Alive
                    } else {
                        Cell::Dead
                    }
                } else {
                    if live_neighbors == 3 {
                        Cell::Alive
                    } else {
                        Cell::Dead
                    }
                };
                proof {
                    lemma_index_decompose(w, row as int, column as int);
                }
                next.push(next_state);
                column = column + 1;
            }
            proof {
                assert((row + 1) * w == row * w + w) by (nonlinear_arith);
            }
            row = row + 1;
        }
        proof {
            assert(h * w == w * h) by (nonlinear_arith);
            assert(next@ =~= step(g0, w, h));
        }
        self.cells = next;
    }

    /// A fresh 64 x 32 universe with the fixed, reproducible initial
    /// pattern: the cell at linear index `i` starts alive exactly when `i`
    /// is divisible by 2 or by 7.
    #[verifier::loop_isolation(false)]
    pub fn new() -> (u: Universe)
        ensures
            u.wf(),
            u.spec_width() == 64,
            u.spec_height() == 32,
            u.grid().len() == 64 * 32,
            forall|i: int| 0 <= i < u.grid().len() ==> u.grid()[i] == seed_cell(i),
    {
        let width: u32 = 64;
        let height: u32 = 32;
        let size: u32 = width * height;
        let mut cells: Vec<Cell> = Vec::new();
        let mut i: u32 = 0;
        while i < size
            invariant
                i <= size,
                cells@.len() == i,
                forall|j: int| 0 <= j < i ==> cells@[j] == seed_cell(j),
            decreases size - i,
        {
            if i % 2 == 0 || i % 7 == 0 {
                cells.push(Cell::Alive);
            } else {
                cells.push(Cell::Dead);
            }
            i = i + 1;
        }
        Universe { width, height, cells }
    }

    /// Render the current generation as text: `height` lines of `width`
    /// glyphs each, a hollow square for a dead cell and a filled square for
    /// a live one, every line terminated by a newline. A pure read: the
    /// generation does not advance.
    #[verifier::loop_isolation(false)]
    pub fn render(&self) -> (out: String)
        requires
            self.wf(),
        ensures
            out@ == render_grid(self.grid(), self.spec_width(), self.spec_height()),
    {
        let ghost g = self.cells@;
        let ghost w = self.width as int;
        let mut out = String::new();
        let mut row: u32 = 0;
        while row < self.height
            invariant
                row <= self.height,
                out@ == render_rows(g, w, row as int),
            decreases self.height - row,
        {
            let mut column: u32 = 0;
            while column < self.width
                invariant
                    column <= self.width,
                    out@ == render_rows(g, w, row as int) + Seq::new(
                        column as nat,
                        |c: int| glyph(cell_at(g, w, row as int, c)),
                    ),
                decreases self.width - column,
            {
                let idx = self.get_index(row, column);
                if self.cells[idx] == Cell::Alive {
                    out.append("◼");
                } else {
                    out.append("◻");
                }
                proof {
                    reveal_strlit("◼");
                    reveal_strlit("◻");
                    assert(("◼")@ =~= seq!['◼']);
                    assert(("◻")@ =~= seq!['◻']);
                    assert(out@ =~= render_rows(g, w, row as int) + Seq::new(
                        (column + 1) as nat,
                        |c: int| glyph(cell_at(g, w, row as int, c)),
                    ));
                }
                column = column + 1;
            }
            out.append("\n");
            proof {
                reveal_strlit("\n");
                assert(("\n")@ =~= seq!['\n']);
                assert(out@ =~= render_rows(g, w, row as int) + render_row(g, w, row as int));
            }
            row = row + 1;
        }
        out
    }

    /// The current state of the cell at `(row, column)`.
    pub fn get_cell(&self, row: u32, column: u32) -> (c: Cell)
        requires
            self.wf(),
            row < self.spec_height(),
            column < self.spec_width(),
        ensures
            c == cell_at(self.grid(), self.spec_width(), row as int, column as int),
    {
        let idx = self.get_index(row, column);
        self.cells[idx]
    }
}

} // verus!
