//! The global properties of the simulation, each proved from the grid model:
//! determinism of the transition, the neighbor-count bound, toroidal
//! wraparound, the shape of the rendering, and the stability of the classic
//! 2x2 block still life.

use vstd::prelude::*;

use crate::cell::{next_cell, Cell};
use crate::grid::{
    cell_at, glyph, grid_wf, lemma_index_bounds, lemma_wrap_dec, lemma_wrap_inc, lemma_wrap_same,
    neighbor_count, render_grid, render_row, render_rows, step, step_n,
};
use crate::universe::Universe;
use vstd::arithmetic::div_mod::{lemma_mod_self_0, lemma_small_mod};

verus! {

/// Determinism: two universes with the same dimensions and the same cells
/// have the same next generation. Together with the contract of `tick` —
/// whose result is exactly `step` of the previous state — this says that
/// ticking two separately built but identical universes yields identical
/// grids.
pub proof fn lemma_tick_deterministic(a: Universe, b: Universe)
    requires
        a.spec_width() == b.spec_width(),
        a.spec_height() == b.spec_height(),
        a.grid() == b.grid(),
    ensures
        step(a.grid(), a.spec_width(), a.spec_height()) == step(
            b.grid(),
            b.spec_width(),
            b.spec_height(),
        ),
{
}

/// Population bound: the live-neighbor count of any cell lies between 0 and
/// 8 — each of the eight neighbor positions contributes a weight of at most
/// one.
pub proof fn lemma_neighbor_count_bound(g: Seq<Cell>, width: int, height: int, row: int, col: int)
    requires
        grid_wf(g, width, height),
        0 <= row < height,
        0 <= col < width,
    ensures
        0 <= neighbor_count(g, width, height, row, col) <= 8,
{
}

/// Toroidal wrap: a live cell at `(0, 0)` is counted as a neighbor of the
/// opposite corner `(height - 1, width - 1)`, of the bottom-left cell
/// `(height - 1, 0)`, and of the top-right cell `(0, width - 1)` — the
/// corner, row-edge and column-edge wrap directions.
pub proof fn lemma_toroidal_wrap(g: Seq<Cell>, width: int, height: int)
    requires
        grid_wf(g, width, height),
        cell_at(g, width, 0, 0) is Alive,
    ensures
        neighbor_count(g, width, height, height - 1, width - 1) >= 1,
        neighbor_count(g, width, height, height - 1, 0) >= 1,
        neighbor_count(g, width, height, 0, width - 1) >= 1,
{
    lemma_mod_self_0(height);
    lemma_mod_self_0(width);
    lemma_small_mod(0nat, height as nat);
    lemma_small_mod(0nat, width as nat);
}

/// Line `row` of a rendering: the slice of the output holding that row's
/// glyphs and its terminating newline.
pub open spec fn render_line(g: Seq<Cell>, width: int, height: int, row: int) -> Seq<char> {
    render_grid(g, width, height).subrange(row * (width + 1), (row + 1) * (width + 1))
}

proof fn lemma_render_rows_len(g: Seq<Cell>, width: int, nrows: int)
    requires
        1 <= width,
        0 <= nrows,
    ensures
        render_rows(g, width, nrows).len() == nrows * (width + 1),
    decreases nrows,
{
    if nrows > 0 {
        lemma_render_rows_len(g, width, nrows - 1);
        assert(nrows * (width + 1) == (nrows - 1) * (width + 1) + (width + 1)) by (nonlinear_arith);
    }
}

proof fn lemma_render_rows_index(g: Seq<Cell>, width: int, nrows: int, row: int, col: int)
    requires
        1 <= width,
        0 <= row < nrows,
        0 <= col <= width,
    ensures
        render_rows(g, width, nrows).len() == nrows * (width + 1),
        render_rows(g, width, nrows)[row * (width + 1) + col] == (if col == width {
            '\n'
        } else {
            glyph(cell_at(g, width, row, col))
        }),
    decreases nrows,
{
    lemma_render_rows_len(g, width, nrows);
    if row == nrows - 1 {
        lemma_render_rows_len(g, width, nrows - 1);
    } else {
        lemma_render_rows_index(g, width, nrows - 1, row, col);
        assert(row * (width + 1) + col < (nrows - 1) * (width + 1)) by (nonlinear_arith)
            requires
                0 <= row < nrows - 1,
                0 <= col <= width,
                1 <= width,
        ;
    }
}

/// Render shape: the rendering of a well-formed grid has exactly `height`
/// lines of exactly `width` glyphs each — its length is
/// `height * (width + 1)`, and every line is that row's glyphs followed by
/// one newline (and a glyph is never a newline).
pub proof fn lemma_render_shape(g: Seq<Cell>, width: int, height: int)
    requires
        grid_wf(g, width, height),
    ensures
        render_grid(g, width, height).len() == height * (width + 1),
        forall|row: int|
            0 <= row < height ==> #[trigger] render_line(g, width, height, row) == render_row(
                g,
                width,
                row,
            ),
        forall|c: Cell| glyph(c) != '\n',
{
    lemma_render_rows_len(g, width, height);
    assert forall|row: int| 0 <= row < height implies #[trigger] render_line(g, width, height, row)
        == render_row(g, width, row) by {
        assert((row + 1) * (width + 1) <= height * (width + 1)) by (nonlinear_arith)
            requires
                0 <= row < height,
                1 <= width,
        ;
        assert(0 <= row * (width + 1)) by (nonlinear_arith)
            requires
                0 <= row,
                1 <= width,
        ;
        assert((row + 1) * (width + 1) == row * (width + 1) + (width + 1)) by (nonlinear_arith);
        assert forall|col: int| 0 <= col <= width implies render_rows(g, width, height)[row * (width
            + 1) + col] == (if col == width {
            '\n'
        } else {
            glyph(cell_at(g, width, row, col))
        }) by {
            lemma_render_rows_index(g, width, height, row, col);
        }
        assert(render_line(g, width, height, row) =~= render_row(g, width, row));
    }
}

/// `(row, col)` is one of the four cells of the 2x2 block anchored at
/// `(r0, c0)`.
pub open spec fn block_at(r0: int, c0: int, row: int, col: int) -> bool {
    (row == r0 || row == r0 + 1) && (col == c0 || col == c0 + 1)
}

/// The grid holds a single 2x2 block of live cells anchored at `(r0, c0)`,
/// lying entirely inside an otherwise dead grid of at least 3x3 cells.
pub open spec fn is_block_grid(g: Seq<Cell>, width: int, height: int, r0: int, c0: int) -> bool {
    &&& grid_wf(g, width, height)
    &&& 3 <= width
    &&& 3 <= height
    &&& 0 <= r0 && r0 + 1 < height
    &&& 0 <= c0 && c0 + 1 < width
    &&& forall|row: int, col: int|
        0 <= row < height && 0 <= col < width ==> #[trigger] cell_at(g, width, row, col) == (
        if block_at(r0, c0, row, col) {
            Cell::Alive
        } else {
            Cell::Dead
        })
}

proof fn lemma_block_cell(g: Seq<Cell>, width: int, height: int, r0: int, c0: int, row: int, col: int)
    requires
        is_block_grid(g, width, height, r0, c0),
        0 <= row < height,
        0 <= col < width,
    ensures
        next_cell(cell_at(g, width, row, col), neighbor_count(g, width, height, row, col))
            == cell_at(g, width, row, col),
{
    let rm = (row + height - 1) % height;
    let rp = (row + 1) % height;
    let cm = (col + width - 1) % width;
    let cp = (col + 1) % width;
    lemma_wrap_dec(row, height);
    lemma_wrap_inc(row, height);
    lemma_wrap_same(row, height);
    lemma_wrap_dec(col, width);
    lemma_wrap_inc(col, width);
    lemma_wrap_same(col, width);
    assert(cell_at(g, width, rm, cm) == (if block_at(r0, c0, rm, cm) {
        Cell::Alive
    } else {
        Cell::Dead
    }));
    assert(cell_at(g, width, rm, col) == (if block_at(r0, c0, rm, col) {
        Cell::Alive
    } else {
        Cell::Dead
    }));
    assert(cell_at(g, width, rm, cp) == (if block_at(r0, c0, rm, cp) {
        Cell::Alive
    } else {
        Cell::Dead
    }));
    assert(cell_at(g, width, row, cm) == (if block_at(r0, c0, row, cm) {
        Cell::Alive
    } else {
        Cell::Dead
    }));
    assert(cell_at(g, width, row, cp) == (if block_at(r0, c0, row, cp) {
        Cell::Alive
    } else {
        Cell::Dead
    }));
    assert(cell_at(g, width, rp, cm) == (if block_at(r0, c0, rp, cm) {
        Cell::Alive
    } else {
        Cell::Dead
    }));
    assert(cell_at(g, width, rp, col) == (if block_at(r0, c0, rp, col) {
        Cell::Alive
    } else {
        Cell::Dead
    }));
    assert(cell_at(g, width, rp, cp) == (if block_at(r0, c0, rp, cp) {
        Cell::Alive
    } else {
        Cell::Dead
    }));
    assert(cell_at(g, width, row, col) == (if block_at(r0, c0, row, col) {
        Cell::Alive
    } else {
        Cell::Dead
    }));
}

/// One generation leaves a lone 2x2 block exactly as it is: every block
/// cell keeps three live neighbors, and no dead cell ever sees exactly
/// three.
pub proof fn lemma_block_step(g: Seq<Cell>, width: int, height: int, r0: int, c0: int)
    requires
        is_block_grid(g, width, height, r0, c0),
    ensures
        step(g, width, height) == g,
{
    assert forall|i: int| 0 <= i < g.len() implies step(g, width, height)[i] == g[i] by {
        lemma_index_bounds(width, height, i);
        let row = i / width;
        let col = i % width;
        assert(row * width == width * row) by (nonlinear_arith);
        lemma_block_cell(g, width, height, r0, c0, row, col);
    }
    assert(step(g, width, height) =~= g);
}

/// Still-life stability: a lone 2x2 block of live cells is unchanged after
/// any number of generations.
pub proof fn lemma_block_still_life(
    g: Seq<Cell>,
    width: int,
    height: int,
    r0: int,
    c0: int,
    n: nat,
)
    requires
        is_block_grid(g, width, height, r0, c0),
    ensures
        step_n(g, width, height, n) == g,
    decreases n,
{
    if n > 0 {
        lemma_block_still_life(g, width, height, r0, c0, (n - 1) as nat);
        lemma_block_step(g, width, height, r0, c0);
    }
}

} // verus!
