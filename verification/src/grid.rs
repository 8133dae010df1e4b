use vstd::prelude::*;

use crate::cell::{cell_count, next_cell, Cell};
use vstd::arithmetic::div_mod::{
    lemma_fundamental_div_mod, lemma_fundamental_div_mod_converse, lemma_mod_bound,
    lemma_mod_multiples_vanish, lemma_mod_self_0, lemma_small_mod,
};

verus! {

/// A well-formed grid: positive dimensions, and a row-major buffer of
/// exactly `width * height` cells.
pub open spec fn grid_wf(g: Seq<Cell>, width: int, height: int) -> bool {
    &&& 1 <= width
    &&& 1 <= height
    &&& g.len() == width * height
}

/// The cell at `(row, col)` of a row-major grid of the given width.
pub open spec fn cell_at(g: Seq<Cell>, width: int, row: int, col: int) -> Cell {
    g[row * width + col]
}

/// Weight of the neighbor reached from `(row, col)` by the offsets
/// `(delta_row, delta_col)`, with both coordinates wrapped around the torus.
pub open spec fn wrap_contrib(
    g: Seq<Cell>,
    width: int,
    height: int,
    row: int,
    col: int,
    delta_row: int,
    delta_col: int,
) -> int {
    cell_count(cell_at(g, width, (row + delta_row) % height, (col + delta_col) % width))
}

/// Number of live cells among the 8 toroidal (Moore) neighbors of
/// `(row, col)`: the row offsets range over `{height - 1, 0, 1}` and the
/// column offsets over `{width - 1, 0, 1}` (a decrement written within the
/// unsigned domain), with the offset pair `(0, 0)` — the cell itself — skipped.
pub open spec fn neighbor_count(g: Seq<Cell>, width: int, height: int, row: int, col: int) -> int {
    wrap_contrib(g, width, height, row, col, height - 1, width - 1)
        + wrap_contrib(g, width, height, row, col, height - 1, 0)
        + wrap_contrib(g, width, height, row, col, height - 1, 1)
        + wrap_contrib(g, width, height, row, col, 0, width - 1)
        + wrap_contrib(g, width, height, row, col, 0, 1)
        + wrap_contrib(g, width, height, row, col, 1, width - 1)
        + wrap_contrib(g, width, height, row, col, 1, 0)
        + wrap_contrib(g, width, height, row, col, 1, 1)
}

/// The next generation of a grid: every cell is rewritten by the transition
/// rule applied to its current state and its live-neighbor count, all counts
/// taken from the same previous generation.
pub open spec fn step(g: Seq<Cell>, width: int, height: int) -> Seq<Cell> {
    Seq::new(
        g.len(),
        |i: int| next_cell(g[i], neighbor_count(g, width, height, i / width, i % width)),
    )
}

/// The grid after `n` generations.
pub open spec fn step_n(g: Seq<Cell>, width: int, height: int, n: nat) -> Seq<Cell>
    decreases n,
{
    if n == 0 {
        g
    } else {
        step(step_n(g, width, height, (n - 1) as nat), width, height)
    }
}

/// The fixed seeding rule: the cell at linear index `i` starts alive exactly
/// when `i` is divisible by 2 or by 7.
pub open spec fn seed_cell(i: int) -> Cell {
    if i % 2 == 0 || i % 7 == 0 {
        Cell::Alive
    } else {
        Cell::Dead
    }
}

/// The glyph a cell is rendered as.
pub open spec fn glyph(c: Cell) -> char {
    if c is Alive {
        '◼'
    } else {
        '◻'
    }
}

/// One rendered row: `width` glyphs followed by a newline.
pub open spec fn render_row(g: Seq<Cell>, width: int, row: int) -> Seq<char> {
    Seq::new(width as nat, |col: int| glyph(cell_at(g, width, row, col))).push('\n')
}

/// The first `nrows` rendered rows, concatenated in order.
pub open spec fn render_rows(g: Seq<Cell>, width: int, nrows: int) -> Seq<char>
    decreases nrows,
{
    if nrows <= 0 {
        Seq::empty()
    } else {
        render_rows(g, width, nrows - 1) + render_row(g, width, nrows - 1)
    }
}

/// The full text rendering of a grid: `height` rows, each of `width` glyphs
/// and a trailing newline.
pub open spec fn render_grid(g: Seq<Cell>, width: int, height: int) -> Seq<char> {
    render_rows(g, width, height)
}

/// Row-major index decomposition: `row * width + col` splits back into the
/// same row and column.
pub proof fn lemma_index_decompose(width: int, row: int, col: int)
    requires
        1 <= width,
        0 <= row,
        0 <= col < width,
    ensures
        (row * width + col) / width == row,
        (row * width + col) % width == col,
{
    lemma_fundamental_div_mod_converse(row * width + col, width, row, col);
}

/// Every linear index of a well-formed grid decomposes into a row below
/// `height` and a column below `width`, and lies below the buffer length.
pub proof fn lemma_index_bounds(width: int, height: int, i: int)
    requires
        1 <= width,
        1 <= height,
        0 <= i < width * height,
    ensures
        0 <= i % width < width,
        0 <= i / width < height,
        i == width * (i / width) + (i % width),
{
    lemma_mod_bound(i, width);
    lemma_fundamental_div_mod(i, width);
    assert(i / width < height) by (nonlinear_arith)
        requires
            1 <= width,
            0 <= i < width * height,
            i == width * (i / width) + (i % width),
            0 <= i % width < width,
    ;
}

/// Wrapping one step towards lower coordinates: adding `m - 1` modulo `m`
/// decrements, with 0 wrapping to `m - 1`.
pub proof fn lemma_wrap_dec(x: int, m: int)
    requires
        0 <= x < m,
    ensures
        (x + m - 1) % m == (if x == 0 {
            m - 1
        } else {
            x - 1
        }),
{
    if x == 0 {
        lemma_small_mod((m - 1) as nat, m as nat);
    } else {
        lemma_mod_multiples_vanish(1, x - 1, m);
        lemma_small_mod((x - 1) as nat, m as nat);
    }
}

/// Wrapping one step towards higher coordinates: adding 1 modulo `m`
/// increments, with `m - 1` wrapping to 0.
pub proof fn lemma_wrap_inc(x: int, m: int)
    requires
        0 <= x < m,
    ensures
        (x + 1) % m == (if x == m - 1 {
            0
        } else {
            x + 1
        }),
{
    if x == m - 1 {
        lemma_mod_self_0(m);
    } else {
        lemma_small_mod((x + 1) as nat, m as nat);
    }
}

/// Staying put: a coordinate already in range is unchanged by the wrap.
pub proof fn lemma_wrap_same(x: int, m: int)
    requires
        0 <= x < m,
    ensures
        (x + 0) % m == x,
{
    lemma_small_mod(x as nat, m as nat);
}

} // verus!
