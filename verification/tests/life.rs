use game_of_life::cell::Cell;
use game_of_life::universe::Universe;

/// Build a `width` x `height` universe that is dead everywhere except at the
/// listed `(row, column)` positions.
fn universe_with_live(width: u32, height: u32, live: &[(u32, u32)]) -> Universe {
    let mut cells = vec![Cell::Dead; (width * height) as usize];
    for &(row, col) in live {
        cells[(row * width + col) as usize] = Cell::Alive;
    }
    Universe::from_cells(width, height, cells)
}

/// Snapshot the whole grid as a vector of cells, row-major.
fn snapshot(u: &Universe) -> Vec<Cell> {
    let mut cells = Vec::new();
    for row in 0..u.height() {
        for col in 0..u.width() {
            cells.push(u.get_cell(row, col));
        }
    }
    cells
}

#[test]
fn new_has_fixed_dimensions() {
    let u = Universe::new();
    assert_eq!(u.width(), 64);
    assert_eq!(u.height(), 32);
}

#[test]
fn new_seeds_by_divisibility() {
    let u = Universe::new();
    for i in 0..(64u32 * 32) {
        let expected = if i % 2 == 0 || i % 7 == 0 {
            Cell::Alive
        } else {
            Cell::Dead
        };
        assert_eq!(u.get_cell(i / 64, i % 64), expected, "index {}", i);
    }
}

#[test]
fn new_is_reproducible() {
    let a = Universe::new();
    let b = Universe::new();
    assert_eq!(snapshot(&a), snapshot(&b));
    assert_eq!(a.render(), b.render());
}

#[test]
fn tick_is_deterministic() {
    let mut a = Universe::new();
    let mut b = Universe::new();
    a.tick();
    b.tick();
    assert_eq!(snapshot(&a), snapshot(&b));
    assert_eq!(a.render(), b.render());
}

#[test]
fn neighbor_count_is_at_most_eight() {
    let all_alive = universe_with_live(
        3,
        3,
        &[
            (0, 0),
            (0, 1),
            (0, 2),
            (1, 0),
            (1, 1),
            (1, 2),
            (2, 0),
            (2, 1),
            (2, 2),
        ],
    );
    let all_dead = universe_with_live(3, 3, &[]);
    for row in 0..3 {
        for col in 0..3 {
            assert_eq!(all_alive.live_neighbor_count(row, col), 8);
            assert_eq!(all_dead.live_neighbor_count(row, col), 0);
        }
    }
}

#[test]
fn toroidal_wrap_counts_opposite_edges() {
    // A single live cell at (0, 0) on a 4-wide, 3-high grid.
    let u = universe_with_live(4, 3, &[(0, 0)]);
    // Corner wrap, row-edge wrap, and column-edge wrap.
    assert_eq!(u.live_neighbor_count(2, 3), 1);
    assert_eq!(u.live_neighbor_count(2, 0), 1);
    assert_eq!(u.live_neighbor_count(0, 3), 1);
}

#[test]
fn live_cell_with_one_neighbor_dies() {
    let mut u = universe_with_live(5, 5, &[(2, 2), (1, 1)]);
    u.tick();
    assert_eq!(u.get_cell(2, 2), Cell::Dead);
}

#[test]
fn live_cell_with_two_neighbors_survives() {
    let mut u = universe_with_live(5, 5, &[(2, 2), (1, 1), (1, 2)]);
    u.tick();
    assert_eq!(u.get_cell(2, 2), Cell::Alive);
}

#[test]
fn live_cell_with_three_neighbors_survives() {
    let mut u = universe_with_live(5, 5, &[(2, 2), (1, 1), (1, 2), (1, 3)]);
    u.tick();
    assert_eq!(u.get_cell(2, 2), Cell::Alive);
}

#[test]
fn live_cell_with_four_neighbors_dies() {
    let mut u = universe_with_live(5, 5, &[(2, 2), (1, 1), (1, 2), (1, 3), (2, 1)]);
    u.tick();
    assert_eq!(u.get_cell(2, 2), Cell::Dead);
}

#[test]
fn dead_cell_with_three_neighbors_becomes_alive() {
    let mut u = universe_with_live(5, 5, &[(1, 1), (1, 2), (1, 3)]);
    u.tick();
    assert_eq!(u.get_cell(2, 2), Cell::Alive);
}

#[test]
fn dead_cell_with_two_neighbors_stays_dead() {
    let mut u = universe_with_live(5, 5, &[(1, 1), (1, 2)]);
    u.tick();
    assert_eq!(u.get_cell(2, 2), Cell::Dead);
}

#[test]
fn block_is_a_still_life() {
    let mut u = universe_with_live(5, 5, &[(1, 1), (1, 2), (2, 1), (2, 2)]);
    let initial = snapshot(&u);
    for _ in 0..4 {
        u.tick();
        assert_eq!(snapshot(&u), initial);
    }
}

#[test]
fn blinker_oscillates() {
    // A vertical blinker becomes horizontal after one tick, and back after two.
    let mut u = universe_with_live(5, 5, &[(1, 2), (2, 2), (3, 2)]);
    let vertical = snapshot(&u);
    u.tick();
    let horizontal = snapshot(&universe_with_live(5, 5, &[(2, 1), (2, 2), (2, 3)]));
    assert_eq!(snapshot(&u), horizontal);
    u.tick();
    assert_eq!(snapshot(&u), vertical);
}

#[test]
fn render_has_height_lines_of_width_glyphs() {
    let u = Universe::new();
    let text = u.render();
    assert!(text.ends_with('\n'));
    let lines: Vec<&str> = text.lines().collect();
    assert_eq!(lines.len(), 32);
    for line in lines {
        assert_eq!(line.chars().count(), 64);
        for glyph in line.chars() {
            assert!(glyph == '◻' || glyph == '◼');
        }
    }
}

#[test]
fn render_uses_one_glyph_per_cell() {
    let u = universe_with_live(2, 1, &[(0, 0)]);
    assert_eq!(u.render(), "◼◻\n");
    let v = universe_with_live(1, 2, &[(1, 0)]);
    assert_eq!(v.render(), "◻\n◼\n");
}

#[test]
fn render_matches_cells() {
    let u = Universe::new();
    let text = u.render();
    let mut chars = text.chars();
    for row in 0..32 {
        for col in 0..64 {
            let expected = if u.get_cell(row, col) == Cell::Alive {
                '◼'
            } else {
                '◻'
            };
            assert_eq!(chars.next(), Some(expected));
        }
        assert_eq!(chars.next(), Some('\n'));
    }
    assert_eq!(chars.next(), None);
}
