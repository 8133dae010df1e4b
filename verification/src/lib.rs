//! Conway's Game of Life on a fixed-size toroidal grid.
//!
//! A [`universe::Universe`] owns a row-major buffer of cells; `tick` advances
//! it one generation under the classic four rules with wraparound neighbor
//! counting, and `render` produces a text picture of the current generation.
//! The `grid` module holds the mathematical model the contracts are stated
//! over, and `laws` proves the global properties of the system.

use vstd::prelude::*;

pub mod cell;
pub mod grid;
pub mod laws;
pub mod universe;

verus! {

pub use crate::cell::Cell;
pub use crate::universe::Universe;

} // verus!
