//! Turn-based simulation engine for a terminal "Robots" game: a player
//! navigates a fixed grid while robots of three movement kinds chase the
//! player, colliding with each other and with junk heaps left by earlier
//! collisions.
use vstd::prelude::*;

pub mod actions;
pub mod board;
pub mod entities;
pub mod game;
pub mod level;
pub mod movement;
pub mod steps;
pub mod tick;
pub(crate) mod rng;

verus! {

/// Width of the game board; positions use 1-based coordinates.
pub const BOARD_WIDTH: i32 = 60;

/// Height of the game board; positions use 1-based coordinates.
pub const BOARD_HEIGHT: i32 = 24;

/// True when (x, y) is a cell of the board.
pub open spec fn in_bounds(x: int, y: int) -> bool {
    1 <= x <= BOARD_WIDTH && 1 <= y <= BOARD_HEIGHT
}

} // verus!
