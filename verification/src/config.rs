//! Compile-time constants of the playfield and of the pace of the game.

use vstd::prelude::*;

verus! {

/// Edge length of one grid cell, in world units.
pub const BLOCK_SIZE: i32 = 20;

/// Width of the playfield, in world units.
pub const PLAYFIELD_WIDTH: i32 = 1280;

/// Height of the playfield, in world units.
pub const PLAYFIELD_HEIGHT: i32 = 720;

/// Largest horizontal cell index, counted from the centre, that a prize may take.
pub const MAX_CELL_X: i32 = 31;

/// Largest vertical cell index, counted from the centre, that a prize may take.
pub const MAX_CELL_Y: i32 = 17;

/// Time between two moves of the snake, in nanoseconds.
pub const TICK_INTERVAL: u64 = 100_000_000;

/// The cell limits are the half-extents of the playfield in whole cells,
/// less the outermost one.
pub proof fn lemma_cell_limits()
    ensures
        MAX_CELL_X == (PLAYFIELD_WIDTH as int) / 2 / (BLOCK_SIZE as int) - 1,
        MAX_CELL_Y == (PLAYFIELD_HEIGHT as int) / 2 / (BLOCK_SIZE as int) - 1,
        MAX_CELL_X * BLOCK_SIZE == 620,
        MAX_CELL_Y * BLOCK_SIZE == 340,
{
}

} // verus!
