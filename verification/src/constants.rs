//! Startup configuration, fixed for the life of the process.

use vstd::prelude::*;

verus! {

/// Side length of the default square grid, in cells.
pub const NUMBER_OF_TILES: usize = 100;

/// Edge length of one tile, in position subunits (tenths of a pixel).
pub const TILE_SIZE: i64 = 100;

/// Time between simulation ticks, in milliseconds.
pub const SIMULATION_TICK_TIME: u64 = 10;

/// Denominator of the randomize probability: each cell is set alive
/// with probability one in this many.
pub const RANDOMIZE_ONE_IN: u32 = 3;

} // verus!
