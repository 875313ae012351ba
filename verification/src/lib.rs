//! Conway's Game of Life on a fixed finite grid.
//!
//! The crate holds the simulation core: the grid state, the step rule
//! (neighbor counting and the birth/survival/death transition), the
//! repeating tick timer, the play/pause mode, the position-to-cell
//! mapping used by input handling, and the editing operations (toggle
//! and randomize). Rendering and input plumbing live outside; they hand
//! the core plain values and read its state back.

pub mod constants;
pub mod grid;
pub mod simulation;
pub mod step;
pub mod utils;
