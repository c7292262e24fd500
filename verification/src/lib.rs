//! Core simulation logic for a grid-based snake/train game: a single agent
//! moves on an integer grid in discrete ticks, buffered directional input is
//! reconciled against static walls (with a wall-hug fallback), every visited
//! cell is recorded in an ordered deduplicated track ledger, and a chain of
//! follower carriages advances along that ledger one cell per tick.

pub mod grid;
pub mod level;
pub mod player;
pub mod sim;
pub mod timer;
pub mod train;
