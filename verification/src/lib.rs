//! A grid of cells that covers part of a viewport, each cell either on or off.
//!
//! The crate enumerates the cells of a table, places them in exact arithmetic,
//! and decides each cell's state from a uniform draw handed in by the caller.

pub mod fraction;
pub mod grid;
pub mod indices;
pub mod laws;
pub mod layout;
pub mod product;
pub mod sample;
pub mod table;
