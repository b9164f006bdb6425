//! Conway's Game of Life on a toroidal grid, with the geometry of a frame.

pub mod grid;
pub mod laws;
pub mod mesh;
pub mod painter;
pub mod universe;
