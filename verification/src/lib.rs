//! A terminal-rendered simulation of Conway's Game of Life on a rectangular
//! grid, with von Neumann (4-way) neighborhood and clamped (non-wrapping)
//! edges, plus the layout arithmetic that centers a whole number of cells
//! inside an arbitrary terminal rectangle.

pub mod cell;
pub mod game;
pub mod layout;
