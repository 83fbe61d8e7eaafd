//! Conway's Game of Life on a fixed-size toroidal grid.
//!
//! [`Universe`] is the simulation state: it is constructed with a
//! deterministic initial pattern, advanced one generation at a time with
//! `tick` and turned into text with `render`. What these operations compute
//! is defined on [`Grid`], the mathematical model of a universe, and every
//! operation is proved to agree with that model.

pub mod cell;
pub mod grid;
pub mod ring;
pub mod still_life;
pub mod universe;

pub use cell::Cell;
pub use grid::Grid;
pub use universe::GridError;
pub use universe::Universe;
