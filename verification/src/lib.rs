//! A falling-sand cellular automaton on a fixed 60 x 24 grid.
//!
//! The crate holds the simulation itself and every decision of the
//! interactive loop around it; drawing to a terminal and reading its events
//! are left to the caller, who exchanges plain values with this crate.
//!
//! - `grid`: the cells, the grid, and the model that the contracts speak of.
//! - `physics`: the gravity rule and `sand_fall`, one pass of it.
//! - `conservation`, `motion`, `rest`, `settling`: what is proved of a pass.
//!   It keeps the number of grains, moves each grain by one row at most, and
//!   changes exactly the grids that are not at rest; and every grid comes to
//!   rest after finitely many passes.
//! - `screen`: what is drawn where, and which cell lies under the pointer.
//! - `control`: one round of the loop, from state and event to state and
//!   answer.

pub mod conservation;
pub mod control;
pub mod grid;
pub mod motion;
pub mod physics;
pub mod rest;
pub mod screen;
pub mod settling;
