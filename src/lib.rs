//! A small falling-bird arcade game: the bird falls under fixed-step gravity,
//! flaps upward on input, and scores a point for each wall it passes through.
//!
//! Velocities are held as whole tenths of a cell per gravity step and frame
//! time as whole microseconds, so every rule of the simulation is integer
//! arithmetic.

pub mod bird;
pub mod game;
pub mod obstacle;
