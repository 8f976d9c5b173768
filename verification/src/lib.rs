//! Simulation core of a grid-based snake game.
//!
//! The library tracks snake actors moving on a discrete grid, detects
//! collisions with walls and bodies, manages fruit spawning, and advances
//! the game state on a fixed or variable time step.  Rendering, input
//! polling and frame timing are left to an outer driver.

pub mod point;
pub mod snake;
pub mod game;
