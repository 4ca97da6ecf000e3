//! Simulation core of a grid-based snake game.
//!
//! The crate owns the snake's body and heading, the boundary rules of the
//! arena, food placement and the tick-driven state machine that ties them
//! together. Drawing, input polling and the frame loop live outside of it.

pub mod boundary;
pub mod food;
pub mod game;
pub mod geometry;
pub mod snake;
pub mod steering;
