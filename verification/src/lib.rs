//! Core of a grid-based snake simulation: geometry primitives, the snake
//! body with its movement and collision rules, and the game state machine
//! that drives one discrete tick at a time.

pub mod direction;
pub mod game;
pub mod point;
pub mod rng;
pub mod snake;
