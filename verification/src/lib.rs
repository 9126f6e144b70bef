//! Core of a grid snake game: coordinates and directions, the snake body
//! with its per-tick shift and reversal guard, food placement, and the
//! running/terminated session state. Rendering and the event loop live
//! outside this crate; the game rules here are verified.

pub mod coords;
pub mod food;
pub mod game;
mod rng;
pub mod snake;
