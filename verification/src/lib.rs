//! Rules of a grid snake game: steering, movement, collisions, eating,
//! growth, scoring and the reset that ends a round.

mod chance;
pub mod game;
pub mod grid;
pub mod keys;
pub mod laws;
pub mod score;
