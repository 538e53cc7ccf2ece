//! A snake on a toroidal grid, advanced one tick at a time.

pub mod food;
pub mod game;
pub mod grid;
pub mod snake;
