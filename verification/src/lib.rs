//! The rules of a snake game on a bordered grid: the snake, the food, the
//! clock, and what one key press or one tick does to them.

pub mod snake;
pub mod state;
pub mod scene;
pub mod laws;
pub mod game;
