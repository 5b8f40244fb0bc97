//! The rules of a grid-based snake game: a snake that moves one cell per
//! tick, food placed on free cells, scoring, the speed ramp and the one-way
//! transition to game over. Rendering, sound and the event loop live
//! outside this crate and talk to it through plain values.

pub mod grid;
pub mod snake;
pub mod score;
pub mod game;
pub mod laws;
