//! The simulation core of a two-paddle ball game: box collision, paddle
//! control, wall and paddle bounces, scoring and the serve.

pub mod game_object;
pub mod pong;
