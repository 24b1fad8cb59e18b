//! A falling-block puzzle engine: the playfield, the seven pieces with their
//! four orientations, fit testing, gravity, rotation with wall kicks, and
//! line clearing. Every function is verified against a mathematical model
//! of the game.
//!
//! - `util`: orientations, positions and input events.
//! - `tetromino`: the pieces, their layouts and their kick table.
//! - `grid`: the playfield as rows, and what clearing full rows does to it.
//! - `bag`: the bag of seven shapes and its shuffling.
//! - `board`: the model of a game and the laws that its operations obey.
//! - `gamestate`: the game itself and its operations.
//! - `text`: games and pieces as text.
//! - `rendering`: the boundary to a presentation layer.
//! - `session`: a game in play, frame by frame.

pub mod bag;
pub mod board;
pub mod gamestate;
pub mod grid;
pub mod rendering;
pub mod session;
pub mod tetromino;
pub mod text;
pub mod util;
