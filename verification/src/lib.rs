//! A tile-based exploration game: a player walks over a sparse board of
//! blocks, every accepted step is turned into a quest event, and a tree of
//! quest nodes reduces the stream of events to a completion verdict.
//!
//! Every function in this crate is verified against the contract it carries.

pub mod block;
pub mod board;
pub mod coordinate;
pub mod game;
pub mod game_quest;
pub mod player;
pub mod quest;
pub mod text;
pub mod tile;
