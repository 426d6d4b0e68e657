//! Quests: trees of objectives that reduce a stream of events to a verdict.

pub mod atomic;
pub mod event;
pub mod laws;
pub mod model;
pub mod node;
pub mod render;
