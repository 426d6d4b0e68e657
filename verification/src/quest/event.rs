//! The events that quests react to, and the verdict they give.

use crate::block::BlockView;
use vstd::prelude::*;

verus! {

/// What the player did to a block.
#[derive(Debug, Clone, Copy, PartialEq, Eq, Structural)]
pub enum EventType {
    /// The player landed on the block.
    Walk,
    /// The player landed on an object and thereby collected it.
    Collect,
}

/// How far a quest has come.
#[derive(Debug, Clone, Copy, PartialEq, Eq, Structural)]
pub enum QuestStatus {
    InProgress,
    Complete,
}

/// The mathematical value of a quest event.
pub struct QuestEventView {
    pub block: BlockView,
    pub event_type: EventType,
}

} // verus!
