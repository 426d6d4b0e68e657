//! How a quest tree is described to the player: one line per quest, the
//! quests of a composition indented below it.

use crate::block::block_name;
use crate::quest::event::{EventType, QuestStatus};
use crate::quest::model::{AtomicModel, QuestModel};
use crate::text::decimal;
use vstd::prelude::*;
use vstd::string::StringExecFns;

verus! {

/// The check box in front of a quest.
pub open spec fn mark(status: QuestStatus) -> Seq<char> {
    match status {
        QuestStatus::Complete => "[x]"@,
        QuestStatus::InProgress => "[ ]"@,
    }
}

/// What the player has to do to a block.
pub open spec fn verb(event_type: EventType) -> Seq<char> {
    match event_type {
        EventType::Walk => "Walk on"@,
        EventType::Collect => "Collect"@,
    }
}

/// The line that describes a leaf objective, such as
/// `[ ] Walk on Sand: 2/5, cycle 0/1`.
pub open spec fn atomic_line(atomic: AtomicModel) -> Seq<char> {
    mark(atomic.status()) + " "@ + verb(atomic.event_type) + " "@ + block_name(atomic.block)
        + ": "@ + decimal(atomic.count) + "/"@ + decimal(atomic.threshold) + ", cycle "@
        + decimal(atomic.completed) + "/"@ + decimal(atomic.cycles)
}

/// The line above the quests of an ordered composition.
pub open spec fn in_order_line(status: QuestStatus) -> Seq<char> {
    mark(status) + " In order:"@
}

/// The line above the quests of a choice.
pub open spec fn choice_line(status: QuestStatus, required: nat) -> Seq<char> {
    mark(status) + " Any "@ + decimal(required) + " of:"@
}

/// The indentation of the quests below a composition that is indented by
/// `prefix`.
pub open spec fn deeper(prefix: Seq<char>) -> Seq<char> {
    prefix + "  "@
}

/// The description of `quest`, every line of it behind `prefix` and ended by
/// a line feed.
pub open spec fn render(quest: QuestModel, prefix: Seq<char>) -> Seq<char>
    decreases quest,
{
    match quest {
        QuestModel::Atomic(atomic) => prefix + atomic_line(atomic) + "\n"@,
        QuestModel::InOrder(children, _) => prefix + in_order_line(quest.status()) + "\n"@
            + render_each(children, deeper(prefix)),
        QuestModel::Choice(children, required) => prefix + choice_line(quest.status(), required)
            + "\n"@ + render_each(children, deeper(prefix)),
    }
}

/// The descriptions of `children`, one after the other.
pub open spec fn render_each(children: Seq<QuestModel>, prefix: Seq<char>) -> Seq<char>
    decreases children,
{
    if children.len() == 0 {
        Seq::empty()
    } else {
        render_each(children.drop_last(), prefix) + render(children.last(), prefix)
    }
}

/// Appends the check box of a quest with the given status to `out`.
pub fn push_mark(out: &mut String, status: QuestStatus)
    ensures
        final(out)@ == old(out)@ + mark(status),
{
    match status {
        QuestStatus::Complete => out.append("[x]"),
        QuestStatus::InProgress => out.append("[ ]"),
    }
}

} // verus!
