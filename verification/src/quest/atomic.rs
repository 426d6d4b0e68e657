//! Leaf objectives: counting matching events.

use crate::block::Block;
use crate::game_quest::GameQuestEvent;
use crate::quest::event::{EventType, QuestStatus};
use crate::quest::model::{AtomicModel, QuestModel};
use crate::quest::render::{atomic_line, push_mark, render};
use crate::text::push_decimal;
use vstd::prelude::*;
use vstd::string::StringExecFns;

verus! {

/// An objective that counts the events on one kind of block: `threshold` of
/// them finish a cycle, and `cycles` cycles finish the objective.
///
/// Events of any other kind leave the count as it is, so the events of a
/// cycle need not follow one another directly. A threshold of zero is met by
/// every matching event, and an objective of no cycles is complete from the
/// start. The count of finished cycles stops at the largest `u64`.
#[derive(Debug)]
pub struct AtomicQuest {
    block: Block,
    event_type: EventType,
    threshold: u64,
    cycles: u64,
    count: u64,
    completed: u64,
}

impl View for AtomicQuest {
    type V = AtomicModel;

    closed spec fn view(&self) -> AtomicModel {
        AtomicModel {
            block: self.block@,
            event_type: self.event_type,
            threshold: self.threshold as nat,
            cycles: self.cycles as nat,
            count: self.count as nat,
            completed: self.completed as nat,
        }
    }
}

impl AtomicQuest {
    /// Appends the line that describes the objective to `out`.
    pub fn write_line(&self, out: &mut String)
        ensures
            final(out)@ == old(out)@ + atomic_line(self@),
    {
        push_mark(out, self.status());
        out.append(" ");
        match self.event_type {
            EventType::Walk => out.append("Walk on"),
            EventType::Collect => out.append("Collect"),
        }
        out.append(" ");
        let name = self.block.to_string();
        out.append(name.as_str());
        out.append(": ");
        push_decimal(out, self.count);
        out.append("/");
        push_decimal(out, self.threshold);
        out.append(", cycle ");
        push_decimal(out, self.completed);
        out.append("/");
        push_decimal(out, self.cycles);
        proof {
            assert(out@ =~= old(out)@ + atomic_line(self@));
        }
    }

    /// An objective without progress.
    pub fn new(block: Block, event_type: EventType, threshold: u64, cycles: u64) -> (quest: Self)
        ensures
            quest@ == (AtomicModel {
                block: block@,
                event_type,
                threshold: threshold as nat,
                cycles: cycles as nat,
                count: 0,
                completed: 0,
            }),
    {
        AtomicQuest { block, event_type, threshold, cycles, count: 0, completed: 0 }
    }

    /// Whether the cycles that the objective asks for are finished.
    pub fn status(&self) -> (status: QuestStatus)
        ensures
            status == self@.status(),
    {
        if self.completed >= self.cycles {
            QuestStatus::Complete
        } else {
            QuestStatus::InProgress
        }
    }

    /// Counts `event` if it matches, and reports the status that results.
    pub fn register_event(&mut self, event: &GameQuestEvent) -> (status: QuestStatus)
        ensures
            final(self)@ == old(self)@.step(event@),
            status == final(self)@.status(),
    {
        if self.block == event.block && self.event_type == event.event_type {
            if self.threshold == 0 || self.count >= self.threshold - 1 {
                self.count = 0;
                if self.completed < u64::MAX {
                    self.completed = self.completed + 1;
                }
            } else {
                self.count = self.count + 1;
            }
        }
        self.status()
    }

    /// Forgets all progress.
    pub fn reset(&mut self)
        ensures
            final(self)@ == old(self)@.reset(),
    {
        self.count = 0;
        self.completed = 0;
    }

    /// The description of the objective and of its progress.
    pub fn display(&self) -> (text: String)
        ensures
            text@ == render(QuestModel::Atomic(self@), Seq::empty()),
    {
        let mut text = String::new();
        self.write_line(&mut text);
        text.append("\n");
        proof {
            assert(text@ =~= render(QuestModel::Atomic(self@), Seq::empty()));
        }
        text
    }
}

} // verus!
