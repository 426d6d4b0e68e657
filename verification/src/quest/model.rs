//! The mathematical model of a quest tree: what a tree is, how one event
//! changes it, and when it counts as complete.

use crate::block::BlockView;
use crate::quest::event::{EventType, QuestEventView, QuestStatus};
use vstd::prelude::*;

verus! {

/// The largest value a progress counter can hold. A counter that has reached
/// it stays there.
pub open spec fn counter_limit() -> nat {
    u64::MAX as nat
}

/// A counter after one more occurrence has been counted.
pub open spec fn counted(n: nat) -> nat {
    if n < counter_limit() {
        n + 1
    } else {
        n
    }
}

/// A leaf objective: `threshold` matching events make one cycle, and `cycles`
/// cycles make the objective complete.
pub struct AtomicModel {
    pub block: BlockView,
    pub event_type: EventType,
    pub threshold: nat,
    pub cycles: nat,
    /// Matching events seen in the running cycle.
    pub count: nat,
    /// Cycles finished so far.
    pub completed: nat,
}

/// A quest tree.
pub enum QuestModel {
    Atomic(AtomicModel),
    /// Children that are worked through one after the other, and the index of
    /// the child that is being worked on.
    InOrder(Seq<QuestModel>, nat),
    /// Children that progress side by side, and how many of them have to be
    /// complete.
    Choice(Seq<QuestModel>, nat),
}

impl AtomicModel {
    /// Whether `event` is the kind of event this objective counts.
    pub open spec fn matches(self, event: QuestEventView) -> bool {
        self.block == event.block && self.event_type == event.event_type
    }

    /// The objective after `event`: an event that matches is counted, and
    /// the count that meets the threshold finishes a cycle and starts over.
    pub open spec fn step(self, event: QuestEventView) -> AtomicModel {
        if !self.matches(event) {
            self
        } else if self.count + 1 >= self.threshold {
            AtomicModel { count: 0, completed: counted(self.completed), ..self }
        } else {
            AtomicModel { count: self.count + 1, ..self }
        }
    }

    /// Complete once the cycles that are asked for are finished.
    pub open spec fn status(self) -> QuestStatus {
        if self.completed >= self.cycles {
            QuestStatus::Complete
        } else {
            QuestStatus::InProgress
        }
    }

    /// The objective with all progress forgotten.
    pub open spec fn reset(self) -> AtomicModel {
        AtomicModel { count: 0, completed: 0, ..self }
    }
}

impl QuestModel {
    /// Whether the tree is complete: an objective by its cycles, an ordered
    /// composition once it has moved past its last child, a choice once
    /// enough of its children are complete.
    pub open spec fn status(self) -> QuestStatus
        decreases self,
    {
        match self {
            QuestModel::Atomic(atomic) => atomic.status(),
            QuestModel::InOrder(children, current) => if current >= children.len() {
                QuestStatus::Complete
            } else {
                QuestStatus::InProgress
            },
            QuestModel::Choice(children, required) => if completed_count(children) >= required {
                QuestStatus::Complete
            } else {
                QuestStatus::InProgress
            },
        }
    }

    /// The tree after `event`. An ordered composition tells the child it is
    /// working on, and moves on if that child is complete afterwards; a
    /// choice tells every child.
    pub open spec fn step(self, event: QuestEventView) -> QuestModel
        decreases self,
    {
        match self {
            QuestModel::Atomic(atomic) => QuestModel::Atomic(atomic.step(event)),
            QuestModel::InOrder(children, current) => if current < children.len() {
                let child = children[current as int].step(event);
                QuestModel::InOrder(
                    children.update(current as int, child),
                    if child.status() == QuestStatus::Complete {
                        current + 1
                    } else {
                        current
                    },
                )
            } else {
                self
            },
            QuestModel::Choice(children, required) => QuestModel::Choice(
                step_each(children, event),
                required,
            ),
        }
    }

    /// The tree with all progress forgotten.
    pub open spec fn reset(self) -> QuestModel
        decreases self,
    {
        match self {
            QuestModel::Atomic(atomic) => QuestModel::Atomic(atomic.reset()),
            QuestModel::InOrder(children, _) => QuestModel::InOrder(reset_each(children), 0),
            QuestModel::Choice(children, required) => QuestModel::Choice(
                reset_each(children),
                required,
            ),
        }
    }

    /// Whether the tree holds no progress at all.
    pub open spec fn is_fresh(self) -> bool {
        self.reset() == self
    }

    /// The tree after the events of `events`, first to last.
    pub open spec fn run(self, events: Seq<QuestEventView>) -> QuestModel
        decreases events.len(),
    {
        if events.len() == 0 {
            self
        } else {
            self.run(events.drop_last()).step(events.last())
        }
    }
}

/// How many of `children` are complete.
pub open spec fn completed_count(children: Seq<QuestModel>) -> nat
    decreases children,
{
    if children.len() == 0 {
        0
    } else {
        completed_count(children.drop_last()) + if children.last().status()
            == QuestStatus::Complete {
            1nat
        } else {
            0nat
        }
    }
}

/// Every one of `children` after `event`.
pub open spec fn step_each(children: Seq<QuestModel>, event: QuestEventView) -> Seq<QuestModel>
    decreases children,
{
    if children.len() == 0 {
        Seq::empty()
    } else {
        step_each(children.drop_last(), event).push(children.last().step(event))
    }
}

/// Every one of `children` with all progress forgotten.
pub open spec fn reset_each(children: Seq<QuestModel>) -> Seq<QuestModel>
    decreases children,
{
    if children.len() == 0 {
        Seq::empty()
    } else {
        reset_each(children.drop_last()).push(children.last().reset())
    }
}

/// `step_each` steps every child where it stands.
pub proof fn step_each_index(children: Seq<QuestModel>, event: QuestEventView)
    ensures
        step_each(children, event).len() == children.len(),
        forall|i: int|
            0 <= i < children.len() ==> #[trigger] step_each(children, event)[i]
                == children[i].step(event),
    decreases children.len(),
{
    if children.len() > 0 {
        step_each_index(children.drop_last(), event);
    }
}

/// `reset_each` resets every child where it stands.
pub proof fn reset_each_index(children: Seq<QuestModel>)
    ensures
        reset_each(children).len() == children.len(),
        forall|i: int|
            0 <= i < children.len() ==> #[trigger] reset_each(children)[i] == children[i].reset(),
    decreases children.len(),
{
    if children.len() > 0 {
        reset_each_index(children.drop_last());
    }
}

} // verus!
