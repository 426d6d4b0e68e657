//! Quest trees: leaf objectives composed in order or by choice.

use crate::game_quest::GameQuestEvent;
use crate::quest::atomic::AtomicQuest;
use crate::quest::event::QuestStatus;
use crate::quest::model::{
    completed_count, reset_each, reset_each_index, step_each, step_each_index, QuestModel,
};
use crate::quest::render::{push_mark, render, render_each};
use crate::text::push_decimal;
use vstd::prelude::*;
use vstd::string::StringExecFns;

verus! {

/// A quest: a leaf objective or a composition of quests.
#[derive(Debug)]
pub enum QuestNode {
    Atomic(AtomicQuest),
    InOrder(InOrderQuest),
    Choice(ChoiceQuest),
}

/// Quests that have to be completed one after the other. Only the quest that
/// is being worked on is told of events.
#[derive(Debug)]
pub struct InOrderQuest {
    children: Vec<QuestNode>,
    current: usize,
}

/// Quests that progress side by side, each told of every event; `required`
/// of them have to be complete.
#[derive(Debug)]
pub struct ChoiceQuest {
    children: Vec<QuestNode>,
    required: usize,
}

/// The models of the quests in `nodes`.
pub open spec fn models(nodes: Seq<QuestNode>) -> Seq<QuestModel>
    decreases nodes,
{
    if nodes.len() == 0 {
        Seq::empty()
    } else {
        models(nodes.drop_last()).push(nodes.last().model())
    }
}

impl QuestNode {
    /// The model of the quest.
    pub open spec fn model(&self) -> QuestModel
        decreases self,
    {
        match self {
            QuestNode::Atomic(quest) => QuestModel::Atomic(quest@),
            QuestNode::InOrder(quest) => quest.model(),
            QuestNode::Choice(quest) => quest.model(),
        }
    }
}

impl InOrderQuest {
    /// The model of the composition.
    pub closed spec fn model(&self) -> QuestModel
        decreases self,
    {
        QuestModel::InOrder(models(self.children@), self.current as nat)
    }
}

impl ChoiceQuest {
    /// The model of the choice.
    pub closed spec fn model(&self) -> QuestModel
        decreases self,
    {
        QuestModel::Choice(models(self.children@), self.required as nat)
    }
}

impl View for QuestNode {
    type V = QuestModel;

    open spec fn view(&self) -> QuestModel {
        self.model()
    }
}

impl View for InOrderQuest {
    type V = QuestModel;

    open spec fn view(&self) -> QuestModel {
        self.model()
    }
}

impl View for ChoiceQuest {
    type V = QuestModel;

    open spec fn view(&self) -> QuestModel {
        self.model()
    }
}

/// `models` takes the model of every quest where it stands.
pub proof fn models_index(nodes: Seq<QuestNode>)
    ensures
        models(nodes).len() == nodes.len(),
        forall|i: int| 0 <= i < nodes.len() ==> #[trigger] models(nodes)[i] == nodes[i]@,
    decreases nodes.len(),
{
    if nodes.len() > 0 {
        models_index(nodes.drop_last());
    }
}

/// Forgets the progress of every quest in `children`.
fn reset_all(children: &mut Vec<QuestNode>)
    ensures
        models(final(children)@) == reset_each(models(old(children)@)),
    decreases *old(children),
{
    let mut i: usize = 0;
    while i < children.len()
        invariant
            i <= children.len(),
            children.len() == old(children).len(),
            forall|j: int|
                0 <= j < i ==> (#[trigger] children@[j])@ == old(children)@[j]@.reset(),
            forall|j: int|
                i <= j < children.len() ==> #[trigger] children@[j] == old(children)@[j],
        decreases children.len() - i,
    {
        children[i].reset();
        i = i + 1;
    }
    proof {
        models_index(children@);
        models_index(old(children)@);
        reset_each_index(models(old(children)@));
        assert(models(children@) =~= reset_each(models(old(children)@)));
    }
}

/// Appends the descriptions of `children` to `out`, every line behind
/// `prefix`.
fn write_all(children: &Vec<QuestNode>, out: &mut String, prefix: &str)
    ensures
        final(out)@ == old(out)@ + render_each(models(children@), prefix@),
    decreases children,
{
    let ghost all = models(children@);
    proof {
        models_index(children@);
    }
    let mut i: usize = 0;
    while i < children.len()
        invariant
            i <= children.len(),
            all == models(children@),
            all.len() == children.len(),
            forall|j: int| 0 <= j < all.len() ==> #[trigger] all[j] == children@[j]@,
            out@ == old(out)@ + render_each(all.take(i as int), prefix@),
        decreases children.len() - i,
    {
        proof {
            assert(all.take(i as int + 1).drop_last() =~= all.take(i as int));
        }
        children[i].write(out, prefix);
        i = i + 1;
    }
    proof {
        assert(all.take(i as int) =~= all);
    }
}

impl InOrderQuest {
    /// An ordered composition that starts with its first quest.
    pub fn new(children: Vec<QuestNode>) -> (quest: Self)
        ensures
            quest@ == QuestModel::InOrder(models(children@), 0),
    {
        InOrderQuest { children, current: 0 }
    }

    /// Forgets all progress, that of every quest below included.
    pub fn reset(&mut self)
        ensures
            final(self)@ == old(self)@.reset(),
        decreases *old(self),
    {
        reset_all(&mut self.children);
        self.current = 0;
    }

    /// Appends the description of the composition to `out`, every line
    /// behind `prefix`.
    pub fn write(&self, out: &mut String, prefix: &str)
        ensures
            final(out)@ == old(out)@ + render(self@, prefix@),
        decreases self,
    {
        out.append(prefix);
        push_mark(out, self.status());
        out.append(" In order:");
        out.append("\n");
        let mut inner = prefix.to_owned();
        inner.append("  ");
        write_all(&self.children, out, inner.as_str());
        proof {
            assert(out@ =~= old(out)@ + render(self@, prefix@));
        }
    }

    /// The description of the composition and of its progress.
    pub fn display(&self) -> (text: String)
        ensures
            text@ == render(self@, Seq::empty()),
    {
        let mut text = String::new();
        self.write(&mut text, "");
        proof {
            reveal_strlit("");
            assert(""@ =~= Seq::<char>::empty());
            assert(text@ =~= render(self@, Seq::empty()));
        }
        text
    }

    /// Whether every quest has been completed in its turn.
    pub fn status(&self) -> (status: QuestStatus)
        ensures
            status == self@.status(),
    {
        proof {
            models_index(self.children@);
        }
        if self.current >= self.children.len() {
            QuestStatus::Complete
        } else {
            QuestStatus::InProgress
        }
    }

    /// Tells the quest that is being worked on of `event`, moves on to the
    /// next quest if that completed it, and reports the status that results.
    pub fn register_event(&mut self, event: &GameQuestEvent) -> (status: QuestStatus)
        ensures
            final(self)@ == old(self)@.step(event@),
            status == final(self)@.status(),
        decreases *old(self),
    {
        proof {
            models_index(self.children@);
        }
        if self.current < self.children.len() {
            let child_status = self.children[self.current].register_event(event);
            proof {
                models_index(self.children@);
                assert(models(self.children@) =~= models(old(self).children@).update(
                    old(self).current as int,
                    old(self).children@[old(self).current as int]@.step(event@),
                ));
            }
            if child_status == QuestStatus::Complete {
                self.current = self.current + 1;
            }
        }
        self.status()
    }
}

impl ChoiceQuest {
    /// A choice of which `required` quests have to be completed.
    pub fn new(children: Vec<QuestNode>, required: usize) -> (quest: Self)
        ensures
            quest@ == QuestModel::Choice(models(children@), required as nat),
    {
        ChoiceQuest { children, required }
    }

    /// Forgets all progress, that of every quest below included.
    pub fn reset(&mut self)
        ensures
            final(self)@ == old(self)@.reset(),
        decreases *old(self),
    {
        reset_all(&mut self.children);
    }

    /// Appends the description of the choice to `out`, every line behind
    /// `prefix`.
    pub fn write(&self, out: &mut String, prefix: &str)
        ensures
            final(out)@ == old(out)@ + render(self@, prefix@),
        decreases self,
    {
        out.append(prefix);
        push_mark(out, self.status());
        out.append(" Any ");
        push_decimal(out, self.required as u64);
        out.append(" of:");
        out.append("\n");
        let mut inner = prefix.to_owned();
        inner.append("  ");
        write_all(&self.children, out, inner.as_str());
        proof {
            assert(out@ =~= old(out)@ + render(self@, prefix@));
        }
    }

    /// The description of the choice and of its progress.
    pub fn display(&self) -> (text: String)
        ensures
            text@ == render(self@, Seq::empty()),
    {
        let mut text = String::new();
        self.write(&mut text, "");
        proof {
            reveal_strlit("");
            assert(""@ =~= Seq::<char>::empty());
            assert(text@ =~= render(self@, Seq::empty()));
        }
        text
    }

    /// Whether as many quests as are required are complete.
    pub fn status(&self) -> (status: QuestStatus)
        ensures
            status == self@.status(),
        decreases self,
    {
        let ghost all = models(self.children@);
        proof {
            models_index(self.children@);
        }
        let mut complete: usize = 0;
        let mut i: usize = 0;
        while i < self.children.len()
            invariant
                i <= self.children.len(),
                complete <= i,
                all == models(self.children@),
                all.len() == self.children.len(),
                forall|j: int| 0 <= j < all.len() ==> #[trigger] all[j] == self.children@[j]@,
                complete == completed_count(all.take(i as int)),
            decreases self.children.len() - i,
        {
            proof {
                assert(all.take(i as int + 1).drop_last() =~= all.take(i as int));
            }
            if self.children[i].status() == QuestStatus::Complete {
                complete = complete + 1;
            }
            i = i + 1;
        }
        proof {
            assert(all.take(i as int) =~= all);
        }
        if complete >= self.required {
            QuestStatus::Complete
        } else {
            QuestStatus::InProgress
        }
    }

    /// Tells every quest of `event`, and reports the status that results.
    pub fn register_event(&mut self, event: &GameQuestEvent) -> (status: QuestStatus)
        ensures
            final(self)@ == old(self)@.step(event@),
            status == final(self)@.status(),
        decreases *old(self),
    {
        let mut i: usize = 0;
        while i < self.children.len()
            invariant
                i <= self.children.len(),
                self.children.len() == old(self).children.len(),
                self.required == old(self).required,
                forall|j: int|
                    0 <= j < i ==> (#[trigger] self.children@[j])@ == old(self).children@[j]@.step(
                        event@,
                    ),
                forall|j: int|
                    i <= j < self.children.len() ==> #[trigger] self.children@[j] == old(
                        self,
                    ).children@[j],
            decreases self.children.len() - i,
        {
            let _ = self.children[i].register_event(event);
            i = i + 1;
        }
        proof {
            models_index(self.children@);
            models_index(old(self).children@);
            step_each_index(models(old(self).children@), event@);
            assert(models(self.children@) =~= step_each(models(old(self).children@), event@));
        }
        self.status()
    }
}

impl QuestNode {
    /// Whether the quest is complete.
    pub fn status(&self) -> (status: QuestStatus)
        ensures
            status == self@.status(),
        decreases self,
    {
        match self {
            QuestNode::Atomic(quest) => quest.status(),
            QuestNode::InOrder(quest) => quest.status(),
            QuestNode::Choice(quest) => quest.status(),
        }
    }

    /// Tells the quest of `event`, and reports the status that results.
    pub fn register_event(&mut self, event: &GameQuestEvent) -> (status: QuestStatus)
        ensures
            final(self)@ == old(self)@.step(event@),
            status == final(self)@.status(),
        decreases *old(self),
    {
        match self {
            QuestNode::Atomic(quest) => quest.register_event(event),
            QuestNode::InOrder(quest) => quest.register_event(event),
            QuestNode::Choice(quest) => quest.register_event(event),
        }
    }

    /// Forgets all progress, that of every quest below included.
    pub fn reset(&mut self)
        ensures
            final(self)@ == old(self)@.reset(),
        decreases *old(self),
    {
        match self {
            QuestNode::Atomic(quest) => quest.reset(),
            QuestNode::InOrder(quest) => quest.reset(),
            QuestNode::Choice(quest) => quest.reset(),
        }
    }

    /// Appends the description of the quest to `out`, every line behind
    /// `prefix`.
    pub fn write(&self, out: &mut String, prefix: &str)
        ensures
            final(out)@ == old(out)@ + render(self@, prefix@),
        decreases self,
    {
        match self {
            QuestNode::Atomic(quest) => {
                out.append(prefix);
                quest.write_line(out);
                out.append("\n");
                proof {
                    assert(out@ =~= old(out)@ + render(self@, prefix@));
                }
            },
            QuestNode::InOrder(quest) => quest.write(out, prefix),
            QuestNode::Choice(quest) => quest.write(out, prefix),
        }
    }

    /// The description of the quest and of its progress.
    pub fn display(&self) -> (text: String)
        ensures
            text@ == render(self@, Seq::empty()),
    {
        let mut text = String::new();
        self.write(&mut text, "");
        proof {
            reveal_strlit("");
            assert(""@ =~= Seq::<char>::empty());
            assert(text@ =~= render(self@, Seq::empty()));
        }
        text
    }
}

} // verus!
