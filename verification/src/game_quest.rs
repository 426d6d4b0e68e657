//! The quest events of the game, its predefined quests, and the orchestrator
//! that follows one of them.

use crate::block::{Block, BlockView};
use crate::quest::atomic::AtomicQuest;
use crate::quest::event::{EventType, QuestEventView, QuestStatus};
use crate::quest::laws::{complete_stays_complete, composition_of_fresh_quests_is_fresh};
use crate::quest::model::{AtomicModel, QuestModel};
use crate::quest::node::{models, models_index, ChoiceQuest, InOrderQuest, QuestNode};
use crate::quest::render::render;
use crate::text::same_text;
use vstd::prelude::*;

verus! {

/// What a quest is told about one step of the player: the block that was
/// landed on and what landing there meant.
#[derive(Debug)]
pub struct GameQuestEvent {
    pub block: Block,
    pub event_type: EventType,
}

impl View for GameQuestEvent {
    type V = QuestEventView;

    open spec fn view(&self) -> QuestEventView {
        QuestEventView { block: self.block@, event_type: self.event_type }
    }
}

impl GameQuestEvent {
    /// What the player did.
    pub fn get_type(&self) -> (event_type: &EventType)
        ensures
            *event_type == self@.event_type,
    {
        &self.event_type
    }

    /// The block that the player did it to.
    pub fn get_block(&self) -> (block: &Block)
        ensures
            block@ == self@.block,
    {
        &self.block
    }
}

/// A leaf objective without progress.
pub open spec fn objective(
    block: BlockView,
    event_type: EventType,
    threshold: nat,
    cycles: nat,
) -> QuestModel {
    QuestModel::Atomic(
        AtomicModel { block, event_type, threshold, cycles, count: 0, completed: 0 },
    )
}

/// The quests that a game can be played for.
#[derive(Debug, Clone, Copy, PartialEq, Eq, Structural)]
pub enum GameQuest {
    /// Walk on sand five times.
    Q1,
    /// Walk on sand five times, then collect three objects called 'y'.
    Q2,
    /// Two of three: walk on sand five times, then collect an object called
    /// 'x'; collect an object called 'y', then walk on grass; walk over nine
    /// blocks of water, three times.
    Q3,
}

impl GameQuest {
    /// The quest tree, without progress.
    pub open spec fn tree(self) -> QuestModel {
        match self {
            GameQuest::Q1 => objective(BlockView::Sand, EventType::Walk, 5, 1),
            GameQuest::Q2 => QuestModel::InOrder(
                seq![
                    objective(BlockView::Sand, EventType::Walk, 5, 1),
                    objective(BlockView::Object('y'), EventType::Collect, 3, 1),
                ],
                0,
            ),
            GameQuest::Q3 => QuestModel::Choice(
                seq![
                    QuestModel::InOrder(
                        seq![
                            objective(BlockView::Sand, EventType::Walk, 5, 1),
                            objective(BlockView::Object('x'), EventType::Collect, 1, 1),
                        ],
                        0,
                    ),
                    QuestModel::InOrder(
                        seq![
                            objective(BlockView::Object('y'), EventType::Collect, 1, 1),
                            objective(BlockView::Grass, EventType::Walk, 1, 1),
                        ],
                        0,
                    ),
                    objective(BlockView::Water, EventType::Walk, 9, 3),
                ],
                2,
            ),
        }
    }

    /// The quest that the key `key` selects: the first for `q1`, the second
    /// for `q2`, the third for anything else.
    pub open spec fn selected(key: Seq<char>) -> GameQuest {
        if key == "q1"@ {
            GameQuest::Q1
        } else if key == "q2"@ {
            GameQuest::Q2
        } else {
            GameQuest::Q3
        }
    }

    /// Builds the quest tree, without progress.
    pub fn get_guest(&self) -> (quest: QuestNode)
        ensures
            quest@ == self.tree(),
    {
        match self {
            GameQuest::Q1 => QuestNode::Atomic(
                AtomicQuest::new(Block::Sand, EventType::Walk, 5, 1),
            ),
            GameQuest::Q2 => {
                let first = QuestNode::Atomic(AtomicQuest::new(Block::Sand, EventType::Walk, 5, 1));
                let second = QuestNode::Atomic(
                    AtomicQuest::new(Block::Object('y'), EventType::Collect, 3, 1),
                );
                in_order_of_two(first, second)
            },
            GameQuest::Q3 => {
                let sand = QuestNode::Atomic(AtomicQuest::new(Block::Sand, EventType::Walk, 5, 1));
                let x = QuestNode::Atomic(
                    AtomicQuest::new(Block::Object('x'), EventType::Collect, 1, 1),
                );
                let y = QuestNode::Atomic(
                    AtomicQuest::new(Block::Object('y'), EventType::Collect, 1, 1),
                );
                let grass = QuestNode::Atomic(
                    AtomicQuest::new(Block::Grass, EventType::Walk, 1, 1),
                );
                let water = QuestNode::Atomic(
                    AtomicQuest::new(Block::Water, EventType::Walk, 9, 3),
                );
                let mut branches: Vec<QuestNode> = Vec::new();
                branches.push(in_order_of_two(sand, x));
                branches.push(in_order_of_two(y, grass));
                branches.push(water);
                proof {
                    models_index(branches@);
                    assert(models(branches@) =~= seq![branches@[0]@, branches@[1]@, branches@[2]@]);
                }
                QuestNode::Choice(ChoiceQuest::new(branches, 2))
            },
        }
    }
}

/// The quest that asks for `first` and then for `second`.
fn in_order_of_two(first: QuestNode, second: QuestNode) -> (quest: QuestNode)
    ensures
        quest@ == QuestModel::InOrder(seq![first@, second@], 0),
{
    let mut children: Vec<QuestNode> = Vec::new();
    children.push(first);
    children.push(second);
    proof {
        models_index(children@);
        assert(models(children@) =~= seq![first@, second@]);
    }
    QuestNode::InOrder(InOrderQuest::new(children))
}

/// Builds the quest that the key `quest` selects: the first for `q1`, the
/// second for `q2`, the third for anything else.
pub fn get_quest_by_string(quest: &str) -> (tree: QuestNode)
    ensures
        tree@ == GameQuest::selected(quest@).tree(),
{
    if same_text(quest, "q1") {
        GameQuest::Q1.get_guest()
    } else if same_text(quest, "q2") {
        GameQuest::Q2.get_guest()
    } else {
        GameQuest::Q3.get_guest()
    }
}

/// Follows one quest through a game: forwards the events to it and notices
/// the event by which it becomes complete.
#[derive(Debug)]
pub struct QuestOrchestrator {
    root: QuestNode,
}

impl View for QuestOrchestrator {
    type V = QuestModel;

    closed spec fn view(&self) -> QuestModel {
        self.root@
    }
}

/// Whether a quest has become complete between `before` and `after`.
pub open spec fn just_completed(before: QuestModel, after: QuestModel) -> bool {
    before.status() != QuestStatus::Complete && after.status() == QuestStatus::Complete
}

impl QuestOrchestrator {
    /// An orchestrator for the quest that `key` selects.
    pub fn new(key: &str) -> (orchestrator: Self)
        ensures
            orchestrator@ == GameQuest::selected(key@).tree(),
    {
        QuestOrchestrator { root: get_quest_by_string(key) }
    }

    /// An orchestrator for the quest `root`.
    pub fn with_root(root: QuestNode) -> (orchestrator: Self)
        ensures
            orchestrator@ == root@,
    {
        QuestOrchestrator { root }
    }

    /// Forwards `event` to the quest. The result says whether this event
    /// completed it.
    pub fn register_event(&mut self, event: &GameQuestEvent) -> (completed: bool)
        ensures
            final(self)@ == old(self)@.step(event@),
            completed == just_completed(old(self)@, final(self)@),
    {
        let before = self.root.status();
        let after = self.root.register_event(event);
        before != QuestStatus::Complete && after == QuestStatus::Complete
    }

    /// Whether the quest is complete.
    pub fn status(&self) -> (status: QuestStatus)
        ensures
            status == self@.status(),
    {
        self.root.status()
    }

    /// Forgets all progress of the quest.
    pub fn reset(&mut self)
        ensures
            final(self)@ == old(self)@.reset(),
    {
        self.root.reset();
    }

    /// The description of the quest and of its progress.
    pub fn display(&self) -> (text: String)
        ensures
            text@ == render(self@, Seq::empty()),
    {
        self.root.display()
    }
}

/// Every predefined quest starts without progress.
pub proof fn predefined_quests_start_fresh(quest: GameQuest)
    ensures
        quest.tree().is_fresh(),
{
    let sand = objective(BlockView::Sand, EventType::Walk, 5, 1);
    let x = objective(BlockView::Object('x'), EventType::Collect, 1, 1);
    let y = objective(BlockView::Object('y'), EventType::Collect, 1, 1);
    let more_y = objective(BlockView::Object('y'), EventType::Collect, 3, 1);
    let grass = objective(BlockView::Grass, EventType::Walk, 1, 1);
    let water = objective(BlockView::Water, EventType::Walk, 9, 3);
    composition_of_fresh_quests_is_fresh(seq![sand, more_y], 0);
    composition_of_fresh_quests_is_fresh(seq![sand, x], 0);
    composition_of_fresh_quests_is_fresh(seq![y, grass], 0);
    composition_of_fresh_quests_is_fresh(
        seq![QuestModel::InOrder(seq![sand, x], 0), QuestModel::InOrder(seq![y, grass], 0), water],
        2,
    );
}

/// Once a quest is complete after the first `from` of `events`, it is
/// complete after the first `to` of them, for every later `to`.
pub proof fn complete_from_then_on(
    quest: QuestModel,
    events: Seq<QuestEventView>,
    from: int,
    to: int,
)
    requires
        0 <= from <= to <= events.len(),
        quest.run(events.take(from)).status() == QuestStatus::Complete,
    ensures
        quest.run(events.take(to)).status() == QuestStatus::Complete,
    decreases to - from,
{
    if from < to {
        complete_from_then_on(quest, events, from, to - 1);
        assert(events.take(to).drop_last() =~= events.take(to - 1));
        complete_stays_complete(quest.run(events.take(to - 1)), events[to - 1]);
    }
}

/// Whatever the events, at most one of them completes the quest: if the
/// event at `first` did, no later one does.
pub proof fn completion_is_noticed_once(
    quest: QuestModel,
    events: Seq<QuestEventView>,
    first: int,
    second: int,
)
    requires
        0 <= first < second < events.len(),
        just_completed(quest.run(events.take(first)), quest.run(events.take(first + 1))),
    ensures
        !just_completed(quest.run(events.take(second)), quest.run(events.take(second + 1))),
{
    complete_from_then_on(quest, events, first + 1, second);
}

} // verus!
