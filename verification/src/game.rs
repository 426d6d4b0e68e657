//! The game session: the player on the board, and the quest that the
//! player's steps are to complete.

use crate::block::{Block, BlockView};
use crate::board::Board;
use crate::coordinate::{displaced, representable, Coordinate, CoordinateController};
use crate::game_quest::{just_completed, GameQuest, GameQuestEvent, QuestOrchestrator};
use crate::player::{Player, PlayerView};
use crate::quest::event::{EventType, QuestEventView};
use crate::quest::model::QuestModel;
use crate::quest::render::render;
use vstd::prelude::*;
use vstd::string::StringExecFns;

verus! {

/// The number of columns that the screen shows.
pub const VIEW_WIDTH: i32 = 77;

/// The number of rows that the screen shows.
pub const VIEW_HEIGHT: i32 = 21;

/// The part of the board that the screen shows, named by its top left cell.
#[derive(Debug, Clone, Copy, PartialEq, Eq, Structural)]
pub struct Viewport {
    pub x: i32,
    pub y: i32,
}

impl Viewport {
    /// The top left cell as a pair of mathematical integers.
    pub open spec fn pair(&self) -> (int, int) {
        (self.x as int, self.y as int)
    }

    /// Whether the screen shows `cell`.
    pub open spec fn shows(&self, cell: (int, int)) -> bool {
        &&& self.x <= cell.0 < self.x + VIEW_WIDTH
        &&& self.y <= cell.1 < self.y + VIEW_HEIGHT
    }

    /// Whether the screen shows the cell `at`.
    pub fn contains(&self, at: &Coordinate) -> (shown: bool)
        ensures
            shown == self.shows(at.pair()),
    {
        let left = self.x as i64;
        let top = self.y as i64;
        let x = at.x as i64;
        let y = at.y as i64;
        left <= x && x < left + VIEW_WIDTH as i64 && top <= y && y < top + VIEW_HEIGHT as i64
    }
}

/// A key that the player pressed.
#[derive(Debug, Clone, Copy, PartialEq, Eq, Structural)]
pub enum Key {
    Up,
    Down,
    Left,
    Right,
    /// The key of a character.
    Char(char),
    /// Any other key.
    Other,
}

impl Key {
    /// The step that the key asks for, if it asks for one.
    pub open spec fn offset(&self) -> Option<(int, int)> {
        match self {
            Key::Up => Some((0int, -1int)),
            Key::Down => Some((0int, 1int)),
            Key::Left => Some((-1int, 0int)),
            Key::Right => Some((1int, 0int)),
            _ => None,
        }
    }

    /// The step that the key asks for, if it asks for one.
    pub fn direction(&self) -> (step: Option<Coordinate>)
        ensures
            match step {
                Some(by) => self.offset() == Some(by.pair()),
                None => self.offset() is None,
            },
    {
        match self {
            Key::Up => Some(Coordinate::move_up()),
            Key::Down => Some(Coordinate::move_down()),
            Key::Left => Some(Coordinate::move_left()),
            Key::Right => Some(Coordinate::move_right()),
            _ => None,
        }
    }
}

/// What the player is told after a key.
#[derive(Debug)]
pub enum Notification {
    /// The player has been under water for too long.
    Drowned,
    /// The player stands on a sign with this text.
    Sign(String),
    /// The player asked for the quest, which is described by this text.
    Status(String),
    /// The quest has just been completed.
    Win,
}

/// The mathematical value of a [`Notification`].
pub enum NotificationView {
    Drowned,
    Sign(Seq<char>),
    Status(Seq<char>),
    Win,
}

impl View for Notification {
    type V = NotificationView;

    open spec fn view(&self) -> NotificationView {
        match self {
            Notification::Drowned => NotificationView::Drowned,
            Notification::Sign(text) => NotificationView::Sign(text@),
            Notification::Status(text) => NotificationView::Status(text@),
            Notification::Win => NotificationView::Win,
        }
    }
}

impl NotificationView {
    /// The heading under which the notification is shown.
    pub open spec fn title(self) -> Seq<char> {
        match self {
            NotificationView::Drowned => "Message"@,
            NotificationView::Sign(_) => "Message"@,
            NotificationView::Status(_) => "Quest"@,
            NotificationView::Win => "Quest"@,
        }
    }

    /// The text of the notification.
    pub open spec fn text(self) -> Seq<char> {
        match self {
            NotificationView::Drowned => "You are drowned."@,
            NotificationView::Sign(text) => text,
            NotificationView::Status(text) => text,
            NotificationView::Win => "YOU WIN!"@,
        }
    }
}

impl Notification {
    /// The heading under which the notification is shown.
    pub fn title(&self) -> (title: String)
        ensures
            title@ == self@.title(),
    {
        match self {
            Notification::Drowned => String::from_str("Message"),
            Notification::Sign(_) => String::from_str("Message"),
            Notification::Status(_) => String::from_str("Quest"),
            Notification::Win => String::from_str("Quest"),
        }
    }

    /// The text of the notification.
    pub fn text(&self) -> (text: String)
        ensures
            text@ == self@.text(),
    {
        match self {
            Notification::Drowned => String::from_str("You are drowned."),
            Notification::Sign(text) => text.clone(),
            Notification::Status(text) => text.clone(),
            Notification::Win => String::from_str("YOU WIN!"),
        }
    }
}

/// The view of a notification that may be missing.
pub open spec fn told(notification: Option<Notification>) -> Option<NotificationView> {
    match notification {
        Some(notification) => Some(notification@),
        None => None,
    }
}

/// What an accepted step brought about.
#[derive(Debug)]
pub struct Landing {
    /// Where the viewport has to be for the player to be seen.
    pub viewport: Viewport,
    /// What the block that was landed on has the player told.
    pub notification: Option<Notification>,
    /// What the quest is to be told of the landing.
    pub event: GameQuestEvent,
}

/// What a key brought about.
#[derive(Debug)]
pub struct Outcome {
    /// Where the viewport has to be for the player to be seen.
    pub viewport: Viewport,
    /// What the player is to be told, if anything.
    pub notification: Option<Notification>,
    /// Whether the game has just been decided: the player has drowned, or
    /// the quest has been completed.
    pub session_over: bool,
}

/// The mathematical value of a [`MyGame`].
pub struct GameView {
    pub player: PlayerView,
    pub board: Map<(int, int), BlockView>,
    pub quest: QuestModel,
}

/// The block on `cell`, if there is one.
pub open spec fn block_at(board: Map<(int, int), BlockView>, cell: (int, int)) -> Option<
    BlockView,
> {
    if board.contains_key(cell) {
        Some(board[cell])
    } else {
        None
    }
}

/// Whether a barrier keeps the player off `cell`.
pub open spec fn blocked(board: Map<(int, int), BlockView>, cell: (int, int)) -> bool {
    block_at(board, cell) == Some(BlockView::Barrier)
}

/// The player after landing on `cell`, which holds `block`.
pub open spec fn landed(player: PlayerView, cell: (int, int), block: Option<BlockView>)
    -> PlayerView {
    let moved = PlayerView { position: cell, ..player };
    match block {
        Some(BlockView::Water) => moved.in_water(),
        _ => moved.outside_water(),
    }
}

/// What the player is told on landing on `block` and being `player`
/// afterwards.
pub open spec fn landing_notice(player: PlayerView, block: Option<BlockView>) -> Option<
    NotificationView,
> {
    match block {
        Some(BlockView::Water) => if player.drowning() {
            Some(NotificationView::Drowned)
        } else {
            None
        },
        Some(BlockView::Sign(text)) => Some(NotificationView::Sign(text)),
        _ => None,
    }
}

/// What the quest is told of a landing on `block`: an object is collected,
/// anything else is walked on. A cell without a block counts as a barrier
/// that was walked on.
pub open spec fn landing_event(block: Option<BlockView>) -> QuestEventView {
    match block {
        Some(BlockView::Object(name)) => QuestEventView {
            block: BlockView::Object(name),
            event_type: EventType::Collect,
        },
        Some(block) => QuestEventView { block, event_type: EventType::Walk },
        None => QuestEventView { block: BlockView::Barrier, event_type: EventType::Walk },
    }
}

/// Where the viewport is after the player has stepped by `by` onto `cell`:
/// where it was if it shows the cell, and shifted by the step if not.
pub open spec fn followed(viewport: Viewport, cell: (int, int), by: (int, int)) -> (int, int) {
    if viewport.shows(cell) {
        viewport.pair()
    } else {
        displaced(viewport.pair(), by)
    }
}

/// What a key brings about, as mathematical values.
pub struct OutcomeView {
    pub viewport: (int, int),
    pub notification: Option<NotificationView>,
    pub session_over: bool,
}

impl GameView {
    /// Whether the step that `key` asks for can be stored: the cell that it
    /// leads to and the place that the viewport has to follow to.
    pub open spec fn fits(self, viewport: Viewport, key: Key) -> bool {
        key.offset() matches Some(by) ==> {
            let target = displaced(self.player.position, by);
            &&& representable(target)
            &&& !blocked(self.board, target) ==> representable(followed(viewport, target, by))
        }
    }

    /// Whether `key` moves the player: it asks for a step, and no barrier is
    /// in the way.
    pub open spec fn accepts(self, key: Key) -> bool {
        key.offset() matches Some(by) && !blocked(
            self.board,
            displaced(self.player.position, by),
        )
    }

    /// The cell that `key` leads to.
    pub open spec fn target(self, key: Key) -> (int, int)
        recommends
            key.offset() is Some,
    {
        displaced(self.player.position, key.offset()->0)
    }

    /// The game after the player has moved as `key` asks. A key that moves
    /// nothing leaves the game as it is.
    pub open spec fn moved(self, key: Key) -> GameView {
        if self.accepts(key) {
            let target = self.target(key);
            GameView { player: landed(self.player, target, block_at(self.board, target)), ..self }
        } else {
            self
        }
    }

    /// What the quest is told of the move that `key` asks for.
    pub open spec fn event(self, key: Key) -> QuestEventView
        recommends
            self.accepts(key),
    {
        landing_event(block_at(self.board, self.target(key)))
    }

    /// The game after `key`.
    pub open spec fn after(self, key: Key) -> GameView {
        match key {
            Key::Char('q') => self,
            Key::Char('r') => GameView { quest: self.quest.reset(), ..self },
            _ => if self.accepts(key) {
                GameView { quest: self.quest.step(self.event(key)), ..self.moved(key) }
            } else {
                self
            },
        }
    }

    /// What `key` brings about.
    pub open spec fn outcome(self, viewport: Viewport, key: Key) -> OutcomeView {
        let unmoved = OutcomeView {
            viewport: viewport.pair(),
            notification: None,
            session_over: false,
        };
        match key {
            Key::Char('q') => OutcomeView {
                notification: Some(NotificationView::Status(render(self.quest, Seq::empty()))),
                ..unmoved
            },
            Key::Char('r') => unmoved,
            _ => if self.accepts(key) {
                let target = self.target(key);
                let after = self.after(key);
                let won = just_completed(self.quest, after.quest);
                OutcomeView {
                    viewport: followed(viewport, target, key.offset()->0),
                    notification: if won {
                        Some(NotificationView::Win)
                    } else {
                        landing_notice(after.player, block_at(self.board, target))
                    },
                    session_over: won || (!self.player.drowned && after.player.drowned),
                }
            } else {
                unmoved
            },
        }
    }
}

/// A game: the player, the board, and the quest that is played for.
pub struct MyGame {
    player: Player,
    map: Board,
    quest: QuestOrchestrator,
}

impl View for MyGame {
    type V = GameView;

    closed spec fn view(&self) -> GameView {
        GameView { player: self.player@, board: self.map@, quest: self.quest@ }
    }
}

impl MyGame {
    /// A game on `board` for the quest that `quest_num` selects, with the
    /// player at the start.
    pub fn new(board: Board, quest_num: &str) -> (game: Self)
        ensures
            game@ == (GameView {
                player: PlayerView::start(),
                board: board@,
                quest: GameQuest::selected(quest_num@).tree(),
            }),
    {
        Self { player: Player::default(), map: board, quest: QuestOrchestrator::new(quest_num) }
    }

    /// The player.
    pub fn player(&self) -> (player: &Player)
        ensures
            player@ == self@.player,
    {
        &self.player
    }

    /// The quest that is played for.
    pub fn quest(&self) -> (quest: &QuestOrchestrator)
        ensures
            quest@ == self@.quest,
    {
        &self.quest
    }

    /// The block on the cell `coordinate`, if there is one.
    pub fn get_current_block(&self, coordinate: &Coordinate) -> (found: Option<&Block>)
        ensures
            match found {
                Some(block) => block_at(self@.board, coordinate.pair()) == Some(block@),
                None => block_at(self@.board, coordinate.pair()) is None,
            },
    {
        self.map.get(coordinate.x, coordinate.y)
    }

    /// Whether the viewport shows the player.
    pub fn check_if_in_viewport(&self, viewport: &Viewport) -> (shown: bool)
        ensures
            shown == viewport.shows(self@.player.position),
    {
        viewport.contains(&self.player.get_position())
    }

    /// Whether a barrier keeps the player from stepping by
    /// `coordinate_movement`.
    pub fn check_next_block_barrier(&self, coordinate_movement: &Coordinate) -> (barrier: bool)
        requires
            representable(displaced(self@.player.position, coordinate_movement.pair())),
        ensures
            barrier == blocked(
                self@.board,
                displaced(self@.player.position, coordinate_movement.pair()),
            ),
    {
        let at = self.player.get_position();
        match self.map.get(at.x + coordinate_movement.x, at.y + coordinate_movement.y) {
            Some(Block::Barrier) => true,
            _ => false,
        }
    }

    /// Whether the step that `key` asks for can be stored.
    pub fn can_move(&self, viewport: Viewport, key: Key) -> (fits: bool)
        ensures
            fits == self@.fits(viewport, key),
    {
        match key.direction() {
            None => true,
            Some(by) => {
                let at = self.player.get_position();
                let x = at.x as i64 + by.x as i64;
                let y = at.y as i64 + by.y as i64;
                if x < i32::MIN as i64 || x > i32::MAX as i64 || y < i32::MIN as i64 || y
                    > i32::MAX as i64 {
                    false
                } else if self.check_next_block_barrier(&by) {
                    true
                } else {
                    let target = Coordinate { x: x as i32, y: y as i32 };
                    if viewport.contains(&target) {
                        true
                    } else {
                        let left = viewport.x as i64 + by.x as i64;
                        let top = viewport.y as i64 + by.y as i64;
                        i32::MIN as i64 <= left && left <= i32::MAX as i64 && i32::MIN as i64
                            <= top && top <= i32::MAX as i64
                    }
                }
            },
        }
    }

    /// Moves the player as `key` asks. A key that asks for no step, and a
    /// step into a barrier, leave the game as it is and give nothing. Any
    /// other step is made: the viewport follows the player if it has to, the
    /// block that was landed on is taken into account, and the event for the
    /// quest is made.
    pub fn game_move(&mut self, viewport: Viewport, key: Key) -> (landing: Option<Landing>)
        requires
            old(self)@.fits(viewport, key),
        ensures
            final(self)@ == old(self)@.moved(key),
            landing is Some <==> old(self)@.accepts(key),
            landing matches Some(landing) ==> {
                let target = old(self)@.target(key);
                &&& landing.viewport.pair() == followed(viewport, target, key.offset()->0)
                &&& told(landing.notification) == landing_notice(
                    final(self)@.player,
                    block_at(old(self)@.board, target),
                )
                &&& landing.event@ == old(self)@.event(key)
            },
    {
        let step = match key.direction() {
            Some(step) => step,
            None => {
                return None;
            },
        };
        if self.check_next_block_barrier(&step) {
            return None;
        }
        self.player.move_by(&step);
        let mut viewport = viewport;
        if !self.check_if_in_viewport(&viewport) {
            viewport.x = viewport.x + step.x;
            viewport.y = viewport.y + step.y;
        }
        let at = self.player.get_position();
        let mut notification: Option<Notification> = None;
        let event = match self.map.get(at.x, at.y) {
            Some(Block::Water) => {
                if self.player.move_in_water() {
                    notification = Some(Notification::Drowned);
                }
                GameQuestEvent { block: Block::Water, event_type: EventType::Walk }
            },
            Some(Block::Sign(text)) => {
                notification = Some(Notification::Sign(text.clone()));
                self.player.move_outside_water();
                GameQuestEvent { block: Block::Sign(text.clone()), event_type: EventType::Walk }
            },
            Some(Block::Object(name)) => {
                self.player.move_outside_water();
                GameQuestEvent { block: Block::Object(*name), event_type: EventType::Collect }
            },
            Some(block) => {
                self.player.move_outside_water();
                GameQuestEvent { block: block.clone(), event_type: EventType::Walk }
            },
            None => {
                self.player.move_outside_water();
                GameQuestEvent { block: Block::Barrier, event_type: EventType::Walk }
            },
        };
        Some(Landing { viewport, notification, event })
    }

    /// Takes one key as [`MyGame::on_event`] does if the step that it asks for
    /// can be stored, and leaves the game as it is and gives nothing if not.
    pub fn try_on_event(&mut self, viewport: Viewport, key: Key) -> (outcome: Option<Outcome>)
        ensures
            outcome is Some <==> old(self)@.fits(viewport, key),
            final(self)@ == if old(self)@.fits(viewport, key) {
                old(self)@.after(key)
            } else {
                old(self)@
            },
            outcome matches Some(outcome) ==> {
                &&& outcome.viewport.pair() == old(self)@.outcome(viewport, key).viewport
                &&& told(outcome.notification) == old(self)@.outcome(viewport, key).notification
                &&& outcome.session_over == old(self)@.outcome(viewport, key).session_over
            },
    {
        if self.can_move(viewport, key) {
            Some(self.on_event(viewport, key))
        } else {
            None
        }
    }

    /// Takes one key. `q` asks for the description of the quest, `r` resets
    /// the quest, and every other key is a move, of which the quest is told
    /// if it is made.
    pub fn on_event(&mut self, viewport: Viewport, key: Key) -> (outcome: Outcome)
        requires
            old(self)@.fits(viewport, key),
        ensures
            final(self)@ == old(self)@.after(key),
            outcome.viewport.pair() == old(self)@.outcome(viewport, key).viewport,
            told(outcome.notification) == old(self)@.outcome(viewport, key).notification,
            outcome.session_over == old(self)@.outcome(viewport, key).session_over,
    {
        match key {
            Key::Char('q') => Outcome {
                viewport,
                notification: Some(Notification::Status(self.quest.display())),
                session_over: false,
            },
            Key::Char('r') => {
                self.quest.reset();
                Outcome { viewport, notification: None, session_over: false }
            },
            _ => {
                let was_drowned = self.player.has_drowned();
                match self.game_move(viewport, key) {
                    None => Outcome { viewport, notification: None, session_over: false },
                    Some(landing) => {
                        let won = self.quest.register_event(&landing.event);
                        let drowned = !was_drowned && self.player.has_drowned();
                        Outcome {
                            viewport: landing.viewport,
                            notification: if won {
                                Some(Notification::Win)
                            } else {
                                landing.notification
                            },
                            session_over: won || drowned,
                        }
                    },
                }
            },
        }
    }
}

/// A step into a barrier changes nothing: the player, the board and the quest
/// stay as they are, the quest is told of nothing, the viewport stays, the
/// player is told nothing, and the game is not decided by it.
pub proof fn barrier_rejects_step(game: GameView, viewport: Viewport, key: Key)
    requires
        key.offset() is Some,
        blocked(game.board, game.target(key)),
    ensures
        !game.accepts(key),
        game.moved(key) == game,
        game.after(key) == game,
        game.outcome(viewport, key) == (OutcomeView {
            viewport: viewport.pair(),
            notification: None,
            session_over: false,
        }),
{
}

/// A key that is neither a step nor a command changes nothing.
pub proof fn unmapped_key_is_ignored(game: GameView, viewport: Viewport, key: Key)
    requires
        key.offset() is None,
        key != Key::Char('q'),
        key != Key::Char('r'),
    ensures
        game.after(key) == game,
        game.outcome(viewport, key) == (OutcomeView {
            viewport: viewport.pair(),
            notification: None,
            session_over: false,
        }),
{
}

/// No key changes the board, and no key brings a drowned player back.
pub proof fn drowned_is_final(game: GameView, key: Key)
    ensures
        game.after(key).board == game.board,
        game.player.drowned ==> game.after(key).player.drowned,
{
}

/// Every accepted step is one landing: on water the streak grows, and the
/// player is told of drowning by the landing at which the streak reaches the
/// drowning streak; anywhere else the streak ends. The quest is told of exactly the
/// block that was landed on.
pub proof fn accepted_step_lands(game: GameView, viewport: Viewport, key: Key)
    requires
        game.accepts(key),
    ensures
        game.after(key).player.position == game.target(key),
        block_at(game.board, game.target(key)) == Some(BlockView::Water) ==> game.after(
            key,
        ).player == (PlayerView { position: game.target(key), ..game.player }).in_water(),
        block_at(game.board, game.target(key)) != Some(BlockView::Water) ==> game.after(
            key,
        ).player.streak == 0 && game.after(key).player.drowned == game.player.drowned,
        game.after(key).quest == game.quest.step(game.event(key)),
        game.outcome(viewport, key).viewport == followed(
            viewport,
            game.target(key),
            key.offset()->0,
        ),
{
}

/// The viewport follows by the smallest shift: after an accepted step from
/// a cell that the screen showed, the screen shows the player again.
pub proof fn viewport_keeps_player_in_sight(game: GameView, viewport: Viewport, key: Key)
    requires
        game.accepts(key),
        viewport.shows(game.player.position),
    ensures
        ({
            let shifted = game.outcome(viewport, key).viewport;
            let at = game.after(key).player.position;
            &&& shifted.0 <= at.0 < shifted.0 + VIEW_WIDTH
            &&& shifted.1 <= at.1 < shifted.1 + VIEW_HEIGHT
        }),
{
}

} // verus!
