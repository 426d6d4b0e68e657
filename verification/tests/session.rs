use adventurers::block::Block;
use adventurers::board::Board;
use adventurers::coordinate::{Coordinate, CoordinateController};
use adventurers::game::{Key, MyGame, Notification, Viewport, VIEW_HEIGHT, VIEW_WIDTH};
use adventurers::game_quest::GameQuest;
use adventurers::player::{Player, DROWNING_STREAK};
use adventurers::quest::event::{EventType, QuestStatus};

const ORIGIN: Viewport = Viewport { x: 0, y: 0 };

fn board_of(cells: Vec<((i32, i32), Block)>) -> Board {
    let mut board = Board::new();
    for ((x, y), block) in cells {
        board.insert(x, y, block);
    }
    board
}

/// A row of `length` blocks of one kind to the right of the start, on row 3.
fn row(block: Block, length: i32) -> Vec<((i32, i32), Block)> {
    (0..length).map(|i| ((4 + i, 3), block.clone())).collect()
}

fn position(game: &MyGame) -> (i32, i32) {
    let at = game.player().get_position();
    (at.x, at.y)
}

#[test]
fn player_starts_dry_at_three_three() {
    let mut player = Player::new();
    assert_eq!(player.icon, '\u{2657}');
    assert_eq!(player.get_position(), Coordinate { x: 3, y: 3 });
    assert_eq!(player.get_x(), 3);
    assert_eq!(player.get_y(), 3);
    assert_eq!(player.blocks_in_water(), 0);
    assert!(!player.is_drowned());
    let mut other = Player::default();
    assert_eq!(other.get_position(), Coordinate { x: 3, y: 3 });
    assert!(!other.is_drowned());
}

#[test]
fn player_moves_by_offsets() {
    let mut player = Player::new();
    player.move_by(&Coordinate::move_up());
    assert_eq!(player.get_position(), Coordinate { x: 3, y: 2 });
    player.move_by(&Coordinate::move_left());
    assert_eq!(player.get_position(), Coordinate { x: 2, y: 2 });
    player.move_by(&Coordinate::move_down());
    player.move_by(&Coordinate::move_down());
    assert_eq!(player.get_position(), Coordinate { x: 2, y: 4 });
    player.move_by(&Coordinate::move_right());
    player.move_by(&Coordinate::stay_still());
    assert_eq!(player.get_position(), Coordinate { x: 3, y: 4 });
    player.move_by(&Coordinate { x: -10, y: 20 });
    assert_eq!((player.get_x(), player.get_y()), (-7, 24));
    assert_eq!(player.blocks_in_water(), 0);
}

#[test]
fn player_drowns_at_the_tenth_landing_on_water() {
    assert_eq!(DROWNING_STREAK, 10);
    let mut player = Player::new();
    for landing in 1..=9 {
        assert!(!player.move_in_water());
        assert_eq!(player.blocks_in_water(), landing);
        assert!(!player.is_drowned());
    }
    assert!(player.move_in_water());
    assert_eq!(player.blocks_in_water(), 10);
    assert!(player.is_drowned());
    assert!(player.has_drowned());
}

#[test]
fn landing_elsewhere_ends_the_streak() {
    let mut player = Player::new();
    for _ in 0..9 {
        assert!(!player.move_in_water());
    }
    player.move_outside_water();
    assert_eq!(player.blocks_in_water(), 0);
    for _ in 0..9 {
        assert!(!player.move_in_water());
    }
    assert!(!player.is_drowned());
    assert!(player.move_in_water());
    assert!(player.is_drowned());
}

#[test]
fn drowned_player_stays_drowned() {
    let mut player = Player::new();
    for _ in 0..10 {
        player.move_in_water();
    }
    assert!(!player.move_in_water());
    assert_eq!(player.blocks_in_water(), 11);
    assert!(player.is_drowned());
    player.move_outside_water();
    assert_eq!(player.blocks_in_water(), 0);
    assert!(player.is_drowned());
    for _ in 0..9 {
        assert!(!player.move_in_water());
    }
    assert!(player.move_in_water());
    assert!(!player.move_in_water());
    assert!(player.is_drowned());
}

#[test]
fn moving_right_then_down_walks_on_sand_and_collects() {
    let board = board_of(vec![
        ((3, 3), Block::Grass),
        ((4, 3), Block::Sand),
        ((4, 4), Block::Object('y')),
    ]);
    let mut game = MyGame::new(board, "q2");
    assert_eq!(position(&game), (3, 3));

    let landing = game.game_move(ORIGIN, Key::Right).expect("the step is free");
    assert_eq!(position(&game), (4, 3));
    assert_eq!(landing.event.block, Block::Sand);
    assert_eq!(landing.event.event_type, EventType::Walk);
    assert!(landing.notification.is_none());
    assert_eq!(landing.viewport, ORIGIN);

    let landing = game.game_move(ORIGIN, Key::Down).expect("the step is free");
    assert_eq!(position(&game), (4, 4));
    assert_eq!(landing.event.block, Block::Object('y'));
    assert_eq!(landing.event.event_type, EventType::Collect);
    assert!(landing.notification.is_none());
}

#[test]
fn barrier_rejects_the_step() {
    let mut cells = row(Block::Water, 3);
    cells.push(((7, 3), Block::Barrier));
    let mut game = MyGame::new(board_of(cells), "q1");
    for _ in 0..3 {
        game.on_event(ORIGIN, Key::Right);
    }
    let quest = game.quest().display();
    assert_eq!(position(&game), (6, 3));
    assert_eq!(game.player().blocks_in_water(), 3);

    assert!(game.can_move(ORIGIN, Key::Right));
    assert!(game.check_next_block_barrier(&Coordinate::move_right()));
    assert!(game.game_move(ORIGIN, Key::Right).is_none());
    let outcome = game.on_event(ORIGIN, Key::Right);
    assert!(outcome.notification.is_none());
    assert!(!outcome.session_over);
    assert_eq!(outcome.viewport, ORIGIN);
    assert_eq!(position(&game), (6, 3));
    assert_eq!(game.player().blocks_in_water(), 3);
    assert!(!game.player().has_drowned());
    assert_eq!(game.quest().display(), quest);
}

#[test]
fn barrier_does_not_feed_the_quest() {
    let board = board_of(vec![((3, 3), Block::Sand), ((4, 3), Block::Barrier)]);
    let mut game = MyGame::new(board, "q1");
    for _ in 0..20 {
        let outcome = game.on_event(ORIGIN, Key::Right);
        assert!(!outcome.session_over);
    }
    assert_eq!(game.quest().display(), GameQuest::Q1.get_guest().display());
}

#[test]
fn tenth_landing_on_water_drowns() {
    let mut game = MyGame::new(board_of(row(Block::Water, 12)), "q1");
    for _ in 0..9 {
        let outcome = game.on_event(ORIGIN, Key::Right);
        assert!(outcome.notification.is_none());
        assert!(!outcome.session_over);
        assert!(!game.player().has_drowned());
    }
    let outcome = game.on_event(ORIGIN, Key::Right);
    assert!(matches!(outcome.notification, Some(Notification::Drowned)));
    assert!(outcome.session_over);
    assert!(game.player().has_drowned());
    assert_eq!(game.player().blocks_in_water(), 10);
}

#[test]
fn game_goes_on_after_drowning() {
    let mut cells = row(Block::Water, 11);
    cells.push(((15, 3), Block::Grass));
    let mut game = MyGame::new(board_of(cells), "q1");
    for _ in 0..10 {
        game.on_event(ORIGIN, Key::Right);
    }
    let outcome = game.on_event(ORIGIN, Key::Right);
    assert_eq!(position(&game), (14, 3));
    assert_eq!(game.player().blocks_in_water(), 11);
    assert!(outcome.notification.is_none());
    assert!(!outcome.session_over);
    let outcome = game.on_event(ORIGIN, Key::Right);
    assert!(outcome.notification.is_none());
    assert!(!outcome.session_over);
    assert!(game.player().has_drowned());
    assert_eq!(game.player().blocks_in_water(), 0);
}

#[test]
fn one_landing_elsewhere_asks_for_ten_fresh_ones() {
    let mut cells = row(Block::Water, 9);
    cells.push(((13, 3), Block::Grass));
    for i in 0..10 {
        cells.push(((14 + i, 3), Block::Water));
    }
    let mut game = MyGame::new(board_of(cells), "q1");
    for _ in 0..9 {
        game.on_event(ORIGIN, Key::Right);
    }
    assert_eq!(game.player().blocks_in_water(), 9);
    game.on_event(ORIGIN, Key::Right);
    assert_eq!(game.player().blocks_in_water(), 0);
    for _ in 0..9 {
        let outcome = game.on_event(ORIGIN, Key::Right);
        assert!(outcome.notification.is_none());
        assert!(!game.player().has_drowned());
    }
    let outcome = game.on_event(ORIGIN, Key::Right);
    assert!(matches!(outcome.notification, Some(Notification::Drowned)));
    assert!(outcome.session_over);
}

#[test]
fn cell_without_terrain_ends_the_streak() {
    let mut game = MyGame::new(board_of(row(Block::Water, 2)), "q1");
    game.on_event(ORIGIN, Key::Right);
    game.on_event(ORIGIN, Key::Right);
    assert_eq!(game.player().blocks_in_water(), 2);
    let landing = game.game_move(ORIGIN, Key::Right).expect("nothing is in the way");
    assert_eq!(game.player().blocks_in_water(), 0);
    assert_eq!(landing.event.block, Block::Barrier);
    assert_eq!(landing.event.event_type, EventType::Walk);
    assert!(landing.notification.is_none());
}

#[test]
fn sign_shows_its_text() {
    let board = board_of(vec![
        ((4, 3), Block::Water),
        ((5, 3), Block::Sign(String::from("Beware of the water"))),
    ]);
    let mut game = MyGame::new(board, "q1");
    game.on_event(ORIGIN, Key::Right);
    let outcome = game.on_event(ORIGIN, Key::Right);
    let notification = outcome.notification.expect("the sign speaks");
    assert!(matches!(notification, Notification::Sign(_)));
    assert_eq!(notification.title(), "Message");
    assert_eq!(notification.text(), "Beware of the water");
    assert!(!outcome.session_over);
    assert_eq!(game.player().blocks_in_water(), 0);
}

#[test]
fn notifications_have_titles_and_texts() {
    assert_eq!(Notification::Drowned.title(), "Message");
    assert_eq!(Notification::Drowned.text(), "You are drowned.");
    assert_eq!(Notification::Win.title(), "Quest");
    assert_eq!(Notification::Win.text(), "YOU WIN!");
    assert_eq!(Notification::Status(String::from("so far")).title(), "Quest");
    assert_eq!(Notification::Status(String::from("so far")).text(), "so far");
    assert_eq!(Notification::Sign(String::from("YOU WIN!")).title(), "Message");
}

#[test]
fn fifth_walk_on_sand_wins_the_first_quest() {
    let mut game = MyGame::new(board_of(row(Block::Sand, 7)), "q1");
    for _ in 0..4 {
        let outcome = game.on_event(ORIGIN, Key::Right);
        assert!(outcome.notification.is_none());
        assert!(!outcome.session_over);
    }
    let outcome = game.on_event(ORIGIN, Key::Right);
    assert!(matches!(outcome.notification, Some(Notification::Win)));
    assert!(outcome.session_over);
    assert_eq!(game.quest().status(), QuestStatus::Complete);
    let outcome = game.on_event(ORIGIN, Key::Right);
    assert!(outcome.notification.is_none());
    assert!(!outcome.session_over);
}

#[test]
fn winning_is_told_rather_than_drowning() {
    let mut cells = vec![((4, 3), Block::Object('y')), ((5, 3), Block::Grass)];
    for i in 0..30 {
        cells.push(((6 + i, 3), Block::Water));
    }
    let mut game = MyGame::new(board_of(cells), "q3");
    game.on_event(ORIGIN, Key::Right);
    game.on_event(ORIGIN, Key::Right);
    for _ in 1..=9 {
        assert!(game.on_event(ORIGIN, Key::Right).notification.is_none());
    }
    let outcome = game.on_event(ORIGIN, Key::Right);
    assert!(matches!(outcome.notification, Some(Notification::Drowned)));
    assert!(outcome.session_over);
    for _ in 11..=26 {
        let outcome = game.on_event(ORIGIN, Key::Right);
        assert!(outcome.notification.is_none());
        assert!(!outcome.session_over);
    }
    let outcome = game.on_event(ORIGIN, Key::Right);
    assert!(matches!(outcome.notification, Some(Notification::Win)));
    assert!(outcome.session_over);
    let outcome = game.on_event(ORIGIN, Key::Right);
    assert!(outcome.notification.is_none());
    assert!(!outcome.session_over);
}

#[test]
fn winning_by_the_tenth_landing_is_told_as_a_win() {
    let mut cells = vec![((4, 3), Block::Object('y')), ((5, 3), Block::Grass)];
    for i in 0..17 {
        cells.push(((6 + i, 3), Block::Water));
    }
    cells.push(((23, 3), Block::Rock));
    for i in 0..10 {
        cells.push(((24 + i, 3), Block::Water));
    }
    let mut game = MyGame::new(board_of(cells), "q3");
    for _ in 0..2 + 17 + 1 + 9 {
        game.on_event(ORIGIN, Key::Right);
    }
    assert_eq!(game.player().blocks_in_water(), 9);
    let outcome = game.on_event(ORIGIN, Key::Right);
    assert_eq!(game.player().blocks_in_water(), 10);
    assert!(matches!(outcome.notification, Some(Notification::Win)));
    assert!(outcome.session_over);
}

#[test]
fn status_key_describes_the_quest_and_changes_nothing() {
    let mut game = MyGame::new(board_of(row(Block::Sand, 3)), "q1");
    game.on_event(ORIGIN, Key::Right);
    let outcome = game.on_event(Viewport { x: 5, y: -2 }, Key::Char('q'));
    let notification = outcome.notification.expect("the quest is described");
    assert!(matches!(notification, Notification::Status(_)));
    assert_eq!(notification.title(), "Quest");
    assert_eq!(notification.text(), "[ ] Walk on Sand: 1/5, cycle 0/1\n");
    assert_eq!(outcome.viewport, Viewport { x: 5, y: -2 });
    assert!(!outcome.session_over);
    assert_eq!(position(&game), (4, 3));
    assert_eq!(game.quest().display(), "[ ] Walk on Sand: 1/5, cycle 0/1\n");
}

#[test]
fn reset_key_resets_the_quest_and_nothing_else() {
    let mut game = MyGame::new(board_of(row(Block::Water, 3)), "q3");
    game.on_event(ORIGIN, Key::Right);
    game.on_event(ORIGIN, Key::Right);
    assert_ne!(game.quest().display(), GameQuest::Q3.get_guest().display());
    let outcome = game.on_event(ORIGIN, Key::Char('r'));
    assert!(outcome.notification.is_none());
    assert!(!outcome.session_over);
    assert_eq!(outcome.viewport, ORIGIN);
    assert_eq!(game.quest().display(), GameQuest::Q3.get_guest().display());
    assert_eq!(position(&game), (5, 3));
    assert_eq!(game.player().blocks_in_water(), 2);
}

#[test]
fn other_keys_are_ignored() {
    let mut game = MyGame::new(board_of(row(Block::Sand, 3)), "q1");
    for key in [Key::Other, Key::Char('x'), Key::Char('Q'), Key::Char(' ')] {
        assert!(game.can_move(ORIGIN, key));
        assert!(game.game_move(ORIGIN, key).is_none());
        let outcome = game.on_event(ORIGIN, key);
        assert!(outcome.notification.is_none());
        assert!(!outcome.session_over);
        assert_eq!(outcome.viewport, ORIGIN);
    }
    assert_eq!(position(&game), (3, 3));
    assert_eq!(game.quest().display(), GameQuest::Q1.get_guest().display());
}

#[test]
fn keys_name_their_steps() {
    assert_eq!(Key::Up.direction(), Some(Coordinate { x: 0, y: -1 }));
    assert_eq!(Key::Down.direction(), Some(Coordinate { x: 0, y: 1 }));
    assert_eq!(Key::Left.direction(), Some(Coordinate { x: -1, y: 0 }));
    assert_eq!(Key::Right.direction(), Some(Coordinate { x: 1, y: 0 }));
    assert_eq!(Key::Char('w').direction(), None);
    assert_eq!(Key::Other.direction(), None);
}

#[test]
fn viewport_shows_a_rectangle() {
    assert_eq!((VIEW_WIDTH, VIEW_HEIGHT), (77, 21));
    let viewport = Viewport { x: 10, y: -5 };
    assert!(viewport.contains(&Coordinate { x: 10, y: -5 }));
    assert!(viewport.contains(&Coordinate { x: 86, y: 15 }));
    assert!(!viewport.contains(&Coordinate { x: 87, y: 15 }));
    assert!(!viewport.contains(&Coordinate { x: 86, y: 16 }));
    assert!(!viewport.contains(&Coordinate { x: 9, y: 0 }));
    assert!(!viewport.contains(&Coordinate { x: 10, y: -6 }));
    let far = Viewport { x: i32::MAX, y: i32::MAX };
    assert!(far.contains(&Coordinate { x: i32::MAX, y: i32::MAX }));
    assert!(!far.contains(&Coordinate { x: i32::MIN, y: i32::MIN }));
}

#[test]
fn viewport_follows_by_the_step() {
    let mut game = MyGame::new(Board::new(), "q1");
    let mut viewport = ORIGIN;
    for _ in 0..73 {
        viewport = game.on_event(viewport, Key::Right).viewport;
        assert_eq!(viewport, ORIGIN);
    }
    assert_eq!(position(&game), (76, 3));
    assert!(game.check_if_in_viewport(&viewport));
    viewport = game.on_event(viewport, Key::Right).viewport;
    assert_eq!(viewport, Viewport { x: 1, y: 0 });
    assert!(game.check_if_in_viewport(&viewport));
    viewport = game.on_event(viewport, Key::Right).viewport;
    assert_eq!(viewport, Viewport { x: 2, y: 0 });
    viewport = game.on_event(viewport, Key::Left).viewport;
    assert_eq!(viewport, Viewport { x: 2, y: 0 });
    for _ in 0..4 {
        viewport = game.on_event(viewport, Key::Up).viewport;
    }
    assert_eq!(position(&game), (77, -1));
    assert_eq!(viewport, Viewport { x: 2, y: -1 });
}

#[test]
fn viewport_that_lost_the_player_moves_with_it() {
    let mut game = MyGame::new(Board::new(), "q1");
    let away = Viewport { x: 100, y: 100 };
    assert!(!game.check_if_in_viewport(&away));
    let outcome = game.on_event(away, Key::Down);
    assert_eq!(outcome.viewport, Viewport { x: 100, y: 101 });
}

#[test]
fn steps_that_cannot_be_stored_are_told_apart() {
    let game = MyGame::new(Board::new(), "q1");
    assert!(game.can_move(ORIGIN, Key::Left));
    assert!(game.can_move(Viewport { x: i32::MAX, y: 0 }, Key::Left));
    assert!(!game.can_move(Viewport { x: i32::MAX, y: 0 }, Key::Right));
    assert!(!game.can_move(Viewport { x: 0, y: i32::MIN }, Key::Up));
    assert!(game.can_move(Viewport { x: 0, y: i32::MIN }, Key::Char('q')));
    let walled = MyGame::new(board_of(vec![((4, 3), Block::Barrier)]), "q1");
    assert!(walled.can_move(Viewport { x: i32::MAX, y: 0 }, Key::Right));
}

#[test]
fn step_that_cannot_be_stored_is_not_taken() {
    let mut game = MyGame::new(Board::new(), "q1");
    let edge = Viewport { x: i32::MAX, y: 0 };
    assert!(game.try_on_event(edge, Key::Right).is_none());
    assert_eq!(position(&game), (3, 3));
    let outcome = game.try_on_event(edge, Key::Left).expect("the step can be stored");
    assert_eq!(outcome.viewport, Viewport { x: i32::MAX - 1, y: 0 });
    assert_eq!(position(&game), (2, 3));
    let outcome = game.try_on_event(ORIGIN, Key::Right).expect("the step can be stored");
    assert_eq!(outcome.viewport, ORIGIN);
    assert_eq!(position(&game), (3, 3));
}

#[test]
fn game_finds_the_block_of_a_cell() {
    let game = MyGame::new(
        board_of(vec![((3, 3), Block::Grass), ((-2, 9), Block::Sign(String::from("x")))]),
        "q2",
    );
    assert_eq!(game.get_current_block(&Coordinate { x: 3, y: 3 }), Some(&Block::Grass));
    assert_eq!(
        game.get_current_block(&Coordinate { x: -2, y: 9 }),
        Some(&Block::Sign(String::from("x")))
    );
    assert_eq!(game.get_current_block(&Coordinate { x: 9, y: -2 }), None);
    assert_eq!(game.quest().display(), GameQuest::Q2.get_guest().display());
}

#[test]
fn session_plays_the_second_quest_to_the_end() {
    let mut cells = row(Block::Sand, 5);
    cells.push(((9, 3), Block::Object('y')));
    cells.push(((10, 3), Block::Object('y')));
    cells.push(((11, 3), Block::Object('y')));
    let mut game = MyGame::new(board_of(cells), "q2");
    for _ in 0..7 {
        let outcome = game.on_event(ORIGIN, Key::Right);
        assert!(!outcome.session_over);
    }
    let outcome = game.on_event(ORIGIN, Key::Right);
    assert!(matches!(outcome.notification, Some(Notification::Win)));
    assert!(outcome.session_over);
}
