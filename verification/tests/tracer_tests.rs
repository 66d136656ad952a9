use maze_games::grid::{Dir, Position};
use maze_games::input::{Key, RawKey};
use maze_games::tracer::{Cell, TracerGame};

#[test]
fn test_new_game_traces_center() {
    let game = TracerGame::new();
    // the initial eastward latch has already been applied once
    assert_eq!(game.pos, Position { col: 41, row: 12 });
    assert_eq!(game.cell(Position { col: 40, row: 12 }), Cell::Trace(Dir::E));
    assert_eq!(game.cell(Position { col: 41, row: 12 }), Cell::Empty);
    assert_eq!(game.last_key, None);
    assert_eq!(game.countdown, 1);
}

#[test]
fn test_key_then_ticks_move_cursor() {
    let mut game = TracerGame::new();
    game.key(Some(Key::Unicode('w')));
    assert_eq!(game.last_key, Some(Dir::N));
    assert!(!game.tick());
    assert_eq!(game.pos, Position { col: 41, row: 12 });
    assert!(game.tick());
    assert_eq!(game.pos, Position { col: 41, row: 11 });
    assert_eq!(game.cell(Position { col: 41, row: 12 }), Cell::Trace(Dir::N));
}

#[test]
fn test_move_off_display_is_dropped() {
    let mut game = TracerGame::new();
    game.pos = Position { col: 79, row: 12 };
    game.key(Some(Key::RawKey(RawKey::ArrowRight)));
    game.update();
    assert_eq!(game.pos, Position { col: 79, row: 12 });
    assert_eq!(game.cell(Position { col: 79, row: 12 }), Cell::Trace(Dir::E));
    assert_eq!(game.last_key, None);
}

#[test]
fn test_unrecognized_key_keeps_latch() {
    let mut game = TracerGame::new();
    game.key(Some(Key::Unicode('a')));
    game.key(Some(Key::Unicode('q')));
    game.key(None);
    assert_eq!(game.last_key, Some(Dir::W));
    game.key(Some(Key::Unicode('s')));
    assert_eq!(game.last_key, Some(Dir::S));
}

#[test]
fn test_update_without_latch_is_still() {
    let mut game = TracerGame::new();
    let pos = game.pos;
    game.update();
    assert_eq!(game.pos, pos);
    assert_eq!(game.cell(pos), Cell::Empty);
}

#[test]
fn test_trace_icons() {
    assert_eq!(Cell::Trace(Dir::N).to_icon(), '^');
    assert_eq!(Cell::Trace(Dir::S).to_icon(), 'v');
    assert_eq!(Cell::Trace(Dir::E).to_icon(), '>');
    assert_eq!(Cell::Trace(Dir::W).to_icon(), '<');
    assert_eq!(Cell::Empty.to_icon(), ' ');
}
