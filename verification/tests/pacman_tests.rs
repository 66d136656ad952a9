use maze_games::grid::{Dir, Position};
use maze_games::input::{Key, RawKey};
use maze_games::pacman::{Adversary, Cell, Color, ColorCode, PacmanGame, Status};

#[test]
fn first_few_moves() {
    let mut game = PacmanGame::new();
    let tests = [
        ('w', 0, 0, 0),
        ('a', -1, 0, 1),
        ('a', -1, 0, 2),
        ('a', -1, 0, 3),
        ('a', -1, 0, 4),
        ('s', 0, 1, 5),
        ('s', 0, 1, 6),
        ('s', 0, 1, 7),
        ('s', 0, 1, 8),
        ('s', 0, 1, 9),
        ('s', 0, 1, 10),
        ('s', 0, 1, 11),
        ('s', 0, 0, 11),
        ('d', 1, 0, 12),
        ('d', 1, 0, 13),
        ('d', 1, 0, 14),
        ('d', 1, 0, 15),
        ('d', 1, 0, 16),
        ('d', 1, 0, 17),
        ('w', 0, -1, 18),
        ('w', 0, -1, 19),
        ('w', 0, -1, 20),
        ('w', 0, -1, 21),
        ('w', 0, -1, 22),
        ('w', 0, -1, 23),
        ('w', 0, -1, 24),
        ('w', 0, 0, 24),
    ];
    for (key, col_diff, row_diff, score) in tests.iter() {
        let was = game.pacman.pos;
        game.key(Some(Key::Unicode(*key)));
        game.update();
        assert_eq!(game.pacman.pos.col - was.col, *col_diff);
        assert_eq!(game.pacman.pos.row - was.row, *row_diff);
        assert_eq!(game.dots_eaten, *score);
    }
}

#[test]
fn test_icons() {
    let game = PacmanGame::new();
    let tests = [
        (game.pacman.pos, Color::Yellow, '<'),
        (game.pacman.pos.neighbor(Dir::N), Color::Blue, '#'),
        (game.pacman.pos.neighbor(Dir::W), Color::White, '.'),
        (game.ghosts[0].pos, Color::Red, 'A'),
        (Position { row: 5, col: 8 }, Color::Green, 'O'),
    ];

    for (pos, foreground, icon) in tests.iter() {
        assert_eq!(
            game.get_icon_color(*pos, game.cell(*pos)),
            (*icon, ColorCode::new(*foreground, Color::Black))
        );
    }
}

#[test]
fn test_ghost_ai() {
    let mut ghost = Adversary {
        pos: Position { col: 10, row: 15 },
        dir: Dir::N,
        color: Color::Black,
    };
    assert!(ghost.on_my_left(Position { col: 8, row: 15 }));
    assert!(ghost.on_my_right(Position { col: 12, row: 15 }));
    assert!(!ghost.on_my_right(Position { col: 8, row: 15 }));
    assert!(!ghost.on_my_left(Position { col: 12, row: 15 }));

    ghost.pos.col = 1;
    ghost.dir = Dir::W;
    ghost.go(Cell::Wall, Cell::Empty, Cell::Wall, Position { col: 2, row: 15 });
    assert_eq!(ghost.dir, Dir::S);
    assert_eq!(ghost.pos, Position { col: 1, row: 16 });
}

#[test]
fn test_above_left_right() {
    let game = PacmanGame::new();
    let tests = [
        (Dir::W, Cell::Wall, Cell::Dot, Cell::Wall),
        (Dir::N, Cell::Wall, Cell::Wall, Cell::Dot),
        (Dir::E, Cell::Dot, Cell::Wall, Cell::Dot),
        (Dir::S, Cell::Dot, Cell::Dot, Cell::Wall),
    ];

    for (dir, ahead, left, right) in tests.iter() {
        let (a, l, r) = game.ahead_left_right(Position { col: 1, row: 1 }, *dir);
        assert_eq!(a, *ahead);
        assert_eq!(l, *left);
        assert_eq!(r, *right);
    }
}

#[test]
fn test_exit_screen_bug() {
    let mut game = PacmanGame::new();
    game.ghosts[1].pos = Position { row: 1, col: 1 };
    game.ghosts[1].dir = Dir::W;
    let (ahead, left, right) = game.ahead_left_right(game.ghosts[1].pos, game.ghosts[1].dir);
    let mut adversary = game.ghosts[1];
    adversary.go(ahead, left, right, game.pacman.pos);
    assert_eq!(adversary.dir, Dir::S);
    assert_eq!(adversary.pos, Position { row: 2, col: 1 });
}

#[test]
fn test_initial_state() {
    let game = PacmanGame::new();
    assert_eq!(game.pacman.pos, Position { col: 39, row: 10 });
    assert_eq!(game.pacman.dir, Dir::E);
    assert!(game.pacman.mouth_open);
    assert_eq!(game.dots_eaten, 0);
    assert_eq!(game.status, Status::NORMAL);
    assert_eq!(game.last_key, None);
    assert_eq!(game.ghosts.len(), 4);
    assert_eq!(game.ghosts[0].pos, Position { col: 10, row: 1 });
    assert_eq!(game.ghosts[0].color, Color::Red);
    assert_eq!(game.ghosts[0].dir, Dir::E);
    assert_eq!(game.ghosts[1].pos, Position { col: 71, row: 1 });
    assert_eq!(game.ghosts[1].color, Color::Pink);
    assert_eq!(game.ghosts[2].pos, Position { col: 10, row: 21 });
    assert_eq!(game.ghosts[2].color, Color::LightGreen);
    assert_eq!(game.ghosts[3].pos, Position { col: 71, row: 21 });
    assert_eq!(game.ghosts[3].color, Color::Cyan);
}

#[test]
fn test_blocked_move_is_dropped() {
    let mut game = PacmanGame::new();
    let pos = game.pacman.pos;
    let dir = game.pacman.dir;
    game.key(Some(Key::Unicode('w')));
    game.update();
    assert_eq!(game.pacman.pos, pos);
    assert_eq!(game.pacman.dir, dir);
    assert_eq!(game.dots_eaten, 0);
    assert_eq!(game.last_key, None);
}

#[test]
fn test_eating_empties_cell() {
    let mut game = PacmanGame::new();
    let target = Position { col: 38, row: 10 };
    assert_eq!(game.cell(target), Cell::Dot);
    game.key(Some(Key::Unicode('a')));
    game.update();
    assert_eq!(game.pacman.pos, target);
    assert_eq!(game.pacman.dir, Dir::W);
    assert_eq!(game.dots_eaten, 1);
    assert_eq!(game.cell(target), Cell::Empty);
    // stepping back and forth does not refill the cell or score again
    game.key(Some(Key::Unicode('d')));
    game.update();
    game.key(Some(Key::Unicode('a')));
    game.update();
    assert_eq!(game.pacman.pos, target);
    assert_eq!(game.dots_eaten, 2);
    assert_eq!(game.cell(target), Cell::Empty);
}

#[test]
fn test_power_dot_scores_one() {
    let mut game = PacmanGame::new();
    let power = Position { col: 8, row: 5 };
    assert_eq!(game.cell(power), Cell::PowerDot);
    game.pacman.pos = Position { col: 9, row: 5 };
    game.key(Some(Key::Unicode('a')));
    game.update();
    assert_eq!(game.pacman.pos, power);
    assert_eq!(game.dots_eaten, 1);
    assert_eq!(game.cell(power), Cell::Empty);
    assert_eq!(game.status, Status::NORMAL);
}

#[test]
fn test_latch_coalesces_to_latest() {
    let mut game = PacmanGame::new();
    game.key(Some(Key::Unicode('w')));
    game.key(Some(Key::RawKey(RawKey::ArrowLeft)));
    assert_eq!(game.last_key, Some(Dir::W));
    game.update();
    assert_eq!(game.pacman.pos, Position { col: 38, row: 10 });
    // an unrecognized key leaves the latch alone
    game.key(Some(Key::Unicode('d')));
    game.key(Some(Key::Unicode('x')));
    game.key(None);
    assert_eq!(game.last_key, Some(Dir::E));
}

#[test]
fn test_mouth_animation() {
    let mut game = PacmanGame::new();
    assert!(game.pacman.mouth_open);
    assert_eq!(game.pacman.icon(), '<');
    game.update();
    assert!(!game.pacman.mouth_open);
    assert_eq!(game.pacman.icon(), '-');
    for _ in 0..4 {
        game.key(Some(Key::Unicode('a')));
        game.update();
    }
    assert_eq!(game.pacman.icon(), '-');
    game.key(Some(Key::Unicode('s')));
    game.update();
    assert_eq!(game.pacman.dir, Dir::S);
    assert_eq!(game.pacman.icon(), '^');
    game.update();
    assert_eq!(game.pacman.icon(), '|');
}

#[test]
fn test_tick_countdown() {
    let mut game = PacmanGame::new();
    assert_eq!(game.countdown, 3);
    assert!(!game.tick());
    assert!(!game.tick());
    assert!(!game.tick());
    assert_eq!(game.countdown, 0);
    let before = game.pacman.mouth_open;
    assert!(game.tick());
    assert_eq!(game.countdown, 3);
    assert_eq!(game.pacman.mouth_open, !before);
}

#[test]
fn test_collision_game_over_freeze_and_restart() {
    let mut game = PacmanGame::new();
    game.key(Some(Key::Unicode('a')));
    game.update();
    assert_eq!(game.dots_eaten, 1);
    let eaten = Position { col: 38, row: 10 };
    assert_eq!(game.cell(eaten), Cell::Empty);

    // an adversary two cells east of the player walks straight into it
    game.ghosts[0].pos = Position { col: 40, row: 10 };
    game.ghosts[0].dir = Dir::W;
    game.update();
    assert_eq!(game.ghosts[0].pos, Position { col: 39, row: 10 });
    assert_eq!(game.status, Status::NORMAL);
    game.update();
    assert_eq!(game.ghosts[0].pos, game.pacman.pos);
    assert_eq!(game.status, Status::OVER);

    // the defeated player renders as '*'
    assert_eq!(
        game.get_icon_color(game.pacman.pos, game.cell(game.pacman.pos)),
        ('*', ColorCode::new(Color::Yellow, Color::Black))
    );

    // while game over, ticks freeze the board entirely
    let pac = game.pacman.pos;
    let ghosts = [
        game.ghosts[0].pos,
        game.ghosts[1].pos,
        game.ghosts[2].pos,
        game.ghosts[3].pos,
    ];
    for _ in 0..8 {
        game.tick();
    }
    assert_eq!(game.pacman.pos, pac);
    assert_eq!(game.ghosts[0].pos, ghosts[0]);
    assert_eq!(game.ghosts[1].pos, ghosts[1]);
    assert_eq!(game.ghosts[2].pos, ghosts[2]);
    assert_eq!(game.ghosts[3].pos, ghosts[3]);
    assert_eq!(game.dots_eaten, 1);
    assert_eq!(game.status, Status::OVER);

    // directional input is ignored while game over
    game.key(Some(Key::Unicode('w')));
    assert_eq!(game.last_key, None);
    assert_eq!(game.status, Status::OVER);

    // the restart input rebuilds the whole maze
    game.key(Some(Key::RawKey(RawKey::KeyS)));
    assert_eq!(game.status, Status::NORMAL);
    assert_eq!(game.dots_eaten, 0);
    assert_eq!(game.cell(eaten), Cell::Dot);
    assert_eq!(game.pacman.pos, Position { col: 39, row: 10 });
    assert_eq!(game.pacman.dir, Dir::E);
    assert_eq!(game.ghosts[0].pos, Position { col: 10, row: 1 });
    assert_eq!(game.last_key, None);
}

#[test]
fn test_adversary_keeps_course_when_player_ahead() {
    let game = PacmanGame::new();
    // facing the player along its own travel axis: neither left nor right
    let ghost = Adversary {
        pos: Position { col: 41, row: 10 },
        dir: Dir::W,
        color: Color::Red,
    };
    assert!(ghost.ahead_or_behind(game.pacman.pos));
    assert!(!ghost.on_my_left(game.pacman.pos));
    assert!(!ghost.on_my_right(game.pacman.pos));
}

#[test]
fn test_first_adversary_wins_overlay() {
    let mut game = PacmanGame::new();
    let spot = Position { col: 20, row: 10 };
    game.ghosts[0].pos = spot;
    game.ghosts[1].pos = spot;
    assert_eq!(
        game.get_icon_color(spot, game.cell(spot)),
        ('A', ColorCode::new(Color::Red, Color::Black))
    );
}

#[test]
fn test_empowered_latches_input_like_normal() {
    let mut game = PacmanGame::new();
    game.status = Status::EMPOWERED;
    game.key(Some(Key::Unicode('a')));
    assert_eq!(game.last_key, Some(Dir::W));
    // the restart interception applies only while the game is over
    game.key(Some(Key::Unicode('s')));
    assert_eq!(game.last_key, Some(Dir::S));
    assert_eq!(game.status, Status::EMPOWERED);
}
