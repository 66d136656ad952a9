use maze_games::grid::{Dir, Position};
use maze_games::input::{key2dir, Key, RawKey};

#[test]
fn test_neighbor_dir() {
    let p = Position { col: 4, row: 2 };
    for (d, col, row) in [
        (Dir::N, 4, 1),
        (Dir::S, 4, 3),
        (Dir::E, 5, 2),
        (Dir::W, 3, 2),
    ]
    .iter()
    {
        assert_eq!(p.neighbor(*d), Position { col: *col, row: *row });
    }
}

#[test]
fn test_neighbor_round_trip() {
    let p = Position { col: 10, row: 10 };
    for d in [Dir::N, Dir::S, Dir::E, Dir::W].iter() {
        assert_eq!(p.neighbor(*d).neighbor(d.reverse()), p);
    }
}

#[test]
fn test_rotation_involutions() {
    for d in [Dir::N, Dir::S, Dir::E, Dir::W].iter() {
        assert_eq!(d.right().left(), *d);
        assert_eq!(d.left().right(), *d);
        assert_eq!(d.reverse().reverse(), *d);
    }
}

#[test]
fn test_rotation_values() {
    assert_eq!(Dir::N.right(), Dir::E);
    assert_eq!(Dir::E.right(), Dir::S);
    assert_eq!(Dir::S.right(), Dir::W);
    assert_eq!(Dir::W.right(), Dir::N);
    assert_eq!(Dir::N.left(), Dir::W);
    assert_eq!(Dir::N.reverse(), Dir::S);
    assert_eq!(Dir::E.reverse(), Dir::W);
}

#[test]
fn test_dir_icons() {
    assert_eq!(Dir::N.icon(), 'v');
    assert_eq!(Dir::S.icon(), '^');
    assert_eq!(Dir::E.icon(), '<');
    assert_eq!(Dir::W.icon(), '>');
    assert_eq!(Dir::from_icon('^'), Dir::S);
    assert_eq!(Dir::from_icon('v'), Dir::N);
    assert_eq!(Dir::from_icon('>'), Dir::W);
    assert_eq!(Dir::from_icon('<'), Dir::E);
}

#[test]
fn test_is_legal_bounds() {
    assert!(Position { col: 0, row: 0 }.is_legal());
    assert!(Position { col: 79, row: 24 }.is_legal());
    assert!(!Position { col: -1, row: 0 }.is_legal());
    assert!(!Position { col: 0, row: -1 }.is_legal());
    assert!(!Position { col: 80, row: 0 }.is_legal());
    assert!(!Position { col: 0, row: 25 }.is_legal());
}

#[test]
fn test_row_col() {
    assert_eq!(Position { col: 7, row: 3 }.row_col(), (3, 7));
}

#[test]
fn test_key2dir_mappings() {
    assert_eq!(key2dir(Some(Key::Unicode('w'))), Some(Dir::N));
    assert_eq!(key2dir(Some(Key::Unicode('a'))), Some(Dir::W));
    assert_eq!(key2dir(Some(Key::Unicode('s'))), Some(Dir::S));
    assert_eq!(key2dir(Some(Key::Unicode('d'))), Some(Dir::E));
    assert_eq!(key2dir(Some(Key::RawKey(RawKey::ArrowUp))), Some(Dir::N));
    assert_eq!(key2dir(Some(Key::RawKey(RawKey::ArrowDown))), Some(Dir::S));
    assert_eq!(key2dir(Some(Key::RawKey(RawKey::ArrowLeft))), Some(Dir::W));
    assert_eq!(key2dir(Some(Key::RawKey(RawKey::ArrowRight))), Some(Dir::E));
    assert_eq!(key2dir(Some(Key::RawKey(RawKey::KeyS))), None);
    assert_eq!(key2dir(Some(Key::RawKey(RawKey::Other))), None);
    assert_eq!(key2dir(Some(Key::Unicode('x'))), None);
    assert_eq!(key2dir(None), None);
}
