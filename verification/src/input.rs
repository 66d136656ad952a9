//! The decoded keyboard input that the host hands to the games.
//!
//! The host's keyboard decoder is an external collaborator: it turns raw
//! scancodes into either a named raw key or a unicode character.  The
//! variants here carry exactly what the game logic reads of such an event.

use vstd::prelude::*;
use crate::grid::Dir;

verus! {

/// A raw (non-printing) key, at the fidelity the games distinguish.
#[derive(Debug, Copy, Clone, Eq, PartialEq, Structural)]
pub enum RawKey {
    ArrowUp,
    ArrowDown,
    ArrowLeft,
    ArrowRight,
    KeyS,
    Other,
}

/// One decoded keyboard event.
#[derive(Debug, Copy, Clone, Eq, PartialEq, Structural)]
pub enum Key {
    RawKey(RawKey),
    Unicode(char),
}

/// The fixed mapping from decoded input to a directional intent:
/// up-arrow or `w` is north, down-arrow or `s` is south, left-arrow or
/// `a` is west, right-arrow or `d` is east; everything else is none.
pub open spec fn spec_key2dir(key: Option<Key>) -> Option<Dir> {
    match key {
        None => None,
        Some(Key::RawKey(RawKey::ArrowUp)) => Some(Dir::N),
        Some(Key::RawKey(RawKey::ArrowDown)) => Some(Dir::S),
        Some(Key::RawKey(RawKey::ArrowLeft)) => Some(Dir::W),
        Some(Key::RawKey(RawKey::ArrowRight)) => Some(Dir::E),
        Some(Key::RawKey(_)) => None,
        Some(Key::Unicode(c)) => if c == 'w' {
            Some(Dir::N)
        } else if c == 'a' {
            Some(Dir::W)
        } else if c == 's' {
            Some(Dir::S)
        } else if c == 'd' {
            Some(Dir::E)
        } else {
            None
        },
    }
}

pub fn key2dir(key: Option<Key>) -> (r: Option<Dir>)
    ensures
        r == spec_key2dir(key),
{
    match key {
        None => None,
        Some(key) => match key {
            Key::RawKey(k) => match k {
                RawKey::ArrowUp => Some(Dir::N),
                RawKey::ArrowDown => Some(Dir::S),
                RawKey::ArrowLeft => Some(Dir::W),
                RawKey::ArrowRight => Some(Dir::E),
                _ => None,
            },
            Key::Unicode(c) => match c {
                'w' => Some(Dir::N),
                'a' => Some(Dir::W),
                's' => Some(Dir::S),
                'd' => Some(Dir::E),
                _ => None,
            },
        },
    }
}

/// Whether a decoded input is the restart request honored while the
/// maze game is over: the raw S key or the character `s`.
pub open spec fn spec_is_restart(key: Option<Key>) -> bool {
    key == Some(Key::RawKey(RawKey::KeyS)) || key == Some(Key::Unicode('s'))
}

} // verus!
