//! Compass directions and grid positions shared by both game variants.

use vstd::prelude::*;

verus! {

/// Width of the character display, in columns.
pub const BUFFER_WIDTH: usize = 80;

/// Height of the character display, in rows.
pub const BUFFER_HEIGHT: usize = 25;

/// A 4-way compass direction.
#[derive(Debug, Copy, Clone, Eq, PartialEq, Structural)]
pub enum Dir {
    N,
    S,
    E,
    W,
}

impl Dir {
    /// The player glyph when facing this direction with the mouth open.
    pub open spec fn spec_icon(self) -> char {
        match self {
            Dir::N => 'v',
            Dir::S => '^',
            Dir::E => '<',
            Dir::W => '>',
        }
    }

    pub fn icon(&self) -> (c: char)
        ensures
            c == self.spec_icon(),
    {
        match self {
            Dir::N => 'v',
            Dir::S => '^',
            Dir::E => '<',
            Dir::W => '>',
        }
    }

    /// The opposite direction.
    pub open spec fn spec_reverse(self) -> Dir {
        match self {
            Dir::N => Dir::S,
            Dir::S => Dir::N,
            Dir::E => Dir::W,
            Dir::W => Dir::E,
        }
    }

    pub fn reverse(&self) -> (d: Dir)
        ensures
            d == self.spec_reverse(),
    {
        match self {
            Dir::N => Dir::S,
            Dir::S => Dir::N,
            Dir::E => Dir::W,
            Dir::W => Dir::E,
        }
    }

    /// The direction one quarter turn counterclockwise.
    pub open spec fn spec_left(self) -> Dir {
        match self {
            Dir::N => Dir::W,
            Dir::S => Dir::E,
            Dir::E => Dir::N,
            Dir::W => Dir::S,
        }
    }

    pub fn left(&self) -> (d: Dir)
        ensures
            d == self.spec_left(),
    {
        match self {
            Dir::N => Dir::W,
            Dir::S => Dir::E,
            Dir::E => Dir::N,
            Dir::W => Dir::S,
        }
    }

    /// The direction one quarter turn clockwise.
    pub open spec fn spec_right(self) -> Dir {
        match self {
            Dir::N => Dir::E,
            Dir::S => Dir::W,
            Dir::E => Dir::S,
            Dir::W => Dir::N,
        }
    }

    pub fn right(&self) -> (d: Dir)
        ensures
            d == self.spec_right(),
    {
        match self {
            Dir::N => Dir::E,
            Dir::S => Dir::W,
            Dir::E => Dir::S,
            Dir::W => Dir::N,
        }
    }

    /// Whether a glyph denotes a player spawn, with its initial facing.
    pub open spec fn spec_from_icon(icon: char) -> Dir {
        match icon {
            '^' => Dir::S,
            'v' => Dir::N,
            '>' => Dir::W,
            _ => Dir::E,
        }
    }

    /// Parses a player glyph into the direction it denotes.
    pub fn from_icon(icon: char) -> (d: Dir)
        requires
            icon == '^' || icon == 'v' || icon == '>' || icon == '<',
        ensures
            d == Dir::spec_from_icon(icon),
    {
        match icon {
            '^' => Dir::S,
            'v' => Dir::N,
            '>' => Dir::W,
            _ => Dir::E,
        }
    }
}

/// Rotating left then right, or right then left, returns to the same
/// direction, and reversing twice does as well.
pub proof fn lemma_rotation_involutions(d: Dir)
    ensures
        d.spec_right().spec_left() == d,
        d.spec_left().spec_right() == d,
        d.spec_reverse().spec_reverse() == d,
{
}

/// A signed grid coordinate.  Column grows eastward, row grows southward.
#[derive(Debug, Copy, Clone, Eq, PartialEq, Structural)]
pub struct Position {
    pub col: i16,
    pub row: i16,
}

impl Position {
    /// Whether the position lies on the character display.
    pub open spec fn spec_is_legal(self) -> bool {
        0 <= self.col < BUFFER_WIDTH && 0 <= self.row < BUFFER_HEIGHT
    }

    pub fn is_legal(&self) -> (r: bool)
        ensures
            r == self.spec_is_legal(),
    {
        0 <= self.col && self.col < BUFFER_WIDTH as i16 && 0 <= self.row && self.row
            < BUFFER_HEIGHT as i16
    }

    /// The coordinates as unsigned indices, row first.
    pub fn row_col(&self) -> (rc: (usize, usize))
        requires
            0 <= self.row,
            0 <= self.col,
        ensures
            rc.0 == self.row,
            rc.1 == self.col,
    {
        (self.row as usize, self.col as usize)
    }

    /// The adjacent position one step in direction `d`, without clamping.
    pub open spec fn spec_neighbor(self, d: Dir) -> Position {
        match d {
            Dir::N => Position { row: (self.row - 1) as i16, col: self.col },
            Dir::S => Position { row: (self.row + 1) as i16, col: self.col },
            Dir::E => Position { row: self.row, col: (self.col + 1) as i16 },
            Dir::W => Position { row: self.row, col: (self.col - 1) as i16 },
        }
    }

    pub fn neighbor(&self, d: Dir) -> (p: Position)
        requires
            d == Dir::N ==> self.row > i16::MIN,
            d == Dir::S ==> self.row < i16::MAX,
            d == Dir::E ==> self.col < i16::MAX,
            d == Dir::W ==> self.col > i16::MIN,
        ensures
            p == self.spec_neighbor(d),
    {
        match d {
            Dir::N => Position { row: self.row - 1, col: self.col },
            Dir::S => Position { row: self.row + 1, col: self.col },
            Dir::E => Position { row: self.row, col: self.col + 1 },
            Dir::W => Position { row: self.row, col: self.col - 1 },
        }
    }
}

/// The index of a position in a row-major cell vector of display width.
pub open spec fn cell_index(p: Position) -> int {
    p.row * BUFFER_WIDTH + p.col
}

/// Stepping in a direction and then in its reverse returns to the start,
/// whenever the first step stays within the coordinate type.
pub proof fn lemma_neighbor_round_trip(p: Position, d: Dir)
    requires
        d == Dir::N ==> p.row > i16::MIN,
        d == Dir::S ==> p.row < i16::MAX,
        d == Dir::E ==> p.col < i16::MAX,
        d == Dir::W ==> p.col > i16::MIN,
    ensures
        p.spec_neighbor(d).spec_neighbor(d.spec_reverse()) == p,
{
}

} // verus!
