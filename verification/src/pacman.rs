//! The maze-chase variant: a player eats dots in a fixed maze while four
//! autonomous adversaries hunt it.  The whole game state machine lives
//! here: maze construction from the static layout, player move
//! resolution, the adversary pathing policy, collision and scoring, the
//! status machine, and the per-cell glyph/color computation that a host
//! turns into display writes.

use vstd::prelude::*;
use vstd::string::*;
use vstd::arithmetic::div_mod::{lemma_fundamental_div_mod, lemma_mod_division_less_than_divisor};
use crate::grid::{Dir, Position, cell_index, BUFFER_WIDTH, BUFFER_HEIGHT};
use crate::input::{Key, RawKey, key2dir, spec_key2dir, spec_is_restart};

verus! {

/// Rows of the maze grid; the display rows above it form the header.
pub const PACMAN_HEIGHT: usize = 23;

/// Display rows reserved above the maze for score and status text.
pub const HEADER_SPACE: usize = BUFFER_HEIGHT - PACMAN_HEIGHT;

/// The simulation advances once every this many host ticks.
pub const UPDATE_FREQUENCY: usize = 3;

/// Number of cells of the maze grid.
pub const CELL_COUNT: usize = PACMAN_HEIGHT * BUFFER_WIDTH;

/// One cell of the maze.
#[derive(Debug, Copy, Clone, Eq, PartialEq, Structural)]
pub enum Cell {
    Dot,
    Empty,
    Wall,
    PowerDot,
}

/// A display color, at the fidelity the game distinguishes.
#[derive(Debug, Copy, Clone, Eq, PartialEq, Structural)]
pub enum Color {
    Black,
    Blue,
    Green,
    Cyan,
    Red,
    Pink,
    Yellow,
    White,
    LightGreen,
    LightRed,
}

/// A foreground/background color pair for one character cell.
#[derive(Debug, Copy, Clone, Eq, PartialEq, Structural)]
pub struct ColorCode {
    pub foreground: Color,
    pub background: Color,
}

impl ColorCode {
    pub fn new(foreground: Color, background: Color) -> (c: ColorCode)
        ensures
            c == (ColorCode { foreground, background }),
    {
        ColorCode { foreground, background }
    }
}

/// The coarse game mode: running, terminal until restart, or powered up.
/// No transition reaches `EMPOWERED` yet; it is reserved for power-dot
/// effects and behaves as `NORMAL` everywhere.
#[derive(Debug, Copy, Clone, Eq, PartialEq, Structural)]
pub enum Status {
    NORMAL,
    OVER,
    EMPOWERED,
}

/// Whether a position lies on the maze grid (not in the header region).
pub open spec fn in_play(p: Position) -> bool {
    0 <= p.col < BUFFER_WIDTH && 0 <= p.row < PACMAN_HEIGHT
}

/// Exec mirror of [`in_play`].
pub fn position_in_play(p: Position) -> (b: bool)
    ensures
        b == in_play(p),
{
    0 <= p.col && p.col < BUFFER_WIDTH as i16 && 0 <= p.row && p.row < PACMAN_HEIGHT as i16
}

/// Whether eating this cell scores a point.
pub open spec fn is_edible(c: Cell) -> bool {
    c == Cell::Dot || c == Cell::PowerDot
}

/// How many cells of the sequence still hold a dot or power dot.
pub open spec fn dot_count(s: Seq<Cell>) -> nat
    decreases s.len(),
{
    if s.len() == 0 {
        0
    } else {
        dot_count(s.drop_last()) + if is_edible(s.last()) {
            1nat
        } else {
            0nat
        }
    }
}

pub proof fn lemma_dot_count_le_len(s: Seq<Cell>)
    ensures
        dot_count(s) <= s.len(),
    decreases s.len(),
{
    if s.len() > 0 {
        lemma_dot_count_le_len(s.drop_last());
    }
}

pub proof fn lemma_dot_count_update(s: Seq<Cell>, i: int, v: Cell)
    requires
        0 <= i < s.len(),
    ensures
        dot_count(s.update(i, v)) + if is_edible(s[i]) {
            1nat
        } else {
            0nat
        } == dot_count(s) + if is_edible(v) {
            1nat
        } else {
            0nat
        },
    decreases s.len(),
{
    let t = s.update(i, v);
    if i == s.len() - 1 {
        assert(t.drop_last() =~= s.drop_last());
        assert(t.last() == v);
    } else {
        assert(t.drop_last() =~= s.drop_last().update(i, v));
        assert(t.last() == s.last());
        lemma_dot_count_update(s.drop_last(), i, v);
    }
}

// ---------------------------------------------------------------------------
// The static maze layout
// ---------------------------------------------------------------------------

/// The characters of one row of the static maze layout.
pub open spec fn spec_layout_row(r: int) -> Seq<char> {
        if r == 0 || r == 22 {
            "################################################################################"@
        } else if r == 1 || r == 21 {
            "#.........A............................................................A.......#"@
        } else if 2 <= r <= 4 {
            "#.#################.##.##.###.####.#.##############.##.##.##.##.################"@
        } else if r == 5 {
            "#.......O.........................................................O............#"@
        } else if 6 <= r <= 9 {
            "###.####.#####.######.####.#.#.#######.#.####.####.#.######.#.####.###.###.##.##"@
        } else if r == 10 {
            "#......................................<.......................................#"@
        } else if 11 <= r <= 16 {
            "#####.#####.#####.#####.#####.#####.#####.#####.#####.#####.#####.#####.#####.##"@
        } else if r == 17 {
            "#........O...........................................................O.........#"@
        } else {
            "####.####.####.####.####.####.####.####.####.####.####.####.####.####.####.##.##"@
        }
}

/// The glyph of the static layout at a row/column pair.
pub open spec fn spec_glyph(r: int, c: int) -> char {
    spec_layout_row(r)[c]
}

/// One row of the static maze layout.
pub fn layout_row(r: usize) -> (s: &'static str)
    requires
        r < PACMAN_HEIGHT,
    ensures
        s@ == spec_layout_row(r as int),
{
        if r == 0 || r == 22 {
            "################################################################################"
        } else if r == 1 || r == 21 {
            "#.........A............................................................A.......#"
        } else if 2 <= r && r <= 4 {
            "#.#################.##.##.###.####.#.##############.##.##.##.##.################"
        } else if r == 5 {
            "#.......O.........................................................O............#"
        } else if 6 <= r && r <= 9 {
            "###.####.#####.######.####.#.#.#######.#.####.####.#.######.#.####.###.###.##.##"
        } else if r == 10 {
            "#......................................<.......................................#"
        } else if 11 <= r && r <= 16 {
            "#####.#####.#####.#####.#####.#####.#####.#####.#####.#####.#####.#####.#####.##"
        } else if r == 17 {
            "#........O...........................................................O.........#"
        } else {
            "####.####.####.####.####.####.####.####.####.####.####.####.####.####.####.##.##"
        }
}

/// Every layout row spans the full display width.
pub proof fn lemma_layout_row_len()
    ensures
        forall|r: int| 0 <= r < PACMAN_HEIGHT ==> (#[trigger] spec_layout_row(r)).len()
            == BUFFER_WIDTH,
{
    reveal_strlit("################################################################################");
    reveal_strlit("#.........A............................................................A.......#");
    reveal_strlit("#.#################.##.##.###.####.#.##############.##.##.##.##.################");
    reveal_strlit("#.......O.........................................................O............#");
    reveal_strlit("###.####.#####.######.####.#.#.#######.#.####.####.#.######.#.####.###.###.##.##");
    reveal_strlit("#......................................<.......................................#");
    reveal_strlit("#####.#####.#####.#####.#####.#####.#####.#####.#####.#####.#####.#####.#####.##");
    reveal_strlit("#........O...........................................................O.........#");
    reveal_strlit("####.####.####.####.####.####.####.####.####.####.####.####.####.####.####.##.##");
}

/// The maze cell a layout glyph denotes.  Walls and dots come straight
/// from the glyph; spawn markers and the player glyph stand on ordinary
/// dot cells.
pub open spec fn glyph_cell(g: char) -> Cell {
    if g == '#' {
        Cell::Wall
    } else if g == 'O' {
        Cell::PowerDot
    } else {
        Cell::Dot
    }
}

/// Whether a layout glyph marks the player spawn.
pub open spec fn is_player_glyph(g: char) -> bool {
    g == '>' || g == '<' || g == '^' || g == 'v'
}

/// Facing and identity color assigned to the k-th adversary spawn marker.
pub open spec fn spec_ghost_start(k: int) -> (Dir, Color) {
    if k == 0 {
        (Dir::E, Color::Red)
    } else if k == 1 {
        (Dir::W, Color::Pink)
    } else if k == 2 {
        (Dir::E, Color::LightGreen)
    } else {
        (Dir::W, Color::Cyan)
    }
}

/// Exec mirror of [`spec_ghost_start`].
pub fn ghost_start(k: usize) -> (t: (Dir, Color))
    requires
        k < 4,
    ensures
        t == spec_ghost_start(k as int),
{
    if k == 0 {
        (Dir::E, Color::Red)
    } else if k == 1 {
        (Dir::W, Color::Pink)
    } else if k == 2 {
        (Dir::E, Color::LightGreen)
    } else {
        (Dir::W, Color::Cyan)
    }
}

// ---------------------------------------------------------------------------
// The player
// ---------------------------------------------------------------------------

/// The player entity: position, facing, and the cosmetic mouth phase.
#[derive(Debug, Copy, Clone, Eq, PartialEq, Structural)]
pub struct Pacman {
    pub pos: Position,
    pub dir: Dir,
    pub mouth_open: bool,
}

impl Pacman {
    /// A freshly spawned player at `pos`, facing as the glyph says.
    pub fn new(pos: Position, icon: char) -> (p: Pacman)
        requires
            icon == '^' || icon == 'v' || icon == '>' || icon == '<',
        ensures
            p == (Pacman { pos, dir: Dir::spec_from_icon(icon), mouth_open: true }),
    {
        Pacman { pos, dir: Dir::from_icon(icon), mouth_open: true }
    }

    /// Flips the mouth phase; purely cosmetic.
    pub fn tick(&mut self)
        ensures
            *final(self) == (Pacman { mouth_open: !old(self).mouth_open, ..*old(self) }),
    {
        self.mouth_open = !self.mouth_open;
    }

    /// The player's display glyph: the facing glyph with the mouth open,
    /// a bar across the travel axis with it closed.
    pub open spec fn spec_icon(self) -> char {
        if self.mouth_open {
            self.dir.spec_icon()
        } else {
            match self.dir {
                Dir::N | Dir::S => '|',
                Dir::E | Dir::W => '-',
            }
        }
    }

    pub fn icon(&self) -> (c: char)
        ensures
            c == self.spec_icon(),
    {
        if self.mouth_open {
            self.dir.icon()
        } else {
            match self.dir {
                Dir::N | Dir::S => '|',
                Dir::E | Dir::W => '-',
            }
        }
    }
}

// ---------------------------------------------------------------------------
// The adversary
// ---------------------------------------------------------------------------

/// An autonomous adversary: position, facing and identity color.  It is
/// memoryless: each step it re-decides its facing from the three cells
/// around it and the player's relative bearing.
#[derive(Debug, Copy, Clone, Eq, PartialEq, Structural)]
pub struct Adversary {
    pub pos: Position,
    pub dir: Dir,
    pub color: Color,
}

impl Adversary {
    /// Whether `other` lies strictly to the rotational left of this
    /// adversary's facing: the relative offset projected on the axis
    /// perpendicular to the facing is on the left-hand side.
    pub open spec fn spec_on_my_left(self, other: Position) -> bool {
        match self.dir {
            Dir::N => self.pos.col - other.col > 0,
            Dir::S => self.pos.col - other.col < 0,
            Dir::E => self.pos.row - other.row > 0,
            Dir::W => self.pos.row - other.row < 0,
        }
    }

    pub fn on_my_left(&self, other: Position) -> (r: bool)
        ensures
            r == self.spec_on_my_left(other),
    {
        let dc: i32 = self.pos.col as i32 - other.col as i32;
        let dr: i32 = self.pos.row as i32 - other.row as i32;
        match self.dir {
            Dir::N => dc > 0,
            Dir::S => dc < 0,
            Dir::E => dr > 0,
            Dir::W => dr < 0,
        }
    }

    /// Whether `other` lies exactly on this adversary's travel axis,
    /// ahead of it or behind it.
    pub open spec fn spec_ahead_or_behind(self, other: Position) -> bool {
        match self.dir {
            Dir::N | Dir::S => self.pos.col == other.col,
            Dir::E | Dir::W => self.pos.row == other.row,
        }
    }

    pub fn ahead_or_behind(&self, other: Position) -> (r: bool)
        ensures
            r == self.spec_ahead_or_behind(other),
    {
        match self.dir {
            Dir::N | Dir::S => self.pos.col == other.col,
            Dir::E | Dir::W => self.pos.row == other.row,
        }
    }

    /// Whether `other` lies strictly to the rotational right: neither on
    /// the left nor on the travel axis.
    pub open spec fn spec_on_my_right(self, other: Position) -> bool {
        !self.spec_on_my_left(other) && !self.spec_ahead_or_behind(other)
    }

    pub fn on_my_right(&self, other: Position) -> (r: bool)
        ensures
            r == self.spec_on_my_right(other),
    {
        !self.on_my_left(other) && !self.ahead_or_behind(other)
    }

    /// The facing the decision policy picks, in strict order: reverse in
    /// a dead end; else turn left when left is open and the player bears
    /// left or a wall is ahead; else the same for the right; else keep
    /// the current facing.
    pub open spec fn spec_decide(self, ahead: Cell, left: Cell, right: Cell, pac: Position) -> Dir {
        if left == Cell::Wall && ahead == Cell::Wall && right == Cell::Wall {
            self.dir.spec_reverse()
        } else if left != Cell::Wall && (self.spec_on_my_left(pac) || ahead == Cell::Wall) {
            self.dir.spec_left()
        } else if right != Cell::Wall && (self.spec_on_my_right(pac) || ahead == Cell::Wall) {
            self.dir.spec_right()
        } else {
            self.dir
        }
    }

    /// One full adversary step: re-decide the facing, then move one cell
    /// that way unless the step would leave the maze grid.
    pub open spec fn spec_go(self, ahead: Cell, left: Cell, right: Cell, pac: Position) -> Adversary {
        let nd = self.spec_decide(ahead, left, right, pac);
        let np = self.pos.spec_neighbor(nd);
        Adversary {
            pos: if in_play(np) {
                np
            } else {
                self.pos
            },
            dir: nd,
            color: self.color,
        }
    }

    pub fn go(&mut self, ahead: Cell, left: Cell, right: Cell, pacman_pos: Position)
        requires
            in_play(old(self).pos),
        ensures
            *final(self) == old(self).spec_go(ahead, left, right, pacman_pos),
            in_play(final(self).pos),
    {
        if left == Cell::Wall && ahead == Cell::Wall && right == Cell::Wall {
            self.dir = self.dir.reverse();
        } else if left != Cell::Wall && (self.on_my_left(pacman_pos) || ahead == Cell::Wall) {
            self.dir = self.dir.left();
        } else if right != Cell::Wall && (self.on_my_right(pacman_pos) || ahead == Cell::Wall) {
            self.dir = self.dir.right();
        }
        let next = self.pos.neighbor(self.dir);
        if position_in_play(next) {
            self.pos = next;
        }
    }

    /// The adversary's display glyph and color pair.
    pub fn icon(&self) -> (r: (char, ColorCode))
        ensures
            r == ('A', ColorCode { foreground: self.color, background: Color::Black }),
    {
        ('A', ColorCode::new(self.color, Color::Black))
    }
}

/// For a fixed adversary pose, the three bearings partition the plane:
/// the player is on the left, on the right, or on the travel axis, and
/// never two of these at once.
pub proof fn lemma_bearing_trichotomy(a: Adversary, p: Position)
    ensures
        a.spec_on_my_left(p) || a.spec_on_my_right(p) || a.spec_ahead_or_behind(p),
        !(a.spec_on_my_left(p) && a.spec_on_my_right(p)),
        !(a.spec_on_my_left(p) && a.spec_ahead_or_behind(p)),
        !(a.spec_on_my_right(p) && a.spec_ahead_or_behind(p)),
{
}

// ---------------------------------------------------------------------------
// The abstract game state and its transition functions
// ---------------------------------------------------------------------------

/// The abstract state of a maze game.
#[verifier::ext_equal]
pub struct GameView {
    pub cells: Seq<Cell>,
    pub pacman: Pacman,
    pub ghosts: Seq<Adversary>,
    pub status: Status,
    pub dots_eaten: u32,
    pub countdown: usize,
    pub last_key: Option<Dir>,
}

impl GameView {
    /// Well-formedness: the grid covers the maze, exactly four adversary
    /// slots exist, every entity is on the maze grid, and the score never
    /// exceeds the dots that have disappeared from the grid.
    pub open spec fn wf(self) -> bool {
        &&& self.cells.len() == CELL_COUNT
        &&& self.ghosts.len() == 4
        &&& in_play(self.pacman.pos)
        &&& forall|i: int| 0 <= i < 4 ==> in_play((#[trigger] self.ghosts[i]).pos)
        &&& self.dots_eaten + dot_count(self.cells) <= CELL_COUNT
    }

    /// The maze cell at an on-grid position.
    pub open spec fn cell_at(self, p: Position) -> Cell {
        self.cells[cell_index(p)]
    }

    /// The cell an adversary probe sees: off-grid positions read as walls.
    pub open spec fn probe_at(self, p: Position) -> Cell {
        if in_play(p) {
            self.cell_at(p)
        } else {
            Cell::Wall
        }
    }

    /// Whether a latched step in direction `d` is onto the grid and not
    /// into a wall.
    pub open spec fn move_allowed(self, d: Dir) -> bool {
        let t = self.pacman.pos.spec_neighbor(d);
        in_play(t) && self.cell_at(t) != Cell::Wall
    }

    /// Player move resolution: a latched direction moves the player to
    /// the neighbor cell unless that is off-grid or a wall, in which case
    /// everything stays put; an eaten dot or power dot scores one point
    /// and empties its cell.
    pub open spec fn spec_resolve_move(self) -> GameView {
        match self.last_key {
            None => self,
            Some(d) => {
                let t = self.pacman.pos.spec_neighbor(d);
                if self.move_allowed(d) {
                    GameView {
                        pacman: Pacman { pos: t, dir: d, mouth_open: self.pacman.mouth_open },
                        cells: if is_edible(self.cell_at(t)) {
                            self.cells.update(cell_index(t), Cell::Empty)
                        } else {
                            self.cells
                        },
                        dots_eaten: if is_edible(self.cell_at(t)) {
                            (self.dots_eaten + 1) as u32
                        } else {
                            self.dots_eaten
                        },
                        ..self
                    }
                } else {
                    self
                }
            },
        }
    }

    /// One adversary's step against this state: probe the cells ahead,
    /// left and right of its facing and run the decision policy.
    pub open spec fn spec_adversary_step(self, a: Adversary) -> Adversary {
        let ahead = self.probe_at(a.pos.spec_neighbor(a.dir));
        let left = self.probe_at(a.pos.spec_neighbor(a.dir.spec_left()));
        let right = self.probe_at(a.pos.spec_neighbor(a.dir.spec_right()));
        a.spec_go(ahead, left, right, self.pacman.pos)
    }

    /// The state after move resolution, latch clearing and the mouth
    /// flip, before the adversaries step.
    pub open spec fn spec_premove(self) -> GameView {
        let r = self.spec_resolve_move();
        GameView {
            last_key: None,
            pacman: Pacman { mouth_open: !r.pacman.mouth_open, ..r.pacman },
            ..r
        }
    }

    /// One full simulation step: resolve the player's move, clear the
    /// latch, flip the mouth, step every adversary against the updated
    /// state, and declare the game over if any adversary lands exactly on
    /// the player.
    pub open spec fn spec_update(self) -> GameView {
        let mid = self.spec_premove();
        let stepped = Seq::new(mid.ghosts.len(), |i: int| mid.spec_adversary_step(mid.ghosts[i]));
        GameView {
            ghosts: stepped,
            status: if exists|i: int|
                0 <= i < stepped.len() && (#[trigger] stepped[i]).pos == mid.pacman.pos {
                Status::OVER
            } else {
                self.status
            },
            ..mid
        }
    }
}

// ---------------------------------------------------------------------------
// Maze construction: scanning the static layout
// ---------------------------------------------------------------------------

/// One scan step at layout coordinate `(r, c)` for glyph `g`, applied
/// to the running construction state `(cells, player, adversaries,
/// spawns seen)`: the cell takes the glyph's kind; a player glyph
/// respawns the player; each of the first four spawn markers places one
/// adversary.
pub open spec fn scan_step_icon(
    st: (Seq<Cell>, Pacman, Seq<Adversary>, int),
    r: int,
    c: int,
    g: char,
) -> (Seq<Cell>, Pacman, Seq<Adversary>, int) {
    let here = Position { col: c as i16, row: r as i16 };
    let cells = st.0.update(r * BUFFER_WIDTH + c, glyph_cell(g));
    let pac = if is_player_glyph(g) {
        Pacman { pos: here, dir: Dir::spec_from_icon(g), mouth_open: true }
    } else {
        st.1
    };
    if g == 'A' && st.3 < 4 {
        let (d, hue) = spec_ghost_start(st.3);
        (cells, pac, st.2.update(st.3, Adversary { pos: here, dir: d, color: hue }), st.3 + 1)
    } else {
        (cells, pac, st.2, st.3)
    }
}

/// One scan step at layout coordinate `(r, c)`, reading its glyph from
/// the static layout.
pub open spec fn scan_step(
    st: (Seq<Cell>, Pacman, Seq<Adversary>, int),
    r: int,
    c: int,
) -> (Seq<Cell>, Pacman, Seq<Adversary>, int) {
    scan_step_icon(st, r, c, spec_glyph(r, c))
}

/// The construction state after scanning every layout coordinate that
/// precedes `(row, col)` in row-major order.
pub open spec fn scan_upto(
    init: (Seq<Cell>, Pacman, Seq<Adversary>, int),
    row: int,
    col: int,
) -> (Seq<Cell>, Pacman, Seq<Adversary>, int)
    decreases row, col,
{
    if col > 0 {
        scan_step(scan_upto(init, row, col - 1), row, col - 1)
    } else if row > 0 {
        scan_upto(init, row - 1, BUFFER_WIDTH as int)
    } else {
        init
    }
}

/// The scan never changes the grid size or the adversary slot count, it
/// keeps every entity on the maze grid, and the spawn counter only grows
/// up to four.
pub proof fn lemma_scan_wf(init: (Seq<Cell>, Pacman, Seq<Adversary>, int), row: int, col: int)
    requires
        0 <= row <= PACMAN_HEIGHT,
        0 <= col <= BUFFER_WIDTH,
        row == PACMAN_HEIGHT ==> col == 0,
        0 <= init.3 <= 4,
        init.0.len() == CELL_COUNT,
        init.2.len() == 4,
    ensures
        scan_upto(init, row, col).0.len() == CELL_COUNT,
        scan_upto(init, row, col).2.len() == 4,
        init.3 <= scan_upto(init, row, col).3 <= 4,
        in_play(init.1.pos) ==> in_play(scan_upto(init, row, col).1.pos),
        (forall|i: int| 0 <= i < 4 ==> in_play((#[trigger] init.2[i]).pos)) ==> (forall|i: int|
            0 <= i < 4 ==> in_play((#[trigger] scan_upto(init, row, col).2[i]).pos)),
    decreases row, col,
{
    if col > 0 {
        lemma_scan_wf(init, row, col - 1);
    } else if row > 0 {
        lemma_scan_wf(init, row - 1, BUFFER_WIDTH as int);
    }
}

impl GameView {
    /// Maze construction in place: scan the whole static layout, zero the
    /// score, return to the normal status and clear the input latch.  The
    /// tick countdown is untouched.
    pub open spec fn spec_reset(self) -> GameView {
        let st = scan_upto((self.cells, self.pacman, self.ghosts, 0), PACMAN_HEIGHT as int, 0);
        GameView {
            cells: st.0,
            pacman: st.1,
            ghosts: st.2,
            status: Status::NORMAL,
            dots_eaten: 0,
            countdown: self.countdown,
            last_key: None,
        }
    }

    /// The effect of one decoded key event.  While the game is over only
    /// the restart input acts, and it rebuilds the maze; otherwise a
    /// directional input overwrites the latch and anything else is
    /// ignored.
    pub open spec fn spec_key(self, key: Option<Key>) -> GameView {
        if self.status == Status::OVER {
            if spec_is_restart(key) {
                self.spec_reset()
            } else {
                self
            }
        } else {
            match spec_key2dir(key) {
                Some(d) => GameView { last_key: Some(d), ..self },
                None => self,
            }
        }
    }

    /// The state a game is first built in, before the initial maze scan.
    pub open spec fn spec_blank() -> GameView {
        GameView {
            cells: Seq::new(CELL_COUNT as nat, |i: int| Cell::Dot),
            pacman: Pacman { pos: Position { col: 0, row: 0 }, dir: Dir::W, mouth_open: true },
            ghosts: Seq::new(
                4,
                |i: int| Adversary { pos: Position { col: 0, row: 0 }, dir: Dir::N, color: Color::Black },
            ),
            status: Status::NORMAL,
            dots_eaten: 0,
            countdown: UPDATE_FREQUENCY,
            last_key: None,
        }
    }

    /// The canonical start-of-game state.
    pub open spec fn spec_initial() -> GameView {
        Self::spec_blank().spec_reset()
    }

    /// The glyph and color pair one display cell shows: the player
    /// overrides everything on its cell, then the first adversary found
    /// there, then the maze cell's own glyph.
    pub open spec fn spec_icon_color(self, p: Position, cell: Cell) -> (char, ColorCode) {
        if p == self.pacman.pos {
            (
                if self.status == Status::OVER {
                    '*'
                } else {
                    self.pacman.spec_icon()
                },
                ColorCode { foreground: Color::Yellow, background: Color::Black },
            )
        } else {
            match self.spec_ghost_at(p, 0) {
                Some(i) => (
                    'A',
                    ColorCode { foreground: self.ghosts[i].color, background: Color::Black },
                ),
                None => match cell {
                    Cell::Dot => ('.', ColorCode { foreground: Color::White, background: Color::Black }),
                    Cell::Empty => (' ', ColorCode { foreground: Color::Black, background: Color::Black }),
                    Cell::Wall => ('#', ColorCode { foreground: Color::Blue, background: Color::Black }),
                    Cell::PowerDot => ('O', ColorCode { foreground: Color::Green, background: Color::Black }),
                },
            }
        }
    }

    /// The index of the first adversary at or after slot `i` that stands
    /// on `p`, if any.
    pub open spec fn spec_ghost_at(self, p: Position, i: int) -> Option<int>
        decreases self.ghosts.len() - i,
    {
        if i < 0 || i >= self.ghosts.len() {
            None
        } else if self.ghosts[i].pos == p {
            Some(i)
        } else {
            self.spec_ghost_at(p, i + 1)
        }
    }
}

// ---------------------------------------------------------------------------
// The maze game itself
// ---------------------------------------------------------------------------

/// The maze game: grid, player, four adversaries, score, status, input
/// latch and tick countdown.
#[derive(Debug, Clone, Eq, PartialEq)]
pub struct PacmanGame {
    pub cells: Vec<Cell>,
    pub pacman: Pacman,
    pub ghosts: Vec<Adversary>,
    pub status: Status,
    pub dots_eaten: u32,
    pub countdown: usize,
    pub last_key: Option<Dir>,
}

impl View for PacmanGame {
    type V = GameView;

    open spec fn view(&self) -> GameView {
        GameView {
            cells: self.cells@,
            pacman: self.pacman,
            ghosts: self.ghosts@,
            status: self.status,
            dots_eaten: self.dots_eaten,
            countdown: self.countdown,
            last_key: self.last_key,
        }
    }
}

impl PacmanGame {
    /// Builds a game and runs the initial maze scan.
    pub fn new() -> (game: PacmanGame)
        ensures
            game@ == GameView::spec_initial(),
            game@.wf(),
    {
        let mut cells: Vec<Cell> = Vec::new();
        let mut i: usize = 0;
        while i < CELL_COUNT
            invariant
                i <= CELL_COUNT,
                cells@.len() == i,
                forall|j: int| 0 <= j < i ==> cells@[j] == Cell::Dot,
            decreases CELL_COUNT - i,
        {
            cells.push(Cell::Dot);
            i += 1;
        }
        let mut ghosts: Vec<Adversary> = Vec::new();
        let mut k: usize = 0;
        while k < 4
            invariant
                k <= 4,
                ghosts@.len() == k,
                forall|j: int|
                    0 <= j < k ==> ghosts@[j] == (Adversary {
                        pos: Position { col: 0, row: 0 },
                        dir: Dir::N,
                        color: Color::Black,
                    }),
            decreases 4 - k,
        {
            ghosts.push(Adversary { pos: Position { col: 0, row: 0 }, dir: Dir::N, color: Color::Black });
            k += 1;
        }
        let mut game = PacmanGame {
            cells,
            pacman: Pacman::new(Position { col: 0, row: 0 }, '>'),
            ghosts,
            dots_eaten: 0,
            countdown: UPDATE_FREQUENCY,
            last_key: None,
            status: Status::NORMAL,
        };
        proof {
            lemma_dot_count_le_len(game@.cells);
            assert(game@.cells =~= GameView::spec_blank().cells);
            assert(game@.ghosts =~= GameView::spec_blank().ghosts);
            assert(game@ =~= GameView::spec_blank());
        }
        game.reset();
        game
    }

    /// Rebuilds the maze, score, status and latch from the static layout,
    /// in place, as [`GameView::spec_reset`] describes.
    pub fn reset(&mut self)
        requires
            old(self)@.wf(),
        ensures
            final(self)@ == old(self)@.spec_reset(),
            final(self)@.wf(),
    {
        let ghost init = (old(self)@.cells, old(self)@.pacman, old(self)@.ghosts, 0int);
        let mut ghost_count: usize = 0;
        let mut row: usize = 0;
        proof {
            lemma_layout_row_len();
        }
        while row < PACMAN_HEIGHT
            invariant
                row <= PACMAN_HEIGHT,
                ghost_count <= 4,
                self.cells@.len() == CELL_COUNT,
                self.ghosts@.len() == 4,
                (self.cells@, self.pacman, self.ghosts@, ghost_count as int) == scan_upto(
                    init,
                    row as int,
                    0,
                ),
                self.status == old(self).status,
                self.dots_eaten == old(self).dots_eaten,
                self.countdown == old(self).countdown,
                self.last_key == old(self).last_key,
                forall|r: int| 0 <= r < PACMAN_HEIGHT ==> (#[trigger] spec_layout_row(r)).len()
                    == BUFFER_WIDTH,
            decreases PACMAN_HEIGHT - row,
        {
            let row_chars = layout_row(row);
            let mut col: usize = 0;
            while col < BUFFER_WIDTH
                invariant
                    row < PACMAN_HEIGHT,
                    col <= BUFFER_WIDTH,
                    ghost_count <= 4,
                    self.cells@.len() == CELL_COUNT,
                    self.ghosts@.len() == 4,
                    row_chars@ == spec_layout_row(row as int),
                    row_chars@.len() == BUFFER_WIDTH,
                    (self.cells@, self.pacman, self.ghosts@, ghost_count as int) == scan_upto(
                        init,
                        row as int,
                        col as int,
                    ),
                    self.status == old(self).status,
                    self.dots_eaten == old(self).dots_eaten,
                    self.countdown == old(self).countdown,
                    self.last_key == old(self).last_key,
                decreases BUFFER_WIDTH - col,
            {
                let icon = row_chars.get_char(col);
                self.translate_icon(&mut ghost_count, row, col, icon);
                col += 1;
            }
            row += 1;
        }
        self.status = Status::NORMAL;
        self.dots_eaten = 0;
        self.last_key = None;
        proof {
            lemma_scan_wf(init, PACMAN_HEIGHT as int, 0);
            lemma_dot_count_le_len(self.cells@);
            assert(self@ =~= old(self)@.spec_reset());
        }
    }

    /// Applies one layout glyph at `(row, col)` to the construction
    /// state, as [`scan_step_icon`] describes: walls, dots and power dots
    /// set the cell; a spawn marker places the next adversary; a player
    /// glyph respawns the player.
    pub fn translate_icon(&mut self, ghost_count: &mut usize, row: usize, col: usize, icon: char)
        requires
            old(self).cells@.len() == CELL_COUNT,
            old(self).ghosts@.len() == 4,
            *old(ghost_count) <= 4,
            row < PACMAN_HEIGHT,
            col < BUFFER_WIDTH,
        ensures
            (final(self).cells@, final(self).pacman, final(self).ghosts@,
                *final(ghost_count) as int) == scan_step_icon(
                (old(self).cells@, old(self).pacman, old(self).ghosts@, *old(ghost_count) as int),
                row as int,
                col as int,
                icon,
            ),
            *final(ghost_count) <= 4,
            final(self).status == old(self).status,
            final(self).dots_eaten == old(self).dots_eaten,
            final(self).countdown == old(self).countdown,
            final(self).last_key == old(self).last_key,
    {
        let i = row * BUFFER_WIDTH + col;
        match icon {
            '#' => self.cells[i] = Cell::Wall,
            '.' => self.cells[i] = Cell::Dot,
            'A' => {
                self.cells[i] = Cell::Dot;
                if *ghost_count < 4 {
                    let (dir, color) = ghost_start(*ghost_count);
                    self.ghosts[*ghost_count] = Adversary {
                        pos: Position { row: row as i16, col: col as i16 },
                        dir,
                        color,
                    };
                    *ghost_count += 1;
                }
            },
            'O' => self.cells[i] = Cell::PowerDot,
            '>' | '<' | '^' | 'v' => {
                self.cells[i] = Cell::Dot;
                self.pacman = Pacman::new(Position { row: row as i16, col: col as i16 }, icon);
            },
            _ => self.cells[i] = Cell::Dot,
        }
    }

    /// The maze cell at an on-grid position.
    pub fn cell(&self, p: Position) -> (c: Cell)
        requires
            self@.wf(),
            in_play(p),
        ensures
            c == self@.cell_at(p),
    {
        let (row, col) = p.row_col();
        self.cells[row * BUFFER_WIDTH + col]
    }

    /// The cell an adversary probe sees at `p`: off-grid reads as a wall.
    fn probe(&self, p: Position) -> (c: Cell)
        requires
            self@.wf(),
        ensures
            c == self@.probe_at(p),
    {
        if position_in_play(p) {
            self.cell(p)
        } else {
            Cell::Wall
        }
    }

    /// The three cells an adversary at `p` facing `dir` probes: straight
    /// ahead, to its rotational left, and to its rotational right.
    pub fn ahead_left_right(&self, p: Position, dir: Dir) -> (t: (Cell, Cell, Cell))
        requires
            self@.wf(),
            in_play(p),
        ensures
            t.0 == self@.probe_at(p.spec_neighbor(dir)),
            t.1 == self@.probe_at(p.spec_neighbor(dir.spec_left())),
            t.2 == self@.probe_at(p.spec_neighbor(dir.spec_right())),
    {
        let ahead = self.probe(p.neighbor(dir));
        let left = self.probe(p.neighbor(dir.left()));
        let right = self.probe(p.neighbor(dir.right()));
        (ahead, left, right)
    }

    /// Player move resolution, as [`GameView::spec_resolve_move`]
    /// describes: a latched move into a wall or off the grid is silently
    /// dropped; otherwise the player steps, and eats any dot there.
    pub fn resolve_move(&mut self)
        requires
            old(self)@.wf(),
        ensures
            final(self)@ == old(self)@.spec_resolve_move(),
            final(self)@.wf(),
    {
        if let Some(dir) = self.last_key {
            let neighbor = self.pacman.pos.neighbor(dir);
            if neighbor.is_legal() {
                let (row, col) = neighbor.row_col();
                if row < PACMAN_HEIGHT {
                    let i = row * BUFFER_WIDTH + col;
                    if self.cells[i] != Cell::Wall {
                        self.pacman.pos = neighbor;
                        self.pacman.dir = dir;
                        match self.cells[i] {
                            Cell::Dot | Cell::PowerDot => {
                                proof {
                                    lemma_dot_count_update(self.cells@, i as int, Cell::Empty);
                                }
                                self.dots_eaten = self.dots_eaten + 1;
                                self.cells[i] = Cell::Empty;
                            },
                            _ => {},
                        }
                    }
                }
            }
        }
        proof {
            assert(self@ =~= old(self)@.spec_resolve_move());
        }
    }

    /// One full simulation step, as [`GameView::spec_update`] describes.
    pub fn update(&mut self)
        requires
            old(self)@.wf(),
        ensures
            final(self)@ == old(self)@.spec_update(),
            final(self)@.wf(),
    {
        self.resolve_move();
        self.last_key = None;
        self.pacman.tick();
        let ghost mid = old(self)@.spec_premove();
        proof {
            assert(self@ =~= mid);
        }
        let mut g: usize = 0;
        while g < 4
            invariant
                g <= 4,
                self@.wf(),
                self@.cells == mid.cells,
                self.pacman == mid.pacman,
                self.last_key == mid.last_key,
                self.countdown == mid.countdown,
                self.dots_eaten == mid.dots_eaten,
                forall|i: int| g <= i < 4 ==> self@.ghosts[i] == mid.ghosts[i],
                forall|i: int|
                    0 <= i < g ==> self@.ghosts[i] == mid.spec_adversary_step(
                        #[trigger] mid.ghosts[i],
                    ),
                self.status == (if exists|i: int|
                    0 <= i < g && (#[trigger] mid.spec_adversary_step(mid.ghosts[i])).pos
                        == mid.pacman.pos {
                    Status::OVER
                } else {
                    old(self).status
                }),
            decreases 4 - g,
        {
            let (ahead, left, right) = self.ahead_left_right(self.ghosts[g].pos, self.ghosts[g].dir);
            let mut adv = self.ghosts[g];
            adv.go(ahead, left, right, self.pacman.pos);
            self.ghosts[g] = adv;
            if adv.pos == self.pacman.pos {
                self.status = Status::OVER;
            }
            proof {
                assert(mid.spec_adversary_step(mid.ghosts[g as int]) == adv);
                if adv.pos == mid.pacman.pos {
                    assert(exists|i: int|
                        0 <= i < g + 1 && (#[trigger] mid.spec_adversary_step(mid.ghosts[i])).pos
                            == mid.pacman.pos);
                }
            }
            g += 1;
        }
        proof {
            let stepped = Seq::new(mid.ghosts.len(), |i: int| mid.spec_adversary_step(mid.ghosts[i]));
            assert(self@.ghosts =~= stepped);
            assert(self@ =~= old(self)@.spec_update());
        }
    }

    /// One host tick.  The countdown throttles simulation: at zero, the
    /// game advances one step unless it is over, and reports that a fresh
    /// frame should be drawn; otherwise only the countdown falls.
    pub fn tick(&mut self) -> (drew: bool)
        requires
            old(self)@.wf(),
        ensures
            final(self)@.wf(),
            drew == (old(self).countdown == 0),
            old(self).countdown == 0 && old(self).status != Status::OVER ==> final(self)@
                == (GameView { countdown: UPDATE_FREQUENCY, ..old(self)@.spec_update() }),
            old(self).countdown == 0 && old(self).status == Status::OVER ==> final(self)@
                == (GameView { countdown: UPDATE_FREQUENCY, ..old(self)@ }),
            old(self).countdown != 0 ==> final(self)@ == (GameView {
                countdown: (old(self).countdown - 1) as usize,
                ..old(self)@
            }),
    {
        if self.countdown == 0 {
            match self.status {
                Status::OVER => {},
                _ => self.update(),
            }
            self.countdown = UPDATE_FREQUENCY;
            proof {
                if old(self).status != Status::OVER {
                    assert(self@ =~= (GameView {
                        countdown: UPDATE_FREQUENCY,
                        ..old(self)@.spec_update()
                    }));
                } else {
                    assert(self@ =~= (GameView { countdown: UPDATE_FREQUENCY, ..old(self)@ }));
                }
            }
            true
        } else {
            self.countdown = self.countdown - 1;
            proof {
                assert(self@ =~= (GameView {
                    countdown: (old(self).countdown - 1) as usize,
                    ..old(self)@
                }));
            }
            false
        }
    }

    /// One decoded key event, as [`GameView::spec_key`] describes: while
    /// the game is over only the restart input acts; otherwise a
    /// directional input overwrites the latch.
    pub fn key(&mut self, key: Option<Key>)
        requires
            old(self)@.wf(),
        ensures
            final(self)@ == old(self)@.spec_key(key),
            final(self)@.wf(),
    {
        match self.status {
            Status::OVER => {
                if let Some(decoded) = key {
                    match decoded {
                        Key::RawKey(RawKey::KeyS) | Key::Unicode('s') => self.reset(),
                        _ => {},
                    }
                }
            },
            _ => {
                let dir = key2dir(key);
                if dir.is_some() {
                    self.last_key = dir;
                }
            },
        }
        proof {
            assert(self@ =~= old(self)@.spec_key(key));
        }
    }

    /// The glyph and color pair the display shows at `p`, whose maze cell
    /// is `cell`: the player overrides everything on its cell, then the
    /// first adversary standing there, then the cell's own glyph.
    pub fn get_icon_color(&self, p: Position, cell: Cell) -> (r: (char, ColorCode))
        requires
            self@.wf(),
        ensures
            r == self@.spec_icon_color(p, cell),
    {
        if p == self.pacman.pos {
            let icon = match self.status {
                Status::OVER => '*',
                _ => self.pacman.icon(),
            };
            (icon, ColorCode::new(Color::Yellow, Color::Black))
        } else {
            let mut g: usize = 0;
            while g < 4
                invariant
                    g <= 4,
                    self@.wf(),
                    p != self.pacman.pos,
                    self@.spec_ghost_at(p, 0) == self@.spec_ghost_at(p, g as int),
                decreases 4 - g,
            {
                if self.ghosts[g].pos == p {
                    return self.ghosts[g].icon();
                }
                g += 1;
            }
            match cell {
                Cell::Dot => ('.', ColorCode::new(Color::White, Color::Black)),
                Cell::Empty => (' ', ColorCode::new(Color::Black, Color::Black)),
                Cell::Wall => ('#', ColorCode::new(Color::Blue, Color::Black)),
                Cell::PowerDot => ('O', ColorCode::new(Color::Green, Color::Black)),
            }
        }
    }
}

// ---------------------------------------------------------------------------
// Laws of the game
// ---------------------------------------------------------------------------

/// A latched move into a wall or off the grid is dropped: the step
/// leaves the player's position and facing, the score, and every cell
/// unchanged.
pub proof fn lemma_blocked_move_keeps_player(v: GameView, d: Dir)
    requires
        v.wf(),
        v.last_key == Some(d),
        !v.move_allowed(d),
    ensures
        v.spec_update().pacman.pos == v.pacman.pos,
        v.spec_update().pacman.dir == v.pacman.dir,
        v.spec_update().dots_eaten == v.dots_eaten,
        v.spec_update().cells == v.cells,
{
}

/// A latched move onto a dot or power dot moves the player there,
/// scores exactly one point, and empties exactly that cell.
pub proof fn lemma_eating_move(v: GameView, d: Dir)
    requires
        v.wf(),
        v.last_key == Some(d),
        v.move_allowed(d),
        is_edible(v.cell_at(v.pacman.pos.spec_neighbor(d))),
    ensures
        v.spec_update().pacman.pos == v.pacman.pos.spec_neighbor(d),
        v.spec_update().pacman.dir == d,
        v.spec_update().dots_eaten == v.dots_eaten + 1,
        v.spec_update().cell_at(v.pacman.pos.spec_neighbor(d)) == Cell::Empty,
        forall|q: Position|
            in_play(q) && q != v.pacman.pos.spec_neighbor(d) ==> v.spec_update().cell_at(q)
                == v.cell_at(q),
{
    let t = v.pacman.pos.spec_neighbor(d);
    lemma_dot_count_update(v.cells, cell_index(t), Cell::Empty);
    assert forall|q: Position|
        in_play(q) && q != t implies v.spec_update().cell_at(q) == v.cell_at(q) by {
        assert(cell_index(q) != cell_index(t));
    }
}

/// Once a cell is empty, no simulation step ever refills it; only a
/// maze reset does.
pub proof fn lemma_empty_cell_persists(v: GameView, q: Position)
    requires
        v.wf(),
        in_play(q),
        v.cell_at(q) == Cell::Empty,
    ensures
        v.spec_update().cell_at(q) == Cell::Empty,
{
}

/// Any step that lands an adversary exactly on the player ends the game.
pub proof fn lemma_collision_sets_game_over(v: GameView, i: int)
    requires
        v.wf(),
        0 <= i < 4,
        v.spec_update().ghosts[i].pos == v.spec_update().pacman.pos,
    ensures
        v.spec_update().status == Status::OVER,
{
    let mid = v.spec_premove();
    let stepped = Seq::new(mid.ghosts.len(), |j: int| mid.spec_adversary_step(mid.ghosts[j]));
    assert(v.spec_update().ghosts == stepped);
    assert(stepped[i].pos == mid.pacman.pos);
}

/// While the game is over, every input but the restart request is
/// ignored completely.
pub proof fn lemma_game_over_ignores_other_keys(v: GameView, key: Option<Key>)
    requires
        v.status == Status::OVER,
        !spec_is_restart(key),
    ensures
        v.spec_key(key) == v,
{
}

/// The maze scan writes every cell from the static layout alone: the
/// grid it builds does not depend on the state the scan starts from.
pub proof fn lemma_scan_cells_pointwise(
    init: (Seq<Cell>, Pacman, Seq<Adversary>, int),
    row: int,
    col: int,
    r: int,
    c: int,
)
    requires
        init.0.len() == CELL_COUNT,
        init.2.len() == 4,
        0 <= init.3 <= 4,
        0 <= row <= PACMAN_HEIGHT,
        0 <= col <= BUFFER_WIDTH,
        row == PACMAN_HEIGHT ==> col == 0,
        0 <= r,
        0 <= c < BUFFER_WIDTH,
        r < row || (r == row && c < col),
    ensures
        scan_upto(init, row, col).0[r * BUFFER_WIDTH + c] == glyph_cell(spec_glyph(r, c)),
    decreases row, col,
{
    if col > 0 {
        lemma_scan_wf(init, row, col - 1);
        if r == row && c == col - 1 {
        } else {
            lemma_scan_cells_pointwise(init, row, col - 1, r, c);
            assert(r * BUFFER_WIDTH + c != row * BUFFER_WIDTH + (col - 1));
        }
    } else {
        lemma_scan_cells_pointwise(init, row - 1, BUFFER_WIDTH as int, r, c);
    }
}

/// Rebuilding the maze restores the canonical grid, whatever was eaten:
/// any two well-formed states agree cell for cell after a reset.
pub proof fn lemma_reset_cells_canonical(a: GameView, b: GameView)
    requires
        a.wf(),
        b.wf(),
    ensures
        a.spec_reset().cells == b.spec_reset().cells,
{
    let ia = (a.cells, a.pacman, a.ghosts, 0int);
    let ib = (b.cells, b.pacman, b.ghosts, 0int);
    let sa = a.spec_reset().cells;
    let sb = b.spec_reset().cells;
    lemma_scan_wf(ia, PACMAN_HEIGHT as int, 0);
    lemma_scan_wf(ib, PACMAN_HEIGHT as int, 0);
    assert forall|i: int| 0 <= i < CELL_COUNT implies sa[i] == sb[i] by {
        let w = BUFFER_WIDTH as int;
        let r = i / w;
        let c = i % w;
        lemma_fundamental_div_mod(i, w);
        lemma_mod_division_less_than_divisor(i, w);
        assert(0 <= r < PACMAN_HEIGHT);
        lemma_scan_cells_pointwise(ia, PACMAN_HEIGHT as int, 0, r, c);
        lemma_scan_cells_pointwise(ib, PACMAN_HEIGHT as int, 0, r, c);
        assert(i == r * w + c);
    }
    assert(sa =~= sb);
}

/// A restart input while the game is over zeroes the score, returns the
/// status to normal, clears the latch, and restores every consumed dot
/// and power dot: the grid is the canonical starting grid again.
pub proof fn lemma_restart_restores(v: GameView, key: Option<Key>)
    requires
        v.wf(),
        v.status == Status::OVER,
        spec_is_restart(key),
    ensures
        v.spec_key(key).dots_eaten == 0,
        v.spec_key(key).status == Status::NORMAL,
        v.spec_key(key).last_key is None,
        v.spec_key(key).cells == GameView::spec_initial().cells,
{
    let blank = GameView::spec_blank();
    lemma_dot_count_le_len(blank.cells);
    assert(blank.wf());
    lemma_reset_cells_canonical(v, blank);
}

} // verus!
