//! The trail-drawing variant: a single cursor walks the whole display,
//! leaving a directional trace glyph in every cell it departs.

use vstd::prelude::*;
use crate::grid::{Dir, Position, cell_index, BUFFER_WIDTH, BUFFER_HEIGHT};
use crate::input::{Key, key2dir, spec_key2dir};

verus! {

/// Simulation advances on every host tick in this variant.
pub const UPDATE_FREQUENCY: usize = 1;

/// Number of cells of the full-display grid.
pub const GRID_CELLS: usize = BUFFER_WIDTH * BUFFER_HEIGHT;

/// One cell of the trail grid: either untouched, or a trace of the
/// direction the cursor was moving when it left the cell.
#[derive(Debug, Copy, Clone, Eq, PartialEq, Structural)]
pub enum Cell {
    Trace(Dir),
    Empty,
}

impl Cell {
    /// The display glyph of this cell.
    pub open spec fn spec_to_icon(self) -> char {
        match self {
            Cell::Trace(Dir::N) => '^',
            Cell::Trace(Dir::S) => 'v',
            Cell::Trace(Dir::E) => '>',
            Cell::Trace(Dir::W) => '<',
            Cell::Empty => ' ',
        }
    }

    pub fn to_icon(&self) -> (c: char)
        ensures
            c == self.spec_to_icon(),
    {
        match self {
            Cell::Trace(d) => match d {
                Dir::N => '^',
                Dir::S => 'v',
                Dir::E => '>',
                Dir::W => '<',
            },
            Cell::Empty => ' ',
        }
    }
}

/// The abstract state of a trail game.
#[verifier::ext_equal]
pub struct TracerView {
    pub cells: Seq<Cell>,
    pub pos: Position,
    pub countdown: usize,
    pub last_key: Option<Dir>,
}

impl TracerView {
    /// Well-formedness: the grid covers the display and the cursor is on it.
    pub open spec fn wf(self) -> bool {
        &&& self.cells.len() == GRID_CELLS
        &&& self.pos.spec_is_legal()
    }

    /// One simulation step: if a direction is latched, trace the current
    /// cell with it and advance the cursor one step that way unless the
    /// step would leave the display; the latch is cleared either way.
    pub open spec fn spec_update(self) -> TracerView {
        match self.last_key {
            None => TracerView {
                cells: self.cells,
                pos: self.pos,
                countdown: self.countdown,
                last_key: None,
            },
            Some(key) => {
                let traced = self.cells.update(cell_index(self.pos), Cell::Trace(key));
                let future = self.pos.spec_neighbor(key);
                TracerView {
                    cells: traced,
                    pos: if future.spec_is_legal() {
                        future
                    } else {
                        self.pos
                    },
                    countdown: self.countdown,
                    last_key: None,
                }
            },
        }
    }
}

/// The trail game: grid, cursor, tick divider and input latch.
#[derive(Debug, Clone, Eq, PartialEq)]
pub struct TracerGame {
    pub cells: Vec<Cell>,
    pub pos: Position,
    pub countdown: usize,
    pub last_key: Option<Dir>,
}

impl View for TracerGame {
    type V = TracerView;

    open spec fn view(&self) -> TracerView {
        TracerView {
            cells: self.cells@,
            pos: self.pos,
            countdown: self.countdown,
            last_key: self.last_key,
        }
    }
}

impl TracerGame {
    /// The state every game starts from: an empty grid, the cursor at the
    /// display's center, and an eastward intent already latched.
    pub open spec fn spec_start() -> TracerView {
        TracerView {
            cells: Seq::new(GRID_CELLS as nat, |i: int| Cell::Empty),
            pos: Position { col: (BUFFER_WIDTH / 2) as i16, row: (BUFFER_HEIGHT / 2) as i16 },
            countdown: UPDATE_FREQUENCY,
            last_key: Some(Dir::E),
        }
    }

    /// Builds the starting state and runs its first simulation step.
    pub fn new() -> (game: TracerGame)
        ensures
            game@ == Self::spec_start().spec_update(),
            game@.wf(),
    {
        let mut cells: Vec<Cell> = Vec::new();
        let mut i: usize = 0;
        while i < GRID_CELLS
            invariant
                i <= GRID_CELLS,
                cells@.len() == i,
                forall|j: int| 0 <= j < i ==> cells@[j] == Cell::Empty,
            decreases GRID_CELLS - i,
        {
            cells.push(Cell::Empty);
            i += 1;
        }
        let mut game = TracerGame {
            cells,
            pos: Position { col: (BUFFER_WIDTH / 2) as i16, row: (BUFFER_HEIGHT / 2) as i16 },
            countdown: UPDATE_FREQUENCY,
            last_key: Some(Dir::E),
        };
        proof {
            assert(game@.cells =~= Self::spec_start().cells);
            assert(game@ =~= Self::spec_start());
        }
        game.update();
        game
    }

    /// The cell at a display position.
    pub fn cell(&self, p: Position) -> (c: Cell)
        requires
            self@.wf(),
            p.spec_is_legal(),
        ensures
            c == self@.cells[cell_index(p)],
    {
        let (row, col) = p.row_col();
        self.cells[row * BUFFER_WIDTH + col]
    }

    /// One simulation step, as [`TracerView::spec_update`] describes.
    pub fn update(&mut self)
        requires
            old(self)@.wf(),
        ensures
            final(self)@ == old(self)@.spec_update(),
            final(self)@.wf(),
    {
        if let Some(key) = self.last_key {
            let (row, col) = self.pos.row_col();
            self.cells[row * BUFFER_WIDTH + col] = Cell::Trace(key);
            let future = self.pos.neighbor(key);
            if future.is_legal() {
                self.pos = future;
            }
        }
        self.last_key = None;
        proof {
            assert(self@ =~= old(self)@.spec_update());
        }
    }

    /// One host tick.  The countdown throttles simulation: at zero the
    /// game advances one step and reports that a fresh frame should be
    /// drawn; otherwise only the countdown falls.
    pub fn tick(&mut self) -> (drew: bool)
        requires
            old(self)@.wf(),
        ensures
            final(self)@.wf(),
            drew == (old(self).countdown == 0),
            old(self).countdown == 0 ==> final(self)@ == (TracerView {
                countdown: UPDATE_FREQUENCY,
                ..old(self)@.spec_update()
            }),
            old(self).countdown != 0 ==> final(self)@ == (TracerView {
                countdown: (old(self).countdown - 1) as usize,
                ..old(self)@
            }),
    {
        if self.countdown == 0 {
            self.update();
            self.countdown = UPDATE_FREQUENCY;
            proof {
                assert(self@ =~= TracerView {
                    countdown: UPDATE_FREQUENCY,
                    ..old(self)@.spec_update()
                });
            }
            true
        } else {
            self.countdown = self.countdown - 1;
            proof {
                assert(self@ =~= TracerView {
                    countdown: (old(self).countdown - 1) as usize,
                    ..old(self)@
                });
            }
            false
        }
    }

    /// Latches the directional intent of a decoded input, if it has one;
    /// other inputs leave the latch unchanged.
    pub fn key(&mut self, key: Option<Key>)
        ensures
            final(self)@ == (TracerView {
                last_key: if spec_key2dir(key) is Some {
                    spec_key2dir(key)
                } else {
                    old(self).last_key
                },
                ..old(self)@
            }),
            old(self)@.wf() ==> final(self)@.wf(),
    {
        let dir = key2dir(key);
        if dir.is_some() {
            self.last_key = dir;
        }
        proof {
            assert(self@ =~= TracerView {
                last_key: if spec_key2dir(key) is Some {
                    spec_key2dir(key)
                } else {
                    old(self).last_key
                },
                ..old(self)@
            });
        }
    }
}

} // verus!
