//! A grid-based arcade simulation library: a maze-chase game with
//! autonomous adversaries and a simpler trail-drawing variant, both
//! driven by a periodic tick and asynchronous key events.
//!
//! The library holds the verified game logic only.  The display surface,
//! the keyboard decoder and the interrupt plumbing are external
//! collaborators: a host converts raw key events into [`input::Key`]
//! values and turns the glyph/color data computed here into screen writes.

pub mod grid;
pub mod input;
pub mod pacman;
pub mod tracer;
