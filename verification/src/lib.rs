//! A terminal "character rain" simulation.
//!
//! Falling trails of glyphs advance down the columns of a character grid.
//! Each column spawns trails on a randomized countdown, advances every trail
//! by one row per tick, and retires a trail once it has scrolled past the
//! bottom edge.  A tick also produces the minimal list of draw operations
//! (redraw the old head dimly, erase the vacated tail cell, draw a fresh
//! bright head) that a terminal front end replays to animate the effect.

use vstd::prelude::*;

pub mod column;
pub mod glyphs;
pub mod render;
mod rng;
pub mod sim;
pub mod trail;

verus! {

/// Fewest idle ticks added after a spawn before the column may spawn again.
pub const MIN_GAP_LEN: u16 = 20;

/// Most idle ticks added after a spawn before the column may spawn again;
/// also the largest initial countdown of a freshly created column.
pub const MAX_GAP_LEN: u16 = 50;

/// Shortest trail a spawn may create.
pub const MIN_TRAIL_LEN: u16 = 10;

/// Longest trail a spawn may create.
pub const MAX_TRAIL_LEN: u16 = 20;

/// Number of glyphs in the fixed palette trails draw from.
pub const GLYPH_COUNT: u16 = 80;

/// Upper bound on the head row of any live trail: a trail is retired once its
/// tail reaches the bottom of the screen, so a head never climbs past the
/// largest possible terminal height (`u16::MAX`) plus one trail length.
/// Keeping heads under this bound is what rules out overflow when they
/// advance.
pub const HEAD_LIMIT: u32 = 65535 + 20;

} // verus!
