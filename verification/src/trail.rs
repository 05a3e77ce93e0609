//! One falling streak of glyphs.

use crate::HEAD_LIMIT;
use crate::MAX_TRAIL_LEN;
use crate::MIN_TRAIL_LEN;
use vstd::prelude::*;

verus! {

/// A single falling streak: a fixed length chosen at spawn time, a head row
/// that advances by one every tick, and the glyph last drawn at the head
/// (redrawn in the dim body style one tick later).
#[derive(Clone, Copy, Debug, PartialEq, Eq, Structural)]
pub struct Trail {
    /// Number of rows the streak covers once fully grown; never changes.
    pub length: u16,
    /// Row of the leading glyph, 0-based from the top of the screen.  It
    /// keeps advancing past the bottom edge until the whole trail has left.
    pub head: u32,
    /// The glyph drawn at `head` on the most recent tick; the NUL character
    /// before anything has been drawn.
    pub head_glyph: char,
}

/// The trail has advanced far enough that its trailing edge exists: the
/// head is at least `length - 1` rows down.
pub open spec fn has_tail(t: Trail) -> bool {
    t.head + 1 >= t.length
}

/// Row of the trailing edge, one past the last cell the trail still covers;
/// meaningful only when `has_tail` holds.
pub open spec fn tail_row(t: Trail) -> int {
    t.head + 1 - t.length
}

/// A structurally sound trail: its length lies in the spawn range and its
/// head has not climbed past `HEAD_LIMIT`.
pub open spec fn trail_wf(t: Trail) -> bool {
    &&& MIN_TRAIL_LEN <= t.length <= MAX_TRAIL_LEN
    &&& t.head <= HEAD_LIMIT
}

impl Trail {
    /// A freshly spawned trail: head at the top row, nothing drawn yet.
    pub fn new(length: u16) -> (t: Trail)
        requires
            MIN_TRAIL_LEN <= length <= MAX_TRAIL_LEN,
        ensures
            t == (Trail { length, head: 0, head_glyph: '\0' }),
    {
        Trail { length, head: 0, head_glyph: '\0' }
    }

    /// The row of the trailing edge, or `None` while the trail has not yet
    /// grown to its full visible length.
    pub fn back(&self) -> (r: Option<u32>)
        requires
            self.head < 0xffff_ffffu32,
        ensures
            r == if has_tail(*self) {
                Some((self.head + 1 - self.length) as u32)
            } else {
                None::<u32>
            },
    {
        if self.head + 1 >= self.length as u32 {
            Some(self.head + 1 - self.length as u32)
        } else {
            None
        }
    }
}

} // verus!
