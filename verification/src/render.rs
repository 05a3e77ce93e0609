//! Draw operations: what a tick asks the terminal front end to paint.

use crate::trail::has_tail;
use crate::trail::tail_row;
use crate::trail::Trail;
use vstd::prelude::*;

verus! {

/// One terminal draw call, with 0-based screen coordinates.  A front end
/// replays these in order, translating them to cursor moves and styled
/// writes.
#[derive(Clone, Copy, Debug, PartialEq, Eq, Structural)]
pub enum DrawOp {
    /// Redraw last tick's head glyph in the dim body style, turning the old
    /// bright head into a steady body cell.
    Body { col: u16, row: u16, glyph: char },
    /// Blank the cell the trail's tail has just vacated.
    Erase { col: u16, row: u16 },
    /// Draw a fresh glyph at the new head position in the bright style.
    Head { col: u16, row: u16, glyph: char },
}

/// The draw operations one trail emits on a tick, given the glyph `g` its
/// new head will show: a dim redraw of the old head while it is on screen
/// (single-cell trails have no body and skip it), an erase of the vacated
/// tail cell while that is on screen, and the bright new head one row below
/// the old one while it is on screen.
pub open spec fn render_ops(t: Trail, col: u16, height: u16, g: char) -> Seq<DrawOp> {
    let body: Seq<DrawOp> = if t.length > 1 && t.head < height {
        seq![DrawOp::Body { col, row: t.head as u16, glyph: t.head_glyph }]
    } else {
        Seq::empty()
    };
    let erase: Seq<DrawOp> = if has_tail(t) && tail_row(t) < height {
        seq![DrawOp::Erase { col, row: (t.head + 1 - t.length) as u16 }]
    } else {
        Seq::empty()
    };
    let bright: Seq<DrawOp> = if t.head + 1 < height {
        seq![DrawOp::Head { col, row: (t.head + 1) as u16, glyph: g }]
    } else {
        Seq::empty()
    };
    body + erase + bright
}

/// The draw operations a whole queue of trails emits on a tick, oldest trail
/// first.  `pre` holds the trails as the tick found them, `post` the same
/// trails after advancing; the glyph each new head shows is read off the
/// advanced trail.
pub open spec fn tick_ops(pre: Seq<Trail>, post: Seq<Trail>, col: u16, height: u16) -> Seq<DrawOp>
    decreases pre.len(),
{
    if pre.len() == 0 {
        Seq::empty()
    } else {
        tick_ops(pre.drop_last(), post.drop_last(), col, height) + render_ops(
            pre.last(),
            col,
            height,
            post.last().head_glyph,
        )
    }
}

} // verus!
