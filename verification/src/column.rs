//! One terminal column: its queue of trails and its spawn countdown.

use crate::glyphs::glyph_at;
use crate::glyphs::glyph_palette;
use crate::render::tick_ops;
use crate::render::DrawOp;
use crate::rng::random_in_range;
use crate::trail::has_tail;
use crate::trail::tail_row;
use crate::trail::trail_wf;
use crate::trail::Trail;
use crate::GLYPH_COUNT;
use crate::HEAD_LIMIT;
use crate::MAX_GAP_LEN;
use crate::MAX_TRAIL_LEN;
use crate::MIN_GAP_LEN;
use crate::MIN_TRAIL_LEN;
use vstd::prelude::*;

verus! {

/// The per-column state: the active trails ordered oldest-spawned first,
/// and the countdown of idle ticks before the next spawn.
#[derive(Clone, Debug, PartialEq)]
pub struct Column {
    /// Active trails, oldest at the front.  Only the front can ever become
    /// eligible for retirement, since it has advanced the furthest.
    pub trails: Vec<Trail>,
    /// Remaining idle ticks before the next trail spawns.
    pub wait: u16,
}

/// The state a spawn gives a new trail: head at the top, nothing drawn.
pub open spec fn new_trail(length: u16) -> Trail {
    Trail { length, head: 0, head_glyph: '\0' }
}

/// What a spawn guarantees of the length it chose and the countdown it
/// reset: the length is in the spawn range and the countdown is that length
/// plus a gap from the gap range.
pub open spec fn spawn_wait_ok(length: u16, wait: u16) -> bool {
    &&& MIN_TRAIL_LEN <= length <= MAX_TRAIL_LEN
    &&& length + MIN_GAP_LEN <= wait <= length + MAX_GAP_LEN
}

/// A structurally sound column: every trail is sound, heads strictly
/// decrease from the oldest trail to the newest (each later spawn sits
/// strictly higher), and when the countdown has hit zero the newest trail
/// has already advanced at least once, so the next spawn starts strictly
/// above it.
pub open spec fn column_wf(c: Column) -> bool {
    &&& forall|i: int| 0 <= i < c.trails@.len() ==> trail_wf(#[trigger] c.trails@[i])
    &&& forall|i: int, j: int|
        0 <= i < j < c.trails@.len() ==> c.trails@[i].head > c.trails@[j].head
    &&& (c.wait == 0 && c.trails@.len() > 0 ==> c.trails@.last().head >= 1)
}

/// The trail queue right after the spawn step of a tick: unchanged when the
/// countdown was still running, otherwise the old queue with the new trail
/// appended.  The spawned length is read off the advanced queue, where the
/// new trail is still the last entry.
pub open spec fn tick_mid(pre: Column, post: Column) -> Seq<Trail> {
    if pre.wait == 0 {
        pre.trails@.push(new_trail(post.trails@.last().length))
    } else {
        pre.trails@
    }
}

/// The front trail must be retired: its tail exists and has reached the
/// bottom edge, so no cell of it is on screen any more.
pub open spec fn should_retire(trails: Seq<Trail>, height: u16) -> bool {
    trails.len() > 0 && has_tail(trails[0]) && tail_row(trails[0]) >= height
}

/// The retirement step of a tick: drop the front trail exactly when it must
/// be retired.  At most one trail leaves per tick.
pub open spec fn retire_step(trails: Seq<Trail>, height: u16) -> Seq<Trail> {
    if should_retire(trails, height) {
        trails.drop_first()
    } else {
        trails
    }
}

/// The trails that survive a tick's spawn and retirement steps and are then
/// advanced, in order.
pub open spec fn tick_survivors(pre: Column, post: Column, height: u16) -> Seq<Trail> {
    retire_step(tick_mid(pre, post), height)
}

/// How one tick advances one surviving trail: the length is kept, the head
/// moves down one row, and the stored head glyph is replaced by the freshly
/// drawn one exactly when the new head is on screen (off screen nothing is
/// drawn and the glyph is kept).
pub open spec fn advanced_trail(pre: Trail, post: Trail, height: u16) -> bool {
    &&& post.length == pre.length
    &&& post.head == pre.head + 1
    &&& if pre.head + 1 < height {
        glyph_palette().contains(post.head_glyph)
    } else {
        post.head_glyph == pre.head_glyph
    }
}

/// The advancing step of a tick, over the whole queue of survivors.
pub open spec fn advance_step(pre: Seq<Trail>, post: Seq<Trail>, height: u16) -> bool {
    &&& post.len() == pre.len()
    &&& forall|i: int| 0 <= i < pre.len() ==> advanced_trail(pre[i], #[trigger] post[i], height)
}

/// Everything one tick does to one column, relating the state before, the
/// state after, and the draw operations emitted: the countdown either
/// spawned (appending a new trail and resetting the countdown to its length
/// plus a gap) or fell by exactly one; the front trail was retired exactly
/// when its tail had reached the bottom edge; every surviving trail advanced
/// one row; and the draw operations are precisely those of the survivors.
pub open spec fn column_tick_rel(
    pre: Column,
    post: Column,
    col: u16,
    height: u16,
    ops: Seq<DrawOp>,
) -> bool {
    &&& if pre.wait == 0 {
        &&& post.trails@.len() > 0
        &&& spawn_wait_ok(post.trails@.last().length, post.wait)
    } else {
        &&& post.wait == pre.wait - 1
    }
    &&& advance_step(tick_survivors(pre, post, height), post.trails@, height)
    &&& ops == tick_ops(tick_survivors(pre, post, height), post.trails@, col, height)
}

/// Law: the spawn countdown never goes negative and falls by exactly one
/// per tick unless that tick spawned; a spawning tick resets it to the new
/// trail's length plus a gap, so it is strictly positive again.
pub proof fn lemma_wait_countdown(pre: Column, post: Column, col: u16, height: u16, ops: Seq<
    DrawOp,
>)
    requires
        column_tick_rel(pre, post, col, height, ops),
    ensures
        pre.wait > 0 ==> post.wait == pre.wait - 1,
        pre.wait == 0 ==> MIN_TRAIL_LEN + MIN_GAP_LEN <= post.wait <= MAX_TRAIL_LEN + MAX_GAP_LEN,
{
}

/// Law: heads never decrease.  Every trail still present after a tick sits
/// exactly one row below the surviving trail it advanced from, so across
/// ticks a trail's head is strictly increasing.
pub proof fn lemma_heads_advance(pre: Column, post: Column, col: u16, height: u16, ops: Seq<
    DrawOp,
>)
    requires
        column_tick_rel(pre, post, col, height, ops),
    ensures
        forall|j: int|
            0 <= j < post.trails@.len() ==> (#[trigger] post.trails@[j]).head == tick_survivors(
                pre,
                post,
                height,
            )[j].head + 1,
        forall|j: int|
            0 <= j < post.trails@.len() ==> (#[trigger] post.trails@[j]).head > tick_survivors(
                pre,
                post,
                height,
            )[j].head,
{
}

/// Law: a tail, once on screen, stays defined and keeps the value
/// `head + 1 - length` as both edges advance; and on a tick without a
/// spawn the front trail is retired exactly when its tail has reached the
/// bottom edge, never sooner and never later.
pub proof fn lemma_tail_and_retirement(pre: Column, post: Column, col: u16, height: u16, ops: Seq<
    DrawOp,
>)
    requires
        column_tick_rel(pre, post, col, height, ops),
    ensures
        forall|j: int|
            0 <= j < post.trails@.len() && has_tail(tick_survivors(pre, post, height)[j])
                ==> has_tail(#[trigger] post.trails@[j]) && tail_row(post.trails@[j]) == tail_row(
                tick_survivors(pre, post, height)[j],
            ) + 1 && tail_row(post.trails@[j]) == post.trails@[j].head + 1 - post.trails@[j].length,
        pre.wait > 0 ==> (post.trails@.len() < pre.trails@.len() <==> should_retire(
            pre.trails@,
            height,
        )),
{
}

impl Column {
    /// A fresh column with no trails and the given initial countdown.
    pub fn with_wait(wait: u16) -> (c: Column)
        ensures
            c.wait == wait,
            c.trails@.len() == 0,
            column_wf(c),
    {
        Column { trails: Vec::new(), wait }
    }

    /// One tick of this column, drawing into `out`: spawn or age the
    /// countdown, retire the front trail once its tail has left the screen,
    /// then advance every trail one row while emitting its draw operations.
    pub fn tick(&mut self, col: u16, height: u16, out: &mut Vec<DrawOp>)
        requires
            column_wf(*old(self)),
        ensures
            column_wf(*final(self)),
            old(out)@.is_prefix_of(final(out)@),
            column_tick_rel(
                *old(self),
                *final(self),
                col,
                height,
                final(out)@.skip(old(out)@.len() as int),
            ),
    {
        let ghost pre = *old(self);
        let ghost base = out@;

        // Spawn a trail, or age the countdown.
        if self.wait == 0 {
            let length = random_in_range(MIN_TRAIL_LEN, MAX_TRAIL_LEN);
            let gap = random_in_range(MIN_GAP_LEN, MAX_GAP_LEN);
            self.trails.push(Trail { length, head: 0, head_glyph: '\0' });
            self.wait = length + gap;
        } else {
            self.wait = self.wait - 1;
        }
        let ghost mid = self.trails@;

        proof {
            // The appended trail keeps heads strictly decreasing: when the
            // countdown hit zero, every existing head is at least 1.
            if pre.wait == 0 && pre.trails@.len() > 0 {
                assert(forall|i: int|
                    0 <= i < pre.trails@.len() ==> (#[trigger] pre.trails@[i]).head
                        >= pre.trails@.last().head);
            }
            assert(forall|i: int, j: int|
                0 <= i < j < mid.len() ==> mid[i].head > mid[j].head);
            assert(forall|i: int|
                0 <= i < mid.len() ==> MIN_TRAIL_LEN <= (#[trigger] mid[i]).length
                    <= MAX_TRAIL_LEN);
            assert(forall|i: int| 0 <= i < mid.len() ==> (#[trigger] mid[i]).head <= HEAD_LIMIT);
        }

        // Retire the front trail once its tail has scrolled off screen.
        if self.trails.len() > 0 {
            let front = self.trails[0];
            if front.head + 1 >= front.length as u32 {
                let back = front.head + 1 - front.length as u32;
                if back >= height as u32 {
                    self.trails.remove(0);
                }
            }
        }
        let ghost survivors = self.trails@;

        proof {
            assert(survivors =~= retire_step(mid, height));
            // Every survivor can still advance without passing HEAD_LIMIT:
            // the front either just survived the retirement check, which
            // bounds its head by the screen height plus its length, or sits
            // strictly below the trail that was retired; every other trail
            // sits strictly below the front.
            assert forall|i: int| 0 <= i < survivors.len() implies (#[trigger] survivors[i]).head
                < HEAD_LIMIT by {
                if should_retire(mid, height) {
                    assert(survivors[i] == mid[i + 1]);
                    assert(mid[i + 1].head < mid[0].head);
                } else {
                    if !has_tail(mid[0]) {
                        assert(mid[0].head + 1 < mid[0].length);
                    } else {
                        assert(tail_row(mid[0]) < height);
                    }
                    if i > 0 {
                        assert(survivors[i].head < mid[0].head);
                    }
                }
            }
        }

        // Advance every surviving trail, emitting its draw operations.
        let ghost mid_wait = self.wait;
        let mut j: usize = 0;
        while j < self.trails.len()
            invariant
                self.wait == mid_wait,
                j <= self.trails@.len(),
                self.trails@.len() == survivors.len(),
                forall|k: int| j <= k < survivors.len() ==> self.trails@[k] == survivors[k],
                forall|k: int|
                    0 <= k < j ==> advanced_trail(survivors[k], #[trigger] self.trails@[k], height),
                out@ == base + tick_ops(
                    survivors.take(j as int),
                    self.trails@.take(j as int),
                    col,
                    height,
                ),
                forall|i: int|
                    0 <= i < survivors.len() ==> (#[trigger] survivors[i]).head < HEAD_LIMIT,
                forall|i: int|
                    0 <= i < survivors.len() ==> MIN_TRAIL_LEN <= (#[trigger] survivors[i]).length
                        <= MAX_TRAIL_LEN,
            decreases self.trails@.len() - j,
        {
            let ghost prev_ops = out@;
            let ghost prev_trails = self.trails@;
            let t = self.trails[j];
            proof {
                assert(t == survivors[j as int]);
                assert(t.head < HEAD_LIMIT);
            }

            if t.length > 1 && t.head < height as u32 {
                out.push(DrawOp::Body { col, row: t.head as u16, glyph: t.head_glyph });
            }
            if t.head + 1 >= t.length as u32 {
                let back = t.head + 1 - t.length as u32;
                if back < height as u32 {
                    out.push(DrawOp::Erase { col, row: back as u16 });
                }
            }
            let new_head = t.head + 1;
            let mut t2 = Trail { length: t.length, head: new_head, head_glyph: t.head_glyph };
            if new_head < height as u32 {
                let gi = random_in_range(0, GLYPH_COUNT - 1);
                let g = glyph_at(gi);
                out.push(DrawOp::Head { col, row: new_head as u16, glyph: g });
                t2.head_glyph = g;
                proof {
                    assert(glyph_palette().contains(g)) by {
                        assert(glyph_palette()[gi as int] == g);
                    }
                }
            }
            self.trails[j] = t2;

            proof {
                let ji = j as int;
                assert(advanced_trail(survivors[ji], t2, height));
                assert(out@ =~= prev_ops + crate::render::render_ops(
                    survivors[ji],
                    col,
                    height,
                    t2.head_glyph,
                ));
                assert(survivors.take(ji + 1).drop_last() =~= survivors.take(ji));
                assert(self.trails@.take(ji + 1).drop_last() =~= prev_trails.take(ji));
                assert(self.trails@.take(ji) =~= prev_trails.take(ji));
                assert(survivors.take(ji + 1).last() == survivors[ji]);
                assert(self.trails@.take(ji + 1).last() == t2);
            }
            j = j + 1;
        }

        proof {
            assert(survivors.take(survivors.len() as int) =~= survivors);
            assert(self.trails@.take(self.trails@.len() as int) =~= self.trails@);
            assert(out@.skip(base.len() as int) =~= tick_ops(
                survivors,
                self.trails@,
                col,
                height,
            ));
            // The relation's spawn clause: the spawned trail is never the
            // front unless the queue was empty, and a freshly spawned trail
            // has no tail yet, so it always survives to be advanced.
            if pre.wait == 0 {
                assert(mid.last() == new_trail(mid.last().length));
                assert(!has_tail(mid.last()));
                assert(survivors.len() > 0);
                assert(survivors.last() == mid.last());
                assert(self.trails@.last().length == survivors.last().length);
                assert(tick_mid(pre, *self) =~= mid);
            }
            // Well-formedness is preserved: lengths are kept, heads moved
            // down one row in step, and a column that just spawned has a
            // positive countdown again.
            assert(column_wf(*self));
        }
    }
}

} // verus!
