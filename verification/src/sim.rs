//! The whole simulation: one column per terminal column.

use crate::column::column_tick_rel;
use crate::column::column_wf;
use crate::column::tick_survivors;
use crate::column::Column;
use crate::render::tick_ops;
use crate::render::DrawOp;
use crate::rng::random_in_range;
use crate::MAX_GAP_LEN;
use vstd::prelude::*;

verus! {

/// The full set of columns, indexed by terminal column, left to right.
#[derive(Clone, Debug, PartialEq)]
pub struct Simulation {
    /// One entry per terminal column; the length is the last reconciled
    /// terminal width.
    pub columns: Vec<Column>,
}

/// A structurally sound simulation: no more columns than a terminal can be
/// wide, each of them sound.
pub open spec fn sim_wf(s: Simulation) -> bool {
    &&& s.columns@.len() <= 65535
    &&& forall|i: int| 0 <= i < s.columns@.len() ==> column_wf(#[trigger] s.columns@[i])
}

/// The state reconciliation gives a newly appended column: no trails yet,
/// and an initial countdown of at most the largest gap.
pub open spec fn fresh_column(c: Column) -> bool {
    c.trails@.len() == 0 && c.wait <= MAX_GAP_LEN
}

/// Everything reconciliation does: the column count becomes exactly the
/// observed width, every column below the width keeps its state untouched,
/// columns appended to fill a grown width are fresh, and a width that
/// already matches changes nothing at all.
pub open spec fn reconcile_rel(pre: Simulation, post: Simulation, width: u16) -> bool {
    &&& post.columns@.len() == width as int
    &&& forall|i: int|
        0 <= i < pre.columns@.len() && i < width as int ==> #[trigger] post.columns@[i]
            == pre.columns@[i]
    &&& forall|i: int|
        pre.columns@.len() <= i < width as int ==> fresh_column(#[trigger] post.columns@[i])
    &&& (pre.columns@.len() == width as int ==> post == pre)
}

/// The draw operations the last column of a frame emitted: their content,
/// and hence their count, is fixed by that column's states before and after
/// the tick.
pub open spec fn last_column_ops(
    pre: Seq<Column>,
    post: Seq<Column>,
    height: u16,
) -> Seq<DrawOp> {
    tick_ops(
        tick_survivors(pre.last(), post.last(), height),
        post.last().trails@,
        (pre.len() - 1) as u16,
        height,
    )
}

/// Everything one frame's tick does, column by column from the left: the
/// draw operations split into one run per column, each column related to
/// its successor state by `column_tick_rel` under its own column index.
pub open spec fn sim_tick_rel(
    pre: Seq<Column>,
    post: Seq<Column>,
    height: u16,
    ops: Seq<DrawOp>,
) -> bool
    decreases pre.len(),
{
    if pre.len() == 0 {
        &&& post.len() == 0
        &&& ops.len() == 0
    } else {
        let split = ops.len() - last_column_ops(pre, post, height).len();
        &&& post.len() == pre.len()
        &&& last_column_ops(pre, post, height).len() <= ops.len()
        &&& sim_tick_rel(pre.drop_last(), post.drop_last(), height, ops.take(split))
        &&& column_tick_rel(pre.last(), post.last(), (pre.len() - 1) as u16, height, ops.skip(split))
    }
}

impl Simulation {
    /// A simulation with no columns yet; the first reconciliation populates
    /// it to the observed width.
    pub fn new() -> (s: Simulation)
        ensures
            s.columns@.len() == 0,
            sim_wf(s),
    {
        Simulation { columns: Vec::new() }
    }

    /// Match the column count to the observed terminal width: drop the
    /// trailing columns of a shrunken width together with their trails, or
    /// append freshly seeded columns to fill a grown one.
    pub fn reconcile(&mut self, width: u16)
        requires
            sim_wf(*old(self)),
        ensures
            sim_wf(*final(self)),
            reconcile_rel(*old(self), *final(self), width),
    {
        if (width as usize) < self.columns.len() {
            self.columns.truncate(width as usize);
        } else if (width as usize) > self.columns.len() {
            while self.columns.len() < width as usize
                invariant
                    sim_wf(*old(self)),
                    old(self).columns@.len() <= self.columns@.len() <= width as int,
                    forall|i: int|
                        0 <= i < old(self).columns@.len() ==> #[trigger] self.columns@[i] == old(
                            self,
                        ).columns@[i],
                    forall|i: int|
                        old(self).columns@.len() <= i < self.columns@.len() ==> fresh_column(
                            #[trigger] self.columns@[i],
                        ),
                decreases width as int - self.columns@.len(),
            {
                let w0 = random_in_range(0, MAX_GAP_LEN);
                self.columns.push(Column::with_wait(w0));
            }
        }
    }

    /// One frame: tick every column once, left to right, and hand back the
    /// draw operations of the whole frame in that order.
    pub fn tick(&mut self, height: u16) -> (ops: Vec<DrawOp>)
        requires
            sim_wf(*old(self)),
        ensures
            sim_wf(*final(self)),
            final(self).columns@.len() == old(self).columns@.len(),
            sim_tick_rel(old(self).columns@, final(self).columns@, height, ops@),
    {
        let ghost pre_cols = self.columns@;
        let mut ops: Vec<DrawOp> = Vec::new();
        let mut done: Vec<Column> = Vec::new();
        while self.columns.len() > 0
            invariant
                done@.len() + self.columns@.len() == pre_cols.len(),
                pre_cols.len() <= 65535,
                forall|i: int| 0 <= i < pre_cols.len() ==> column_wf(#[trigger] pre_cols[i]),
                forall|i: int|
                    0 <= i < self.columns@.len() ==> #[trigger] self.columns@[i] == pre_cols[done@.len()
                        + i],
                forall|i: int| 0 <= i < done@.len() ==> column_wf(#[trigger] done@[i]),
                sim_tick_rel(pre_cols.take(done@.len() as int), done@, height, ops@),
            decreases self.columns@.len(),
        {
            let ghost k = ops@.len() as int;
            let ghost prev_ops = ops@;
            let ghost done_pre = done@;
            let idx = done.len();
            let mut c = self.columns.remove(0);
            c.tick(idx as u16, height, &mut ops);
            done.push(c);
            proof {
                let i = done_pre.len() as int;
                assert(pre_cols.take(i + 1).drop_last() =~= pre_cols.take(i));
                assert(done@.drop_last() =~= done_pre);
                assert(ops@.take(k) =~= prev_ops);
                assert(sim_tick_rel(
                    pre_cols.take(i + 1).drop_last(),
                    done@.drop_last(),
                    height,
                    ops@.take(k),
                ));
                assert(pre_cols.take(i + 1).last() == pre_cols[i]);
                assert(column_tick_rel(
                    pre_cols.take(i + 1).last(),
                    done@.last(),
                    (pre_cols.take(i + 1).len() - 1) as u16,
                    height,
                    ops@.skip(k),
                ));
                assert(done@.len() == i + 1);
                assert(pre_cols.take(i + 1).len() == i + 1);
                assert(ops@.skip(k) == last_column_ops(pre_cols.take(i + 1), done@, height));
                assert(ops@.len() - last_column_ops(pre_cols.take(i + 1), done@, height).len()
                    == k);
                assert(sim_tick_rel(pre_cols.take(i + 1), done@, height, ops@));
            }
        }
        self.columns = done;
        proof {
            assert(pre_cols.take(pre_cols.len() as int) =~= pre_cols);
        }
        ops
    }
}

/// Law: reconciling is idempotent.  A second reconciliation to the same
/// width finds the column count already matching and leaves the state
/// identical.
pub proof fn lemma_reconcile_idempotent(
    pre: Simulation,
    mid: Simulation,
    post: Simulation,
    width: u16,
)
    requires
        reconcile_rel(pre, mid, width),
        reconcile_rel(mid, post, width),
    ensures
        post == mid,
{
}

} // verus!
