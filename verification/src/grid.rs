//! The fixed-width row grid and the row-block allocator's tracks.
//!
//! Three boolean indicator tracks locate step blocks — usable, step-start
//! (the first row of each block) and the grid's first/last-block markers —
//! and the rows-until-next-block track counts down to zero at every
//! block-start row, with its materialized modular inverse beside it. The
//! contract proved here: within every assigned block the countdown is zero
//! exactly on the block-start row, whatever the block's height.

use vstd::prelude::*;

use crate::field::{fp_inv_countdown, spec_inv_countdown, spec_inv_pair_ok};
use crate::gadget::{spec_needed_rows, StoredKind};
use crate::param::MAX_STEP_HEIGHT;
use crate::step::ExecutionState;

verus! {

/// The step-state cells on a block-start row: the view a gadget reads of
/// its own block's first row, and of the following block's first row.
#[derive(Clone, Copy, Debug, PartialEq, Eq, Structural)]
pub struct StepRowState {
    pub kind: ExecutionState,
    /// The field-reduced global read/write counter at the step's start.
    pub rw_counter: u64,
    /// The field-reduced counter within the chunk; 1 on the first step.
    pub inner_rw_counter: u64,
    pub is_root: bool,
    pub is_create: bool,
}

/// The witness grid: parallel row tracks of equal length.
#[derive(Debug)]
pub struct Grid {
    pub usable: Vec<bool>,
    pub q_step: Vec<u64>,
    pub countdown: Vec<u64>,
    pub countdown_inv: Vec<u64>,
    pub step_first: Vec<bool>,
    pub step_last: Vec<bool>,
    /// The step-state cells, present on block-start rows.
    pub state: Vec<Option<StepRowState>>,
    /// The stored-expression values laid into each block at its start row.
    pub stored: Vec<Vec<(StoredKind, u64)>>,
}

impl Grid {
    pub open spec fn spec_len(self) -> int {
        self.usable@.len() as int
    }

    /// All tracks cover the same rows.
    pub open spec fn spec_wf(self) -> bool {
        &&& self.q_step@.len() == self.usable@.len()
        &&& self.countdown@.len() == self.usable@.len()
        &&& self.countdown_inv@.len() == self.usable@.len()
        &&& self.step_first@.len() == self.usable@.len()
        &&& self.step_last@.len() == self.usable@.len()
        &&& self.state@.len() == self.usable@.len()
        &&& self.stored@.len() == self.usable@.len()
    }

    /// A fresh blank row: unusable, all tracks zero, no state.
    pub open spec fn spec_blank_row(self, r: int) -> bool {
        &&& !self.usable@[r]
        &&& self.q_step@[r] == 0
        &&& self.countdown@[r] == 0
        &&& self.countdown_inv@[r] == 0
        &&& !self.step_first@[r]
        &&& !self.step_last@[r]
        &&& self.state@[r] is None
        &&& self.stored@[r]@.len() == 0
    }

    pub fn len(&self) -> (n: usize)
        requires
            self.spec_wf(),
        ensures
            n == self.spec_len(),
    {
        self.usable.len()
    }

    pub fn new(n: usize) -> (g: Grid)
        ensures
            g.spec_wf(),
            g.spec_len() == n,
            forall|r: int| 0 <= r < n ==> g.spec_blank_row(r),
    {
        let mut g = Grid {
            usable: Vec::new(),
            q_step: Vec::new(),
            countdown: Vec::new(),
            countdown_inv: Vec::new(),
            step_first: Vec::new(),
            step_last: Vec::new(),
            state: Vec::new(),
            stored: Vec::new(),
        };
        g.ensure_rows(n);
        g
    }

    /// Grows the grid with blank rows until it holds at least `n` rows.
    pub fn ensure_rows(&mut self, n: usize)
        requires
            old(self).spec_wf(),
        ensures
            final(self).spec_wf(),
            final(self).spec_len() == vstd::math::max(old(self).spec_len(), n as int),
            forall|r: int|
                0 <= r < old(self).spec_len() ==> (#[trigger] final(self).usable@[r]) == old(
                    self,
                ).usable@[r],
            forall|r: int|
                0 <= r < old(self).spec_len() ==> (#[trigger] final(self).q_step@[r]) == old(
                    self,
                ).q_step@[r],
            forall|r: int|
                0 <= r < old(self).spec_len() ==> (#[trigger] final(self).countdown@[r]) == old(
                    self,
                ).countdown@[r],
            forall|r: int|
                0 <= r < old(self).spec_len() ==> (#[trigger] final(self).countdown_inv@[r])
                    == old(self).countdown_inv@[r],
            forall|r: int|
                0 <= r < old(self).spec_len() ==> (#[trigger] final(self).step_first@[r]) == old(
                    self,
                ).step_first@[r],
            forall|r: int|
                0 <= r < old(self).spec_len() ==> (#[trigger] final(self).step_last@[r]) == old(
                    self,
                ).step_last@[r],
            forall|r: int|
                0 <= r < old(self).spec_len() ==> (#[trigger] final(self).state@[r]) == old(
                    self,
                ).state@[r],
            forall|r: int|
                0 <= r < old(self).spec_len() ==> (#[trigger] final(self).stored@[r]) == old(
                    self,
                ).stored@[r],
            forall|r: int|
                old(self).spec_len() <= r < final(self).spec_len() ==> final(self).spec_blank_row(
                    r,
                ),
    {
        while self.usable.len() < n
            invariant
                self.spec_wf(),
                self.spec_len() >= old(self).spec_len(),
                self.spec_len() <= vstd::math::max(old(self).spec_len(), n as int),
                forall|r: int|
                    0 <= r < old(self).spec_len() ==> (#[trigger] self.usable@[r]) == old(
                        self,
                    ).usable@[r],
                forall|r: int|
                    0 <= r < old(self).spec_len() ==> (#[trigger] self.q_step@[r]) == old(
                        self,
                    ).q_step@[r],
                forall|r: int|
                    0 <= r < old(self).spec_len() ==> (#[trigger] self.countdown@[r]) == old(
                        self,
                    ).countdown@[r],
                forall|r: int|
                    0 <= r < old(self).spec_len() ==> (#[trigger] self.countdown_inv@[r]) == old(
                        self,
                    ).countdown_inv@[r],
                forall|r: int|
                    0 <= r < old(self).spec_len() ==> (#[trigger] self.step_first@[r]) == old(
                        self,
                    ).step_first@[r],
                forall|r: int|
                    0 <= r < old(self).spec_len() ==> (#[trigger] self.step_last@[r]) == old(
                        self,
                    ).step_last@[r],
                forall|r: int|
                    0 <= r < old(self).spec_len() ==> (#[trigger] self.state@[r]) == old(
                        self,
                    ).state@[r],
                forall|r: int|
                    0 <= r < old(self).spec_len() ==> (#[trigger] self.stored@[r]) == old(
                        self,
                    ).stored@[r],
                forall|r: int|
                    old(self).spec_len() <= r < self.spec_len() ==> self.spec_blank_row(r),
            decreases n - self.usable.len(),
        {
            let ghost pre = *self;
            self.usable.push(false);
            self.q_step.push(0);
            self.countdown.push(0);
            self.countdown_inv.push(0);
            self.step_first.push(false);
            self.step_last.push(false);
            self.state.push(None);
            self.stored.push(Vec::new());
            proof {
                assert(self.spec_blank_row(pre.spec_len()));
                assert forall|r: int|
                    old(self).spec_len() <= r < self.spec_len() implies self.spec_blank_row(
                    r,
                ) by {
                    if r < pre.spec_len() {
                        assert(pre.spec_blank_row(r));
                    }
                }
            }
        }
    }

    /// Assigns the step-counter tracks of one block: the usable indicator,
    /// the step-start selector, and the countdown with its inverse. The
    /// countdown is zero on the block-start row and counts down to one on
    /// the block's last row; the start selector is set exactly where the
    /// countdown is zero.
    #[verifier::rlimit(50)]
    pub fn assign_q_step(&mut self, offset: usize, height: usize)
        requires
            old(self).spec_wf(),
            1 <= height <= MAX_STEP_HEIGHT,
            offset + height <= old(self).spec_len(),
        ensures
            final(self).spec_wf(),
            final(self).spec_len() == old(self).spec_len(),
            forall|r: int|
                0 <= r < old(self).spec_len() && !(offset <= r < offset + height) ==> (
                #[trigger] final(self).usable@[r]) == old(self).usable@[r],
            forall|r: int|
                0 <= r < old(self).spec_len() && !(offset <= r < offset + height) ==> (
                #[trigger] final(self).q_step@[r]) == old(self).q_step@[r],
            forall|r: int|
                0 <= r < old(self).spec_len() && !(offset <= r < offset + height) ==> (
                #[trigger] final(self).countdown@[r]) == old(self).countdown@[r],
            forall|r: int|
                0 <= r < old(self).spec_len() && !(offset <= r < offset + height) ==> (
                #[trigger] final(self).countdown_inv@[r]) == old(self).countdown_inv@[r],
            final(self).step_first@ == old(self).step_first@,
            final(self).step_last@ == old(self).step_last@,
            final(self).state@ == old(self).state@,
            final(self).stored@ == old(self).stored@,
            forall|i: int| 0 <= i < height ==> #[trigger] final(self).usable@[offset + i],
            forall|i: int|
                0 <= i < height ==> (#[trigger] final(self).q_step@[offset + i]) == (if i == 0 {
                    1u64
                } else {
                    0u64
                }),
            forall|i: int|
                0 <= i < height ==> (#[trigger] final(self).countdown@[offset + i]) == (if i == 0 {
                    0u64
                } else {
                    (height - i) as u64
                }),
            forall|i: int|
                0 <= i < height ==> spec_inv_pair_ok(
                    #[trigger] final(self).countdown@[offset + i],
                    final(self).countdown_inv@[offset + i],
                ),
            forall|i: int|
                0 <= i < height ==> (#[trigger] final(self).countdown_inv@[offset + i])
                    == spec_inv_countdown(final(self).countdown@[offset + i]),
    {
        let total = self.usable.len();
        let mut idx: usize = 0;
        while idx < height
            invariant
                self.spec_wf(),
                self.spec_len() == old(self).spec_len(),
                1 <= height <= MAX_STEP_HEIGHT,
                offset + height <= self.spec_len(),
                self.usable@.len() <= usize::MAX,
                idx <= height,
                forall|r: int|
                    0 <= r < old(self).spec_len() && !(offset <= r < offset + idx) ==> {
                        &&& self.usable@[r] == old(self).usable@[r]
                        &&& self.q_step@[r] == old(self).q_step@[r]
                        &&& self.countdown@[r] == old(self).countdown@[r]
                        &&& self.countdown_inv@[r] == old(self).countdown_inv@[r]
                    },
                self.step_first@ == old(self).step_first@,
                self.step_last@ == old(self).step_last@,
                self.state@ == old(self).state@,
                self.stored@ == old(self).stored@,
                forall|i: int| 0 <= i < idx ==> #[trigger] self.usable@[offset + i],
                forall|i: int|
                    0 <= i < idx ==> (#[trigger] self.q_step@[offset + i]) == (if i == 0 {
                        1u64
                    } else {
                        0u64
                    }),
                forall|i: int|
                    0 <= i < idx ==> (#[trigger] self.countdown@[offset + i]) == (if i == 0 {
                        0u64
                    } else {
                        (height - i) as u64
                    }),
                forall|i: int|
                    0 <= i < idx ==> spec_inv_pair_ok(
                        #[trigger] self.countdown@[offset + i],
                        self.countdown_inv@[offset + i],
                    ),
                forall|i: int|
                    0 <= i < idx ==> (#[trigger] self.countdown_inv@[offset + i])
                        == spec_inv_countdown(self.countdown@[offset + i]),
            decreases height - idx,
        {
            let row = offset + idx;
            self.usable[row] = true;
            self.q_step[row] = if idx == 0 {
                1
            } else {
                0
            };
            let value: u64 = if idx == 0 {
                0
            } else {
                (height - idx) as u64
            };
            self.countdown[row] = value;
            let inv = fp_inv_countdown(value);
            self.countdown_inv[row] = inv;
            idx = idx + 1;
        }
    }
}

/// One assigned block of the given kind at row `r`: usable rows, the
/// start selector on its first row only, and the countdown running from
/// `h - 1` after the start row down to one.
pub open spec fn spec_block_assigned(g: Grid, r: int, k: ExecutionState) -> bool {
    let h = spec_needed_rows(k) as int;
    &&& 0 <= r
    &&& r + h <= g.spec_len()
    &&& forall|i: int| 0 <= i < h ==> #[trigger] g.usable@[r + i]
    &&& g.q_step@[r] == 1
    &&& g.countdown@[r] == 0
    &&& forall|i: int|
        1 <= i < h ==> (#[trigger] g.q_step@[r + i]) == 0 && g.countdown@[r + i] == (h - i) as u64
    &&& forall|i: int|
        0 <= i < h ==> spec_inv_pair_ok(#[trigger] g.countdown@[r + i], g.countdown_inv@[r + i])
    &&& forall|i: int|
        0 <= i < h ==> (#[trigger] g.countdown_inv@[r + i]) == spec_inv_countdown(
            g.countdown@[r + i],
        )
    &&& g.state@[r] matches Some(s) && s.kind == k
}

/// The number of rows a sequence of blocks occupies.
pub open spec fn spec_rows_of(ks: Seq<ExecutionState>) -> int
    decreases ks.len(),
{
    if ks.len() == 0 {
        0
    } else {
        spec_needed_rows(ks[0]) + spec_rows_of(ks.subrange(1, ks.len() as int))
    }
}

/// The rows starting at `start` hold exactly the given blocks, in order.
pub open spec fn spec_blocks(g: Grid, start: int, ks: Seq<ExecutionState>) -> bool
    decreases ks.len(),
{
    if ks.len() == 0 {
        true
    } else {
        spec_block_assigned(g, start, ks[0]) && spec_blocks(
            g,
            start + spec_needed_rows(ks[0]),
            ks.subrange(1, ks.len() as int),
        )
    }
}

pub proof fn lemma_rows_of_push(ks: Seq<ExecutionState>, k: ExecutionState)
    ensures
        spec_rows_of(ks.push(k)) == spec_rows_of(ks) + spec_needed_rows(k),
    decreases ks.len(),
{
    if ks.len() == 0 {
        assert(ks.push(k)[0] == k);
        assert(ks.push(k).subrange(1, ks.push(k).len() as int) =~= Seq::<
            ExecutionState,
        >::empty());
        assert(spec_rows_of(Seq::<ExecutionState>::empty()) == 0);
    } else {
        let rest = ks.subrange(1, ks.len() as int);
        assert(ks.push(k)[0] == ks[0]);
        assert(ks.push(k).subrange(1, ks.push(k).len() as int) =~= rest.push(k));
        lemma_rows_of_push(rest, k);
        assert(spec_rows_of(ks) == spec_needed_rows(ks[0]) + spec_rows_of(rest));
    }
}

/// Appending a freshly assigned block to an assigned run keeps the run
/// assigned.
pub proof fn lemma_blocks_push(g: Grid, start: int, ks: Seq<ExecutionState>, k: ExecutionState)
    requires
        spec_blocks(g, start, ks),
        spec_block_assigned(g, start + spec_rows_of(ks), k),
    ensures
        spec_blocks(g, start, ks.push(k)),
    decreases ks.len(),
{
    if ks.len() == 0 {
        assert(ks.push(k)[0] == k);
        assert(spec_rows_of(ks) == 0);
        assert(ks.push(k).subrange(1, ks.push(k).len() as int) =~= Seq::<
            ExecutionState,
        >::empty());
        assert(spec_blocks(g, start + spec_needed_rows(k), Seq::<ExecutionState>::empty()));
    } else {
        let rest = ks.subrange(1, ks.len() as int);
        assert(ks.push(k)[0] == ks[0]);
        assert(ks.push(k).subrange(1, ks.push(k).len() as int) =~= rest.push(k));
        assert(spec_rows_of(ks) == spec_needed_rows(ks[0]) + spec_rows_of(rest));
        lemma_blocks_push(g, start + spec_needed_rows(ks[0]), rest, k);
        assert(spec_blocks(g, start + spec_needed_rows(ks[0]), rest.push(k)));
    }
}

/// An assigned run only reads the rows it covers: a grid agreeing on those
/// rows carries the same run.
pub proof fn lemma_blocks_frame(g1: Grid, g2: Grid, start: int, ks: Seq<ExecutionState>)
    requires
        spec_blocks(g1, start, ks),
        g2.spec_len() >= g1.spec_len(),
        forall|r: int|
            start <= r < start + spec_rows_of(ks) ==> (#[trigger] g2.usable@[r]) == g1.usable@[r],
        forall|r: int|
            start <= r < start + spec_rows_of(ks) ==> (#[trigger] g2.q_step@[r]) == g1.q_step@[r],
        forall|r: int|
            start <= r < start + spec_rows_of(ks) ==> (#[trigger] g2.countdown@[r])
                == g1.countdown@[r],
        forall|r: int|
            start <= r < start + spec_rows_of(ks) ==> (#[trigger] g2.countdown_inv@[r])
                == g1.countdown_inv@[r],
        forall|r: int|
            start <= r < start + spec_rows_of(ks) ==> (#[trigger] g2.state@[r]) == g1.state@[r],
    ensures
        spec_blocks(g2, start, ks),
    decreases ks.len(),
{
    if ks.len() > 0 {
        let h = spec_needed_rows(ks[0]) as int;
        lemma_rows_of_nonneg(ks.subrange(1, ks.len() as int));
        assert(spec_rows_of(ks) == h + spec_rows_of(ks.subrange(1, ks.len() as int)));
        assert(spec_block_assigned(g1, start, ks[0]));
        assert forall|i: int| 0 <= i < h implies #[trigger] g2.usable@[start + i] by {
            assert(g1.usable@[start + i]);
        }
        assert forall|i: int|
            1 <= i < h implies (#[trigger] g2.q_step@[start + i]) == 0 && g2.countdown@[start + i]
                == (h - i) as u64 by {
            assert(spec_block_assigned(g1, start, ks[0]));
            assert(g1.q_step@[start + i] == 0);
            assert(g1.countdown@[start + i] == (h - i) as u64);
        }
        assert forall|i: int|
            0 <= i < h implies spec_inv_pair_ok(
                #[trigger] g2.countdown@[start + i],
                g2.countdown_inv@[start + i],
            ) by {
            assert(spec_inv_pair_ok(g1.countdown@[start + i], g1.countdown_inv@[start + i]));
        }
        assert forall|i: int|
            0 <= i < h implies (#[trigger] g2.countdown_inv@[start + i]) == spec_inv_countdown(
                g2.countdown@[start + i],
            ) by {
            assert(g1.countdown_inv@[start + i] == spec_inv_countdown(g1.countdown@[start + i]));
        }
        assert(g2.q_step@[start + 0int] == g1.q_step@[start + 0int]);
        assert(g2.countdown@[start + 0int] == g1.countdown@[start + 0int]);
        assert(g2.state@[start + 0int] == g1.state@[start + 0int]);
        assert(spec_block_assigned(g2, start, ks[0]));
        lemma_blocks_frame(g1, g2, start + spec_needed_rows(ks[0]), ks.subrange(1, ks.len() as int));
    }
}

/// A run splits at any point into its first rows and the rest.
pub proof fn lemma_rows_of_split(ks: Seq<ExecutionState>, i: int)
    requires
        0 <= i <= ks.len(),
    ensures
        spec_rows_of(ks) == spec_rows_of(ks.subrange(0, i)) + spec_rows_of(
            ks.subrange(i, ks.len() as int),
        ),
    decreases i,
{
    if i == 0 {
        assert(ks.subrange(0, 0) =~= Seq::<ExecutionState>::empty());
        assert(ks.subrange(0, ks.len() as int) =~= ks);
    } else {
        let head = ks.subrange(0, i);
        lemma_rows_of_split(ks.subrange(1, ks.len() as int), i - 1);
        assert(head.subrange(1, head.len() as int) =~= ks.subrange(1, ks.len() as int).subrange(
            0,
            i - 1,
        ));
        assert(ks.subrange(1, ks.len() as int).subrange(i - 1, ks.len() - 1) =~= ks.subrange(
            i,
            ks.len() as int,
        ));
        assert(spec_rows_of(ks) == spec_needed_rows(ks[0]) + spec_rows_of(
            ks.subrange(1, ks.len() as int),
        ));
        assert(spec_rows_of(head) == spec_needed_rows(head[0]) + spec_rows_of(
            head.subrange(1, head.len() as int),
        ));
    }
}

pub proof fn lemma_rows_of_nonneg(ks: Seq<ExecutionState>)
    ensures
        spec_rows_of(ks) >= 0,
    decreases ks.len(),
{
    if ks.len() > 0 {
        lemma_rows_of_nonneg(ks.subrange(1, ks.len() as int));
    }
}

/// The last block of an assigned run stands at the run's end.
pub proof fn lemma_blocks_last(g: Grid, start: int, ks: Seq<ExecutionState>)
    requires
        spec_blocks(g, start, ks),
        ks.len() >= 1,
    ensures
        spec_rows_of(ks) >= spec_needed_rows(ks.last()),
        spec_block_assigned(
            g,
            start + spec_rows_of(ks) - spec_needed_rows(ks.last()),
            ks.last(),
        ),
    decreases ks.len(),
{
    let rest = ks.subrange(1, ks.len() as int);
    if ks.len() == 1 {
        assert(rest =~= Seq::<ExecutionState>::empty());
        assert(spec_rows_of(ks) == spec_needed_rows(ks[0]) + spec_rows_of(rest));
        assert(spec_rows_of(rest) == 0);
        assert(ks.last() == ks[0]);
    } else {
        lemma_blocks_last(g, start + spec_needed_rows(ks[0]), rest);
        assert(rest.last() == ks.last());
        lemma_rows_of_nonneg(rest);
        assert(spec_rows_of(ks) == spec_needed_rows(ks[0]) + spec_rows_of(rest));
    }
}

/// Every row of an assigned run is usable and answers the countdown law:
/// the countdown reaches zero exactly on the rows where the block-start
/// selector is set.
pub proof fn lemma_blocks_row_facts(g: Grid, start: int, ks: Seq<ExecutionState>)
    requires
        spec_blocks(g, start, ks),
    ensures
        forall|r: int|
            start <= r < start + spec_rows_of(ks) ==> (((#[trigger] g.countdown@[r]) == 0) <==> (
            g.q_step@[r] == 1)),
        forall|r: int| start <= r < start + spec_rows_of(ks) ==> #[trigger] g.usable@[r],
    decreases ks.len(),
{
    if ks.len() > 0 {
        lemma_rows_of_nonneg(ks.subrange(1, ks.len() as int));
        lemma_blocks_row_facts(
            g,
            start + spec_needed_rows(ks[0]),
            ks.subrange(1, ks.len() as int),
        );
        let h = spec_needed_rows(ks[0]) as int;
        assert forall|r: int|
            start <= r < start + spec_rows_of(ks) implies (((#[trigger] g.countdown@[r]) == 0)
            <==> (g.q_step@[r] == 1)) by {
            if r < start + h {
                if r > start {
                    let i = r - start;
                    assert(g.q_step@[start + i] == 0 && g.countdown@[start + i] == (h - i) as u64);
                }
            }
        }
        assert forall|r: int|
            start <= r < start + spec_rows_of(ks) implies #[trigger] g.usable@[r] by {
            if r < start + h {
                let i = r - start;
                assert(g.usable@[start + i]);
            }
        }
    }
}

/// A block only reads the rows it covers: a grid agreeing on them carries
/// the same block.
pub proof fn lemma_block_assigned_frame(g1: Grid, g2: Grid, r: int, k: ExecutionState)
    requires
        spec_block_assigned(g1, r, k),
        g2.spec_len() >= g1.spec_len(),
        forall|i: int|
            r <= i < r + spec_needed_rows(k) ==> (#[trigger] g2.usable@[i]) == g1.usable@[i],
        forall|i: int|
            r <= i < r + spec_needed_rows(k) ==> (#[trigger] g2.q_step@[i]) == g1.q_step@[i],
        forall|i: int|
            r <= i < r + spec_needed_rows(k) ==> (#[trigger] g2.countdown@[i]) == g1.countdown@[i],
        forall|i: int|
            r <= i < r + spec_needed_rows(k) ==> (#[trigger] g2.countdown_inv@[i])
                == g1.countdown_inv@[i],
        g2.state@[r] == g1.state@[r],
    ensures
        spec_block_assigned(g2, r, k),
{
    let h = spec_needed_rows(k) as int;
    assert forall|i: int| 0 <= i < h implies #[trigger] g2.usable@[r + i] by {
        assert(g2.usable@[r + i] == g1.usable@[r + i]);
        assert(g1.usable@[r + i]);
    }
    assert forall|i: int|
        1 <= i < h implies (#[trigger] g2.q_step@[r + i]) == 0 && g2.countdown@[r + i] == (h
        - i) as u64 by {
        assert(g2.q_step@[r + i] == g1.q_step@[r + i]);
        assert(g2.countdown@[r + i] == g1.countdown@[r + i]);
        assert(g1.q_step@[r + i] == 0);
        assert(g1.countdown@[r + i] == (h - i) as u64);
    }
    assert forall|i: int|
        0 <= i < h implies spec_inv_pair_ok(
            #[trigger] g2.countdown@[r + i],
            g2.countdown_inv@[r + i],
        ) by {
        assert(g2.countdown@[r + i] == g1.countdown@[r + i]);
        assert(g2.countdown_inv@[r + i] == g1.countdown_inv@[r + i]);
        assert(spec_inv_pair_ok(g1.countdown@[r + i], g1.countdown_inv@[r + i]));
    }
    assert forall|i: int|
        0 <= i < h implies (#[trigger] g2.countdown_inv@[r + i]) == spec_inv_countdown(
            g2.countdown@[r + i],
        ) by {
        assert(g2.countdown@[r + i] == g1.countdown@[r + i]);
        assert(g2.countdown_inv@[r + i] == g1.countdown_inv@[r + i]);
        assert(g1.countdown_inv@[r + i] == spec_inv_countdown(g1.countdown@[r + i]));
    }
    assert(g2.q_step@[r + 0int] == g1.q_step@[r + 0int]);
    assert(g2.countdown@[r + 0int] == g1.countdown@[r + 0int]);
}

/// Extending an assigned run with a range of height-one padding blocks.
pub proof fn lemma_pad_run(g: Grid, ks: Seq<ExecutionState>, start: int, end: int)
    requires
        spec_blocks(g, 0, ks),
        spec_rows_of(ks) == start,
        start <= end,
        forall|r: int|
            start <= r < end ==> spec_block_assigned(g, r, ExecutionState::Padding),
    ensures
        spec_blocks(
            g,
            0,
            ks + Seq::new((end - start) as nat, |j: int| ExecutionState::Padding),
        ),
        spec_rows_of(ks + Seq::new((end - start) as nat, |j: int| ExecutionState::Padding))
            == end,
    decreases end - start,
{
    if start == end {
        assert(ks + Seq::new(0, |j: int| ExecutionState::Padding) =~= ks);
    } else {
        assert(spec_block_assigned(g, start, ExecutionState::Padding));
        lemma_blocks_push(g, 0, ks, ExecutionState::Padding);
        lemma_rows_of_push(ks, ExecutionState::Padding);
        lemma_pad_run(g, ks.push(ExecutionState::Padding), start + 1, end);
        assert(ks.push(ExecutionState::Padding) + Seq::new(
            (end - start - 1) as nat,
            |j: int| ExecutionState::Padding,
        ) =~= ks + Seq::new((end - start) as nat, |j: int| ExecutionState::Padding));
    }
}

} // verus!
