//! The trace walker: consumes a chunk's ordered trace and fills the grid.
//!
//! The walker builds one linear sequence of steps — an optional synthetic
//! chunk-opening step, every real step whose global read/write position
//! falls inside the chunk's range, and a padding sentinel used only so the
//! last real step's successor window can be filled — and assigns row blocks
//! left to right. Remaining capacity is filled by replicating a single
//! padding assignment; the chunk-closing or block-closing step follows; and
//! the last real step is then re-assigned in place once its true successor
//! is known, which the proofs show changes nothing.

use vstd::prelude::*;

use crate::config::{ExecError, ExecutionConfig};
use crate::field::{fp_add, fp_of, is_fp, spec_fp_add, spec_fp_of, spec_inv_countdown, spec_inv_pair_ok, spec_rlc};
use crate::gadget::{
    spec_needed_rows, spec_stored_layout, spec_stored_shape, stored_shape, StoredKind, StoredShape,
};
use crate::param::MAX_STEP_HEIGHT;
use crate::grid::{lemma_block_assigned_frame, lemma_rows_of_nonneg, lemma_rows_of_split, lemma_blocks_frame, lemma_blocks_last, lemma_pad_run, lemma_blocks_push, lemma_blocks_row_facts, lemma_rows_of_push, spec_block_assigned, spec_blocks, spec_rows_of, Grid, StepRowState};
use crate::step::ExecutionState;
use crate::witness::{Block, Call, Chunk, ExecStep};

verus! {

/// One entry of the walker's linear sequence: the synthetic chunk-opening
/// step, or the step at the given transaction and step position.
#[derive(Clone, Copy, Debug, PartialEq, Eq, Structural)]
pub enum SeqEntry {
    BeginChunk,
    Real { tx: usize, step: usize },
}

/// The value of a plain read/write lookup: the encoding of the event at
/// the given position of the step's slice of the global log, or zero where
/// no such event is recorded.
pub open spec fn spec_rw_value(block: Block, step: ExecStep, pos: int, challenge: u64) -> u64 {
    if 0 <= pos < step.rw_indices@.len() && step.rw_indices@[pos as int] < block.rws@.len() {
        spec_rlc(
            block.rws@[step.rw_indices@[pos as int] as int].spec_table_assignment(),
            challenge,
        )
    } else {
        0
    }
}

/// The number of stored values a shape lays down.
pub open spec fn spec_stored_total(shape: StoredShape) -> int {
    shape.n_rw + (if shape.has_copy {
        1int
    } else {
        0int
    }) + shape.n_rev + shape.n_other
}

/// The value of the j-th stored expression of a step: plain read/write
/// lookups take the forward positions of the step's log slice; the copy
/// value stands in for the whole copy run; reversible writes are assigned
/// inline but take the positions at the end of the slice, where the log
/// records them; intermediates carry the owning call's tag.
pub open spec fn spec_stored_value(
    shape: StoredShape,
    block: Block,
    step: ExecStep,
    call: Call,
    challenge: u64,
    j: int,
) -> u64 {
    let n_rw = shape.n_rw as int;
    let n_copy: int = if shape.has_copy {
        1int
    } else {
        0int
    };
    if j < n_rw {
        spec_rw_value(block, step, j, challenge)
    } else if shape.has_copy && j == n_rw {
        spec_fp_of(step.copy_rw_counter_delta)
    } else if j < n_rw + n_copy + shape.n_rev {
        spec_rw_value(block, step, step.rw_indices@.len() - 1 - (j - n_rw - n_copy), challenge)
    } else {
        spec_fp_of(call.id)
    }
}

/// The full stored-value assignment of one step.
pub open spec fn spec_assigned_stored(
    shape: StoredShape,
    block: Block,
    step: ExecStep,
    call: Call,
    challenge: u64,
) -> Seq<(StoredKind, u64)> {
    Seq::new(
        spec_stored_total(shape) as nat,
        |j: int|
            (
                spec_stored_layout(shape)[j],
                spec_stored_value(shape, block, step, call, challenge, j),
            ),
    )
}

/// The step-state cells written on a block-start row.
pub open spec fn spec_step_state(chunk: Chunk, call: Call, step: ExecStep) -> StepRowState {
    StepRowState {
        kind: step.exec_state,
        rw_counter: spec_fp_of(step.rwc),
        inner_rw_counter: spec_fp_add(
            spec_fp_of(
                if step.rwc >= chunk.chunk_context.initial_rwc {
                    (step.rwc - chunk.chunk_context.initial_rwc) as u64
                } else {
                    0u64
                },
            ),
            1u64,
        ),
        is_root: call.is_root,
        is_create: call.is_create,
    }
}

/// The encoding of the recorded event at one forward position of the
/// step's log slice.
fn rw_value_at(block: &Block, step: &ExecStep, pos: usize, challenge: u64) -> (r: u64)
    requires
        is_fp(challenge),
    ensures
        r == spec_rw_value(*block, *step, pos as int, challenge),
        is_fp(r),
{
    if pos < step.rw_indices.len() {
        let ri = step.rw_indices[pos];
        if ri < block.rws.len() {
            block.rws[ri].rlc_value(challenge)
        } else {
            0
        }
    } else {
        0
    }
}

impl ExecutionConfig {
    /// Computes the witness values of every stored expression the step's
    /// gadget materializes, in the gadget's fixed order.
    pub fn assign_stored_expressions(
        &self,
        block: &Block,
        call: Call,
        step: &ExecStep,
        challenge: u64,
    ) -> (r: Result<Vec<(StoredKind, u64)>, ExecError>)
        requires
            self.spec_wf(),
            is_fp(challenge),
        ensures
            match r {
                Ok(v) => self.spec_registered(step.exec_state) && v@ == spec_assigned_stored(
                    spec_stored_shape(step.exec_state),
                    *block,
                    *step,
                    call,
                    challenge,
                ),
                Err(e) => !self.spec_registered(step.exec_state) && e
                    == ExecError::MissingGadget,
            },
    {
        let kind = step.execution_state();
        if self.gadget_of(kind).is_none() {
            return Err(ExecError::MissingGadget);
        }
        let shape = stored_shape(kind);
        let ghost gshape = shape;
        let mut out: Vec<(StoredKind, u64)> = Vec::new();
        let n_copy: usize = if shape.has_copy {
            1
        } else {
            0
        };
        let ghost total = spec_stored_total(gshape);

        let mut j: usize = 0;
        while j < shape.n_rw
            invariant
                self.spec_wf(),
                is_fp(challenge),
                shape == gshape,
                j <= shape.n_rw,
                out@.len() == j,
                forall|t: int|
                    0 <= t < j ==> (#[trigger] out@[t]) == spec_assigned_stored(
                        gshape,
                        *block,
                        *step,
                        call,
                        challenge,
                    )[t],
            decreases shape.n_rw - j,
        {
            let v = rw_value_at(block, step, j, challenge);
            out.push((StoredKind::RwLookup { with_reversion: false, ordinal: j }, v));
            j = j + 1;
        }
        if shape.has_copy {
            out.push((StoredKind::CopyLookup, fp_of(step.copy_rw_counter_delta)));
        }
        let mut t: usize = 0;
        while t < shape.n_rev
            invariant
                self.spec_wf(),
                is_fp(challenge),
                shape == gshape,
                t <= shape.n_rev,
                shape.n_rw <= 4,
                shape.n_rev <= 1,
                n_copy == (if gshape.has_copy {
                    1int
                } else {
                    0int
                }),
                out@.len() == gshape.n_rw + n_copy + t,
                forall|u: int|
                    0 <= u < out@.len() ==> (#[trigger] out@[u]) == spec_assigned_stored(
                        gshape,
                        *block,
                        *step,
                        call,
                        challenge,
                    )[u],
            decreases shape.n_rev - t,
        {
            let len = step.rw_indices.len();
            let v = if t < len {
                rw_value_at(block, step, len - 1 - t, challenge)
            } else {
                0
            };
            proof {
                if t >= step.rw_indices@.len() {
                    assert(step.rw_indices@.len() - 1 - (t as int) < 0);
                }
            }
            out.push((StoredKind::RwLookup { with_reversion: true, ordinal: shape.n_rw + n_copy + t }, v));
            t = t + 1;
        }
        let mut o: usize = 0;
        while o < shape.n_other
            invariant
                self.spec_wf(),
                is_fp(challenge),
                shape == gshape,
                o <= shape.n_other,
                n_copy == (if gshape.has_copy {
                    1int
                } else {
                    0int
                }),
                out@.len() == gshape.n_rw + n_copy + gshape.n_rev + o,
                forall|u: int|
                    0 <= u < out@.len() ==> (#[trigger] out@[u]) == spec_assigned_stored(
                        gshape,
                        *block,
                        *step,
                        call,
                        challenge,
                    )[u],
            decreases shape.n_other - o,
        {
            out.push((StoredKind::Intermediate, fp_of(call.id)));
            o = o + 1;
        }
        proof {
            assert(out@ =~= spec_assigned_stored(gshape, *block, *step, call, challenge));
        }
        Ok(out)
    }

    /// Writes one step's state cells and stored-expression values into its
    /// block-start row. Nothing else of the grid is touched; a step whose
    /// kind has no configured gadget is the fatal missing-gadget defect and
    /// leaves the grid unchanged.
    pub fn assign_exec_step_int(
        &self,
        grid: &mut Grid,
        offset: usize,
        block: &Block,
        chunk: &Chunk,
        call: Call,
        step: &ExecStep,
        challenge: u64,
    ) -> (r: Result<(), ExecError>)
        requires
            self.spec_wf(),
            old(grid).spec_wf(),
            offset < old(grid).spec_len(),
            is_fp(challenge),
        ensures
            final(grid).spec_wf(),
            final(grid).spec_len() == old(grid).spec_len(),
            final(grid).usable@ == old(grid).usable@,
            final(grid).q_step@ == old(grid).q_step@,
            final(grid).countdown@ == old(grid).countdown@,
            final(grid).countdown_inv@ == old(grid).countdown_inv@,
            final(grid).step_first@ == old(grid).step_first@,
            final(grid).step_last@ == old(grid).step_last@,
            match r {
                Ok(()) => {
                    &&& self.spec_registered(step.exec_state)
                    &&& final(grid).state@ == old(grid).state@.update(
                        offset as int,
                        Some(spec_step_state(*chunk, call, *step)),
                    )
                    &&& final(grid).stored@[offset as int]@ == spec_assigned_stored(
                        spec_stored_shape(step.exec_state),
                        *block,
                        *step,
                        call,
                        challenge,
                    )
                    &&& forall|r2: int|
                        0 <= r2 < old(grid).spec_len() && r2 != offset ==> final(grid).stored@[r2] == old(grid).stored@[r2]
                },
                Err(e) => {
                    &&& !self.spec_registered(step.exec_state)
                    &&& e == ExecError::MissingGadget
                    &&& *final(grid) == *old(grid)
                },
            },
    {
        let stored = self.assign_stored_expressions(block, call, step, challenge)?;
        let rwc = fp_of(step.rwc);
        let inner = if step.rwc >= chunk.chunk_context.initial_rwc {
            fp_add(fp_of(step.rwc - chunk.chunk_context.initial_rwc), 1)
        } else {
            fp_add(fp_of(0), 1)
        };
        grid.state[offset] = Some(
            StepRowState {
                kind: step.execution_state(),
                rw_counter: rwc,
                inner_rw_counter: inner,
                is_root: call.is_root,
                is_create: call.is_create,
            },
        );
        grid.stored[offset] = stored;
        Ok(())
    }

    /// Assigns one step's block, pre-computing the successor step's values
    /// into the following block's first row first, so that any stored
    /// expression referencing "next" resolves, then materializing the
    /// current block.
    pub fn assign_exec_step(
        &self,
        grid: &mut Grid,
        offset: usize,
        block: &Block,
        chunk: &Chunk,
        call: Call,
        step: &ExecStep,
        height: usize,
        next: Option<(Call, &ExecStep)>,
        challenge: u64,
    ) -> (r: Result<(), ExecError>)
        requires
            self.spec_wf(),
            old(grid).spec_wf(),
            1 <= height,
            offset + height < old(grid).spec_len(),
            is_fp(challenge),
        ensures
            final(grid).spec_wf(),
            final(grid).spec_len() == old(grid).spec_len(),
            final(grid).usable@ == old(grid).usable@,
            final(grid).q_step@ == old(grid).q_step@,
            final(grid).countdown@ == old(grid).countdown@,
            final(grid).countdown_inv@ == old(grid).countdown_inv@,
            final(grid).step_first@ == old(grid).step_first@,
            final(grid).step_last@ == old(grid).step_last@,
            forall|r2: int|
                0 <= r2 < old(grid).spec_len() && r2 != offset && r2 != offset + height ==> final(grid).state@[r2] == old(grid).state@[r2] && final(grid).stored@[r2] == old(grid).stored@[r2],
            r is Ok ==> {
                &&& self.spec_registered(step.exec_state)
                &&& final(grid).state@[offset as int] == Some(
                    spec_step_state(*chunk, call, *step),
                )
                &&& final(grid).stored@[offset as int]@ == spec_assigned_stored(
                    spec_stored_shape(step.exec_state),
                    *block,
                    *step,
                    call,
                    challenge,
                )
                &&& match next {
                    Some((ncall, nstep)) => {
                        &&& self.spec_registered(nstep.exec_state)
                        &&& final(grid).state@[offset + height] == Some(
                            spec_step_state(*chunk, ncall, *nstep),
                        )
                        &&& final(grid).stored@[offset + height]@ == spec_assigned_stored(
                            spec_stored_shape(nstep.exec_state),
                            *block,
                            *nstep,
                            ncall,
                            challenge,
                        )
                    },
                    None => final(grid).state@[offset + height] == old(grid).state@[offset
                        + height] && final(grid).stored@[offset + height] == old(grid).stored@[
                        offset + height],
                }
            },
            r matches Err(e) ==> e == ExecError::MissingGadget,
            r is Err ==> (!self.spec_registered(step.exec_state) || (next matches Some((nc2, ns2))
                && !self.spec_registered(ns2.exec_state))),
    {
        let total = grid.len();
        match next {
            Some((ncall, nstep)) => {
                self.assign_exec_step_int(
                    grid,
                    offset + height,
                    block,
                    chunk,
                    ncall,
                    nstep,
                    challenge,
                )?;
            },
            None => (),
        }
        self.assign_exec_step_int(grid, offset, block, chunk, call, step, challenge)
    }

    /// Replicates a single padding assignment across a row range rather
    /// than recomputing it per row: the padding step must be the height-one
    /// padding kind performing no read/write events.
    pub fn assign_same_exec_step_in_range(
        &self,
        grid: &mut Grid,
        offset_begin: usize,
        offset_end: usize,
        block: &Block,
        chunk: &Chunk,
        call: Call,
        step: &ExecStep,
        height: usize,
        challenge: u64,
    ) -> (r: Result<(), ExecError>)
        requires
            self.spec_wf(),
            old(grid).spec_wf(),
            offset_end <= old(grid).spec_len(),
            is_fp(challenge),
        ensures
            final(grid).spec_wf(),
            final(grid).spec_len() == old(grid).spec_len(),
            final(grid).usable@ == old(grid).usable@,
            final(grid).q_step@ == old(grid).q_step@,
            final(grid).countdown@ == old(grid).countdown@,
            final(grid).countdown_inv@ == old(grid).countdown_inv@,
            final(grid).step_first@ == old(grid).step_first@,
            final(grid).step_last@ == old(grid).step_last@,
            forall|r2: int|
                0 <= r2 < old(grid).spec_len() && !(offset_begin <= r2 < offset_end) ==> (
                #[trigger] final(grid).state@[r2]) == old(grid).state@[r2],
            forall|r2: int|
                0 <= r2 < old(grid).spec_len() && !(offset_begin <= r2 < offset_end) ==> (
                #[trigger] final(grid).stored@[r2]) == old(grid).stored@[r2],
            offset_end <= offset_begin ==> (r is Ok && *final(grid) == *old(grid)),
            r is Ok && offset_begin < offset_end ==> {
                &&& step.exec_state == ExecutionState::Padding
                &&& height == 1
                &&& step.rw_indices@.len() == 0
                &&& self.spec_registered(ExecutionState::Padding)
                &&& forall|r2: int|
                    offset_begin <= r2 < offset_end ==> (#[trigger] final(grid).state@[r2])
                        == Some(spec_step_state(*chunk, call, *step))
                &&& forall|r2: int|
                    offset_begin <= r2 < offset_end ==> (#[trigger] final(grid).stored@[r2])@.len()
                        == 0
            },
            r matches Err(e) ==> (e == ExecError::BadPaddingStep || e
                == ExecError::MissingGadget),
            offset_begin < offset_end ==> (r is Ok <==> (height == 1 && step.exec_state
                == ExecutionState::Padding && step.rw_indices@.len() == 0 && self.spec_registered(
                ExecutionState::Padding,
            ))),
            offset_begin < offset_end ==> (r == Result::<(), ExecError>::Err(
                ExecError::BadPaddingStep,
            ) <==> !(height == 1 && step.exec_state == ExecutionState::Padding
                && step.rw_indices@.len() == 0)),
            offset_begin < offset_end ==> (r == Result::<(), ExecError>::Err(
                ExecError::MissingGadget,
            ) <==> (height == 1 && step.exec_state == ExecutionState::Padding
                && step.rw_indices@.len() == 0 && !self.spec_registered(ExecutionState::Padding))),
    {
        if offset_end <= offset_begin {
            return Ok(());
        }
        if !(height == 1) || step.rw_indices_len() != 0 || !(step.execution_state()
            == ExecutionState::Padding) {
            return Err(ExecError::BadPaddingStep);
        }
        self.assign_exec_step_int(grid, offset_begin, block, chunk, call, step, challenge)?;
        proof {
            assert(spec_stored_total(spec_stored_shape(ExecutionState::Padding)) == 0);
        }
        let mut row: usize = offset_begin + 1;
        while row < offset_end
            invariant
                self.spec_wf(),
                grid.spec_wf(),
                grid.spec_len() == old(grid).spec_len(),
                offset_begin < row <= offset_end || (row == offset_begin + 1 && offset_end
                    <= offset_begin + 1),
                offset_end <= old(grid).spec_len(),
                step.exec_state == ExecutionState::Padding,
                grid.usable@ == old(grid).usable@,
                grid.q_step@ == old(grid).q_step@,
                grid.countdown@ == old(grid).countdown@,
                grid.countdown_inv@ == old(grid).countdown_inv@,
                grid.step_first@ == old(grid).step_first@,
                grid.step_last@ == old(grid).step_last@,
                forall|r2: int|
                    0 <= r2 < old(grid).spec_len() && !(offset_begin <= r2 < row) ==> (
                    #[trigger] grid.state@[r2]) == old(grid).state@[r2],
                forall|r2: int|
                    0 <= r2 < old(grid).spec_len() && !(offset_begin <= r2 < row) ==> (
                    #[trigger] grid.stored@[r2]) == old(grid).stored@[r2],
                forall|r2: int|
                    offset_begin <= r2 < row ==> (#[trigger] grid.state@[r2]) == Some(
                        spec_step_state(*chunk, call, *step),
                    ),
                forall|r2: int|
                    offset_begin <= r2 < row ==> (#[trigger] grid.stored@[r2])@.len() == 0,
            decreases offset_end - row,
        {
            let st = grid.state[offset_begin];
            grid.state[row] = st;
            grid.stored[row] = Vec::new();
            row = row + 1;
        }
        Ok(())
    }
}

/// The kind of the step that closes the chunk's grid: the chunk-closing
/// step where one is present, the block-closing step otherwise.
pub open spec fn spec_end_kind(block: Block, chunk: Chunk) -> ExecutionState {
    match chunk.end_chunk {
        Some(e) => e.exec_state,
        None => block.end_block.exec_state,
    }
}

/// The call a real step belongs to, or a blank call where the step names
/// none that exists.
pub open spec fn spec_call_for(block: Block, t: int, s: int) -> Call {
    let stp = block.txs@[t].steps@[s];
    if stp.call_index < block.txs@[t].calls@.len() {
        block.txs@[t].calls@[stp.call_index as int]
    } else {
        Call { id: 0, is_root: false, is_create: false }
    }
}

/// The kind an entry of the walker's sequence carries.
pub open spec fn spec_entry_kind(block: Block, chunk: Chunk, e: SeqEntry) -> ExecutionState {
    match e {
        SeqEntry::BeginChunk => chunk.begin_chunk->0.exec_state,
        SeqEntry::Real { tx, step } => block.txs@[tx as int].steps@[step as int].exec_state,
    }
}

/// The rows at and beyond `offset` are still untouched by any block: not
/// usable, zero tracks, no boundary indicators (the first row's first-block
/// indicator excepted).
pub open spec fn spec_tail_clear(g: Grid, offset: int) -> bool {
    &&& forall|r: int| offset <= r < g.spec_len() ==> !(#[trigger] g.usable@[r])
    &&& forall|r: int| offset <= r < g.spec_len() ==> (#[trigger] g.q_step@[r]) == 0
    &&& forall|r: int| offset <= r < g.spec_len() ==> (#[trigger] g.countdown@[r]) == 0
    &&& forall|r: int| offset <= r < g.spec_len() ==> (#[trigger] g.countdown_inv@[r]) == 0
}

/// Every assigned padding block performs no read/write events: its stored
/// values are empty.
pub open spec fn spec_padding_stored_empty(g: Grid, offset: int) -> bool {
    forall|r: int|
        0 <= r < offset && (#[trigger] g.q_step@[r]) == 1 && g.state@[r] is Some
            && g.state@[r]->0.kind == ExecutionState::Padding ==> g.stored@[r]@.len() == 0
}

/// What a successful assignment guarantees of the produced grid: the shape
/// facts of the row-block allocator, the boundary indicators on the very
/// first and very last occupied rows, the countdown law on every usable
/// row, the decomposition into row blocks, and the padding blocks' empty
/// event sets.
pub open spec fn spec_assigned_grid_ok(
    block: Block,
    chunk: Chunk,
    challenge: u64,
    g: Grid,
    offset: int,
) -> bool {
    &&& g.spec_wf()
    &&& 1 <= offset < g.spec_len()
    &&& (chunk.fixed_param.max_evm_rows > 0 ==> offset == chunk.fixed_param.max_evm_rows
        && g.spec_len() == chunk.fixed_param.max_evm_rows + 1)
    &&& g.step_first@[0]
    &&& forall|r: int| 1 <= r < g.spec_len() ==> !(#[trigger] g.step_first@[r])
    &&& g.step_last@[offset - 1]
    &&& forall|r: int| 0 <= r < g.spec_len() && r != offset - 1 ==> !(#[trigger] g.step_last@[r])
    &&& forall|r: int| 0 <= r < offset ==> #[trigger] g.usable@[r]
    &&& forall|r: int| offset <= r < g.spec_len() ==> !(#[trigger] g.usable@[r])
    &&& forall|r: int|
        0 <= r < offset ==> (((#[trigger] g.countdown@[r]) == 0) <==> (g.q_step@[r] == 1))
    &&& g.q_step@[0] == 1
    &&& g.state@[0] is Some
    &&& (chunk.begin_chunk is Some ==> g.state@[0]->0.kind == chunk.begin_chunk->0.exec_state)
    &&& (chunk.end_chunk is None ==> chunk.chunk_context.spec_is_last_chunk())
    &&& (spec_needed_rows(spec_end_kind(block, chunk)) == 1 ==> g.q_step@[offset - 1] == 1
        && g.state@[offset - 1] is Some && g.state@[offset - 1]->0.kind == spec_end_kind(
        block,
        chunk,
    ))
    &&& g.countdown@[offset] == 0
    &&& g.q_step@[offset] == 0
    &&& spec_step_blocks(block, chunk, challenge, g, 0, spec_assigned_pairs(block, chunk))
    &&& offset == spec_rows_of(spec_pairs_kinds(spec_assigned_pairs(block, chunk)))
    &&& exists|ks: Seq<ExecutionState>|
        #[trigger] spec_blocks(g, 0, ks) && spec_rows_of(ks) == offset && ks.len() >= 1
    &&& spec_padding_stored_empty(g, offset)
}

/// The kinds the walker would assign for this chunk are all enabled: the
/// real steps', the padding sentinel's, and the closing step's.
pub open spec fn spec_trace_kinds_enabled(
    block: Block,
    chunk: Chunk,
    features: crate::config::FeatureConfig,
) -> bool {
    &&& spec_assigned_kinds_enabled(block, chunk, features)
    &&& (chunk.padding matches Some(p) ==> crate::config::spec_kind_enabled(
        p.exec_state,
        features,
    ))
    &&& crate::config::spec_kind_enabled(spec_end_step(block, chunk).exec_state, features)
}

/// The resolved pairs of the walker's entry list.
pub open spec fn spec_entries_pairs(
    block: Block,
    chunk: Chunk,
    prev_call: Call,
    es: Seq<SeqEntry>,
) -> Seq<(Call, ExecStep)> {
    es.map_values(|e: SeqEntry| spec_resolve_pair(block, chunk, prev_call, e))
}


/// Whether a step's counter position falls inside the chunk's declared
/// range.
pub open spec fn spec_step_in_range(chunk: Chunk, s: ExecStep) -> bool {
    chunk.chunk_context.initial_rwc <= s.rwc < chunk.chunk_context.end_rwc
}

/// The transactions the chunk intersects; an impossible range means none.
pub open spec fn spec_tx_range(block: Block, chunk: Chunk) -> (int, int) {
    let t0 = chunk.chunk_context.initial_tx_index as int;
    let t1 = chunk.chunk_context.end_tx_index as int;
    if t0 <= t1 && t1 <= block.txs@.len() {
        (t0, t1)
    } else {
        (0int, 0int)
    }
}

/// The call carried over the chunk boundary.
pub open spec fn spec_prev_call(chunk: Chunk) -> Call {
    match chunk.prev_last_call {
        Some(c) => c,
        None => Call { id: 0, is_root: false, is_create: false },
    }
}

/// The last call of this chunk.
pub open spec fn spec_cur_call(block: Block, chunk: Chunk) -> Call {
    let (t0, t1) = spec_tx_range(block, chunk);
    if t1 > t0 && block.txs@[t1 - 1].calls@.len() > 0 {
        block.txs@[t1 - 1].calls@[0]
    } else {
        spec_prev_call(chunk)
    }
}

/// The in-range steps among the first `s` steps of transaction `t`, each
/// with its call, in trace order.
pub open spec fn spec_tx_pairs(block: Block, chunk: Chunk, t: int, s: int) -> Seq<(Call, ExecStep)>
    decreases s,
{
    if s <= 0 {
        Seq::empty()
    } else {
        let prev = spec_tx_pairs(block, chunk, t, s - 1);
        if spec_step_in_range(chunk, block.txs@[t].steps@[s - 1]) {
            prev.push((spec_call_for(block, t, s - 1), block.txs@[t].steps@[s - 1]))
        } else {
            prev
        }
    }
}

/// The in-range steps of the chunk's transactions before `t`.
pub open spec fn spec_range_pairs(block: Block, chunk: Chunk, t: int) -> Seq<(Call, ExecStep)>
    decreases t,
{
    if t <= spec_tx_range(block, chunk).0 {
        Seq::empty()
    } else {
        spec_range_pairs(block, chunk, t - 1) + spec_tx_pairs(
            block,
            chunk,
            t - 1,
            block.txs@[t - 1].steps@.len() as int,
        )
    }
}

/// The walker's main sequence: the synthetic chunk opener where present,
/// then every real step whose counter position falls in the chunk's range,
/// in trace order, each with its call.
pub open spec fn spec_main_pairs(block: Block, chunk: Chunk) -> Seq<(Call, ExecStep)> {
    (if chunk.begin_chunk is Some {
        seq![(spec_prev_call(chunk), chunk.begin_chunk->0)]
    } else {
        Seq::<(Call, ExecStep)>::empty()
    }) + spec_range_pairs(block, chunk, spec_tx_range(block, chunk).1)
}

/// The kinds of a sequence of assigned steps.
pub open spec fn spec_pairs_kinds(ps: Seq<(Call, ExecStep)>) -> Seq<ExecutionState> {
    ps.map_values(|p: (Call, ExecStep)| p.1.exec_state)
}

/// The step that closes the grid: the chunk-closing step where present,
/// the block-closing step otherwise.
pub open spec fn spec_end_step(block: Block, chunk: Chunk) -> ExecStep {
    match chunk.end_chunk {
        Some(e) => e,
        None => block.end_block,
    }
}

/// How many padding blocks the walker lays down: the rows between the end
/// of the real steps and the closing step's row.
pub open spec fn spec_padding_count(block: Block, chunk: Chunk) -> int {
    let used = spec_rows_of(spec_pairs_kinds(spec_main_pairs(block, chunk)));
    if chunk.fixed_param.max_evm_rows > 0 && used < chunk.fixed_param.max_evm_rows - 1 {
        chunk.fixed_param.max_evm_rows - 1 - used
    } else {
        0int
    }
}

/// The complete sequence of steps a successful assignment lays down: the
/// chunk opener where present, the in-range real steps in trace order, the
/// replicated padding run, and the closing step. Nothing else is assigned.
pub open spec fn spec_assigned_pairs(block: Block, chunk: Chunk) -> Seq<(Call, ExecStep)> {
    spec_main_pairs(block, chunk) + Seq::new(
        spec_padding_count(block, chunk) as nat,
        |j: int| (spec_cur_call(block, chunk), chunk.padding->0),
    ) + seq![(spec_cur_call(block, chunk), spec_end_step(block, chunk))]
}

/// The boundary steps carry the boundary kinds: a chunk-closing step where
/// one is present, otherwise the block-closing step of a last chunk.
pub open spec fn spec_boundary_steps_ok(block: Block, chunk: Chunk) -> bool {
    match chunk.end_chunk {
        Some(e) => e.exec_state == ExecutionState::EndChunk,
        None => chunk.chunk_context.spec_is_last_chunk() && block.end_block.exec_state
            == ExecutionState::EndBlock,
    }
}

/// The padding sentinel is present and is the event-free padding kind, and
/// the boundary steps carry the boundary kinds.
pub open spec fn spec_chunk_well_formed(block: Block, chunk: Chunk) -> bool {
    &&& chunk.padding is Some
    &&& chunk.padding->0.exec_state == ExecutionState::Padding
    &&& chunk.padding->0.rw_indices@.len() == 0
    &&& spec_boundary_steps_ok(block, chunk)
}

/// Every kind the trace asks the walker to assign is enabled under the
/// features.
pub open spec fn spec_assigned_kinds_enabled(
    block: Block,
    chunk: Chunk,
    features: crate::config::FeatureConfig,
) -> bool {
    forall|j: int|
        0 <= j < spec_main_pairs(block, chunk).len() ==> crate::config::spec_kind_enabled(
            (#[trigger] spec_main_pairs(block, chunk)[j]).1.exec_state,
            features,
        )
}

/// Whether the trace fits the grid: with a positive capacity, the real
/// steps must leave room for at least one padding block and the closing
/// step; in the exact mode, only the machine's address space bounds them.
pub open spec fn spec_trace_fits(block: Block, chunk: Chunk) -> bool {
    let used = spec_rows_of(spec_pairs_kinds(spec_main_pairs(block, chunk)));
    if chunk.fixed_param.max_evm_rows > 0 {
        used < chunk.fixed_param.max_evm_rows - 1
    } else {
        used <= usize::MAX - MAX_STEP_HEIGHT - 1
    }
}

/// What one entry of the walker's sequence resolves to.
pub open spec fn spec_resolve_pair(block: Block, chunk: Chunk, prev_call: Call, e: SeqEntry) -> (
    Call,
    ExecStep,
) {
    match e {
        SeqEntry::BeginChunk => (prev_call, chunk.begin_chunk->0),
        SeqEntry::Real { tx, step } => (
            spec_call_for(block, tx as int, step as int),
            block.txs@[tx as int].steps@[step as int],
        ),
    }
}

/// The rows starting at `start` hold exactly these steps' blocks, in
/// order: each block's step-counter tracks, its state cells and its stored
/// values are all pinned to the step and call that own the block.
pub open spec fn spec_step_blocks(
    block: Block,
    chunk: Chunk,
    challenge: u64,
    g: Grid,
    start: int,
    ps: Seq<(Call, ExecStep)>,
) -> bool
    decreases ps.len(),
{
    if ps.len() == 0 {
        true
    } else {
        let c = ps[0].0;
        let s = ps[0].1;
        &&& spec_block_assigned(g, start, s.exec_state)
        &&& g.state@[start] == Some(spec_step_state(chunk, c, s))
        &&& g.stored@[start]@ == spec_assigned_stored(
            spec_stored_shape(s.exec_state),
            block,
            s,
            c,
            challenge,
        )
        &&& spec_step_blocks(
            block,
            chunk,
            challenge,
            g,
            start + spec_needed_rows(s.exec_state),
            ps.subrange(1, ps.len() as int),
        )
    }
}

/// Appending a freshly assigned step block keeps the run pinned.
pub proof fn lemma_step_blocks_push(
    block: Block,
    chunk: Chunk,
    challenge: u64,
    g: Grid,
    start: int,
    ps: Seq<(Call, ExecStep)>,
    c: Call,
    s: ExecStep,
)
    requires
        spec_step_blocks(block, chunk, challenge, g, start, ps),
        spec_block_assigned(g, start + spec_rows_of(spec_pairs_kinds(ps)), s.exec_state),
        g.state@[start + spec_rows_of(spec_pairs_kinds(ps))] == Some(
            spec_step_state(chunk, c, s),
        ),
        g.stored@[start + spec_rows_of(spec_pairs_kinds(ps))]@ == spec_assigned_stored(
            spec_stored_shape(s.exec_state),
            block,
            s,
            c,
            challenge,
        ),
    ensures
        spec_step_blocks(block, chunk, challenge, g, start, ps.push((c, s))),
        spec_pairs_kinds(ps.push((c, s))) == spec_pairs_kinds(ps).push(s.exec_state),
    decreases ps.len(),
{
    assert(spec_pairs_kinds(ps.push((c, s))) =~= spec_pairs_kinds(ps).push(s.exec_state));
    if ps.len() == 0 {
        assert(ps.push((c, s)).subrange(1, 1) =~= Seq::<(Call, ExecStep)>::empty());
        assert(spec_pairs_kinds(ps) =~= Seq::<ExecutionState>::empty());
        assert(spec_rows_of(spec_pairs_kinds(ps)) == 0);
        assert(ps.push((c, s))[0] == (c, s));
        assert(spec_block_assigned(g, start, s.exec_state));
        assert(g.state@[start] == Some(spec_step_state(chunk, c, s)));
        assert(g.stored@[start]@ == spec_assigned_stored(
            spec_stored_shape(s.exec_state),
            block,
            s,
            c,
            challenge,
        ));
        assert(spec_step_blocks(
            block,
            chunk,
            challenge,
            g,
            start + spec_needed_rows(s.exec_state),
            Seq::<(Call, ExecStep)>::empty(),
        ));
    } else {
        let rest = ps.subrange(1, ps.len() as int);
        assert(ps.push((c, s)).subrange(1, ps.push((c, s)).len() as int) =~= rest.push((c, s)));
        assert(spec_pairs_kinds(ps).subrange(1, ps.len() as int) =~= spec_pairs_kinds(rest));
        assert(spec_pairs_kinds(ps)[0] == ps[0].1.exec_state);
        assert(spec_rows_of(spec_pairs_kinds(ps)) == spec_needed_rows(ps[0].1.exec_state)
            + spec_rows_of(spec_pairs_kinds(rest)));
        lemma_step_blocks_push(
            block,
            chunk,
            challenge,
            g,
            start + spec_needed_rows(ps[0].1.exec_state),
            rest,
            c,
            s,
        );
    }
}

/// A pinned run only reads the rows it covers: a grid agreeing on them
/// (stored values by content) carries the same run.
pub proof fn lemma_step_blocks_frame(
    block: Block,
    chunk: Chunk,
    challenge: u64,
    g1: Grid,
    g2: Grid,
    start: int,
    ps: Seq<(Call, ExecStep)>,
)
    requires
        spec_step_blocks(block, chunk, challenge, g1, start, ps),
        g2.spec_len() >= g1.spec_len(),
        forall|r: int|
            start <= r < start + spec_rows_of(spec_pairs_kinds(ps)) ==> (
            #[trigger] g2.usable@[r]) == g1.usable@[r],
        forall|r: int|
            start <= r < start + spec_rows_of(spec_pairs_kinds(ps)) ==> (
            #[trigger] g2.q_step@[r]) == g1.q_step@[r],
        forall|r: int|
            start <= r < start + spec_rows_of(spec_pairs_kinds(ps)) ==> (
            #[trigger] g2.countdown@[r]) == g1.countdown@[r],
        forall|r: int|
            start <= r < start + spec_rows_of(spec_pairs_kinds(ps)) ==> (
            #[trigger] g2.countdown_inv@[r]) == g1.countdown_inv@[r],
        forall|r: int|
            start <= r < start + spec_rows_of(spec_pairs_kinds(ps)) ==> (#[trigger] g2.state@[r])
                == g1.state@[r],
        forall|r: int|
            start <= r < start + spec_rows_of(spec_pairs_kinds(ps)) ==> (
            #[trigger] g2.stored@[r])@ == g1.stored@[r]@,
    ensures
        spec_step_blocks(block, chunk, challenge, g2, start, ps),
    decreases ps.len(),
{
    if ps.len() > 0 {
        let s = ps[0].1;
        let h = spec_needed_rows(s.exec_state) as int;
        let rest = ps.subrange(1, ps.len() as int);
        assert(spec_pairs_kinds(ps).subrange(1, ps.len() as int) =~= spec_pairs_kinds(rest));
        assert(spec_pairs_kinds(ps)[0] == s.exec_state);
        lemma_rows_of_nonneg(spec_pairs_kinds(rest));
        assert(spec_rows_of(spec_pairs_kinds(ps)) == h + spec_rows_of(spec_pairs_kinds(rest)));
        lemma_block_assigned_frame(g1, g2, start, s.exec_state);
        assert(g2.state@[start + 0int] == g1.state@[start + 0int]);
        assert(g2.stored@[start + 0int]@ == g1.stored@[start + 0int]@);
        lemma_step_blocks_frame(block, chunk, challenge, g1, g2, start + h, rest);
    }
}

/// Extending a pinned run with a range of replicated padding blocks.
pub proof fn lemma_step_pad_run(
    block: Block,
    chunk: Chunk,
    challenge: u64,
    g: Grid,
    ps: Seq<(Call, ExecStep)>,
    call: Call,
    pad: ExecStep,
    start: int,
    end: int,
)
    requires
        spec_step_blocks(block, chunk, challenge, g, 0, ps),
        spec_rows_of(spec_pairs_kinds(ps)) == start,
        start <= end,
        pad.exec_state == ExecutionState::Padding,
        forall|r: int|
            start <= r < end ==> spec_block_assigned(g, r, ExecutionState::Padding),
        forall|r: int|
            start <= r < end ==> (#[trigger] g.state@[r]) == Some(
                spec_step_state(chunk, call, pad),
            ),
        forall|r: int| start <= r < end ==> (#[trigger] g.stored@[r])@.len() == 0,
    ensures
        spec_step_blocks(
            block,
            chunk,
            challenge,
            g,
            0,
            ps + Seq::new((end - start) as nat, |j: int| (call, pad)),
        ),
        spec_rows_of(
            spec_pairs_kinds(ps + Seq::new((end - start) as nat, |j: int| (call, pad))),
        ) == end,
    decreases end - start,
{
    if start == end {
        assert(ps + Seq::new(0, |j: int| (call, pad)) =~= ps);
    } else {
        assert(spec_stored_total(spec_stored_shape(ExecutionState::Padding)) == 0);
        assert(g.stored@[start]@ =~= spec_assigned_stored(
            spec_stored_shape(pad.exec_state),
            block,
            pad,
            call,
            challenge,
        ));
        lemma_step_blocks_push(block, chunk, challenge, g, 0, ps, call, pad);
        crate::grid::lemma_rows_of_push(spec_pairs_kinds(ps), ExecutionState::Padding);
        assert(spec_rows_of(spec_pairs_kinds(ps.push((call, pad)))) == start + 1);
        lemma_step_pad_run(
            block,
            chunk,
            challenge,
            g,
            ps.push((call, pad)),
            call,
            pad,
            start + 1,
            end,
        );
        assert(ps.push((call, pad)) + Seq::new((end - start - 1) as nat, |j: int| (call, pad))
            =~= ps + Seq::new((end - start) as nat, |j: int| (call, pad)));
    }
}

/// Resolves one entry of the walker's sequence to the call and step it
/// stands for; the chunk-opening entry runs under the previous chunk's
/// last call.
fn resolve_entry<'a>(block: &'a Block, chunk: &'a Chunk, prev_call: Call, e: SeqEntry) -> (r: (
    Call,
    &'a ExecStep,
))
    requires
        e is BeginChunk ==> chunk.begin_chunk is Some,
        e matches SeqEntry::Real { tx, step } ==> tx < block.txs@.len() && step
            < block.txs@[tx as int].steps@.len(),
    ensures
        e is BeginChunk ==> *r.1 == chunk.begin_chunk->0 && r.0 == prev_call,
        e matches SeqEntry::Real { tx, step } ==> {
            &&& *r.1 == block.txs@[tx as int].steps@[step as int]
            &&& r.0 == spec_call_for(*block, tx as int, step as int)
        },
        (*r.1).exec_state == spec_entry_kind(*block, *chunk, e),
        (r.0, *r.1) == spec_resolve_pair(*block, *chunk, prev_call, e),
{
    match e {
        SeqEntry::BeginChunk => {
            match &chunk.begin_chunk {
                Some(b) => (prev_call, b),
                None => {
                    proof {
                        assert(false);
                    }
                    (prev_call, &block.end_block)
                },
            }
        },
        SeqEntry::Real { tx, step } => {
            let txr = &block.txs[tx];
            let stp = &txr.steps[step];
            let c = if stp.call_index < txr.calls.len() {
                txr.calls[stp.call_index]
            } else {
                Call::blank()
            };
            (c, stp)
        },
    }
}

impl ExecutionConfig {
    /// Assigns one step's whole row block: the step's state and stored
    /// values with the successor's pre-computed beside them, then the
    /// block's step-counter tracks.
    fn assign_step_block(
        &self,
        grid: &mut Grid,
        offset: usize,
        block: &Block,
        chunk: &Chunk,
        call: Call,
        step: &ExecStep,
        height: usize,
        next: Option<(Call, &ExecStep)>,
        challenge: u64,
    ) -> (r: Result<(), ExecError>)
        requires
            self.spec_wf(),
            old(grid).spec_wf(),
            is_fp(challenge),
            height == spec_needed_rows(step.exec_state),
            offset + height < old(grid).spec_len(),
        ensures
            final(grid).spec_wf(),
            final(grid).spec_len() == old(grid).spec_len(),
            final(grid).step_first@ == old(grid).step_first@,
            final(grid).step_last@ == old(grid).step_last@,
            forall|r2: int|
                0 <= r2 < old(grid).spec_len() && r2 != offset && r2 != offset + height ==> (
                #[trigger] final(grid).state@[r2]) == old(grid).state@[r2],
            forall|r2: int|
                0 <= r2 < old(grid).spec_len() && r2 != offset && r2 != offset + height ==> (
                #[trigger] final(grid).stored@[r2]) == old(grid).stored@[r2],
            forall|r2: int|
                0 <= r2 < old(grid).spec_len() && !(offset <= r2 < offset + height) ==> (
                #[trigger] final(grid).usable@[r2]) == old(grid).usable@[r2],
            forall|r2: int|
                0 <= r2 < old(grid).spec_len() && !(offset <= r2 < offset + height) ==> (
                #[trigger] final(grid).q_step@[r2]) == old(grid).q_step@[r2],
            forall|r2: int|
                0 <= r2 < old(grid).spec_len() && !(offset <= r2 < offset + height) ==> (
                #[trigger] final(grid).countdown@[r2]) == old(grid).countdown@[r2],
            forall|r2: int|
                0 <= r2 < old(grid).spec_len() && !(offset <= r2 < offset + height) ==> (
                #[trigger] final(grid).countdown_inv@[r2]) == old(grid).countdown_inv@[r2],
            r matches Err(e) ==> e == ExecError::MissingGadget,
            r is Err ==> (!self.spec_registered(step.exec_state) || (next matches Some((nc2, ns2))
                && !self.spec_registered(ns2.exec_state))),
            r is Ok ==> {
                &&& self.spec_registered(step.exec_state)
                &&& spec_block_assigned(*final(grid), offset as int, step.exec_state)
                &&& final(grid).state@[offset as int] == Some(spec_step_state(*chunk, call, *step))
                &&& final(grid).stored@[offset as int]@ == spec_assigned_stored(
                    spec_stored_shape(step.exec_state),
                    *block,
                    *step,
                    call,
                    challenge,
                )
                &&& match next {
                    Some((nc, ns)) => self.spec_registered(ns.exec_state) && final(grid).state@[offset + height] == Some(spec_step_state(*chunk, nc, *ns)) && final(grid).stored@[offset + height]@ == spec_assigned_stored(
                        spec_stored_shape(ns.exec_state),
                        *block,
                        *ns,
                        nc,
                        challenge,
                    ),
                    None => final(grid).state@[offset + height] == old(grid).state@[offset
                        + height] && final(grid).stored@[offset + height] == old(grid).stored@[
                        offset + height],
                }
            },
    {
        let res = self.assign_exec_step(grid, offset, block, chunk, call, step, height, next, challenge);
        match res {
            Ok(()) => (),
            Err(e) => {
                return Err(e);
            },
        }
        grid.assign_q_step(offset, height);
        proof {
            assert(grid.q_step@[offset + 0int] == 1);
            assert(grid.countdown@[offset + 0int] == 0);
            assert(spec_block_assigned(*grid, offset as int, step.exec_state));
        }
        Ok(())
    }

    /// Replicates the padding step over the remaining capacity and lays
    /// down the step-counter tracks of each height-one padding block.
    fn assign_padding_region(
        &self,
        grid: &mut Grid,
        offset: usize,
        padding_end: usize,
        block: &Block,
        chunk: &Chunk,
        call: Call,
        step: &ExecStep,
        height: usize,
        challenge: u64,
    ) -> (r: Result<(), ExecError>)
        requires
            self.spec_wf(),
            old(grid).spec_wf(),
            is_fp(challenge),
            offset < padding_end,
            padding_end <= old(grid).spec_len(),
        ensures
            final(grid).spec_wf(),
            final(grid).spec_len() == old(grid).spec_len(),
            final(grid).step_first@ == old(grid).step_first@,
            final(grid).step_last@ == old(grid).step_last@,
            forall|r2: int|
                0 <= r2 < old(grid).spec_len() && !(offset <= r2 < padding_end) ==> (
                #[trigger] final(grid).state@[r2]) == old(grid).state@[r2],
            forall|r2: int|
                0 <= r2 < old(grid).spec_len() && !(offset <= r2 < padding_end) ==> (
                #[trigger] final(grid).stored@[r2]) == old(grid).stored@[r2],
            forall|r2: int|
                0 <= r2 < old(grid).spec_len() && !(offset <= r2 < padding_end) ==> (
                #[trigger] final(grid).usable@[r2]) == old(grid).usable@[r2],
            forall|r2: int|
                0 <= r2 < old(grid).spec_len() && !(offset <= r2 < padding_end) ==> (
                #[trigger] final(grid).q_step@[r2]) == old(grid).q_step@[r2],
            forall|r2: int|
                0 <= r2 < old(grid).spec_len() && !(offset <= r2 < padding_end) ==> (
                #[trigger] final(grid).countdown@[r2]) == old(grid).countdown@[r2],
            forall|r2: int|
                0 <= r2 < old(grid).spec_len() && !(offset <= r2 < padding_end) ==> (
                #[trigger] final(grid).countdown_inv@[r2]) == old(grid).countdown_inv@[r2],
            r matches Err(e) ==> (e == ExecError::BadPaddingStep || e == ExecError::MissingGadget),
            r is Ok <==> (height == 1 && step.exec_state == ExecutionState::Padding
                && step.rw_indices@.len() == 0 && self.spec_registered(ExecutionState::Padding)),
            r == Result::<(), ExecError>::Err(ExecError::BadPaddingStep) <==> !(height == 1
                && step.exec_state == ExecutionState::Padding && step.rw_indices@.len() == 0),
            r == Result::<(), ExecError>::Err(ExecError::MissingGadget) <==> (height == 1
                && step.exec_state == ExecutionState::Padding && step.rw_indices@.len() == 0
                && !self.spec_registered(ExecutionState::Padding)),
            r is Ok ==> {
                &&& step.exec_state == ExecutionState::Padding
                &&& height == 1
                &&& step.rw_indices@.len() == 0
                &&& self.spec_registered(ExecutionState::Padding)
                &&& forall|r2: int|
                    offset <= r2 < padding_end ==> spec_block_assigned(
                        *final(grid),
                        r2,
                        ExecutionState::Padding,
                    )
                &&& forall|r2: int|
                    offset <= r2 < padding_end ==> (#[trigger] final(grid).state@[r2]) == Some(
                        spec_step_state(*chunk, call, *step),
                    ) && final(grid).stored@[r2]@.len() == 0
            },
    {
        let res = self.assign_same_exec_step_in_range(
            grid,
            offset,
            padding_end,
            block,
            chunk,
            call,
            step,
            height,
            challenge,
        );
        match res {
            Ok(()) => (),
            Err(e) => {
                return Err(e);
            },
        }
        let mut row = offset;
        while row < padding_end
            invariant
                self.spec_wf(),
                grid.spec_wf(),
                grid.spec_len() == old(grid).spec_len(),
                offset <= row <= padding_end,
                padding_end <= grid.spec_len(),
                step.exec_state == ExecutionState::Padding,
                grid.step_first@ == old(grid).step_first@,
                grid.step_last@ == old(grid).step_last@,
                forall|r2: int|
                    0 <= r2 < old(grid).spec_len() && !(offset <= r2 < padding_end) ==> (
                    #[trigger] grid.state@[r2]) == old(grid).state@[r2],
                forall|r2: int|
                    0 <= r2 < old(grid).spec_len() && !(offset <= r2 < padding_end) ==> (
                    #[trigger] grid.stored@[r2]) == old(grid).stored@[r2],
                forall|r2: int|
                    0 <= r2 < old(grid).spec_len() && !(offset <= r2 < row) ==> (
                    #[trigger] grid.usable@[r2]) == old(grid).usable@[r2],
                forall|r2: int|
                    0 <= r2 < old(grid).spec_len() && !(offset <= r2 < row) ==> (
                    #[trigger] grid.q_step@[r2]) == old(grid).q_step@[r2],
                forall|r2: int|
                    0 <= r2 < old(grid).spec_len() && !(offset <= r2 < row) ==> (
                    #[trigger] grid.countdown@[r2]) == old(grid).countdown@[r2],
                forall|r2: int|
                    0 <= r2 < old(grid).spec_len() && !(offset <= r2 < row) ==> (
                    #[trigger] grid.countdown_inv@[r2]) == old(grid).countdown_inv@[r2],
                forall|r2: int|
                    offset <= r2 < padding_end ==> (#[trigger] grid.state@[r2]) == Some(
                        spec_step_state(*chunk, call, *step),
                    ) && grid.stored@[r2]@.len() == 0,
                forall|r2: int|
                    offset <= r2 < row ==> spec_block_assigned(*grid, r2, ExecutionState::Padding),
            decreases padding_end - row,
        {
            let ghost pre_q = *grid;
            grid.assign_q_step(row, 1);
            proof {
                assert(grid.q_step@[row + 0int] == 1);
                assert(grid.countdown@[row + 0int] == 0);
                assert(grid.usable@[row + 0int]);
                assert(spec_inv_pair_ok(
                    grid.countdown@[row + 0int],
                    grid.countdown_inv@[row + 0int],
                ));
                assert(grid.countdown_inv@[row + 0int] == spec_inv_countdown(
                    grid.countdown@[row + 0int],
                ));
                assert(spec_block_assigned(*grid, row as int, ExecutionState::Padding));
                assert forall|r2: int|
                    offset <= r2 < row + 1 implies spec_block_assigned(
                    *grid,
                    r2,
                    ExecutionState::Padding,
                ) by {
                    if r2 < row {
                        lemma_block_assigned_frame(pre_q, *grid, r2, ExecutionState::Padding);
                    }
                }
            }
            row = row + 1;
        }
        Ok(())
    }

    /// Re-assigns the last real step in place once its true successor is
    /// known. The step's own values and its successor's pre-computed
    /// values repeat what the grid already holds, so nothing changes; the
    /// proof establishes that row by row.
    fn reassign_second_last(
        &self,
        grid: &mut Grid,
        off2: usize,
        block: &Block,
        chunk: &Chunk,
        c2: Call,
        s2: &ExecStep,
        h2: usize,
        ncall: Call,
        nstep: &ExecStep,
        challenge: u64,
    ) -> (r: Result<(), ExecError>)
        requires
            self.spec_wf(),
            old(grid).spec_wf(),
            is_fp(challenge),
            h2 == spec_needed_rows(s2.exec_state),
            off2 + h2 < old(grid).spec_len(),
            spec_block_assigned(*old(grid), off2 as int, s2.exec_state),
            old(grid).state@[off2 as int] == Some(spec_step_state(*chunk, c2, *s2)),
            old(grid).state@[off2 + h2] == Some(spec_step_state(*chunk, ncall, *nstep)),
            self.spec_registered(s2.exec_state),
            self.spec_registered(nstep.exec_state),
        ensures
            r is Ok,
            final(grid).spec_wf(),
            final(grid).spec_len() == old(grid).spec_len(),
            final(grid).usable@ == old(grid).usable@,
            final(grid).q_step@ == old(grid).q_step@,
            final(grid).countdown@ == old(grid).countdown@,
            final(grid).countdown_inv@ == old(grid).countdown_inv@,
            final(grid).step_first@ == old(grid).step_first@,
            final(grid).step_last@ == old(grid).step_last@,
            final(grid).state@ == old(grid).state@,
            forall|r2: int|
                0 <= r2 < old(grid).spec_len() && r2 != off2 && r2 != off2 + h2 ==> (
                #[trigger] final(grid).stored@[r2]) == old(grid).stored@[r2],
            final(grid).stored@[off2 as int]@ == spec_assigned_stored(
                spec_stored_shape(s2.exec_state),
                *block,
                *s2,
                c2,
                challenge,
            ),
            final(grid).stored@[off2 + h2]@ == spec_assigned_stored(
                spec_stored_shape(nstep.exec_state),
                *block,
                *nstep,
                ncall,
                challenge,
            ),
    {
        let res = self.assign_exec_step(
            grid,
            off2,
            block,
            chunk,
            c2,
            s2,
            h2,
            Some((ncall, nstep)),
            challenge,
        );
        match res {
            Ok(()) => (),
            Err(e) => {
                proof {
                    assert(false);
                }
                return Err(e);
            },
        }
        grid.assign_q_step(off2, h2);
        proof {
            let g1 = *old(grid);
            assert forall|r2: int| 0 <= r2 < grid.spec_len() implies (#[trigger] grid.usable@[r2])
                == g1.usable@[r2] by {
                if off2 <= r2 < off2 + h2 {
                    let i2 = r2 - off2;
                    assert(grid.usable@[off2 + i2]);
                    assert(g1.usable@[off2 + i2]);
                }
            }
            assert(grid.usable@ =~= g1.usable@);
            assert forall|r2: int| 0 <= r2 < grid.spec_len() implies (#[trigger] grid.q_step@[r2])
                == g1.q_step@[r2] by {
                if off2 <= r2 < off2 + h2 {
                    let i2 = r2 - off2;
                    if i2 == 0 {
                        assert(grid.q_step@[off2 + 0int] == 1);
                        assert(g1.q_step@[off2 as int] == 1);
                    } else {
                        assert(grid.q_step@[off2 + i2] == 0);
                        assert(g1.q_step@[off2 + i2] == 0);
                    }
                }
            }
            assert(grid.q_step@ =~= g1.q_step@);
            assert forall|r2: int|
                0 <= r2 < grid.spec_len() implies (#[trigger] grid.countdown@[r2])
                == g1.countdown@[r2] by {
                if off2 <= r2 < off2 + h2 {
                    let i2 = r2 - off2;
                    if i2 == 0 {
                        assert(grid.countdown@[off2 + 0int] == 0);
                        assert(g1.countdown@[off2 as int] == 0);
                    } else {
                        assert(grid.countdown@[off2 + i2] == (h2 - i2) as u64);
                        assert(g1.q_step@[off2 + i2] == 0);
                        assert(g1.countdown@[off2 + i2] == (h2 - i2) as u64);
                    }
                }
            }
            assert(grid.countdown@ =~= g1.countdown@);
            assert forall|r2: int|
                0 <= r2 < grid.spec_len() implies (#[trigger] grid.countdown_inv@[r2])
                == g1.countdown_inv@[r2] by {
                if off2 <= r2 < off2 + h2 {
                    let i2 = r2 - off2;
                    assert(grid.countdown_inv@[off2 + i2] == spec_inv_countdown(
                        grid.countdown@[off2 + i2],
                    ));
                    assert(g1.countdown_inv@[off2 + i2] == spec_inv_countdown(
                        g1.countdown@[off2 + i2],
                    ));
                    assert(grid.countdown@[off2 + i2] == g1.countdown@[off2 + i2]);
                }
            }
            assert(grid.countdown_inv@ =~= g1.countdown_inv@);
            assert forall|r2: int| 0 <= r2 < grid.spec_len() implies (#[trigger] grid.state@[r2])
                == g1.state@[r2] by {
                if r2 == off2 {
                    assert(grid.state@[r2] == Some(spec_step_state(*chunk, c2, *s2)));
                } else if r2 == off2 + h2 {
                    assert(grid.state@[r2] == Some(spec_step_state(*chunk, ncall, *nstep)));
                }
            }
            assert(grid.state@ =~= g1.state@);
        }
        Ok(())
    }
}

impl ExecutionConfig {
    /// Assigns a chunk's whole trace into a fresh grid: the real steps in
    /// order, each with its successor pre-computed for lookahead, the
    /// padding replicated over the remaining capacity, the chunk- or
    /// block-closing step, the re-assignment of the last real step once
    /// its true successor is known, and the boundary indicators on the
    /// first and last occupied rows. On success the grid holds exactly the
    /// block sequence the trace demands, and success is owed whenever the
    /// chunk is well formed, its kinds are enabled and the trace fits.
    /// Failure is recoverable when the trace demands more rows than the
    /// grid provides, and fatal on a configuration defect.
    #[verifier::rlimit(100)]
    pub fn assign_block(&self, block: &Block, chunk: &Chunk, challenge: u64) -> (r: Result<
        (Grid, usize),
        ExecError,
    >)
        requires
            self.spec_wf(),
            is_fp(challenge),
            chunk.fixed_param.max_evm_rows < usize::MAX - MAX_STEP_HEIGHT - 1,
        ensures
            r matches Ok(pair) ==> spec_assigned_grid_ok(
                *block,
                *chunk,
                challenge,
                pair.0,
                pair.1 as int,
            ),
            r matches Ok(pair) ==> chunk.padding is Some,
            r is Ok && chunk.fixed_param.max_evm_rows > 0 ==> chunk.padding->0.exec_state
                == ExecutionState::Padding,
            chunk.padding is None <==> r == Result::<(Grid, usize), ExecError>::Err(
                ExecError::MissingPaddingSentinel,
            ),
            r == Result::<(Grid, usize), ExecError>::Err(ExecError::TraceExceedsCapacity)
                ==> !spec_trace_fits(*block, *chunk),
            r == Result::<(Grid, usize), ExecError>::Err(ExecError::MissingBoundaryStep)
                ==> !spec_boundary_steps_ok(*block, *chunk),
            r == Result::<(Grid, usize), ExecError>::Err(ExecError::BadPaddingStep) ==> !(
            chunk.padding matches Some(p) && p.exec_state == ExecutionState::Padding
                && p.rw_indices@.len() == 0),
            r == Result::<(Grid, usize), ExecError>::Err(ExecError::MissingGadget)
                && self.spec_fully_registered() ==> !spec_trace_kinds_enabled(
                *block,
                *chunk,
                self.feature_config,
            ),
            (self.spec_fully_registered() && spec_chunk_well_formed(*block, *chunk)
                && spec_trace_kinds_enabled(*block, *chunk, self.feature_config)
                && spec_trace_fits(*block, *chunk)) ==> r is Ok,
    {
        let evm_rows = chunk.fixed_param.max_evm_rows;
        let ghost base: int = if evm_rows > 0 {
            evm_rows + 1
        } else {
            1int
        };

        // the padding sentinel must always be present
        let padding_step: &ExecStep = match &chunk.padding {
            Some(p) => p,
            None => {
                return Err(ExecError::MissingPaddingSentinel);
            },
        };

        // the transactions this chunk intersects; an impossible range means none
        let mut t0 = chunk.chunk_context.initial_tx_index;
        let mut t1 = chunk.chunk_context.end_tx_index;
        if !(t0 <= t1 && t1 <= block.txs.len()) {
            t0 = 0;
            t1 = 0;
        }

        // the call carried over the chunk boundary, and the last call of this chunk
        let prev_chunk_last_call = match &chunk.prev_last_call {
            Some(c) => *c,
            None => Call::blank(),
        };
        let cur_chunk_last_call = if t1 > t0 {
            let txl = &block.txs[t1 - 1];
            if txl.calls.len() > 0 {
                txl.calls[0]
            } else {
                prev_chunk_last_call
            }
        } else {
            prev_chunk_last_call
        };

        proof {
            assert((t0 as int, t1 as int) == spec_tx_range(*block, *chunk));
            assert(prev_chunk_last_call == spec_prev_call(*chunk));
            assert(cur_chunk_last_call == spec_cur_call(*block, *chunk));
        }
        let ghost opening: Seq<(Call, ExecStep)> = if chunk.begin_chunk is Some {
            seq![(spec_prev_call(*chunk), chunk.begin_chunk->0)]
        } else {
            Seq::<(Call, ExecStep)>::empty()
        };

        // the linear sequence: the chunk opener, then every step in range
        let mut entries: Vec<SeqEntry> = Vec::new();
        if chunk.begin_chunk.is_some() {
            entries.push(SeqEntry::BeginChunk);
        }
        proof {
            assert(spec_entries_pairs(*block, *chunk, prev_chunk_last_call, entries@)
                =~= opening + spec_range_pairs(*block, *chunk, t0 as int));
        }
        let mut t = t0;
        while t < t1
            invariant
                t0 <= t <= t1,
                t1 <= block.txs@.len(),
                (t0 as int, t1 as int) == spec_tx_range(*block, *chunk),
                opening == (if chunk.begin_chunk is Some {
                    seq![(spec_prev_call(*chunk), chunk.begin_chunk->0)]
                } else {
                    Seq::<(Call, ExecStep)>::empty()
                }),
                spec_entries_pairs(*block, *chunk, prev_chunk_last_call, entries@) == opening
                    + spec_range_pairs(*block, *chunk, t as int),
                forall|j: int|
                    0 <= j < entries@.len() ==> ((#[trigger] entries@[j]) matches SeqEntry::Real {
                        tx,
                        step,
                    } ==> tx < block.txs@.len() && step < block.txs@[tx as int].steps@.len()),
                forall|j: int|
                    0 <= j < entries@.len() ==> ((#[trigger] entries@[j]) is BeginChunk ==> (j == 0
                        && chunk.begin_chunk is Some)),
                chunk.begin_chunk is Some ==> entries@.len() >= 1 && entries@[0] is BeginChunk,
            decreases t1 - t,
        {
            let txr = &block.txs[t];
            let mut s: usize = 0;
            while s < txr.steps.len()
                invariant
                    t < t1,
                    t1 <= block.txs@.len(),
                    (t0 as int, t1 as int) == spec_tx_range(*block, *chunk),
                    txr == &block.txs@[t as int],
                    s <= txr.steps@.len(),
                    spec_entries_pairs(*block, *chunk, prev_chunk_last_call, entries@) == opening
                        + spec_range_pairs(*block, *chunk, t as int) + spec_tx_pairs(
                        *block,
                        *chunk,
                        t as int,
                        s as int,
                    ),
                    forall|j: int|
                        0 <= j < entries@.len() ==> ((#[trigger] entries@[j])
                            matches SeqEntry::Real { tx, step } ==> tx < block.txs@.len() && step
                            < block.txs@[tx as int].steps@.len()),
                    forall|j: int|
                        0 <= j < entries@.len() ==> ((#[trigger] entries@[j]) is BeginChunk ==> (j
                            == 0 && chunk.begin_chunk is Some)),
                    chunk.begin_chunk is Some ==> entries@.len() >= 1 && entries@[0] is BeginChunk,
                decreases txr.steps@.len() - s,
            {
                let ghost pre_entries = entries@;
                let stp = &txr.steps[s];
                if stp.rwc >= chunk.chunk_context.initial_rwc && stp.rwc
                    < chunk.chunk_context.end_rwc {
                    entries.push(SeqEntry::Real { tx: t, step: s });
                }
                proof {
                    if spec_step_in_range(*chunk, block.txs@[t as int].steps@[s as int]) {
                        assert(spec_entries_pairs(
                            *block,
                            *chunk,
                            prev_chunk_last_call,
                            pre_entries.push(SeqEntry::Real { tx: t, step: s }),
                        ) =~= spec_entries_pairs(*block, *chunk, prev_chunk_last_call, pre_entries)
                            + seq![
                            (
                                spec_call_for(*block, t as int, s as int),
                                block.txs@[t as int].steps@[s as int],
                            ),
                        ]);
                    }
                    assert(spec_tx_pairs(*block, *chunk, t as int, s + 1) == (if
                    spec_step_in_range(*chunk, block.txs@[t as int].steps@[s as int]) {
                        spec_tx_pairs(*block, *chunk, t as int, s as int).push(
                            (
                                spec_call_for(*block, t as int, s as int),
                                block.txs@[t as int].steps@[s as int],
                            ),
                        )
                    } else {
                        spec_tx_pairs(*block, *chunk, t as int, s as int)
                    }));
                    assert(spec_entries_pairs(*block, *chunk, prev_chunk_last_call, entries@)
                        =~= opening + spec_range_pairs(*block, *chunk, t as int) + spec_tx_pairs(
                        *block,
                        *chunk,
                        t as int,
                        s + 1,
                    ));
                }
                s = s + 1;
            }
            proof {
                assert(spec_tx_pairs(*block, *chunk, t as int, 0) =~= Seq::<
                    (Call, ExecStep),
                >::empty());
                assert(spec_range_pairs(*block, *chunk, t + 1) == spec_range_pairs(
                    *block,
                    *chunk,
                    t as int,
                ) + spec_tx_pairs(*block, *chunk, t as int, block.txs@[t as int].steps@.len() as int));
                assert(opening + spec_range_pairs(*block, *chunk, t + 1) =~= opening
                    + spec_range_pairs(*block, *chunk, t as int) + spec_tx_pairs(
                    *block,
                    *chunk,
                    t as int,
                    txr.steps@.len() as int,
                ));
            }
            t = t + 1;
        }
        proof {
            assert(spec_entries_pairs(*block, *chunk, prev_chunk_last_call, entries@)
                =~= spec_main_pairs(*block, *chunk));
        }

        let mut grid = Grid::new(if evm_rows > 0 {
            evm_rows + 1
        } else {
            1
        });
        let mut offset: usize = 0;

        // the column annotations accompany the fresh region
        let _annotations = self.annotate_circuit();

        // the first occupied row carries the first-block indicator
        let ghost g0 = grid;
        grid.step_first[0] = true;
        proof {
            assert forall|r: int| 0 <= r < grid.spec_len() implies !(
            #[trigger] grid.usable@[r]) by {
                assert(g0.spec_blank_row(r));
            }
            assert forall|r: int| 0 <= r < grid.spec_len() implies (#[trigger] grid.q_step@[r])
                == 0 by {
                assert(g0.spec_blank_row(r));
            }
            assert forall|r: int| 0 <= r < grid.spec_len() implies (#[trigger] grid.countdown@[r])
                == 0 by {
                assert(g0.spec_blank_row(r));
            }
            assert forall|r: int| 0 <= r < grid.spec_len() implies (
            #[trigger] grid.countdown_inv@[r]) == 0 by {
                assert(g0.spec_blank_row(r));
            }
            assert forall|r: int| 0 <= r < grid.spec_len() implies !(
            #[trigger] grid.step_last@[r]) by {
                assert(g0.spec_blank_row(r));
            }
            assert forall|r: int| 1 <= r < grid.spec_len() implies !(
            #[trigger] grid.step_first@[r]) by {
                assert(g0.spec_blank_row(r));
            }
        }

        // part one: assign every entry, looking one entry ahead; the last
        // entry's successor is the padding sentinel
        let ghost mut ks: Seq<ExecutionState> = Seq::empty();
        let ghost mut ps: Seq<(Call, ExecStep)> = Seq::empty();
        proof {
            assert(ps =~= spec_main_pairs(*block, *chunk).subrange(0, 0));
            assert(ks =~= spec_pairs_kinds(ps));
        }
        let mut second_last: Option<(Call, &ExecStep, usize)> = None;
        let mut i: usize = 0;
        while i < entries.len()
            invariant
                self.spec_wf(),
                is_fp(challenge),
                grid.spec_wf(),
                base == (if evm_rows > 0 {
                    evm_rows + 1
                } else {
                    1int
                }),
                evm_rows == chunk.fixed_param.max_evm_rows,
                evm_rows < usize::MAX - MAX_STEP_HEIGHT - 1,
                grid.spec_len() == vstd::math::max(base, offset + 1),
                chunk.padding is Some && padding_step == &chunk.padding->0,
                i <= entries@.len(),
                forall|j: int|
                    0 <= j < entries@.len() ==> ((#[trigger] entries@[j]) matches SeqEntry::Real {
                        tx,
                        step,
                    } ==> tx < block.txs@.len() && step < block.txs@[tx as int].steps@.len()),
                forall|j: int|
                    0 <= j < entries@.len() ==> ((#[trigger] entries@[j]) is BeginChunk ==> (j == 0
                        && chunk.begin_chunk is Some)),
                chunk.begin_chunk is Some ==> entries@.len() >= 1 && entries@[0] is BeginChunk,
                spec_entries_pairs(*block, *chunk, prev_chunk_last_call, entries@)
                    == spec_main_pairs(*block, *chunk),
                cur_chunk_last_call == spec_cur_call(*block, *chunk),
                spec_blocks(grid, 0, ks),
                spec_rows_of(ks) == offset,
                ks.len() == i,
                ps == spec_main_pairs(*block, *chunk).subrange(0, i as int),
                ks == spec_pairs_kinds(ps),
                spec_step_blocks(*block, *chunk, challenge, grid, 0, ps),
                chunk.begin_chunk is Some && i >= 1 ==> ks[0] == chunk.begin_chunk->0.exec_state,
                spec_tail_clear(grid, offset as int),
                grid.step_first@[0],
                forall|r: int| 1 <= r < grid.spec_len() ==> !(#[trigger] grid.step_first@[r]),
                forall|r: int| 0 <= r < grid.spec_len() ==> !(#[trigger] grid.step_last@[r]),
                spec_padding_stored_empty(grid, offset as int),
                second_last is Some <==> i >= 1,
                second_last matches Some((c2, s2, off2)) ==> {
                    &&& off2 + spec_needed_rows(s2.exec_state) == offset
                    &&& spec_block_assigned(grid, off2 as int, s2.exec_state)
                    &&& grid.state@[off2 as int] == Some(spec_step_state(*chunk, c2, *s2))
                    &&& grid.stored@[off2 as int]@ == spec_assigned_stored(
                        spec_stored_shape(s2.exec_state),
                        *block,
                        *s2,
                        c2,
                        challenge,
                    )
                    &&& self.spec_registered(s2.exec_state)
                    &&& off2 < offset
                },
            decreases entries@.len() - i,
        {
            let cur = entries[i];
            let (ccall, cstep) = resolve_entry(block, chunk, prev_chunk_last_call, cur);
            proof {
                assert(spec_entries_pairs(*block, *chunk, prev_chunk_last_call, entries@)[i as int]
                    == spec_resolve_pair(*block, *chunk, prev_chunk_last_call, entries@[i as int]));
                assert((ccall, *cstep) == spec_main_pairs(*block, *chunk)[i as int]);
            }
            let h = match self.height_of(cstep.execution_state()) {
                Ok(h) => h,
                Err(e) => {
                    proof {
                        if self.spec_fully_registered() {
                            assert(spec_main_pairs(*block, *chunk)[i as int].1.exec_state
                                == cstep.exec_state);
                            assert(!crate::config::spec_kind_enabled(
                                cstep.exec_state,
                                self.feature_config,
                            ));
                            assert(!spec_assigned_kinds_enabled(
                                *block,
                                *chunk,
                                self.feature_config,
                            ));
                        }
                    }
                    return Err(e);
                },
            };
            if offset > usize::MAX - MAX_STEP_HEIGHT - 1 {
                proof {
                    let main = spec_main_pairs(*block, *chunk);
                    let kinds = spec_pairs_kinds(main);
                    assert(spec_pairs_kinds(main.subrange(0, i as int)) =~= kinds.subrange(
                        0,
                        i as int,
                    ));
                    lemma_rows_of_split(kinds, i as int);
                    lemma_rows_of_nonneg(kinds.subrange(i as int, kinds.len() as int));
                    assert(spec_rows_of(kinds) >= offset);
                    assert(!spec_trace_fits(*block, *chunk));
                }
                return Err(ExecError::TraceExceedsCapacity);
            }
            let ghost pre_grow = grid;
            grid.ensure_rows(offset + h + 1);
            proof {
                lemma_blocks_frame(pre_grow, grid, 0, ks);
            }
            let (ncall, nstep): (Call, &ExecStep) = if i + 1 < entries.len() {
                resolve_entry(block, chunk, prev_chunk_last_call, entries[i + 1])
            } else {
                (cur_chunk_last_call, padding_step)
            };
            proof {
                if i + 1 < entries@.len() {
                    assert(spec_entries_pairs(
                        *block,
                        *chunk,
                        prev_chunk_last_call,
                        entries@,
                    )[i + 1] == spec_resolve_pair(
                        *block,
                        *chunk,
                        prev_chunk_last_call,
                        entries@[i + 1],
                    ));
                    assert((ncall, *nstep) == spec_main_pairs(*block, *chunk)[i + 1]);
                }
            }
            let ghost pre_assign = grid;
            let res = self.assign_step_block(
                &mut grid,
                offset,
                block,
                chunk,
                ccall,
                cstep,
                h,
                Some((ncall, nstep)),
                challenge,
            );
            match res {
                Ok(()) => (),
                Err(e) => {
                    proof {
                        if self.spec_fully_registered() {
                            if !self.spec_registered(cstep.exec_state) {
                                assert(!crate::config::spec_kind_enabled(
                                    cstep.exec_state,
                                    self.feature_config,
                                ));
                                assert(!spec_assigned_kinds_enabled(
                                    *block,
                                    *chunk,
                                    self.feature_config,
                                ));
                            } else {
                                assert(!self.spec_registered(nstep.exec_state));
                                if i + 1 < entries@.len() {
                                    assert(!spec_assigned_kinds_enabled(
                                        *block,
                                        *chunk,
                                        self.feature_config,
                                    ));
                                } else {
                                    assert(nstep.exec_state == chunk.padding->0.exec_state);
                                }
                            }
                        }
                    }
                    return Err(e);
                },
            }
            proof {
                lemma_blocks_frame(pre_assign, grid, 0, ks);
                lemma_blocks_push(grid, 0, ks, cstep.exec_state);
                lemma_rows_of_push(ks, cstep.exec_state);
                ks = ks.push(cstep.exec_state);
                lemma_step_blocks_frame(*block, *chunk, challenge, pre_grow, pre_assign, 0, ps);
                lemma_step_blocks_frame(*block, *chunk, challenge, pre_assign, grid, 0, ps);
                lemma_step_blocks_push(*block, *chunk, challenge, grid, 0, ps, ccall, *cstep);
                ps = ps.push((ccall, *cstep));
                assert(ps =~= spec_main_pairs(*block, *chunk).subrange(0, i + 1));
                assert(ks =~= spec_pairs_kinds(ps));
                assert forall|r: int| offset + h <= r < grid.spec_len() implies !(
                #[trigger] grid.usable@[r]) by {
                    if r >= pre_grow.spec_len() {
                        assert(pre_assign.spec_blank_row(r));
                    }
                }
                assert forall|r: int| offset + h <= r < grid.spec_len() implies (
                #[trigger] grid.q_step@[r]) == 0 by {
                    if r >= pre_grow.spec_len() {
                        assert(pre_assign.spec_blank_row(r));
                    }
                }
                assert forall|r: int| offset + h <= r < grid.spec_len() implies (
                #[trigger] grid.countdown@[r]) == 0 by {
                    if r >= pre_grow.spec_len() {
                        assert(pre_assign.spec_blank_row(r));
                    }
                }
                assert forall|r: int| offset + h <= r < grid.spec_len() implies (
                #[trigger] grid.countdown_inv@[r]) == 0 by {
                    if r >= pre_grow.spec_len() {
                        assert(pre_assign.spec_blank_row(r));
                    }
                }
                assert forall|r: int| 1 <= r < grid.spec_len() implies !(
                #[trigger] grid.step_first@[r]) by {
                    if r >= pre_grow.spec_len() {
                        assert(pre_assign.spec_blank_row(r));
                    }
                }
                assert forall|r: int| 0 <= r < grid.spec_len() implies !(
                #[trigger] grid.step_last@[r]) by {
                    if r >= pre_grow.spec_len() {
                        assert(pre_assign.spec_blank_row(r));
                    }
                }
                assert forall|r: int|
                    0 <= r < offset + h && (#[trigger] grid.q_step@[r]) == 1 && grid.state@[r]
                        is Some && grid.state@[r]->0.kind == ExecutionState::Padding implies
                    grid.stored@[r]@.len() == 0 by {
                    if r == offset {
                        assert(grid.stored@[r]@ == spec_assigned_stored(
                            spec_stored_shape(cstep.exec_state),
                            *block,
                            *cstep,
                            ccall,
                            challenge,
                        ));
                    } else if r > offset {
                        assert(grid.q_step@[offset + (r - offset)] == 0);
                    }
                }
            }
            second_last = Some((ccall, cstep, offset));
            offset = offset + h;
            i = i + 1;
        }

        // parts two to six: padding, the closing step, the re-assignment of
        // the last real step, and the boundary indicators
        proof {
            assert(ps =~= spec_main_pairs(*block, *chunk));
        }
        let final_offset = self.assign_block_tail(
            &mut grid,
            offset,
            block,
            chunk,
            cur_chunk_last_call,
            padding_step,
            second_last,
            challenge,
            Ghost(ks),
            Ghost(ps),
        )?;
        Ok((grid, final_offset))
    }

    /// The closing half of a block assignment: padding over the remaining
    /// capacity, the chunk- or block-closing step, the in-place
    /// re-assignment of the last real step, the boundary indicators, and
    /// the trailing step-counter cells the following row still reads.
    #[verifier::rlimit(100)]
    fn assign_block_tail(
        &self,
        grid: &mut Grid,
        start_offset: usize,
        block: &Block,
        chunk: &Chunk,
        cur_chunk_last_call: Call,
        padding_step: &ExecStep,
        second_last: Option<(Call, &ExecStep, usize)>,
        challenge: u64,
        Ghost(ks0): Ghost<Seq<ExecutionState>>,
        Ghost(ps0): Ghost<Seq<(Call, ExecStep)>>,
    ) -> (r: Result<usize, ExecError>)
        requires
            self.spec_wf(),
            is_fp(challenge),
            old(grid).spec_wf(),
            chunk.fixed_param.max_evm_rows < usize::MAX - MAX_STEP_HEIGHT - 1,
            ps0 == spec_main_pairs(*block, *chunk),
            ks0 == spec_pairs_kinds(ps0),
            spec_step_blocks(*block, *chunk, challenge, *old(grid), 0, ps0),
            cur_chunk_last_call == spec_cur_call(*block, *chunk),
            old(grid).spec_len() == vstd::math::max(
                (if chunk.fixed_param.max_evm_rows > 0 {
                    chunk.fixed_param.max_evm_rows + 1int
                } else {
                    1int
                }),
                start_offset + 1,
            ),
            chunk.padding is Some && padding_step == &chunk.padding->0,
            spec_blocks(*old(grid), 0, ks0),
            spec_rows_of(ks0) == start_offset,
            spec_tail_clear(*old(grid), start_offset as int),
            old(grid).step_first@[0],
            forall|r: int| 1 <= r < old(grid).spec_len() ==> !(#[trigger] old(grid).step_first@[r]),
            forall|r: int| 0 <= r < old(grid).spec_len() ==> !(#[trigger] old(grid).step_last@[r]),
            spec_padding_stored_empty(*old(grid), start_offset as int),
            chunk.begin_chunk is Some ==> ks0.len() >= 1 && ks0[0]
                == chunk.begin_chunk->0.exec_state,
            second_last matches Some((c2, s2, off2)) ==> {
                &&& off2 + spec_needed_rows(s2.exec_state) == start_offset
                &&& spec_block_assigned(*old(grid), off2 as int, s2.exec_state)
                &&& old(grid).state@[off2 as int] == Some(spec_step_state(*chunk, c2, *s2))
                &&& old(grid).stored@[off2 as int]@ == spec_assigned_stored(
                    spec_stored_shape(s2.exec_state),
                    *block,
                    *s2,
                    c2,
                    challenge,
                )
                &&& self.spec_registered(s2.exec_state)
                &&& off2 < start_offset
            },
        ensures
            r matches Ok(off) ==> spec_assigned_grid_ok(
                *block,
                *chunk,
                challenge,
                *final(grid),
                off as int,
            ),
            r is Ok && chunk.fixed_param.max_evm_rows > 0 ==> chunk.padding->0.exec_state
                == ExecutionState::Padding,
            r matches Err(e) ==> (e == ExecError::TraceExceedsCapacity || e
                == ExecError::MissingBoundaryStep || e == ExecError::BadPaddingStep || e
                == ExecError::MissingGadget),
            r == Result::<usize, ExecError>::Err(ExecError::TraceExceedsCapacity)
                ==> !spec_trace_fits(*block, *chunk),
            r == Result::<usize, ExecError>::Err(ExecError::MissingBoundaryStep)
                ==> !spec_boundary_steps_ok(*block, *chunk),
            r == Result::<usize, ExecError>::Err(ExecError::BadPaddingStep) ==> !(
            chunk.padding matches Some(p) && p.exec_state == ExecutionState::Padding
                && p.rw_indices@.len() == 0),
            r == Result::<usize, ExecError>::Err(ExecError::MissingGadget)
                && self.spec_fully_registered() ==> !spec_trace_kinds_enabled(
                *block,
                *chunk,
                self.feature_config,
            ),
            (self.spec_fully_registered() && spec_chunk_well_formed(*block, *chunk)
                && spec_trace_kinds_enabled(*block, *chunk, self.feature_config)
                && spec_trace_fits(*block, *chunk)) ==> r is Ok,
    {
        let evm_rows = chunk.fixed_param.max_evm_rows;
        let ghost base: int = if evm_rows > 0 {
            evm_rows + 1
        } else {
            1int
        };
        let mut offset: usize = start_offset;
        let ghost mut ks: Seq<ExecutionState> = ks0;
        let ghost mut ps: Seq<(Call, ExecStep)> = ps0;

        // part two: fill the remaining capacity with replicated padding
        let ghost real_end = offset as int;
        let mut is_padded: bool = false;
        if evm_rows > 0 {
            let padding_end = evm_rows - 1;
            if offset >= padding_end {
                proof {
                    assert(!spec_trace_fits(*block, *chunk));
                }
                return Err(ExecError::TraceExceedsCapacity);
            }
            let hp = match self.height_of(padding_step.execution_state()) {
                Ok(h) => h,
                Err(e) => {
                    proof {
                        if self.spec_fully_registered() {
                            assert(!crate::config::spec_kind_enabled(
                                padding_step.exec_state,
                                self.feature_config,
                            ));
                            assert(!spec_trace_kinds_enabled(
                                *block,
                                *chunk,
                                self.feature_config,
                            ));
                        }
                    }
                    return Err(e);
                },
            };
            let ghost pre_pad = *grid;
            let res = self.assign_padding_region(
                grid,
                offset,
                padding_end,
                block,
                chunk,
                cur_chunk_last_call,
                padding_step,
                hp,
                challenge,
            );
            match res {
                Ok(()) => (),
                Err(e) => {
                    proof {
                        if e == ExecError::BadPaddingStep {
                            assert(!(hp == 1 && padding_step.exec_state == ExecutionState::Padding
                                && padding_step.rw_indices@.len() == 0));
                            assert(!(chunk.padding matches Some(p) && p.exec_state
                                == ExecutionState::Padding && p.rw_indices@.len() == 0));
                        } else {
                            assert(e == ExecError::MissingGadget);
                            if self.spec_fully_registered() {
                                assert(!self.spec_registered(ExecutionState::Padding));
                                assert(false);
                            }
                        }
                    }
                    return Err(e);
                },
            }
            proof {
                lemma_blocks_frame(pre_pad, *grid, 0, ks);
                lemma_pad_run(*grid, ks, offset as int, padding_end as int);
                ks = ks + Seq::new(
                    (padding_end - offset) as nat,
                    |j: int| ExecutionState::Padding,
                );
                lemma_step_blocks_frame(*block, *chunk, challenge, pre_pad, *grid, 0, ps);
                assert forall|r2: int|
                    offset <= r2 < padding_end implies (#[trigger] grid.stored@[r2])@.len()
                    == 0 by {
                    assert(grid.state@[r2] == Some(
                        spec_step_state(*chunk, cur_chunk_last_call, *padding_step),
                    ));
                }
                lemma_step_pad_run(
                    *block,
                    *chunk,
                    challenge,
                    *grid,
                    ps,
                    cur_chunk_last_call,
                    *padding_step,
                    offset as int,
                    padding_end as int,
                );
                ps = ps + Seq::new(
                    (padding_end - offset) as nat,
                    |j: int| (cur_chunk_last_call, *padding_step),
                );
                assert(ks =~= spec_pairs_kinds(ps));
                match second_last {
                    Some((c2, s2, off2)) => {
                        lemma_block_assigned_frame(pre_pad, *grid, off2 as int, s2.exec_state);
                        assert(grid.state@[off2 as int] == Some(spec_step_state(*chunk, c2, *s2)));
                        assert(grid.stored@[off2 as int]@ == spec_assigned_stored(
                            spec_stored_shape(s2.exec_state),
                            *block,
                            *s2,
                            c2,
                            challenge,
                        ));
                    },
                    None => (),
                }
                assert forall|r: int|
                    0 <= r < padding_end && (#[trigger] grid.q_step@[r]) == 1 && grid.state@[r]
                        is Some && grid.state@[r]->0.kind == ExecutionState::Padding implies
                    grid.stored@[r]@.len() == 0 by {
                    if offset <= r < padding_end {
                        assert(grid.stored@[r]@.len() == 0);
                    }
                }
            }
            offset = padding_end;
            is_padded = true;
        }

        // part three: the chunk-closing step, or the block-closing step on
        // the last chunk
        let end_step: &ExecStep = match &chunk.end_chunk {
            Some(ec) => {
                if !(ec.execution_state() == ExecutionState::EndChunk) {
                    proof {
                        assert(!spec_boundary_steps_ok(*block, *chunk));
                    }
                    return Err(ExecError::MissingBoundaryStep);
                }
                ec
            },
            None => {
                if !chunk.chunk_context.is_last_chunk() {
                    proof {
                        assert(!spec_boundary_steps_ok(*block, *chunk));
                    }
                    return Err(ExecError::MissingBoundaryStep);
                }
                if !(block.end_block.execution_state() == ExecutionState::EndBlock) {
                    proof {
                        assert(!spec_boundary_steps_ok(*block, *chunk));
                    }
                    return Err(ExecError::MissingBoundaryStep);
                }
                &block.end_block
            },
        };
        proof {
            assert(*end_step == spec_end_step(*block, *chunk));
        }
        let h_end = match self.height_of(end_step.execution_state()) {
            Ok(h) => h,
            Err(e) => {
                proof {
                    if self.spec_fully_registered() {
                        assert(crate::config::spec_kind_enabled(
                            end_step.exec_state,
                            self.feature_config,
                        ));
                        assert(false);
                    }
                }
                return Err(e);
            },
        };
        if offset > usize::MAX - MAX_STEP_HEIGHT - 1 {
            proof {
                if evm_rows > 0 {
                    assert(false);
                } else {
                    assert(spec_rows_of(spec_pairs_kinds(ps0)) == start_offset);
                    assert(offset == start_offset);
                    assert(!spec_trace_fits(*block, *chunk));
                }
            }
            return Err(ExecError::TraceExceedsCapacity);
        }
        let ghost pre_grow2 = *grid;
        grid.ensure_rows(offset + h_end + 1);
        proof {
            lemma_blocks_frame(pre_grow2, *grid, 0, ks);
        }
        let ghost pre_end = *grid;
        let res_end = self.assign_step_block(
            grid,
            offset,
            block,
            chunk,
            cur_chunk_last_call,
            end_step,
            h_end,
            None,
            challenge,
        );
        match res_end {
            Ok(()) => (),
            Err(e) => {
                proof {
                    if self.spec_fully_registered() {
                        assert(!self.spec_registered(end_step.exec_state));
                        assert(false);
                    }
                }
                return Err(e);
            },
        }
        let ghost end_kind = end_step.exec_state;
        let ghost end_row = offset as int;
        proof {
            lemma_blocks_frame(pre_end, *grid, 0, ks);
            lemma_blocks_push(*grid, 0, ks, end_kind);
            lemma_rows_of_push(ks, end_kind);
            ks = ks.push(end_kind);
            lemma_step_blocks_frame(*block, *chunk, challenge, pre_grow2, pre_end, 0, ps);
            lemma_step_blocks_frame(*block, *chunk, challenge, pre_end, *grid, 0, ps);
            lemma_step_blocks_push(
                *block,
                *chunk,
                challenge,
                *grid,
                0,
                ps,
                cur_chunk_last_call,
                *end_step,
            );
            ps = ps.push((cur_chunk_last_call, *end_step));
            assert(ks =~= spec_pairs_kinds(ps));
            assert(spec_needed_rows(end_kind) == 1);
            assert forall|r: int| offset + h_end <= r < grid.spec_len() implies !(
            #[trigger] grid.usable@[r]) by {
                if r >= pre_grow2.spec_len() {
                    assert(pre_end.spec_blank_row(r));
                }
            }
            assert forall|r: int| offset + h_end <= r < grid.spec_len() implies (
            #[trigger] grid.q_step@[r]) == 0 by {
                if r >= pre_grow2.spec_len() {
                    assert(pre_end.spec_blank_row(r));
                }
            }
            assert forall|r: int| offset + h_end <= r < grid.spec_len() implies (
            #[trigger] grid.countdown@[r]) == 0 by {
                if r >= pre_grow2.spec_len() {
                    assert(pre_end.spec_blank_row(r));
                }
            }
            assert forall|r: int| offset + h_end <= r < grid.spec_len() implies (
            #[trigger] grid.countdown_inv@[r]) == 0 by {
                if r >= pre_grow2.spec_len() {
                    assert(pre_end.spec_blank_row(r));
                }
            }
            assert forall|r: int| 1 <= r < grid.spec_len() implies !(
            #[trigger] grid.step_first@[r]) by {
                if r >= pre_grow2.spec_len() {
                    assert(pre_end.spec_blank_row(r));
                }
            }
            assert forall|r: int| 0 <= r < grid.spec_len() implies !(
            #[trigger] grid.step_last@[r]) by {
                if r >= pre_grow2.spec_len() {
                    assert(pre_end.spec_blank_row(r));
                }
            }
            assert forall|r: int|
                0 <= r < offset + h_end && (#[trigger] grid.q_step@[r]) == 1 && grid.state@[r]
                    is Some && grid.state@[r]->0.kind == ExecutionState::Padding implies
                grid.stored@[r]@.len() == 0 by {
                if r == offset {
                    assert(grid.state@[r]->0.kind == end_kind);
                }
            }
            match second_last {
                Some((c2, s2, off2)) => {
                    lemma_block_assigned_frame(pre_grow2, *grid, off2 as int, s2.exec_state);
                    assert(grid.state@[off2 as int] == Some(spec_step_state(*chunk, c2, *s2)));
                    assert(grid.stored@[off2 as int]@ == spec_assigned_stored(
                        spec_stored_shape(s2.exec_state),
                        *block,
                        *s2,
                        c2,
                        challenge,
                    ));
                },
                None => (),
            }
        }
        offset = offset + h_end;

        // part four: re-assign the last real step now that its true
        // successor is known; nothing of the grid changes
        match second_last {
            Some((c2, s2, off2)) => {
                let h2 = match self.height_of(s2.execution_state()) {
                    Ok(h) => h,
                    Err(e) => {
                        proof {
                            assert(false);
                        }
                        return Err(e);
                    },
                };
                let next_after: &ExecStep = if is_padded {
                    padding_step
                } else {
                    end_step
                };
                let ghost pre4 = *grid;
                let res4 = self.reassign_second_last(
                    grid,
                    off2,
                    block,
                    chunk,
                    c2,
                    s2,
                    h2,
                    cur_chunk_last_call,
                    next_after,
                    challenge,
                );
                match res4 {
                    Ok(()) => (),
                    Err(e) => {
                        proof {
                            assert(false);
                        }
                        return Err(e);
                    },
                }
                proof {
                    lemma_blocks_frame(pre4, *grid, 0, ks);
                    assert forall|r: int|
                        0 <= r < spec_rows_of(spec_pairs_kinds(ps)) implies (
                    #[trigger] grid.stored@[r])@ == pre4.stored@[r]@ by {
                        if r == off2 {
                            assert(grid.stored@[r]@ == spec_assigned_stored(
                                spec_stored_shape(s2.exec_state),
                                *block,
                                *s2,
                                c2,
                                challenge,
                            ));
                        } else if r == off2 + h2 {
                            assert(grid.stored@[r]@ == spec_assigned_stored(
                                spec_stored_shape(next_after.exec_state),
                                *block,
                                *next_after,
                                cur_chunk_last_call,
                                challenge,
                            ));
                            if is_padded {
                                assert(spec_stored_total(
                                    spec_stored_shape(ExecutionState::Padding),
                                ) == 0);
                                assert(pre4.stored@[r]@.len() == 0);
                                assert(grid.stored@[r]@ =~= pre4.stored@[r]@);
                            }
                        }
                    }
                    lemma_step_blocks_frame(*block, *chunk, challenge, pre4, *grid, 0, ps);
                    assert forall|r: int|
                        0 <= r < offset && (#[trigger] grid.q_step@[r]) == 1 && grid.state@[r]
                            is Some && grid.state@[r]->0.kind == ExecutionState::Padding implies
                        grid.stored@[r]@.len() == 0 by {
                        if r == off2 {
                            assert(grid.stored@[r]@ == spec_assigned_stored(
                                spec_stored_shape(s2.exec_state),
                                *block,
                                *s2,
                                c2,
                                challenge,
                            ));
                        } else if r == off2 + h2 {
                            assert(grid.stored@[r]@ == spec_assigned_stored(
                                spec_stored_shape(next_after.exec_state),
                                *block,
                                *next_after,
                                cur_chunk_last_call,
                                challenge,
                            ));
                        }
                    }
                }
            },
            None => (),
        }

        // part five: the last occupied row carries the last-block indicator
        let ghost pre5 = *grid;
        grid.step_last[offset - 1] = true;

        // part six: the step counter cells the following row still reads
        grid.ensure_rows(offset + 1);
        grid.countdown[offset] = 0;
        grid.q_step[offset] = 0;

        proof {
            lemma_blocks_frame(pre5, *grid, 0, ks);
            lemma_step_blocks_frame(*block, *chunk, challenge, pre5, *grid, 0, ps);
            lemma_blocks_row_facts(*grid, 0, ks);
            assert(spec_blocks(*grid, 0, ks) && spec_rows_of(ks) == offset && ks.len() >= 1);
            // the assigned sequence is exactly the one the trace demands
            if is_padded {
                assert(spec_padding_count(*block, *chunk) == (evm_rows - 1) - start_offset);
                assert(ps =~= spec_assigned_pairs(*block, *chunk));
            } else {
                assert(spec_padding_count(*block, *chunk) == 0);
                assert(ps =~= spec_assigned_pairs(*block, *chunk));
            }
            assert(spec_step_blocks(
                *block,
                *chunk,
                challenge,
                *grid,
                0,
                spec_assigned_pairs(*block, *chunk),
            ));
            assert(offset == spec_rows_of(
                spec_pairs_kinds(spec_assigned_pairs(*block, *chunk)),
            ));
            assert(spec_block_assigned(*grid, 0, ks[0]));
            assert(grid.q_step@[0int + 0int] == 1);
            assert(grid.state@[0int] is Some);
            if chunk.begin_chunk is Some {
                assert(grid.state@[0int]->0.kind == ks[0]);
            }
            assert(ks.last() == end_kind);
            lemma_blocks_last(*grid, 0, ks);
            assert(spec_needed_rows(end_kind) == 1);
            assert(spec_block_assigned(*grid, offset - 1, end_kind));
            assert(grid.q_step@[(offset - 1) + 0int] == 1);
            assert(grid.state@[(offset - 1) + 0int] is Some && grid.state@[(offset - 1)
                + 0int]->0.kind == end_kind);
            assert(spec_end_kind(*block, *chunk) == end_kind);
            assert(spec_assigned_grid_ok(*block, *chunk, challenge, *grid, offset as int));
        }
        Ok(offset)
    }
}

} // verus!
