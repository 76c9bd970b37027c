//! The trace entities the walker consumes: ordered transactions, each with
//! ordered calls and steps, the global read/write event log, and the
//! per-chunk context.
//!
//! These are produced externally per proof request and consumed once; no
//! part of the core mutates them. Each value is held as plain data: a step
//! carries its kind, its positions in the global read/write log, and its
//! reversible-write and copy-event metadata.

use vstd::prelude::*;

use crate::field::{is_fp, rlc, spec_rlc};
use crate::step::ExecutionState;

verus! {

/// Classification of one recorded read/write event; only the memory tag is
/// read by the debug cross-check, which expects the sub-events of a copy
/// run to be memory operations.
#[derive(Clone, Copy, Debug, PartialEq, Eq, Structural)]
pub enum RwTarget {
    Memory,
    Stack,
    Storage,
    CallContext,
    Account,
}

/// One recorded read/write event of the global log.
#[derive(Clone, Debug)]
pub struct Rw {
    pub tag: RwTarget,
    /// The column values this event contributes to the read/write table.
    pub values: Vec<u64>,
}

impl Rw {
    pub fn tag(&self) -> (t: RwTarget)
        ensures
            t == self.tag,
    {
        self.tag
    }

    /// The code the event's tag contributes as the table row's first column.
    pub fn tag_code(&self) -> (c: u64)
        ensures
            c == self.spec_tag_code(),
    {
        match self.tag {
            RwTarget::Memory => 1,
            RwTarget::Stack => 2,
            RwTarget::Storage => 3,
            RwTarget::CallContext => 4,
            RwTarget::Account => 5,
        }
    }

    pub open spec fn spec_tag_code(self) -> u64 {
        match self.tag {
            RwTarget::Memory => 1,
            RwTarget::Stack => 2,
            RwTarget::Storage => 3,
            RwTarget::CallContext => 4,
            RwTarget::Account => 5,
        }
    }

    /// The row this event contributes to the read/write table: its tag code
    /// followed by its column values.
    pub fn table_assignment(&self) -> (row: Vec<u64>)
        ensures
            row@ == self.spec_table_assignment(),
    {
        let mut row: Vec<u64> = Vec::new();
        row.push(self.tag_code());
        let mut i: usize = 0;
        while i < self.values.len()
            invariant
                i <= self.values.len(),
                row@ == seq![self.spec_tag_code()] + self.values@.subrange(0, i as int),
            decreases self.values.len() - i,
        {
            row.push(self.values[i]);
            i = i + 1;
            assert(seq![self.spec_tag_code()] + self.values@.subrange(0, i - 1) + seq![
                self.values@[i - 1],
            ] =~= seq![self.spec_tag_code()] + self.values@.subrange(0, i as int));
        }
        assert(self.values@.subrange(0, self.values@.len() as int) =~= self.values@);
        row
    }

    pub open spec fn spec_table_assignment(self) -> Seq<u64> {
        seq![self.spec_tag_code()] + self.values@
    }

    /// The random-linear-combination encoding of this event's table row.
    pub fn rlc_value(&self, challenge: u64) -> (r: u64)
        requires
            is_fp(challenge),
        ensures
            is_fp(r),
            r == spec_rlc(self.spec_table_assignment(), challenge),
    {
        let row = self.table_assignment();
        rlc(&row, challenge)
    }
}

/// One call context of a transaction.
#[derive(Clone, Copy, Debug, PartialEq, Eq, Structural)]
pub struct Call {
    pub id: u64,
    pub is_root: bool,
    pub is_create: bool,
}

impl Call {
    pub fn blank() -> (c: Call)
        ensures
            c.id == 0,
            !c.is_root,
            !c.is_create,
    {
        Call { id: 0, is_root: false, is_create: false }
    }
}

/// One step of the trace: its kind, its position range in the global
/// read/write log, and its metadata.
#[derive(Clone, Debug)]
pub struct ExecStep {
    pub exec_state: ExecutionState,
    /// The global read/write counter at the start of the step.
    pub rwc: u64,
    /// Positions of the step's read/write events in the global log, in the
    /// order the events were recorded.
    pub rw_indices: Vec<usize>,
    /// How many read/write sub-events a copy run of this step performs.
    pub copy_rw_counter_delta: u64,
    /// How many of this step's writes are reversible; they stand at the end
    /// of the step's slice of the log.
    pub reversible_write_counter_delta: usize,
    /// Which call of the owning transaction the step belongs to.
    pub call_index: usize,
}

impl ExecStep {
    pub fn execution_state(&self) -> (s: ExecutionState)
        ensures
            s == self.exec_state,
    {
        self.exec_state
    }

    pub fn rw_indices_len(&self) -> (n: usize)
        ensures
            n == self.rw_indices@.len(),
    {
        self.rw_indices.len()
    }

    /// A synthetic step carrying a boundary pseudo-kind: no transaction, no
    /// call, no read/write events.
    pub fn synthetic(kind: ExecutionState, rwc: u64) -> (s: ExecStep)
        ensures
            s.exec_state == kind,
            s.rwc == rwc,
            s.rw_indices@.len() == 0,
            s.copy_rw_counter_delta == 0,
            s.reversible_write_counter_delta == 0,
            s.call_index == 0,
    {
        ExecStep {
            exec_state: kind,
            rwc,
            rw_indices: Vec::new(),
            copy_rw_counter_delta: 0,
            reversible_write_counter_delta: 0,
            call_index: 0,
        }
    }
}

/// One transaction: its ordered calls and ordered steps.
#[derive(Clone, Debug)]
pub struct Transaction {
    pub id: u64,
    pub calls: Vec<Call>,
    pub steps: Vec<ExecStep>,
}

impl Transaction {
    pub fn calls(&self) -> (c: &Vec<Call>)
        ensures
            c == &self.calls,
    {
        &self.calls
    }

    pub fn steps(&self) -> (s: &Vec<ExecStep>)
        ensures
            s == &self.steps,
    {
        &self.steps
    }
}

/// The whole trace: ordered transactions, the global read/write log, and
/// the one closing end-of-block step.
#[derive(Clone, Debug)]
pub struct Block {
    pub txs: Vec<Transaction>,
    pub rws: Vec<Rw>,
    pub end_block: ExecStep,
}

impl Block {
    /// The recorded read/write event standing at the given position of the
    /// step's slice of the global log.
    pub fn get_rws(&self, step: &ExecStep, index: usize) -> (rw: &Rw)
        requires
            index < step.rw_indices@.len(),
            step.rw_indices@[index as int] < self.rws@.len(),
        ensures
            rw == &self.rws@[step.rw_indices@[index as int] as int],
    {
        &self.rws[step.rw_indices[index]]
    }
}

/// Per-chunk record of the trace span it covers: its position among all
/// chunks, the global read/write counter range `[initial_rwc, end_rwc)`,
/// and the transaction range it intersects.
#[derive(Clone, Debug)]
pub struct ChunkContext {
    pub chunk_index: usize,
    pub total_chunks: usize,
    pub initial_rwc: u64,
    pub end_rwc: u64,
    pub initial_tx_index: usize,
    pub end_tx_index: usize,
}

impl ChunkContext {
    pub open spec fn spec_is_first_chunk(self) -> bool {
        self.chunk_index == 0
    }

    pub open spec fn spec_is_last_chunk(self) -> bool {
        self.chunk_index + 1 == self.total_chunks
    }

    pub fn is_first_chunk(&self) -> (r: bool)
        ensures
            r == self.spec_is_first_chunk(),
    {
        self.chunk_index == 0
    }

    pub fn is_last_chunk(&self) -> (r: bool)
        ensures
            r == self.spec_is_last_chunk(),
    {
        self.total_chunks > 0 && self.chunk_index == self.total_chunks - 1
    }
}

/// The fixed grid capacity granted to a chunk; zero rows means the exact
/// mode used by unit tests, where no padding is laid down.
#[derive(Clone, Copy, Debug, PartialEq, Eq, Structural)]
pub struct FixedCParams {
    pub max_evm_rows: usize,
}

/// A provable sub-segment of the trace.
#[derive(Clone, Debug)]
pub struct Chunk {
    pub chunk_context: ChunkContext,
    /// The synthetic chunk-opening step; present on every chunk but the
    /// first.
    pub begin_chunk: Option<ExecStep>,
    /// The synthetic chunk-closing step; present on every chunk but the
    /// last.
    pub end_chunk: Option<ExecStep>,
    /// The padding step sentinel; must always be present.
    pub padding: Option<ExecStep>,
    /// The last call of the previous chunk, carried over the boundary.
    pub prev_last_call: Option<Call>,
    pub fixed_param: FixedCParams,
}

} // verus!
