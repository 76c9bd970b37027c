//! Evaluation of the produced constraint system over a filled grid, and
//! the debug-only cross-check of recorded read/write events.
//!
//! The constraint evaluator decides whether a grid satisfies what the
//! configured shape demands: the step-counter gate with its zero-test
//! identities, the registered block heights, the state machine over step
//! kinds, the chunk-boundary rules, and the chunk-context membership
//! checks tying the internal counter to the chunk's declared range. A
//! grid an assignment produced passes; a corrupted one is rejected.

use vstd::prelude::*;

use crate::config::{
    spec_in_first_step_whitelist, spec_in_last_step_whitelist, in_first_step_whitelist,
    in_last_step_whitelist, FeatureConfig,
};
use crate::field::{
    fp_add, fp_mul, fp_of, fp_sub, is_fp, rlc, spec_fp_add, spec_fp_mul, spec_fp_of, spec_fp_sub,
    spec_inv_pair_ok, spec_rlc,
};
use crate::assign::{spec_assigned_grid_ok, spec_end_kind};
use crate::gadget::{needed_rows, rw_counter_offset, spec_needed_rows, spec_rw_counter_offset};
use crate::grid::{lemma_rows_of_nonneg, spec_block_assigned, spec_blocks, spec_rows_of};
use crate::grid::Grid;
use crate::step::ExecutionState;
use crate::transition::{spec_transition_allowed, transition_gate_sum};
use crate::gadget::StoredKind;
use crate::witness::{Block, Chunk, ExecStep};

verus! {

/// The tag the chunk-context table uses for the counter value a chunk
/// starts from.
pub const CHUNK_CTX_INITIAL_RWC_TAG: u64 = 1;

/// The tag the chunk-context table uses for the counter value a chunk
/// ends before.
pub const CHUNK_CTX_END_RWC_TAG: u64 = 2;

/// The step-counter gate on one usable row: the countdown, its inverse and
/// the start selector are reduced field values; the zero-test identities
/// `c * (1 - c*i) = 0` and `i * (1 - c*i) = 0` hold with the start
/// selector equal to the zero indicator `1 - c*i`; the boundary indicators
/// imply a start row, where the chunk-internal counter begins at one; and
/// off start rows the countdown decreases by exactly one per row.
pub open spec fn spec_row_counter_ok(g: Grid, r: int) -> bool {
    let c = g.countdown@[r];
    let i = g.countdown_inv@[r];
    let q = g.q_step@[r];
    let z = spec_fp_sub(1, spec_fp_mul(c, i));
    &&& c < crate::field::FIELD_MODULUS
    &&& i < crate::field::FIELD_MODULUS
    &&& q < crate::field::FIELD_MODULUS
    &&& spec_fp_mul(c, z) == 0
    &&& spec_fp_mul(i, z) == 0
    &&& q == z
    &&& (g.step_first@[r] ==> q == 1 && g.state@[r] is Some
        && g.state@[r]->0.inner_rw_counter == 1)
    &&& (g.step_last@[r] ==> q == 1)
    &&& (q != 1 ==> r + 1 < g.spec_len() && c == spec_fp_add(spec_fp_of(g.countdown@[r + 1]), 1))
}

pub open spec fn spec_step_counter_ok(g: Grid) -> bool {
    forall|r: int| 0 <= r < g.spec_len() && g.usable@[r] ==> spec_row_counter_ok(g, r)
}

/// The registered height of a block: the countdown one row after a start
/// row carries the block's height less one.
pub open spec fn spec_row_height_ok(g: Grid, r: int) -> bool {
    (g.q_step@[r] == 1) ==> (g.state@[r] is Some && r + 1 < g.spec_len() && g.countdown@[r + 1]
        == (spec_needed_rows(g.state@[r]->0.kind) - 1) as u64)
}

pub open spec fn spec_heights_ok(g: Grid) -> bool {
    forall|r: int| 0 <= r < g.spec_len() && g.usable@[r] ==> spec_row_height_ok(g, r)
}

/// The state machine on one block-start row that is not the grid's last
/// block: the following block starts where this block's height says, and
/// its kind stands in the declared allowed set.
pub open spec fn spec_row_transition_ok(invalid_tx: bool, g: Grid, r: int) -> bool {
    (g.q_step@[r] == 1 && !g.step_last@[r]) ==> (g.state@[r] is Some && {
        let k = g.state@[r]->0.kind;
        let h = spec_needed_rows(k) as int;
        &&& r + h < g.spec_len()
        &&& g.state@[r + h] is Some
        &&& spec_transition_allowed(k, g.state@[r + h]->0.kind, invalid_tx)
    })
}

pub open spec fn spec_transitions_ok(invalid_tx: bool, g: Grid) -> bool {
    forall|r: int| 0 <= r < g.spec_len() && g.usable@[r] ==> spec_row_transition_ok(invalid_tx, g, r)
}

/// The four mutually exclusive boundary rules, gated by the chunk's
/// first/last flags and the grid's first/last-block indicators.
pub open spec fn spec_row_boundary_ok(
    features: FeatureConfig,
    first_chunk: bool,
    last_chunk: bool,
    g: Grid,
    r: int,
) -> bool {
    &&& (g.step_first@[r] ==> g.state@[r] is Some && (if first_chunk {
        spec_in_first_step_whitelist(g.state@[r]->0.kind, features)
    } else {
        g.state@[r]->0.kind == ExecutionState::BeginChunk
    }))
    &&& (g.step_last@[r] ==> g.state@[r] is Some && (if last_chunk {
        g.state@[r]->0.kind == ExecutionState::EndBlock
    } else {
        g.state@[r]->0.kind == ExecutionState::EndChunk
    }))
}

pub open spec fn spec_boundaries_ok(
    features: FeatureConfig,
    first_chunk: bool,
    last_chunk: bool,
    g: Grid,
) -> bool {
    forall|r: int|
        0 <= r < g.spec_len() && g.usable@[r] ==> spec_row_boundary_ok(
            features,
            first_chunk,
            last_chunk,
            g,
            r,
        )
}

/// The two rows the chunk-context table contributes: the declared counter
/// range of the chunk, each with its tag.
pub open spec fn spec_chunk_ctx_rows(chunk: Chunk) -> (Seq<u64>, Seq<u64>) {
    (
        seq![CHUNK_CTX_INITIAL_RWC_TAG, spec_fp_of(chunk.chunk_context.initial_rwc)],
        seq![CHUNK_CTX_END_RWC_TAG, spec_fp_of(chunk.chunk_context.end_rwc)],
    )
}

/// Membership of an encoded pair in the chunk-context table.
pub open spec fn spec_in_chunk_ctx_table(chunk: Chunk, value: u64, challenge: u64) -> bool {
    ||| value == spec_rlc(spec_chunk_ctx_rows(chunk).0, challenge)
    ||| value == spec_rlc(spec_chunk_ctx_rows(chunk).1, challenge)
}

/// The chunk-boundary counter stitching: the first block's counter must
/// equal the chunk's declared starting counter, and the last block's
/// counter plus its intra-block offset — the events its own lookups
/// perform — its declared end, both through membership in the
/// chunk-context table under the shared challenge.
pub open spec fn spec_row_chunk_ctx_ok(
    features: FeatureConfig,
    chunk: Chunk,
    g: Grid,
    challenge: u64,
    r: int,
) -> bool {
    &&& ((g.step_first@[r] && g.state@[r] is Some && spec_in_first_step_whitelist(
        g.state@[r]->0.kind,
        features,
    )) ==> spec_in_chunk_ctx_table(
        chunk,
        spec_rlc(seq![CHUNK_CTX_INITIAL_RWC_TAG, g.state@[r]->0.rw_counter], challenge),
        challenge,
    ))
    &&& ((g.step_last@[r] && g.state@[r] is Some && spec_in_last_step_whitelist(
        g.state@[r]->0.kind,
    )) ==> spec_in_chunk_ctx_table(
        chunk,
        spec_rlc(
            seq![
                CHUNK_CTX_END_RWC_TAG,
                spec_fp_add(
                    spec_fp_of(g.state@[r]->0.rw_counter),
                    spec_fp_of(spec_rw_counter_offset(g.state@[r]->0.kind)),
                ),
            ],
            challenge,
        ),
        challenge,
    ))
}

pub open spec fn spec_chunk_ctx_ok(
    features: FeatureConfig,
    chunk: Chunk,
    g: Grid,
    challenge: u64,
) -> bool {
    forall|r: int|
        0 <= r < g.spec_len() && g.usable@[r] ==> spec_row_chunk_ctx_ok(
            features,
            chunk,
            g,
            challenge,
            r,
        )
}

/// Everything the constraint system demands of a filled grid.
pub open spec fn spec_constraints_ok(
    features: FeatureConfig,
    chunk: Chunk,
    g: Grid,
    challenge: u64,
) -> bool {
    &&& spec_step_counter_ok(g)
    &&& spec_heights_ok(g)
    &&& spec_transitions_ok(features.invalid_tx, g)
    &&& spec_boundaries_ok(
        features,
        chunk.chunk_context.spec_is_first_chunk(),
        chunk.chunk_context.spec_is_last_chunk(),
        g,
    )
    &&& spec_chunk_ctx_ok(features, chunk, g, challenge)
}

fn row_counter_check(g: &Grid, r: usize) -> (ok: bool)
    requires
        g.spec_wf(),
        r < g.spec_len(),
    ensures
        ok == spec_row_counter_ok(*g, r as int),
{
    let c = g.countdown[r];
    let i = g.countdown_inv[r];
    let q = g.q_step[r];
    if !(c < crate::field::FIELD_MODULUS) || !(i < crate::field::FIELD_MODULUS) || !(q
        < crate::field::FIELD_MODULUS) {
        return false;
    }
    let z = fp_sub(1, fp_mul(c, i));
    if fp_mul(c, z) != 0 {
        return false;
    }
    if fp_mul(i, z) != 0 {
        return false;
    }
    if q != z {
        return false;
    }
    if g.step_first[r] {
        let state_ok = match &g.state[r] {
            Some(s) => s.inner_rw_counter == 1,
            None => false,
        };
        if !(q == 1 && state_ok) {
            return false;
        }
    }
    if g.step_last[r] && q != 1 {
        return false;
    }
    if q != 1 {
        let n = g.q_step.len();
        if r >= n - 1 {
            return false;
        }
        if c != fp_add(fp_of(g.countdown[r + 1]), 1) {
            return false;
        }
    }
    true
}

fn row_height_check(g: &Grid, r: usize) -> (ok: bool)
    requires
        g.spec_wf(),
        r < g.spec_len(),
    ensures
        ok == spec_row_height_ok(*g, r as int),
{
    if g.q_step[r] != 1 {
        return true;
    }
    let k = match &g.state[r] {
        Some(s) => s.kind,
        None => {
            return false;
        },
    };
    let n = g.countdown.len();
    if r >= n - 1 {
        return false;
    }
    let h = needed_rows(k);
    g.countdown[r + 1] == (h - 1) as u64
}

fn row_transition_check(invalid_tx: bool, g: &Grid, r: usize) -> (ok: bool)
    requires
        g.spec_wf(),
        r < g.spec_len(),
    ensures
        ok == spec_row_transition_ok(invalid_tx, *g, r as int),
{
    if !(g.q_step[r] == 1 && !g.step_last[r]) {
        return true;
    }
    let k = match &g.state[r] {
        Some(s) => s.kind,
        None => {
            return false;
        },
    };
    let h = needed_rows(k);
    let n = g.state.len();
    if n - r <= h {
        return false;
    }
    let k2 = match &g.state[r + h] {
        Some(s) => s.kind,
        None => {
            return false;
        },
    };
    // summing the boolean indicators of every forbidden destination: the
    // gate fires exactly when the sum stays zero
    transition_gate_sum(k, k2, invalid_tx) == 0
}

fn row_boundary_check(
    features: FeatureConfig,
    first_chunk: bool,
    last_chunk: bool,
    g: &Grid,
    r: usize,
) -> (ok: bool)
    requires
        g.spec_wf(),
        r < g.spec_len(),
    ensures
        ok == spec_row_boundary_ok(features, first_chunk, last_chunk, *g, r as int),
{
    if g.step_first[r] {
        match &g.state[r] {
            Some(s) => {
                let allowed = if first_chunk {
                    in_first_step_whitelist(s.kind, features)
                } else {
                    s.kind == ExecutionState::BeginChunk
                };
                if !allowed {
                    return false;
                }
            },
            None => {
                return false;
            },
        }
    }
    if g.step_last[r] {
        match &g.state[r] {
            Some(s) => {
                let allowed = if last_chunk {
                    s.kind == ExecutionState::EndBlock
                } else {
                    s.kind == ExecutionState::EndChunk
                };
                if !allowed {
                    return false;
                }
            },
            None => {
                return false;
            },
        }
    }
    true
}

fn pair_rlc(tag: u64, value: u64, challenge: u64) -> (r: u64)
    requires
        is_fp(challenge),
    ensures
        r == spec_rlc(seq![tag, value], challenge),
        is_fp(r),
{
    let mut row: Vec<u64> = Vec::new();
    row.push(tag);
    row.push(value);
    proof {
        assert(row@ =~= seq![tag, value]);
    }
    rlc(&row, challenge)
}

fn in_chunk_ctx_table(chunk: &Chunk, value: u64, challenge: u64) -> (r: bool)
    requires
        is_fp(challenge),
    ensures
        r == spec_in_chunk_ctx_table(*chunk, value, challenge),
{
    let initial = pair_rlc(
        CHUNK_CTX_INITIAL_RWC_TAG,
        fp_of(chunk.chunk_context.initial_rwc),
        challenge,
    );
    let end = pair_rlc(CHUNK_CTX_END_RWC_TAG, fp_of(chunk.chunk_context.end_rwc), challenge);
    value == initial || value == end
}

fn row_chunk_ctx_check(
    features: FeatureConfig,
    chunk: &Chunk,
    g: &Grid,
    challenge: u64,
    r: usize,
) -> (ok: bool)
    requires
        g.spec_wf(),
        r < g.spec_len(),
        is_fp(challenge),
    ensures
        ok == spec_row_chunk_ctx_ok(features, *chunk, *g, challenge, r as int),
{
    if g.step_first[r] {
        match &g.state[r] {
            Some(s) => {
                if in_first_step_whitelist(s.kind, features) {
                    let v = pair_rlc(CHUNK_CTX_INITIAL_RWC_TAG, s.rw_counter, challenge);
                    if !in_chunk_ctx_table(chunk, v, challenge) {
                        return false;
                    }
                }
            },
            None => (),
        }
    }
    if g.step_last[r] {
        match &g.state[r] {
            Some(s) => {
                if in_last_step_whitelist(s.kind) {
                    let counter = fp_add(fp_of(s.rw_counter), fp_of(rw_counter_offset(s.kind)));
                    let v = pair_rlc(CHUNK_CTX_END_RWC_TAG, counter, challenge);
                    if !in_chunk_ctx_table(chunk, v, challenge) {
                        return false;
                    }
                }
            },
            None => (),
        }
    }
    true
}

/// Evaluates the whole constraint system over a filled grid: accepting
/// means every gate of the configured shape is satisfied on every usable
/// row; rejecting means some gate fails.
pub fn check_constraints(
    features: FeatureConfig,
    chunk: &Chunk,
    g: &Grid,
    challenge: u64,
) -> (ok: bool)
    requires
        g.spec_wf(),
        is_fp(challenge),
    ensures
        ok == spec_constraints_ok(features, *chunk, *g, challenge),
{
    let first_chunk = chunk.chunk_context.is_first_chunk();
    let last_chunk = chunk.chunk_context.is_last_chunk();
    let n = g.len();
    let mut r: usize = 0;
    while r < n
        invariant
            g.spec_wf(),
            is_fp(challenge),
            n == g.spec_len(),
            r <= n,
            first_chunk == chunk.chunk_context.spec_is_first_chunk(),
            last_chunk == chunk.chunk_context.spec_is_last_chunk(),
            forall|j: int| 0 <= j < r && g.usable@[j] ==> spec_row_counter_ok(*g, j),
            forall|j: int| 0 <= j < r && g.usable@[j] ==> spec_row_height_ok(*g, j),
            forall|j: int|
                0 <= j < r && g.usable@[j] ==> spec_row_transition_ok(features.invalid_tx, *g, j),
            forall|j: int|
                0 <= j < r && g.usable@[j] ==> spec_row_boundary_ok(
                    features,
                    chunk.chunk_context.spec_is_first_chunk(),
                    chunk.chunk_context.spec_is_last_chunk(),
                    *g,
                    j,
                ),
            forall|j: int|
                0 <= j < r && g.usable@[j] ==> spec_row_chunk_ctx_ok(
                    features,
                    *chunk,
                    *g,
                    challenge,
                    j,
                ),
        decreases n - r,
    {
        if g.usable[r] {
            if !row_counter_check(g, r) {
                return false;
            }
            if !row_height_check(g, r) {
                return false;
            }
            if !row_transition_check(features.invalid_tx, g, r) {
                return false;
            }
            if !row_boundary_check(features, first_chunk, last_chunk, g, r) {
                return false;
            }
            if !row_chunk_ctx_check(features, chunk, g, challenge, r) {
                return false;
            }
        }
        r = r + 1;
    }
    true
}

/// Acceptance of the constraint system pins the state machine: on every
/// block-start row below the grid's last block, the following block's kind
/// stands in the declared allowed set of the current kind.
pub proof fn lemma_accepted_transitions_allowed(
    features: FeatureConfig,
    chunk: Chunk,
    g: Grid,
    challenge: u64,
)
    requires
        spec_constraints_ok(features, chunk, g, challenge),
    ensures
        forall|r: int|
            0 <= r < g.spec_len() && g.usable@[r] && g.q_step@[r] == 1 && !g.step_last@[r] ==> {
                let k = (#[trigger] g.state@[r])->0.kind;
                spec_transition_allowed(
                    k,
                    g.state@[r + spec_needed_rows(k)]->0.kind,
                    features.invalid_tx,
                )
            },
{
    assert forall|r: int|
        0 <= r < g.spec_len() && g.usable@[r] && g.q_step@[r] == 1 && !g.step_last@[r] implies {
        let k = (#[trigger] g.state@[r])->0.kind;
        spec_transition_allowed(k, g.state@[r + spec_needed_rows(k)]->0.kind, features.invalid_tx)
    } by {
        assert(spec_row_transition_ok(features.invalid_tx, g, r));
    }
}

/// One diagnostic mismatch of the read/write cross-check. Findings are
/// reported and never alter the produced grid or abort assignment; they
/// exist to catch gadget-authoring defects before proof time.
#[derive(Clone, Copy, Debug, PartialEq, Eq, Structural)]
pub enum RwLookupFinding {
    /// More than one copy-run value in a single step is unsupported; the
    /// step's check stops.
    MultipleCopyEvents,
    /// An assigned lookup value matches no event the step recorded.
    ValueNotInStep { position: usize },
    /// The number of recorded events disagrees with the assigned lookups
    /// plus the copy run's sub-events, less the copy stand-ins.
    CountMismatch,
    /// More reversion-tagged lookups were assigned than the step declares
    /// reversible writes.
    ExcessReversions { position: usize },
    /// A sub-event of the copy run is not a memory operation.
    NonMemoryCopySubEvent { position: usize },
    /// The assigned value disagrees with the event recorded at its
    /// position.
    IncorrectWitness { position: usize },
    /// A computed event position falls outside the step's slice of the
    /// log.
    PositionOutOfRange { position: usize },
}

/// A step with exactly one recorded event and exactly one assigned plain
/// lookup of a value that is not zero: the simplest shape the cross-check
/// decides.
pub open spec fn spec_single_lookup_case(
    assigned: Seq<(StoredKind, u64)>,
    step: ExecStep,
    block: Block,
    challenge: u64,
) -> bool {
    &&& challenge != 0
    &&& assigned.len() == 1
    &&& assigned[0].0 == (StoredKind::RwLookup { with_reversion: false, ordinal: 0 })
    &&& assigned[0].1 != 0
    &&& step.rw_indices@.len() == 1
    &&& step.rw_indices@[0] < block.rws@.len()
    &&& step.copy_rw_counter_delta == 0
}

fn contains_pair(values: &Vec<(StoredKind, u64)>, kind: StoredKind, value: u64) -> (r: bool)
    ensures
        r == exists|i: int| 0 <= i < values@.len() && values@[i] == (kind, value),
{
    let mut i: usize = 0;
    while i < values.len()
        invariant
            i <= values@.len(),
            forall|j: int| 0 <= j < i ==> values@[j] != (kind, value),
        decreases values@.len() - i,
    {
        let (k, v) = values[i];
        if k == kind && v == value {
            return true;
        }
        i = i + 1;
    }
    false
}

fn contains_value(values: &Vec<u64>, value: u64) -> (r: bool)
    ensures
        r == exists|i: int| 0 <= i < values@.len() && values@[i] == value,
{
    let mut i: usize = 0;
    while i < values.len()
        invariant
            i <= values@.len(),
            forall|j: int| 0 <= j < i ==> values@[j] != value,
        decreases values@.len() - i,
    {
        if values[i] == value {
            return true;
        }
        i = i + 1;
    }
    false
}

/// The debug-only cross-check of one assigned step: collects every stored
/// read/write and copy value, deduplicated, and compares the collection
/// against the events the trace recorded for the step — accounting for
/// reversible writes standing at the end of the log though assigned
/// inline, and for the one copy value standing in for a contiguous run of
/// memory sub-events. A step that records no events and assigned none is
/// clean by construction.
pub fn check_rw_lookup(
    assigned_stored_expressions: &Vec<(StoredKind, u64)>,
    step: &ExecStep,
    block: &Block,
    challenge: u64,
) -> (findings: Vec<RwLookupFinding>)
    requires
        is_fp(challenge),
    ensures
        challenge == 0 ==> findings@.len() == 0,
        (assigned_stored_expressions@.len() == 0 && step.rw_indices@.len() == 0
            && step.copy_rw_counter_delta == 0) ==> findings@.len() == 0,
        spec_single_lookup_case(assigned_stored_expressions@, *step, *block, challenge) ==> ((
        findings@.len() == 0) == (assigned_stored_expressions@[0].1 == spec_rlc(
            block.rws@[step.rw_indices@[0] as int].spec_table_assignment(),
            challenge,
        ))),
        (challenge != 0 && assigned_stored_expressions@.len() == 0 && step.rw_indices@.len() > 0
            && step.copy_rw_counter_delta == 0) ==> findings@.len() > 0,
{
    let mut findings: Vec<RwLookupFinding> = Vec::new();
    if challenge == 0 {
        // the challenge is not ready; nothing can be compared yet
        return findings;
    }
    let ghost single = spec_single_lookup_case(assigned_stored_expressions@, *step, *block, challenge);
    let ghost target = spec_rlc(
        block.rws@[step.rw_indices@[0] as int].spec_table_assignment(),
        challenge,
    );

    // collect the assigned read/write and copy values, deduplicated
    let mut copy_lookup_count: usize = 0;
    let mut assigned_rw_values: Vec<(StoredKind, u64)> = Vec::new();
    let mut i: usize = 0;
    while i < assigned_stored_expressions.len()
        invariant
            i <= assigned_stored_expressions@.len(),
            assigned_rw_values@.len() <= i,
            copy_lookup_count <= i,
            findings@.len() == 0,
            single == spec_single_lookup_case(
                assigned_stored_expressions@,
                *step,
                *block,
                challenge,
            ),
            target == spec_rlc(
                block.rws@[step.rw_indices@[0] as int].spec_table_assignment(),
                challenge,
            ),
            single ==> copy_lookup_count == 0,
            single ==> assigned_rw_values@.len() == (if i >= 1 {
                1int
            } else {
                0int
            }),
            single && i >= 1 ==> assigned_rw_values@[0] == assigned_stored_expressions@[0],
        decreases assigned_stored_expressions@.len() - i,
    {
        let (kind, v) = assigned_stored_expressions[i];
        let relevant = match kind {
            StoredKind::RwLookup { .. } => true,
            StoredKind::CopyLookup => true,
            StoredKind::Intermediate => false,
        };
        if relevant && v != 0 && !contains_pair(&assigned_rw_values, kind, v) {
            assigned_rw_values.push((kind, v));
            match kind {
                StoredKind::CopyLookup => {
                    copy_lookup_count = copy_lookup_count + 1;
                },
                _ => (),
            }
        }
        i = i + 1;
    }
    if copy_lookup_count > 1 {
        findings.push(RwLookupFinding::MultipleCopyEvents);
        return findings;
    }

    // the encodings of every event the step recorded
    let rw_len = step.rw_indices.len();
    let mut rlc_assignments: Vec<u64> = Vec::new();
    let mut idx: usize = 0;
    while idx < rw_len
        invariant
            rw_len == step.rw_indices@.len(),
            idx <= rw_len,
            challenge != 0,
            assigned_stored_expressions@.len() == 0 ==> assigned_rw_values@.len() == 0,
            step.rw_indices@.len() == 0 && step.copy_rw_counter_delta == 0
                && assigned_stored_expressions@.len() == 0 ==> findings@.len() == 0,
            is_fp(challenge),
            single == spec_single_lookup_case(
                assigned_stored_expressions@,
                *step,
                *block,
                challenge,
            ),
            target == spec_rlc(
                block.rws@[step.rw_indices@[0] as int].spec_table_assignment(),
                challenge,
            ),
            single ==> copy_lookup_count == 0,
            single ==> assigned_rw_values@.len() == 1 && assigned_rw_values@[0]
                == assigned_stored_expressions@[0],
            single ==> findings@.len() == 0,
            single ==> rlc_assignments@.len() == idx,
            single && idx >= 1 ==> rlc_assignments@[0] == target,
        decreases rw_len - idx,
    {
        let ri = step.rw_indices[idx];
        if ri < block.rws.len() {
            rlc_assignments.push(block.rws[ri].rlc_value(challenge));
        } else {
            findings.push(RwLookupFinding::PositionOutOfRange { position: idx });
        }
        idx = idx + 1;
    }

    // every assigned value must match some recorded event
    let mut j: usize = 0;
    while j < assigned_rw_values.len()
        invariant
            j <= assigned_rw_values@.len(),
            challenge != 0,
            assigned_stored_expressions@.len() == 0 ==> assigned_rw_values@.len() == 0,
            step.rw_indices@.len() == 0 && step.copy_rw_counter_delta == 0
                && assigned_stored_expressions@.len() == 0 ==> findings@.len() == 0,
            single == spec_single_lookup_case(
                assigned_stored_expressions@,
                *step,
                *block,
                challenge,
            ),
            target == spec_rlc(
                block.rws@[step.rw_indices@[0] as int].spec_table_assignment(),
                challenge,
            ),
            single ==> copy_lookup_count == 0,
            single ==> assigned_rw_values@.len() == 1 && assigned_rw_values@[0]
                == assigned_stored_expressions@[0],
            single ==> rlc_assignments@.len() == 1 && rlc_assignments@[0] == target,
            single ==> findings@.len() == (if j >= 1 && assigned_stored_expressions@[0].1
                != target {
                1int
            } else {
                0int
            }),
        decreases assigned_rw_values@.len() - j,
    {
        let (kind, value) = assigned_rw_values[j];
        let is_copy = match kind {
            StoredKind::CopyLookup => true,
            _ => false,
        };
        if !is_copy && !contains_value(&rlc_assignments, value) {
            findings.push(RwLookupFinding::ValueNotInStep { position: j });
        }
        j = j + 1;
    }

    // a copy value with no copy run stands for nothing
    let mut copy_count = copy_lookup_count;
    if step.copy_rw_counter_delta == 0 && copy_count > 0 {
        copy_count = 0;
    }

    // recorded events = assigned lookups + copy sub-events - copy stand-ins
    if (rw_len as u128) + (copy_count as u128) != (assigned_rw_values.len() as u128) + (
    step.copy_rw_counter_delta as u128) {
        findings.push(RwLookupFinding::CountMismatch);
    }

    // compare each assigned value against the event at its position
    let mut rev_count: usize = 0;
    let mut offset_adj: usize = 0;
    let mut copy_processed: bool = false;
    let mut pos_i: usize = 0;
    while pos_i < assigned_rw_values.len()
        invariant
            pos_i <= assigned_rw_values@.len(),
            rw_len == step.rw_indices@.len(),
            rev_count <= pos_i,
            challenge != 0,
            assigned_stored_expressions@.len() == 0 ==> assigned_rw_values@.len() == 0,
            step.rw_indices@.len() == 0 && step.copy_rw_counter_delta == 0
                && assigned_stored_expressions@.len() == 0 ==> findings@.len() == 0,
            is_fp(challenge),
            single == spec_single_lookup_case(
                assigned_stored_expressions@,
                *step,
                *block,
                challenge,
            ),
            target == spec_rlc(
                block.rws@[step.rw_indices@[0] as int].spec_table_assignment(),
                challenge,
            ),
            single ==> assigned_rw_values@.len() == 1 && assigned_rw_values@[0]
                == assigned_stored_expressions@[0],
            single ==> rev_count == 0 && offset_adj == 0 && !copy_processed,
            single && assigned_stored_expressions@[0].1 == target ==> findings@.len() == 0,
            single && assigned_stored_expressions@[0].1 != target ==> findings@.len() == (if pos_i
                >= 1 {
                2int
            } else {
                1int
            }),
            (challenge != 0 && assigned_stored_expressions@.len() == 0
                && step.rw_indices@.len() > 0 && step.copy_rw_counter_delta == 0)
                ==> findings@.len() > 0,
        decreases assigned_rw_values@.len() - pos_i,
    {
        let (kind, value) = assigned_rw_values[pos_i];
        let is_rev = match kind {
            StoredKind::RwLookup { with_reversion, .. } => with_reversion,
            _ => false,
        };
        if is_rev {
            rev_count = rev_count + 1;
            if rev_count > step.reversible_write_counter_delta {
                findings.push(RwLookupFinding::ExcessReversions { position: pos_i });
                return findings;
            }
        }
        // reversible writes stand at the end of the log though assigned
        // inline; forward positions skip past what a copy run consumed
        let pos_opt: Option<usize> = if is_rev {
            if rev_count <= rw_len {
                Some(rw_len - rev_count)
            } else {
                None
            }
        } else {
            let sub = rev_count + (if copy_processed {
                1
            } else {
                0
            });
            if pos_i <= usize::MAX - offset_adj && pos_i + offset_adj >= sub {
                Some(pos_i + offset_adj - sub)
            } else {
                None
            }
        };
        let is_copy = match kind {
            StoredKind::CopyLookup => true,
            _ => false,
        };
        if is_copy {
            // the following copy sub-events must be memory operations
            let delta = step.copy_rw_counter_delta;
            match pos_opt {
                Some(p) => {
                    if (p as u128) + (delta as u128) <= rw_len as u128 {
                        let d = delta as usize;
                        let mut s: usize = 0;
                        while s < d
                            invariant
                                s <= d,
                                p + d <= rw_len,
                                rw_len == step.rw_indices@.len(),
                            decreases d - s,
                        {
                            let ri = step.rw_indices[p + s];
                            if ri < block.rws.len() {
                                let is_memory = match block.rws[ri].tag {
                                    crate::witness::RwTarget::Memory => true,
                                    _ => false,
                                };
                                if !is_memory {
                                    findings.push(
                                        RwLookupFinding::NonMemoryCopySubEvent { position: p + s },
                                    );
                                }
                            } else {
                                findings.push(
                                    RwLookupFinding::PositionOutOfRange { position: p + s },
                                );
                            }
                            s = s + 1;
                        }
                        offset_adj = d;
                    } else {
                        findings.push(RwLookupFinding::PositionOutOfRange { position: pos_i });
                    }
                },
                None => {
                    findings.push(RwLookupFinding::PositionOutOfRange { position: pos_i });
                },
            }
            copy_processed = true;
        } else {
            match pos_opt {
                Some(p) => {
                    if p < rw_len {
                        let ri = step.rw_indices[p];
                        if ri < block.rws.len() {
                            if block.rws[ri].rlc_value(challenge) != value {
                                findings.push(
                                    RwLookupFinding::IncorrectWitness { position: pos_i },
                                );
                            }
                        } else {
                            findings.push(RwLookupFinding::PositionOutOfRange { position: pos_i });
                        }
                    } else {
                        findings.push(RwLookupFinding::PositionOutOfRange { position: pos_i });
                    }
                },
                None => {
                    findings.push(RwLookupFinding::PositionOutOfRange { position: pos_i });
                },
            }
        }
        pos_i = pos_i + 1;
    }
    findings
}

/// The zero-test identities hold on every row of an assigned run.
#[verifier::rlimit(100)]
proof fn lemma_blocks_counter_identities(g: Grid, start: int, ks: Seq<ExecutionState>)
    requires
        g.spec_wf(),
        spec_blocks(g, start, ks),
        0 <= start,
        start + spec_rows_of(ks) < g.spec_len(),
    ensures
        forall|r: int|
            start <= r < start + spec_rows_of(ks) ==> {
                let c = (#[trigger] g.countdown@[r]);
                let i = g.countdown_inv@[r];
                let q = g.q_step@[r];
                let z = spec_fp_sub(1, spec_fp_mul(c, i));
                &&& c < crate::field::FIELD_MODULUS
                &&& i < crate::field::FIELD_MODULUS
                &&& q < crate::field::FIELD_MODULUS
                &&& spec_fp_mul(c, z) == 0
                &&& spec_fp_mul(i, z) == 0
                &&& q == z
            },
    decreases ks.len(),
{
    if ks.len() > 0 {
        let k0 = ks[0];
        let h = spec_needed_rows(k0) as int;
        let rest = ks.subrange(1, ks.len() as int);
        lemma_rows_of_nonneg(rest);
        assert(spec_rows_of(ks) == h + spec_rows_of(rest));
        assert(spec_block_assigned(g, start, k0));
        lemma_blocks_counter_identities(g, start + h, rest);
        assert forall|r: int|
            start <= r < start + h implies {
            let c = (#[trigger] g.countdown@[r]);
            let i = g.countdown_inv@[r];
            let q = g.q_step@[r];
            let z = spec_fp_sub(1, spec_fp_mul(c, i));
            &&& c < crate::field::FIELD_MODULUS
            &&& i < crate::field::FIELD_MODULUS
            &&& q < crate::field::FIELD_MODULUS
            &&& spec_fp_mul(c, z) == 0
            &&& spec_fp_mul(i, z) == 0
            &&& q == z
        } by {
            let j = r - start;
            if j == 0 {
                assert(g.countdown@[start + 0int] == 0);
                assert(g.countdown_inv@[start + 0int] == crate::field::spec_inv_countdown(
                    g.countdown@[start + 0int],
                ));
                assert(g.q_step@[start + 0int] == 1);
                assert(spec_fp_mul(0, 0) == 0) by (nonlinear_arith);
                assert(spec_fp_sub(1, 0) == 1) by (nonlinear_arith);
            } else {
                assert(g.q_step@[start + j] == 0 && g.countdown@[start + j] == (h - j) as u64);
                assert(spec_inv_pair_ok(g.countdown@[start + j], g.countdown_inv@[start + j]));
                let c = g.countdown@[start + j];
                let i = g.countdown_inv@[start + j];
                assert(c != 0);
                assert(spec_fp_mul(c, i) == 1);
                assert(spec_fp_sub(1, 1) == 0) by (nonlinear_arith);
                assert(spec_fp_mul(c, 0) == 0) by (nonlinear_arith);
                assert(spec_fp_mul(i, 0) == 0) by (nonlinear_arith);
                assert(i < crate::field::FIELD_MODULUS) by {
                    if i >= crate::field::FIELD_MODULUS {
                        assert(spec_inv_pair_ok(c, i));
                    }
                }
            }
        }
    }
}

/// Off the start rows the countdown decreases by exactly one, and one row
/// after every start row it carries the block's registered height less
/// one.
#[verifier::rlimit(100)]
proof fn lemma_blocks_counter_decrement(g: Grid, start: int, ks: Seq<ExecutionState>)
    requires
        g.spec_wf(),
        spec_blocks(g, start, ks),
        0 <= start,
        start + spec_rows_of(ks) < g.spec_len(),
        g.countdown@[start + spec_rows_of(ks)] == 0,
    ensures
        forall|r: int|
            start <= r < start + spec_rows_of(ks) && (#[trigger] g.q_step@[r]) != 1 ==> (r + 1
                < g.spec_len() && g.countdown@[r] == spec_fp_add(
                spec_fp_of(g.countdown@[r + 1]),
                1,
            )),
        forall|r: int|
            start <= r < start + spec_rows_of(ks) && (#[trigger] g.q_step@[r]) == 1 ==> (
            g.state@[r] is Some && r + 1 < g.spec_len() && g.countdown@[r + 1] == (spec_needed_rows(
                g.state@[r]->0.kind,
            ) - 1) as u64),
    decreases ks.len(),
{
    if ks.len() > 0 {
        let k0 = ks[0];
        let h = spec_needed_rows(k0) as int;
        let rest = ks.subrange(1, ks.len() as int);
        lemma_rows_of_nonneg(rest);
        assert(spec_rows_of(ks) == h + spec_rows_of(rest));
        assert(spec_block_assigned(g, start, k0));
        lemma_blocks_counter_decrement(g, start + h, rest);
        // the countdown on the row after this block is zero: the next
        // block's start row, or the given trailing row
        assert(g.countdown@[start + h] == 0) by {
            if rest.len() > 0 {
                assert(spec_blocks(g, start + h, rest));
                assert(spec_block_assigned(g, start + h, rest[0]));
                assert(g.countdown@[(start + h) + 0int] == 0);
            }
        }
        assert forall|r: int|
            start <= r < start + h && (#[trigger] g.q_step@[r]) != 1 implies (r + 1 < g.spec_len()
            && g.countdown@[r] == spec_fp_add(spec_fp_of(g.countdown@[r + 1]), 1)) by {
            let j = r - start;
            assert(g.q_step@[start + 0int] == 1);
            assert(j >= 1);
            assert(g.countdown@[start + j] == (h - j) as u64);
            if j < h - 1 {
                assert(g.q_step@[start + (j + 1)] == 0);
                assert(g.countdown@[start + (j + 1)] == (h - j - 1) as u64);
            } else {
                assert(r + 1 == start + h);
            }
        }
        assert forall|r: int|
            start <= r < start + h && (#[trigger] g.q_step@[r]) == 1 implies (g.state@[r] is Some
            && r + 1 < g.spec_len() && g.countdown@[r + 1] == (spec_needed_rows(
            g.state@[r]->0.kind,
        ) - 1) as u64) by {
            let j = r - start;
            if j >= 1 {
                assert(g.q_step@[start + j] == 0);
            }
            assert(r == start);
            if h >= 2 {
                assert(g.q_step@[start + 1int] == 0);
                assert(g.countdown@[start + 1int] == (h - 1) as u64);
            } else {
                assert(r + 1 == start + h);
            }
        }
    }
}

/// Every grid an assignment produced satisfies the step-counter gate and
/// the registered block heights by construction, provided the trace began
/// at the chunk's declared counter (so the internal counter opens at one)
/// and the closing kind occupies a single row.
pub proof fn lemma_assignment_passes_counter_and_height_gates(
    block: crate::witness::Block,
    chunk: Chunk,
    challenge: u64,
    g: Grid,
    offset: int,
)
    requires
        g.spec_wf(),
        spec_assigned_grid_ok(block, chunk, challenge, g, offset),
        g.state@[0]->0.inner_rw_counter == 1,
        spec_needed_rows(spec_end_kind(block, chunk)) == 1,
    ensures
        spec_step_counter_ok(g),
        spec_heights_ok(g),
{
    let ks = choose|ks: Seq<ExecutionState>|
        #[trigger] spec_blocks(g, 0, ks) && spec_rows_of(ks) == offset && ks.len() >= 1;
    lemma_blocks_counter_identities(g, 0, ks);
    lemma_blocks_counter_decrement(g, 0, ks);
    assert forall|r: int| 0 <= r < g.spec_len() && g.usable@[r] implies spec_row_counter_ok(
        g,
        r,
    ) by {
        assert(r < offset);
        if g.step_first@[r] {
            assert(r == 0) by {
                if r >= 1 {
                    assert(!g.step_first@[r]);
                }
            }
        }
        if g.step_last@[r] {
            assert(r == offset - 1) by {
                if r != offset - 1 {
                    assert(!g.step_last@[r]);
                }
            }
            assert(g.q_step@[offset - 1] == 1);
        }
    }
    assert forall|r: int| 0 <= r < g.spec_len() && g.usable@[r] implies spec_row_height_ok(
        g,
        r,
    ) by {
        assert(r < offset);
    }
}

} // verus!
