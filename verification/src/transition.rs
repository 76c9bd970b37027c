//! The state machine over step kinds.
//!
//! A static, hand-declared table: the four invariant-bearing pseudo-kinds
//! restrict their successors, and five pseudo-kinds restrict their
//! predecessors; opcode kinds appear as a predecessor only through the
//! halting classification. The constraint encoding sums the boolean
//! indicators of every forbidden destination over the successor row's kind
//! selector; because each summand is individually boolean, a zero sum means
//! no forbidden transition fired, and that equivalence is proved here.

use vstd::prelude::*;

use crate::step::ExecutionState;

verus! {

/// Whether this kind restricts what may follow it.
pub open spec fn spec_restricts_successors(s: ExecutionState) -> bool {
    s == ExecutionState::EndTx || s == ExecutionState::EndChunk || s == ExecutionState::Padding
        || s == ExecutionState::EndBlock
}

/// The allowed successors of the four successor-restricting pseudo-kinds.
pub open spec fn spec_successor_allowed(s: ExecutionState, t: ExecutionState, invalid_tx: bool) -> bool
    recommends
        spec_restricts_successors(s),
{
    match s {
        ExecutionState::EndTx => t == ExecutionState::BeginTx || t == ExecutionState::EndBlock || t
            == ExecutionState::Padding || t == ExecutionState::EndChunk || (invalid_tx && t
            == ExecutionState::InvalidTx),
        ExecutionState::EndChunk => t == ExecutionState::EndChunk,
        ExecutionState::Padding => t == ExecutionState::Padding || t == ExecutionState::EndBlock
            || t == ExecutionState::EndChunk,
        ExecutionState::EndBlock => t == ExecutionState::EndBlock,
        _ => true,
    }
}

/// The allowed predecessors of the predecessor-restricting pseudo-kinds;
/// any kind may precede every other destination.
pub open spec fn spec_predecessor_allowed(s: ExecutionState, t: ExecutionState, invalid_tx: bool) -> bool {
    match t {
        ExecutionState::BeginTx => s == ExecutionState::EndTx || (invalid_tx && s
            == ExecutionState::InvalidTx),
        ExecutionState::EndTx => s.spec_halts() || s == ExecutionState::BeginTx,
        ExecutionState::EndBlock => s == ExecutionState::BeginChunk || s == ExecutionState::EndTx
            || s == ExecutionState::EndBlock || s == ExecutionState::Padding || (invalid_tx && s
            == ExecutionState::InvalidTx),
        ExecutionState::BeginChunk => s == ExecutionState::BeginChunk,
        ExecutionState::InvalidTx => !invalid_tx || s == ExecutionState::EndTx || s
            == ExecutionState::InvalidTx,
        _ => true,
    }
}

/// The declared predecessor/successor relation between step kinds.
pub open spec fn spec_transition_allowed(
    s: ExecutionState,
    t: ExecutionState,
    invalid_tx: bool,
) -> bool {
    &&& (spec_restricts_successors(s) ==> spec_successor_allowed(s, t, invalid_tx))
    &&& spec_predecessor_allowed(s, t, invalid_tx)
}

fn successor_violates(s: ExecutionState, t: ExecutionState, invalid_tx: bool) -> (r: bool)
    ensures
        r == (spec_restricts_successors(s) && !spec_successor_allowed(s, t, invalid_tx)),
{
    match s {
        ExecutionState::EndTx => !(t == ExecutionState::BeginTx || t == ExecutionState::EndBlock
            || t == ExecutionState::Padding || t == ExecutionState::EndChunk || (invalid_tx && t
            == ExecutionState::InvalidTx)),
        ExecutionState::EndChunk => !(t == ExecutionState::EndChunk),
        ExecutionState::Padding => !(t == ExecutionState::Padding || t == ExecutionState::EndBlock
            || t == ExecutionState::EndChunk),
        ExecutionState::EndBlock => !(t == ExecutionState::EndBlock),
        _ => false,
    }
}

fn predecessor_violates(s: ExecutionState, t: ExecutionState, invalid_tx: bool) -> (n: u64)
    ensures
        n <= 5,
        (n == 0) == spec_predecessor_allowed(s, t, invalid_tx),
{
    let mut n: u64 = 0;
    if t == ExecutionState::BeginTx && !(s == ExecutionState::EndTx || (invalid_tx && s
        == ExecutionState::InvalidTx)) {
        n = n + 1;
    }
    if t == ExecutionState::EndTx && !(s.halts() || s == ExecutionState::BeginTx) {
        n = n + 1;
    }
    if t == ExecutionState::EndBlock && !(s == ExecutionState::BeginChunk || s
        == ExecutionState::EndTx || s == ExecutionState::EndBlock || s == ExecutionState::Padding
        || (invalid_tx && s == ExecutionState::InvalidTx)) {
        n = n + 1;
    }
    if t == ExecutionState::BeginChunk && !(s == ExecutionState::BeginChunk) {
        n = n + 1;
    }
    if invalid_tx && t == ExecutionState::InvalidTx && !(s == ExecutionState::EndTx || s
        == ExecutionState::InvalidTx) {
        n = n + 1;
    }
    n
}

/// The transition gate's value for a pair of adjacent block-start kinds:
/// the sum, over the successor row's kind selector, of the indicators of
/// every forbidden destination. Each summand is boolean, so the sum is zero
/// exactly when the transition is allowed; the sum never nears the field
/// modulus, so summing in the field loses nothing.
pub fn transition_gate_sum(s: ExecutionState, t: ExecutionState, invalid_tx: bool) -> (sum: u64)
    ensures
        sum <= 6,
        (sum == 0) == spec_transition_allowed(s, t, invalid_tx),
{
    let mut sum: u64 = if successor_violates(s, t, invalid_tx) {
        1
    } else {
        0
    };
    sum = sum + predecessor_violates(s, t, invalid_tx);
    sum
}

} // verus!
