use exec_circuit::step::ExecutionState;
use exec_circuit::transition::transition_gate_sum;

const ON: bool = true;
const OFF: bool = false;

fn allowed(s: ExecutionState, t: ExecutionState, invalid_tx: bool) -> bool {
    transition_gate_sum(s, t, invalid_tx) == 0
}

#[test]
fn end_tx_successors() {
    assert!(allowed(ExecutionState::EndTx, ExecutionState::BeginTx, OFF));
    assert!(allowed(ExecutionState::EndTx, ExecutionState::EndBlock, OFF));
    assert!(allowed(ExecutionState::EndTx, ExecutionState::Padding, OFF));
    assert!(allowed(ExecutionState::EndTx, ExecutionState::EndChunk, OFF));
    assert!(!allowed(ExecutionState::EndTx, ExecutionState::ADD_SUB, OFF));
    assert!(!allowed(ExecutionState::EndTx, ExecutionState::InvalidTx, OFF));
    assert!(allowed(ExecutionState::EndTx, ExecutionState::InvalidTx, ON));
}

#[test]
fn end_chunk_only_repeats() {
    assert!(allowed(ExecutionState::EndChunk, ExecutionState::EndChunk, OFF));
    assert!(!allowed(ExecutionState::EndChunk, ExecutionState::Padding, OFF));
    assert!(!allowed(ExecutionState::EndChunk, ExecutionState::EndBlock, OFF));
}

#[test]
fn padding_successors() {
    assert!(allowed(ExecutionState::Padding, ExecutionState::Padding, OFF));
    assert!(allowed(ExecutionState::Padding, ExecutionState::EndBlock, OFF));
    assert!(allowed(ExecutionState::Padding, ExecutionState::EndChunk, OFF));
    assert!(!allowed(ExecutionState::Padding, ExecutionState::BeginTx, OFF));
}

#[test]
fn end_block_only_repeats() {
    assert!(allowed(ExecutionState::EndBlock, ExecutionState::EndBlock, OFF));
    assert!(!allowed(ExecutionState::EndBlock, ExecutionState::BeginTx, OFF));
    assert!(!allowed(ExecutionState::EndBlock, ExecutionState::Padding, OFF));
}

#[test]
fn only_a_transaction_end_reaches_a_transaction_begin() {
    assert!(allowed(ExecutionState::EndTx, ExecutionState::BeginTx, OFF));
    assert!(!allowed(ExecutionState::STOP, ExecutionState::BeginTx, OFF));
    assert!(!allowed(ExecutionState::BeginTx, ExecutionState::BeginTx, OFF));
    assert!(allowed(ExecutionState::InvalidTx, ExecutionState::BeginTx, ON));
    assert!(!allowed(ExecutionState::InvalidTx, ExecutionState::BeginTx, OFF));
}

#[test]
fn only_halting_kinds_or_a_begin_reach_a_transaction_end() {
    assert!(allowed(ExecutionState::STOP, ExecutionState::EndTx, OFF));
    assert!(allowed(ExecutionState::RETURN_REVERT, ExecutionState::EndTx, OFF));
    assert!(allowed(ExecutionState::ErrorStack, ExecutionState::EndTx, OFF));
    assert!(allowed(ExecutionState::BeginTx, ExecutionState::EndTx, OFF));
    assert!(!allowed(ExecutionState::ADD_SUB, ExecutionState::EndTx, OFF));
    assert!(!allowed(ExecutionState::PUSH, ExecutionState::EndTx, OFF));
}

#[test]
fn block_end_predecessors() {
    assert!(allowed(ExecutionState::BeginChunk, ExecutionState::EndBlock, OFF));
    assert!(allowed(ExecutionState::EndTx, ExecutionState::EndBlock, OFF));
    assert!(allowed(ExecutionState::Padding, ExecutionState::EndBlock, OFF));
    assert!(!allowed(ExecutionState::STOP, ExecutionState::EndBlock, OFF));
}

#[test]
fn chunk_begin_never_follows_anything_else() {
    assert!(allowed(ExecutionState::BeginChunk, ExecutionState::BeginChunk, OFF));
    assert!(!allowed(ExecutionState::EndTx, ExecutionState::BeginChunk, OFF));
    assert!(!allowed(ExecutionState::Padding, ExecutionState::BeginChunk, OFF));
}

#[test]
fn invalid_tx_predecessors_under_its_feature() {
    assert!(allowed(ExecutionState::EndTx, ExecutionState::InvalidTx, ON));
    assert!(allowed(ExecutionState::InvalidTx, ExecutionState::InvalidTx, ON));
    assert!(!allowed(ExecutionState::BeginTx, ExecutionState::InvalidTx, ON));
}

#[test]
fn opcode_to_opcode_is_unrestricted() {
    assert!(allowed(ExecutionState::ADD_SUB, ExecutionState::PUSH, OFF));
    assert!(allowed(ExecutionState::PUSH, ExecutionState::STOP, OFF));
    assert!(allowed(ExecutionState::BeginTx, ExecutionState::ADD_SUB, OFF));
}

#[test]
fn gate_sum_is_a_small_count_of_violations() {
    // every summand is boolean, so a forbidden pair sums to at least one
    assert!(transition_gate_sum(ExecutionState::EndBlock, ExecutionState::BeginTx, OFF) >= 1);
    assert!(transition_gate_sum(ExecutionState::EndBlock, ExecutionState::BeginTx, OFF) <= 6);
}
