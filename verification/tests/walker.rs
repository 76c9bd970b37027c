use exec_circuit::checker::check_constraints;
use exec_circuit::config::{ExecError, ExecutionConfig, FeatureConfig};
use exec_circuit::gadget::needed_rows;
use exec_circuit::step::ExecutionState;
use exec_circuit::witness::{
    Block, Call, Chunk, ChunkContext, ExecStep, FixedCParams, Rw, RwTarget, Transaction,
};

const CHALLENGE: u64 = 10;

fn step(kind: ExecutionState, rwc: u64, rw_indices: Vec<usize>, rev: usize) -> ExecStep {
    ExecStep {
        exec_state: kind,
        rwc,
        rw_indices,
        copy_rw_counter_delta: 0,
        reversible_write_counter_delta: rev,
        call_index: 0,
    }
}

fn stack_rw(value: u64) -> Rw {
    Rw {
        tag: RwTarget::Stack,
        values: vec![value],
    }
}

/// One transaction of three steps covering counter positions 1 to 5.
fn sample_block() -> Block {
    let tx = Transaction {
        id: 1,
        calls: vec![Call {
            id: 7,
            is_root: true,
            is_create: false,
        }],
        steps: vec![
            step(ExecutionState::BeginTx, 1, vec![0, 1], 0),
            step(ExecutionState::STOP, 3, vec![2], 0),
            step(ExecutionState::EndTx, 4, vec![3, 4], 1),
        ],
    };
    Block {
        txs: vec![tx],
        rws: vec![
            stack_rw(100),
            stack_rw(200),
            stack_rw(300),
            stack_rw(400),
            stack_rw(500),
        ],
        end_block: step(ExecutionState::EndBlock, 6, vec![], 0),
    }
}

fn whole_chunk(max_evm_rows: usize) -> Chunk {
    Chunk {
        chunk_context: ChunkContext {
            chunk_index: 0,
            total_chunks: 1,
            initial_rwc: 1,
            end_rwc: 6,
            initial_tx_index: 0,
            end_tx_index: 1,
        },
        begin_chunk: None,
        end_chunk: None,
        padding: Some(step(ExecutionState::Padding, 6, vec![], 0)),
        prev_last_call: None,
        fixed_param: FixedCParams { max_evm_rows },
    }
}

fn config() -> ExecutionConfig {
    ExecutionConfig::configure(FeatureConfig { invalid_tx: false }).unwrap()
}

#[test]
fn whole_block_round_trip() {
    let block = sample_block();
    let chunk = whole_chunk(25);
    let (grid, offset) = config().assign_block(&block, &chunk, CHALLENGE).unwrap();

    assert_eq!(offset, 25);
    assert_eq!(grid.len(), 26);
    // the very first and very last occupied rows carry the boundary indicators
    assert!(grid.step_first[0]);
    assert!(grid.step_last[24]);
    // a whole-block chunk opens with the first transaction and closes the block
    assert_eq!(grid.state[0].unwrap().kind, ExecutionState::BeginTx);
    assert_eq!(grid.state[24].unwrap().kind, ExecutionState::EndBlock);
    // block starts fall where the registered heights say
    let h_begin = needed_rows(ExecutionState::BeginTx);
    let h_stop = needed_rows(ExecutionState::STOP);
    assert_eq!(grid.state[h_begin].unwrap().kind, ExecutionState::STOP);
    assert_eq!(
        grid.state[h_begin + h_stop].unwrap().kind,
        ExecutionState::EndTx
    );
    // the chunk-internal counter starts at one
    assert_eq!(grid.state[0].unwrap().inner_rw_counter, 1);
}

#[test]
fn assigned_grid_satisfies_the_constraint_system() {
    let block = sample_block();
    let chunk = whole_chunk(25);
    let cfg = config();
    let (grid, _) = cfg.assign_block(&block, &chunk, CHALLENGE).unwrap();
    assert!(check_constraints(
        cfg.feature_config,
        &chunk,
        &grid,
        CHALLENGE
    ));
}

#[test]
fn padding_fills_the_remainder_with_height_one_eventless_blocks() {
    let block = sample_block();
    let chunk = whole_chunk(25);
    let (grid, _) = config().assign_block(&block, &chunk, CHALLENGE).unwrap();
    let real_rows = needed_rows(ExecutionState::BeginTx)
        + needed_rows(ExecutionState::STOP)
        + needed_rows(ExecutionState::EndTx);
    // rows from the end of the real steps up to the closing step are padding
    for r in real_rows..24 {
        let s = grid.state[r].expect("padding rows carry state");
        assert_eq!(s.kind, ExecutionState::Padding);
        assert_eq!(grid.q_step[r], 1, "padding blocks have height one");
        assert_eq!(grid.countdown[r], 0);
        assert!(grid.stored[r].is_empty(), "padding performs no events");
    }
}

#[test]
fn split_chunks_stitch_at_the_counter_boundary() {
    let block = sample_block();
    // first chunk: counter positions 1..4, closed by a chunk-end step
    let chunk1 = Chunk {
        chunk_context: ChunkContext {
            chunk_index: 0,
            total_chunks: 2,
            initial_rwc: 1,
            end_rwc: 4,
            initial_tx_index: 0,
            end_tx_index: 1,
        },
        begin_chunk: None,
        end_chunk: Some(step(ExecutionState::EndChunk, 4, vec![], 0)),
        padding: Some(step(ExecutionState::Padding, 4, vec![], 0)),
        prev_last_call: None,
        fixed_param: FixedCParams { max_evm_rows: 20 },
    };
    // second chunk: counter positions 4..6, opened by a chunk-begin step
    let chunk2 = Chunk {
        chunk_context: ChunkContext {
            chunk_index: 1,
            total_chunks: 2,
            initial_rwc: 4,
            end_rwc: 6,
            initial_tx_index: 0,
            end_tx_index: 1,
        },
        begin_chunk: Some(step(ExecutionState::BeginChunk, 4, vec![], 0)),
        end_chunk: None,
        padding: Some(step(ExecutionState::Padding, 6, vec![], 0)),
        prev_last_call: Some(Call {
            id: 7,
            is_root: true,
            is_create: false,
        }),
        fixed_param: FixedCParams { max_evm_rows: 20 },
    };
    assert_eq!(
        chunk1.chunk_context.end_rwc,
        chunk2.chunk_context.initial_rwc
    );

    let cfg = config();
    let (grid1, off1) = cfg.assign_block(&block, &chunk1, CHALLENGE).unwrap();
    let (grid2, off2) = cfg.assign_block(&block, &chunk2, CHALLENGE).unwrap();

    // the first chunk's last block closes the chunk, not the whole block
    assert_eq!(grid1.state[off1 - 1].unwrap().kind, ExecutionState::EndChunk);
    assert_eq!(grid1.state[0].unwrap().kind, ExecutionState::BeginTx);
    // the second chunk opens with the synthetic chunk-begin step
    assert_eq!(grid2.state[0].unwrap().kind, ExecutionState::BeginChunk);
    assert_eq!(grid2.state[off2 - 1].unwrap().kind, ExecutionState::EndBlock);
    // the first chunk satisfies its constraint system
    assert!(check_constraints(
        cfg.feature_config,
        &chunk1,
        &grid1,
        CHALLENGE
    ));
}

#[test]
fn forbidden_successor_is_rejected() {
    let block = sample_block();
    let chunk = whole_chunk(25);
    let cfg = config();
    let (mut grid, _) = cfg.assign_block(&block, &chunk, CHALLENGE).unwrap();
    assert!(check_constraints(
        cfg.feature_config,
        &chunk,
        &grid,
        CHALLENGE
    ));
    // place a block-end kind in the middle of the padding run: the
    // following padding row becomes a forbidden successor of it
    let mut corrupted = grid.state[20].unwrap();
    corrupted.kind = ExecutionState::EndBlock;
    grid.state[20] = Some(corrupted);
    assert!(!check_constraints(
        cfg.feature_config,
        &chunk,
        &grid,
        CHALLENGE
    ));
}

#[test]
fn broken_zero_test_witness_is_rejected() {
    let block = sample_block();
    let chunk = whole_chunk(25);
    let cfg = config();
    let (mut grid, _) = cfg.assign_block(&block, &chunk, CHALLENGE).unwrap();
    // zero out the materialized inverse on a row whose countdown is not zero
    assert_ne!(grid.countdown[1], 0);
    grid.countdown_inv[1] = 0;
    assert!(!check_constraints(
        cfg.feature_config,
        &chunk,
        &grid,
        CHALLENGE
    ));
}

#[test]
fn trace_larger_than_the_grid_is_a_recoverable_failure() {
    let block = sample_block();
    let chunk = whole_chunk(10);
    let err = config().assign_block(&block, &chunk, CHALLENGE).unwrap_err();
    assert_eq!(err, ExecError::TraceExceedsCapacity);
    assert!(!err.is_fatal());
}

#[test]
fn missing_padding_sentinel_is_fatal() {
    let block = sample_block();
    let mut chunk = whole_chunk(25);
    chunk.padding = None;
    let err = config().assign_block(&block, &chunk, CHALLENGE).unwrap_err();
    assert_eq!(err, ExecError::MissingPaddingSentinel);
    assert!(err.is_fatal());
}

#[test]
fn wrong_padding_kind_is_fatal() {
    let block = sample_block();
    let mut chunk = whole_chunk(25);
    chunk.padding = Some(step(ExecutionState::STOP, 6, vec![], 0));
    let err = config().assign_block(&block, &chunk, CHALLENGE).unwrap_err();
    assert_eq!(err, ExecError::BadPaddingStep);
    assert!(err.is_fatal());
}

#[test]
fn non_last_chunk_without_chunk_end_is_fatal() {
    let block = sample_block();
    let mut chunk = whole_chunk(25);
    chunk.chunk_context.total_chunks = 2;
    let err = config().assign_block(&block, &chunk, CHALLENGE).unwrap_err();
    assert_eq!(err, ExecError::MissingBoundaryStep);
    assert!(err.is_fatal());
}

#[test]
fn step_kind_without_a_gadget_is_fatal() {
    // the invalid-transaction kind is only wired in under its feature
    let mut block = sample_block();
    block.txs[0].steps = vec![step(ExecutionState::InvalidTx, 1, vec![], 0)];
    let chunk = Chunk {
        chunk_context: ChunkContext {
            chunk_index: 0,
            total_chunks: 1,
            initial_rwc: 1,
            end_rwc: 2,
            initial_tx_index: 0,
            end_tx_index: 1,
        },
        begin_chunk: None,
        end_chunk: None,
        padding: Some(step(ExecutionState::Padding, 2, vec![], 0)),
        prev_last_call: None,
        fixed_param: FixedCParams { max_evm_rows: 10 },
    };
    let err = config().assign_block(&block, &chunk, CHALLENGE).unwrap_err();
    assert_eq!(err, ExecError::MissingGadget);
    assert!(err.is_fatal());
}

#[test]
fn exact_mode_lays_no_padding() {
    // zero capacity means the exact mode used by unit tests: real steps,
    // then the closing step, nothing more
    let block = sample_block();
    let chunk = whole_chunk(0);
    let (grid, offset) = config().assign_block(&block, &chunk, CHALLENGE).unwrap();
    let real_rows = needed_rows(ExecutionState::BeginTx)
        + needed_rows(ExecutionState::STOP)
        + needed_rows(ExecutionState::EndTx);
    assert_eq!(offset, real_rows + 1);
    assert_eq!(grid.state[offset - 1].unwrap().kind, ExecutionState::EndBlock);
    for r in 0..offset {
        assert!(grid.usable[r]);
    }
    assert!(!grid.usable[offset]);
}

#[test]
fn wrong_opening_kind_is_rejected() {
    let block = sample_block();
    let chunk = whole_chunk(25);
    let cfg = config();
    let (mut grid, _) = cfg.assign_block(&block, &chunk, CHALLENGE).unwrap();
    // a first chunk may only open with a transaction begin, padding or a
    // chunk begin
    let mut corrupted = grid.state[0].unwrap();
    corrupted.kind = ExecutionState::ADD_SUB;
    grid.state[0] = Some(corrupted);
    assert!(!check_constraints(
        cfg.feature_config,
        &chunk,
        &grid,
        CHALLENGE
    ));
}

#[test]
fn counter_outside_the_declared_range_is_rejected() {
    let block = sample_block();
    let chunk = whole_chunk(25);
    let cfg = config();
    let (mut grid, _) = cfg.assign_block(&block, &chunk, CHALLENGE).unwrap();
    // the first block's counter must equal the chunk's declared start
    let mut corrupted = grid.state[0].unwrap();
    corrupted.rw_counter += 1;
    grid.state[0] = Some(corrupted);
    assert!(!check_constraints(
        cfg.feature_config,
        &chunk,
        &grid,
        CHALLENGE
    ));
}

#[test]
fn assignment_reproduces_an_identical_grid() {
    // the backend is shape-sensitive: replaying the same trace must fill
    // the very same grid
    let block = sample_block();
    let chunk = whole_chunk(25);
    let cfg = config();
    let (g1, o1) = cfg.assign_block(&block, &chunk, CHALLENGE).unwrap();
    let (g2, o2) = cfg.assign_block(&block, &chunk, CHALLENGE).unwrap();
    assert_eq!(o1, o2);
    assert_eq!(g1.usable, g2.usable);
    assert_eq!(g1.q_step, g2.q_step);
    assert_eq!(g1.countdown, g2.countdown);
    assert_eq!(g1.countdown_inv, g2.countdown_inv);
    assert_eq!(g1.step_first, g2.step_first);
    assert_eq!(g1.step_last, g2.step_last);
    assert_eq!(g1.state, g2.state);
    assert_eq!(g1.stored, g2.stored);
}
