use exec_circuit::checker::{check_rw_lookup, RwLookupFinding};
use exec_circuit::config::{ExecutionConfig, FeatureConfig};
use exec_circuit::gadget::StoredKind;
use exec_circuit::step::ExecutionState;
use exec_circuit::witness::{Block, Call, ExecStep, Rw, RwTarget, Transaction};

const CHALLENGE: u64 = 10;

fn rw(tag: RwTarget, value: u64) -> Rw {
    Rw {
        tag,
        values: vec![value],
    }
}

fn sample_call() -> Call {
    Call {
        id: 9,
        is_root: true,
        is_create: false,
    }
}

fn block_with(rws: Vec<Rw>) -> Block {
    Block {
        txs: vec![Transaction {
            id: 1,
            calls: vec![sample_call()],
            steps: vec![],
        }],
        rws,
        end_block: ExecStep {
            exec_state: ExecutionState::EndBlock,
            rwc: 9,
            rw_indices: vec![],
            copy_rw_counter_delta: 0,
            reversible_write_counter_delta: 0,
            call_index: 0,
        },
    }
}

fn end_tx_step() -> ExecStep {
    // the registered shape of this kind: one plain lookup, one reversible
    ExecStep {
        exec_state: ExecutionState::EndTx,
        rwc: 1,
        rw_indices: vec![0, 1],
        copy_rw_counter_delta: 0,
        reversible_write_counter_delta: 1,
        call_index: 0,
    }
}

#[test]
fn clean_step_reports_no_mismatch() {
    let block = block_with(vec![rw(RwTarget::Stack, 100), rw(RwTarget::Account, 200)]);
    let step = end_tx_step();
    let cfg = ExecutionConfig::configure(FeatureConfig { invalid_tx: false }).unwrap();
    let assigned = cfg
        .assign_stored_expressions(&block, sample_call(), &step, CHALLENGE)
        .unwrap();
    let findings = check_rw_lookup(&assigned, &step, &block, CHALLENGE);
    assert!(findings.is_empty(), "{findings:?}");
}

#[test]
fn one_flipped_event_value_is_reported_without_aborting() {
    let block = block_with(vec![rw(RwTarget::Stack, 100), rw(RwTarget::Account, 200)]);
    let step = end_tx_step();
    let cfg = ExecutionConfig::configure(FeatureConfig { invalid_tx: false }).unwrap();
    let assigned = cfg
        .assign_stored_expressions(&block, sample_call(), &step, CHALLENGE)
        .unwrap();
    // flip one recorded event after the values were assigned
    let mut corrupted = block_with(vec![rw(RwTarget::Stack, 101), rw(RwTarget::Account, 200)]);
    corrupted.end_block = block.end_block.clone();
    let findings = check_rw_lookup(&assigned, &step, &corrupted, CHALLENGE);
    assert!(!findings.is_empty());
    assert!(findings
        .iter()
        .any(|f| matches!(f, RwLookupFinding::ValueNotInStep { .. })
            || matches!(f, RwLookupFinding::IncorrectWitness { .. })));
}

#[test]
fn padding_is_clean_by_construction() {
    let block = block_with(vec![]);
    let padding = ExecStep {
        exec_state: ExecutionState::Padding,
        rwc: 5,
        rw_indices: vec![],
        copy_rw_counter_delta: 0,
        reversible_write_counter_delta: 0,
        call_index: 0,
    };
    let cfg = ExecutionConfig::configure(FeatureConfig { invalid_tx: false }).unwrap();
    let assigned = cfg
        .assign_stored_expressions(&block, sample_call(), &padding, CHALLENGE)
        .unwrap();
    assert!(assigned.is_empty());
    let findings = check_rw_lookup(&assigned, &padding, &block, CHALLENGE);
    assert!(findings.is_empty());
}

#[test]
fn copy_run_must_cover_memory_events() {
    // a copy kind: two plain lookups, one copy value standing for the run
    let step = ExecStep {
        exec_state: ExecutionState::CALLDATACOPY,
        rwc: 1,
        rw_indices: vec![0, 1, 2, 3],
        copy_rw_counter_delta: 2,
        reversible_write_counter_delta: 0,
        call_index: 0,
    };
    let good = block_with(vec![
        rw(RwTarget::Stack, 100),
        rw(RwTarget::Stack, 200),
        rw(RwTarget::Memory, 300),
        rw(RwTarget::Memory, 400),
    ]);
    let cfg = ExecutionConfig::configure(FeatureConfig { invalid_tx: false }).unwrap();
    let assigned = cfg
        .assign_stored_expressions(&good, sample_call(), &step, CHALLENGE)
        .unwrap();
    let findings = check_rw_lookup(&assigned, &step, &good, CHALLENGE);
    assert!(findings.is_empty(), "{findings:?}");

    // the same run with a non-memory sub-event is flagged
    let bad = block_with(vec![
        rw(RwTarget::Stack, 100),
        rw(RwTarget::Stack, 200),
        rw(RwTarget::Memory, 300),
        rw(RwTarget::Storage, 400),
    ]);
    let findings = check_rw_lookup(&assigned, &step, &bad, CHALLENGE);
    assert!(findings
        .iter()
        .any(|f| matches!(f, RwLookupFinding::NonMemoryCopySubEvent { .. })));
}

#[test]
fn missing_event_shows_as_count_mismatch() {
    let block = block_with(vec![rw(RwTarget::Stack, 100), rw(RwTarget::Account, 200)]);
    let step = end_tx_step();
    let cfg = ExecutionConfig::configure(FeatureConfig { invalid_tx: false }).unwrap();
    let assigned = cfg
        .assign_stored_expressions(&block, sample_call(), &step, CHALLENGE)
        .unwrap();
    // the same step claiming an extra recorded event
    let mut wider = end_tx_step();
    wider.rw_indices = vec![0, 1, 1];
    let findings = check_rw_lookup(&assigned, &wider, &block, CHALLENGE);
    assert!(findings.contains(&RwLookupFinding::CountMismatch));
}

#[test]
fn excess_reversions_are_reported_not_fatal() {
    let block = block_with(vec![rw(RwTarget::Stack, 100), rw(RwTarget::Account, 200)]);
    let mut step = end_tx_step();
    // the step declares no reversible write, yet one lookup is tagged so
    step.reversible_write_counter_delta = 0;
    let assigned = vec![
        (
            StoredKind::RwLookup {
                with_reversion: false,
                ordinal: 0,
            },
            42,
        ),
        (
            StoredKind::RwLookup {
                with_reversion: true,
                ordinal: 1,
            },
            43,
        ),
    ];
    let findings = check_rw_lookup(&assigned, &step, &block, CHALLENGE);
    assert!(findings
        .iter()
        .any(|f| matches!(f, RwLookupFinding::ExcessReversions { .. })));
}

#[test]
fn unready_challenge_checks_nothing() {
    let block = block_with(vec![rw(RwTarget::Stack, 100)]);
    let step = end_tx_step();
    let assigned = vec![(
        StoredKind::RwLookup {
            with_reversion: false,
            ordinal: 0,
        },
        1,
    )];
    let findings = check_rw_lookup(&assigned, &step, &block, 0);
    assert!(findings.is_empty());
}

#[test]
fn two_copy_values_stop_the_check() {
    let block = block_with(vec![rw(RwTarget::Memory, 100)]);
    let step = ExecStep {
        exec_state: ExecutionState::CALLDATACOPY,
        rwc: 1,
        rw_indices: vec![0],
        copy_rw_counter_delta: 1,
        reversible_write_counter_delta: 0,
        call_index: 0,
    };
    let assigned = vec![
        (StoredKind::CopyLookup, 5),
        (StoredKind::CopyLookup, 6),
    ];
    let findings = check_rw_lookup(&assigned, &step, &block, CHALLENGE);
    assert_eq!(findings, vec![RwLookupFinding::MultipleCopyEvents]);
}
