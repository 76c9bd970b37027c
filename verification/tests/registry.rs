use exec_circuit::config::{ExecError, ExecutionConfig, FeatureConfig};
use exec_circuit::gadget::{gadget_configure, needed_rows, stored_shape, StepWindow, StoredKind};
use exec_circuit::param::{EVM_LOOKUP_COLS, MAX_STEP_HEIGHT, N_U16_LOOKUPS, N_U8_LOOKUPS, STEP_WIDTH};
use exec_circuit::step::{iter_all, ExecutionState, N_EXECUTION_STATES};

#[test]
fn every_kind_has_its_own_index() {
    let states = iter_all();
    assert_eq!(states.len(), N_EXECUTION_STATES);
    for (i, s) in states.iter().enumerate() {
        assert_eq!(s.kind_index(), i);
    }
}

#[test]
fn configure_registers_exactly_one_gadget_and_height_per_kind() {
    let config = ExecutionConfig::configure(FeatureConfig { invalid_tx: true }).unwrap();
    let states = iter_all();
    for s in states.iter() {
        let entry = config.gadget_of(*s).expect("every kind must be registered");
        assert_eq!(entry.kind, *s);
        assert_eq!(entry.height, needed_rows(*s));
        assert!(entry.height >= 1 && entry.height <= MAX_STEP_HEIGHT);
        assert_eq!(config.height_of(*s), Ok(needed_rows(*s)));
    }
    // one instrumentation record per registered gadget
    assert_eq!(config.instrument().records.len(), N_EXECUTION_STATES);
}

#[test]
fn disabled_invalid_tx_is_not_registered() {
    let config = ExecutionConfig::configure(FeatureConfig { invalid_tx: false }).unwrap();
    assert!(config.gadget_of(ExecutionState::InvalidTx).is_none());
    assert_eq!(
        config.height_of(ExecutionState::InvalidTx),
        Err(ExecError::MissingGadget)
    );
    assert_eq!(config.instrument().records.len(), N_EXECUTION_STATES - 1);
    // every other kind is still there
    assert!(config.gadget_of(ExecutionState::BeginTx).is_some());
    assert!(config.gadget_of(ExecutionState::EndBlock).is_some());
}

#[test]
fn registering_a_kind_twice_fails() {
    let mut config = ExecutionConfig::configure(FeatureConfig { invalid_tx: true }).unwrap();
    let res = ExecutionConfig::configure_gadget(
        &mut config.registry,
        &mut config.debug_map,
        &mut config.instrument,
        ExecutionState::BeginTx,
    );
    assert_eq!(res, Err(ExecError::DuplicateRegistration));
    assert!(res.unwrap_err().is_fatal());
    // the registry is untouched: the entry still carries the first height
    let entry = config.gadget_of(ExecutionState::BeginTx).unwrap();
    assert_eq!(entry.height, needed_rows(ExecutionState::BeginTx));
}

#[test]
fn two_phase_configuration_discovers_the_same_height_twice() {
    // the trial pass against the oversized placeholder and the final pass
    // against the right-sized window must agree
    let placeholder = StepWindow {
        height: MAX_STEP_HEIGHT,
    };
    for s in iter_all().iter() {
        let trial = gadget_configure(*s, &placeholder);
        let window = StepWindow {
            height: trial.height,
        };
        let built = gadget_configure(*s, &window);
        assert_eq!(trial.height, built.height);
        assert_eq!(built.kind, *s);
        assert_eq!(built.stored_layout, trial.stored_layout);
    }
}

#[test]
fn boundary_kinds_have_height_one() {
    assert_eq!(needed_rows(ExecutionState::EndBlock), 1);
    assert_eq!(needed_rows(ExecutionState::EndChunk), 1);
    assert_eq!(needed_rows(ExecutionState::Padding), 1);
    assert_eq!(needed_rows(ExecutionState::BeginChunk), 1);
}

#[test]
fn padding_materializes_no_stored_values() {
    let shape = stored_shape(ExecutionState::Padding);
    assert_eq!(shape.n_rw, 0);
    assert_eq!(shape.n_rev, 0);
    assert!(!shape.has_copy);
    assert_eq!(shape.n_other, 0);
}

#[test]
fn copy_kinds_carry_one_copy_value() {
    for k in [
        ExecutionState::CALLDATACOPY,
        ExecutionState::CODECOPY,
        ExecutionState::EXTCODECOPY,
        ExecutionState::RETURNDATACOPY,
        ExecutionState::LOG,
        ExecutionState::SHA3,
    ] {
        assert!(stored_shape(k).has_copy);
    }
    assert!(!stored_shape(ExecutionState::ADD_SUB).has_copy);
}

#[test]
fn halting_classification() {
    assert!(ExecutionState::STOP.halts());
    assert!(ExecutionState::RETURN_REVERT.halts());
    assert!(ExecutionState::SELFDESTRUCT.halts());
    assert!(ExecutionState::ErrorStack.halts());
    assert!(ExecutionState::ErrorOutOfGasConstant.halts());
    assert!(!ExecutionState::ADD_SUB.halts());
    assert!(!ExecutionState::BeginTx.halts());
    assert!(!ExecutionState::Padding.halts());
}

#[test]
fn lookup_binder_tags_every_lookup_column() {
    let bindings = ExecutionConfig::configure_lookup();
    assert_eq!(bindings.len(), EVM_LOOKUP_COLS + N_U8_LOOKUPS + N_U16_LOOKUPS);
    for b in bindings.iter() {
        assert!(b.column < STEP_WIDTH);
    }
    // columns are distinct and increasing
    for w in bindings.windows(2) {
        assert!(w[0].column < w[1].column);
    }
}

#[test]
fn annotations_cover_every_column_and_the_bookkeeping_tracks() {
    let config = ExecutionConfig::configure(FeatureConfig { invalid_tx: true }).unwrap();
    let labels = config.annotate_circuit();
    assert_eq!(labels.len(), STEP_WIDTH + 4);
    assert_eq!(labels[0].0, "EVM_lookup_fixed");
    assert_eq!(labels[STEP_WIDTH].0, "EVM_q_step");
    assert_eq!(labels[STEP_WIDTH + 3].0, "Copy_Constr_const");
}

#[test]
fn begin_chunk_reports_its_counter_under_debug() {
    let config = ExecutionConfig::configure(FeatureConfig { invalid_tx: true }).unwrap();
    let state = exec_circuit::grid::StepRowState {
        kind: ExecutionState::BeginChunk,
        rw_counter: 42,
        inner_rw_counter: 1,
        is_root: false,
        is_create: false,
    };
    let vals = config.debug_expression_values(ExecutionState::BeginChunk, &state);
    assert_eq!(vals.len(), 1);
    assert_eq!(vals[0].1, 42);
    let none = config.debug_expression_values(ExecutionState::ADD_SUB, &state);
    assert!(none.is_empty());
}

#[test]
fn stored_layout_orders_reversions_after_plain_lookups() {
    let shape = stored_shape(ExecutionState::EndTx);
    assert_eq!(shape.n_rw, 1);
    assert_eq!(shape.n_rev, 1);
    let layout = exec_circuit::gadget::build_stored_layout(shape);
    assert_eq!(
        layout,
        vec![
            StoredKind::RwLookup {
                with_reversion: false,
                ordinal: 0,
            },
            StoredKind::RwLookup {
                with_reversion: true,
                ordinal: 1,
            },
        ]
    );
}

#[test]
fn configuration_reproduces_an_identical_shape() {
    // the proving backend is shape-sensitive: two runs under the same
    // features must agree in every component
    let a = ExecutionConfig::configure(FeatureConfig { invalid_tx: false }).unwrap();
    let b = ExecutionConfig::configure(FeatureConfig { invalid_tx: false }).unwrap();
    assert_eq!(a.registry.len(), b.registry.len());
    for (ea, eb) in a.registry.iter().zip(b.registry.iter()) {
        match (ea, eb) {
            (Some(ea), Some(eb)) => {
                assert_eq!(ea.kind, eb.kind);
                assert_eq!(ea.name, eb.name);
                assert_eq!(ea.height, eb.height);
                assert_eq!(ea.stored_layout, eb.stored_layout);
            }
            (None, None) => {}
            _ => panic!("registries disagree"),
        }
    }
    assert_eq!(a.debug_map, b.debug_map);
    assert_eq!(a.instrument.records, b.instrument.records);
    assert_eq!(a.first_step_whitelist, b.first_step_whitelist);
    assert_eq!(a.last_step_whitelist, b.last_step_whitelist);
    assert_eq!(a.lookups, b.lookups);
}
