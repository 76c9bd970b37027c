//! The gadget registry and the configuration phase.
//!
//! Configuration runs once, in a fixed deterministic order over the
//! declared step kinds, and produces the static shape every later
//! assignment reuses: for each kind exactly one gadget and one discovered
//! row height, the stored-value layout the gadget materializes, the
//! membership bindings of tagged cells to external tables, and the
//! instrumentation record. Registration is append-only; registering the
//! same kind twice is a fatal configuration error.

use vstd::prelude::*;

use crate::gadget::{
    gadget_configure, spec_gadget_name, spec_needed_rows, spec_stored_layout, spec_stored_shape,
    GadgetBuild, StepWindow, StoredKind,
};
use crate::param::{MAX_STEP_HEIGHT, STEP_WIDTH};
use crate::step::{
    lemma_kind_index_injective, lemma_kind_of_index_roundtrip, spec_kind_of_index, ExecutionState,
    N_EXECUTION_STATES,
};
use crate::grid::StepRowState;
use crate::step;
use crate::table::{spec_step_column_types, step_column_types, CellType, Table};

verus! {

/// Optional features of the constraint system.
#[derive(Clone, Copy, Debug, PartialEq, Eq, Structural)]
pub struct FeatureConfig {
    /// Whether the invalid-transaction pseudo-kind is wired in.
    pub invalid_tx: bool,
}

/// The failures of configuration and assignment. All but
/// `TraceExceedsCapacity` signal a configuration defect rather than a bad
/// trace; `TraceExceedsCapacity` is the recoverable trace-shape failure a
/// caller may answer by re-chunking with a smaller row budget.
#[derive(Clone, Copy, Debug, PartialEq, Eq, Structural)]
pub enum ExecError {
    DuplicateRegistration,
    MissingGadget,
    HeightOutOfRange,
    MissingPaddingSentinel,
    BadPaddingStep,
    MissingBoundaryStep,
    TraceExceedsCapacity,
}

impl ExecError {
    /// Whether this failure signals a programming or configuration defect,
    /// as opposed to a trace the grid merely cannot hold.
    pub open spec fn spec_is_fatal(self) -> bool {
        self != ExecError::TraceExceedsCapacity
    }

    pub fn is_fatal(&self) -> (r: bool)
        ensures
            r == self.spec_is_fatal(),
    {
        !(*self == ExecError::TraceExceedsCapacity)
    }
}

/// Whether a kind takes part in the state machine under the given
/// features.
pub open spec fn spec_kind_enabled(kind: ExecutionState, features: FeatureConfig) -> bool {
    kind != ExecutionState::InvalidTx || features.invalid_tx
}

/// One registered gadget: its kind, fixed name, discovered height, and the
/// stored values it materializes.
pub struct GadgetEntry {
    pub kind: ExecutionState,
    pub name: &'static str,
    pub height: usize,
    pub stored_layout: Vec<StoredKind>,
}

impl GadgetEntry {
    pub open spec fn spec_wf(self) -> bool {
        &&& 1 <= self.height <= MAX_STEP_HEIGHT
        &&& self.height == spec_needed_rows(self.kind)
        &&& self.stored_layout@ == spec_stored_layout(spec_stored_shape(self.kind))
    }
}

/// The instrumentation record: one entry per gadget built, with its
/// discovered height.
pub struct Instrument {
    pub records: Vec<(ExecutionState, usize)>,
}

/// One membership binding: the tagged value cell in this column must equal
/// the random-linear-combination encoding of some row of the identified
/// table.
#[derive(Clone, Copy, Debug, PartialEq, Eq, Structural)]
pub struct LookupBinding {
    pub column: usize,
    pub table: Table,
}

/// A registered debug expression, evaluated and reported only under the
/// debug flag.
#[derive(Clone, Copy, Debug, PartialEq, Eq, Structural)]
pub enum DebugExpr {
    /// The step's global read/write counter on its first row.
    StepCurrRwCounter,
}

/// The static product of configuration.
pub struct ExecutionConfig {
    /// One slot per kind index; exactly one gadget and one height per
    /// configured kind.
    pub registry: Vec<Option<GadgetEntry>>,
    /// One slot per kind index: the debug expressions registered for it.
    pub debug_map: Vec<Vec<DebugExpr>>,
    pub instrument: Instrument,
    pub feature_config: FeatureConfig,
    /// Kinds allowed to open the grid's first block of the first chunk.
    pub first_step_whitelist: Vec<ExecutionState>,
    /// Kinds allowed to close the grid's last block.
    pub last_step_whitelist: Vec<ExecutionState>,
    /// The membership bindings of the tagged step-window columns.
    pub lookups: Vec<LookupBinding>,
}

/// The membership bindings the first `n` columns of the step window
/// contribute: one per lookup-typed column, in column order.
pub open spec fn spec_lookup_bindings_upto(n: int) -> Seq<LookupBinding>
    decreases n,
{
    if n <= 0 {
        Seq::empty()
    } else {
        let prev = spec_lookup_bindings_upto(n - 1);
        match spec_step_column_types()[n - 1] {
            CellType::Lookup(t) => prev.push(LookupBinding { column: (n - 1) as usize, table: t }),
            _ => prev,
        }
    }
}

/// The complete list of membership bindings of the step window.
pub open spec fn spec_lookup_bindings() -> Seq<LookupBinding> {
    spec_lookup_bindings_upto(STEP_WIDTH as int)
}


/// The instrumentation records of the first `i` registry positions: one
/// per enabled kind, in registration order.
pub open spec fn spec_instrument_upto(features: FeatureConfig, i: int) -> Seq<(
    ExecutionState,
    usize,
)>
    decreases i,
{
    if i <= 0 {
        Seq::empty()
    } else {
        let prev = spec_instrument_upto(features, i - 1);
        match spec_kind_of_index(i - 1) {
            Some(k) => if spec_kind_enabled(k, features) {
                prev.push((k, spec_needed_rows(k)))
            } else {
                prev
            },
            None => prev,
        }
    }
}

/// The complete instrumentation record of a configuration run.
pub open spec fn spec_instrument_records(features: FeatureConfig) -> Seq<(ExecutionState, usize)> {
    spec_instrument_upto(features, N_EXECUTION_STATES as int)
}

/// The kinds allowed to open a first chunk's first block, in their fixed
/// order.
pub open spec fn spec_first_whitelist(features: FeatureConfig) -> Seq<ExecutionState> {
    if features.invalid_tx {
        seq![
            ExecutionState::BeginTx,
            ExecutionState::Padding,
            ExecutionState::BeginChunk,
            ExecutionState::InvalidTx,
        ]
    } else {
        seq![ExecutionState::BeginTx, ExecutionState::Padding, ExecutionState::BeginChunk]
    }
}

/// The complete shape a configuration run produces, as a function of the
/// features alone: every registry slot, every debug-expression slot, the
/// instrumentation record, both whitelists and the lookup bindings are
/// pinned. Two runs under the same features therefore produce identical
/// shapes.
pub open spec fn spec_configured_shape(c: ExecutionConfig, features: FeatureConfig) -> bool {
    &&& c.feature_config == features
    &&& c.registry@.len() == N_EXECUTION_STATES
    &&& c.debug_map@.len() == N_EXECUTION_STATES
    &&& forall|i: int|
        0 <= i < N_EXECUTION_STATES ==> ((#[trigger] c.registry@[i]) is Some <==> (
        spec_kind_of_index(i) matches Some(k) && spec_kind_enabled(k, features)))
    &&& forall|i: int|
        0 <= i < N_EXECUTION_STATES ==> ((#[trigger] c.registry@[i]) matches Some(e) ==> {
            &&& spec_kind_of_index(i) matches Some(k)
            &&& e.kind == k
            &&& e.name == spec_gadget_name(k)
            &&& e.height == spec_needed_rows(k)
            &&& e.stored_layout@ == spec_stored_layout(spec_stored_shape(k))
        })
    &&& forall|i: int|
        0 <= i < N_EXECUTION_STATES ==> (#[trigger] c.debug_map@[i])@ == (if i
            == ExecutionState::BeginChunk.spec_kind_index() {
            seq![DebugExpr::StepCurrRwCounter]
        } else {
            Seq::<DebugExpr>::empty()
        })
    &&& c.instrument.records@ == spec_instrument_records(features)
    &&& c.first_step_whitelist@ == spec_first_whitelist(features)
    &&& c.last_step_whitelist@ == seq![ExecutionState::EndBlock, ExecutionState::EndChunk]
    &&& c.lookups@ == spec_lookup_bindings()
}

/// Two configuration runs under the same features produce identical
/// shapes: the proving backend is shape-sensitive, so this determinism is
/// what makes re-configuration safe.
pub proof fn lemma_configure_shape_deterministic(
    c1: ExecutionConfig,
    c2: ExecutionConfig,
    features: FeatureConfig,
)
    requires
        spec_configured_shape(c1, features),
        spec_configured_shape(c2, features),
    ensures
        c1.registry@.len() == c2.registry@.len(),
        forall|i: int|
            0 <= i < N_EXECUTION_STATES ==> (((#[trigger] c1.registry@[i]) is Some) == (
            c2.registry@[i] is Some)),
        forall|i: int|
            0 <= i < N_EXECUTION_STATES ==> ((#[trigger] c1.registry@[i]) is Some
                && c2.registry@[i] is Some ==> (c1.registry@[i]->0.kind == c2.registry@[i]->0.kind
                && c1.registry@[i]->0.name == c2.registry@[i]->0.name
                && c1.registry@[i]->0.height == c2.registry@[i]->0.height
                && c1.registry@[i]->0.stored_layout@ == c2.registry@[i]->0.stored_layout@)),
        forall|i: int|
            0 <= i < N_EXECUTION_STATES ==> (#[trigger] c1.debug_map@[i])@ == c2.debug_map@[i]@,
        c1.instrument.records@ == c2.instrument.records@,
        c1.first_step_whitelist@ == c2.first_step_whitelist@,
        c1.last_step_whitelist@ == c2.last_step_whitelist@,
        c1.lookups@ == c2.lookups@,
{
    assert forall|i: int|
        0 <= i < N_EXECUTION_STATES implies (((#[trigger] c1.registry@[i]) is Some) == (
    c2.registry@[i] is Some)) by {
        assert(c1.registry@[i] is Some <==> (spec_kind_of_index(i) matches Some(k)
            && spec_kind_enabled(k, features)));
        assert(c2.registry@[i] is Some <==> (spec_kind_of_index(i) matches Some(k)
            && spec_kind_enabled(k, features)));
    }
    assert forall|i: int|
        0 <= i < N_EXECUTION_STATES implies ((#[trigger] c1.registry@[i]) is Some
        && c2.registry@[i] is Some ==> (c1.registry@[i]->0.kind == c2.registry@[i]->0.kind
        && c1.registry@[i]->0.name == c2.registry@[i]->0.name && c1.registry@[i]->0.height
        == c2.registry@[i]->0.height && c1.registry@[i]->0.stored_layout@
        == c2.registry@[i]->0.stored_layout@)) by {
        if c1.registry@[i] is Some && c2.registry@[i] is Some {
            assert(spec_kind_of_index(i) is Some);
            let k = spec_kind_of_index(i)->0;
            assert(c1.registry@[i]->0.kind == k && c2.registry@[i]->0.kind == k);
            assert(c1.registry@[i]->0.name == spec_gadget_name(k));
            assert(c2.registry@[i]->0.name == spec_gadget_name(k));
            assert(c1.registry@[i]->0.height == spec_needed_rows(k));
            assert(c2.registry@[i]->0.height == spec_needed_rows(k));
            assert(c1.registry@[i]->0.stored_layout@ == spec_stored_layout(spec_stored_shape(k)));
            assert(c2.registry@[i]->0.stored_layout@ == spec_stored_layout(spec_stored_shape(k)));
        }
    }
    assert forall|i: int|
        0 <= i < N_EXECUTION_STATES implies (#[trigger] c1.debug_map@[i])@
        == c2.debug_map@[i]@ by {
        assert(c2.debug_map@[i]@ == (if i == ExecutionState::BeginChunk.spec_kind_index() {
            seq![DebugExpr::StepCurrRwCounter]
        } else {
            Seq::<DebugExpr>::empty()
        }));
    }
}

/// The annotation a column carries for its role.
pub open spec fn spec_column_label(t: CellType) -> &'static str {
    match t {
        CellType::Lookup(Table::Fixed) => "EVM_lookup_fixed",
        CellType::Lookup(Table::Tx) => "EVM_lookup_tx",
        CellType::Lookup(Table::Rw) => "EVM_lookup_rw",
        CellType::Lookup(Table::Bytecode) => "EVM_lookup_bytecode",
        CellType::Lookup(Table::Block) => "EVM_lookup_block",
        CellType::Lookup(Table::Copy) => "EVM_lookup_copy",
        CellType::Lookup(Table::Keccak) => "EVM_lookup_keccak",
        CellType::Lookup(Table::Exp) => "EVM_lookup_exp",
        CellType::Lookup(Table::Sig) => "EVM_lookup_sig",
        CellType::Lookup(Table::ChunkCtx) => "EVM_lookupchunk_ctx",
        CellType::Lookup(Table::U8) => "EVM_lookup_u8",
        CellType::Lookup(Table::U16) => "EVM_lookup_u16",
        CellType::StoragePhase2 => "EVM_adv_phase2",
        CellType::StoragePermutation => "EVM_copy",
        CellType::StoragePhase1 => "EVM_adv_phase1",
    }
}

/// Whether a kind may open the first block of a first chunk.
pub open spec fn spec_in_first_step_whitelist(kind: ExecutionState, features: FeatureConfig) -> bool {
    kind == ExecutionState::BeginTx || kind == ExecutionState::Padding || kind
        == ExecutionState::BeginChunk || (features.invalid_tx && kind == ExecutionState::InvalidTx)
}

/// Whether a kind may close the last block.
pub open spec fn spec_in_last_step_whitelist(kind: ExecutionState) -> bool {
    kind == ExecutionState::EndBlock || kind == ExecutionState::EndChunk
}

pub fn in_first_step_whitelist(kind: ExecutionState, features: FeatureConfig) -> (r: bool)
    ensures
        r == spec_in_first_step_whitelist(kind, features),
{
    kind == ExecutionState::BeginTx || kind == ExecutionState::Padding || kind
        == ExecutionState::BeginChunk || (features.invalid_tx && kind == ExecutionState::InvalidTx)
}

pub fn in_last_step_whitelist(kind: ExecutionState) -> (r: bool)
    ensures
        r == spec_in_last_step_whitelist(kind),
{
    kind == ExecutionState::EndBlock || kind == ExecutionState::EndChunk
}

impl ExecutionConfig {
    /// Whether the registry slot of this kind is filled.
    pub open spec fn spec_registered(self, kind: ExecutionState) -> bool {
        self.registry@[kind.spec_kind_index()] is Some
    }

    /// Well-formedness of the configured shape: one slot per kind, every
    /// filled slot holding the entry of the kind that owns the slot.
    pub open spec fn spec_wf(self) -> bool {
        &&& self.registry@.len() == N_EXECUTION_STATES
        &&& self.debug_map@.len() == N_EXECUTION_STATES
        &&& forall|i: int|
            0 <= i < N_EXECUTION_STATES ==> ((#[trigger] self.registry@[i]) matches Some(e) ==> (
            e.kind.spec_kind_index() == i && e.spec_wf()))
    }

    /// Every kind the features enable is registered; no other is.
    pub open spec fn spec_fully_registered(self) -> bool {
        forall|k: ExecutionState|
            #[trigger] self.spec_registered(k) <==> spec_kind_enabled(k, self.feature_config)
    }

    /// Configuration: walks every declared kind once, runs the two-phase
    /// protocol for each enabled kind, and builds the lookup bindings.
    /// Re-running with the same features always reproduces an identical
    /// shape.
    pub fn configure(feature_config: FeatureConfig) -> (r: Result<ExecutionConfig, ExecError>)
        ensures
            r matches Ok(c) ==> {
                &&& c.spec_wf()
                &&& c.spec_fully_registered()
                &&& c.feature_config == feature_config
                &&& spec_configured_shape(c, feature_config)
            },
            r is Ok,
    {
        let mut registry: Vec<Option<GadgetEntry>> = Vec::new();
        let mut debug_map: Vec<Vec<DebugExpr>> = Vec::new();
        let mut n: usize = 0;
        while n < N_EXECUTION_STATES
            invariant
                registry@.len() == n,
                debug_map@.len() == n,
                n <= N_EXECUTION_STATES,
                forall|j: int| 0 <= j < n ==> (#[trigger] registry@[j]) is None,
                forall|j: int| 0 <= j < n ==> (#[trigger] debug_map@[j])@.len() == 0,
            decreases N_EXECUTION_STATES - n,
        {
            registry.push(None);
            debug_map.push(Vec::new());
            n = n + 1;
        }
        let mut instrument = Instrument { records: Vec::new() };

        let states = step::iter_all();
        let mut i: usize = 0;
        while i < states.len()
            invariant
                states@.len() == N_EXECUTION_STATES,
                forall|j: int|
                    0 <= j < states@.len() ==> (#[trigger] states@[j]).spec_kind_index() == j,
                i <= states@.len(),
                registry@.len() == N_EXECUTION_STATES,
                debug_map@.len() == N_EXECUTION_STATES,
                forall|j: int|
                    0 <= j < N_EXECUTION_STATES ==> ((#[trigger] registry@[j]) matches Some(e)
                        ==> (e.kind.spec_kind_index() == j && e.spec_wf() && e.name
                        == spec_gadget_name(e.kind))),
                forall|j: int|
                    0 <= j < N_EXECUTION_STATES ==> ((#[trigger] registry@[j]) is Some <==> (j < i
                        && spec_kind_enabled(states@[j], feature_config))),
                forall|j: int|
                    0 <= j < N_EXECUTION_STATES ==> (#[trigger] debug_map@[j])@ == (if j
                        == ExecutionState::BeginChunk.spec_kind_index() && j < i {
                        seq![DebugExpr::StepCurrRwCounter]
                    } else {
                        Seq::<DebugExpr>::empty()
                    }),
                instrument.records@ == spec_instrument_upto(feature_config, i as int),
            decreases states@.len() - i,
        {
            let kind = states[i];
            proof {
                lemma_kind_of_index_roundtrip();
                lemma_kind_index_injective();
                assert(spec_kind_of_index(i as int) == Some(kind));
            }
            let enabled = !(kind == ExecutionState::InvalidTx) || feature_config.invalid_tx;
            if enabled {
                let res = Self::configure_gadget(
                    &mut registry,
                    &mut debug_map,
                    &mut instrument,
                    kind,
                );
                match res {
                    Ok(()) => (),
                    Err(e) => {
                        // the slot of a freshly drawn kind is provably empty
                        assert(false);
                    },
                }
                proof {
                    assert(instrument.records@ =~= spec_instrument_upto(
                        feature_config,
                        i + 1,
                    ));
                }
            } else {
                proof {
                    assert(instrument.records@ =~= spec_instrument_upto(
                        feature_config,
                        i + 1,
                    ));
                }
            }
            proof {
                assert forall|j: int|
                    0 <= j < N_EXECUTION_STATES implies (#[trigger] debug_map@[j])@ == (if j
                    == ExecutionState::BeginChunk.spec_kind_index() && j < i + 1 {
                    seq![DebugExpr::StepCurrRwCounter]
                } else {
                    Seq::<DebugExpr>::empty()
                }) by {
                    lemma_kind_of_index_roundtrip();
                    if j == kind.spec_kind_index() && !(kind == ExecutionState::BeginChunk) {
                        assert(spec_kind_of_index(j) == Some(kind));
                        assert(j != ExecutionState::BeginChunk.spec_kind_index()) by {
                            if j == ExecutionState::BeginChunk.spec_kind_index() {
                                assert(spec_kind_of_index(
                                    ExecutionState::BeginChunk.spec_kind_index(),
                                ) == Some(ExecutionState::BeginChunk));
                            }
                        }
                    }
                }
            }
            i = i + 1;
        }

        let lookups = Self::configure_lookup();
        let mut first_step_whitelist: Vec<ExecutionState> = Vec::new();
        first_step_whitelist.push(ExecutionState::BeginTx);
        first_step_whitelist.push(ExecutionState::Padding);
        first_step_whitelist.push(ExecutionState::BeginChunk);
        if feature_config.invalid_tx {
            first_step_whitelist.push(ExecutionState::InvalidTx);
        }
        let mut last_step_whitelist: Vec<ExecutionState> = Vec::new();
        last_step_whitelist.push(ExecutionState::EndBlock);
        last_step_whitelist.push(ExecutionState::EndChunk);

        let config = ExecutionConfig {
            registry,
            debug_map,
            instrument,
            feature_config,
            first_step_whitelist,
            last_step_whitelist,
            lookups,
        };
        proof {
            assert forall|k: ExecutionState| #[trigger]
                config.spec_registered(k) <==> spec_kind_enabled(k, feature_config) by {
                assert(config.registry@[k.spec_kind_index()] is Some <==> (k.spec_kind_index()
                    < N_EXECUTION_STATES && spec_kind_enabled(
                    states@[k.spec_kind_index()],
                    feature_config,
                )));
                assert(states@[k.spec_kind_index()].spec_kind_index() == k.spec_kind_index());
                lemma_kind_index_injective();
                assert(states@[k.spec_kind_index()] == k);
            }
            lemma_kind_of_index_roundtrip();
            lemma_kind_index_injective();
            assert forall|j: int|
                0 <= j < N_EXECUTION_STATES implies ((#[trigger] config.registry@[j]) is Some
                <==> (spec_kind_of_index(j) matches Some(k2) && spec_kind_enabled(
                k2,
                feature_config,
            ))) by {
                assert(spec_kind_of_index(states@[j].spec_kind_index()) == Some(states@[j]));
            }
            assert forall|j: int|
                0 <= j < N_EXECUTION_STATES implies ((#[trigger] config.registry@[j])
                matches Some(e) ==> {
                &&& spec_kind_of_index(j) matches Some(k2)
                &&& e.kind == k2
                &&& e.name == spec_gadget_name(k2)
                &&& e.height == spec_needed_rows(k2)
                &&& e.stored_layout@ == spec_stored_layout(spec_stored_shape(k2))
            }) by {
                if config.registry@[j] is Some {
                    let e = config.registry@[j]->0;
                    assert(e.kind.spec_kind_index() == j);
                    assert(spec_kind_of_index(e.kind.spec_kind_index()) == Some(e.kind));
                }
            }
            assert(config.instrument.records@ == spec_instrument_records(feature_config));
            assert(config.first_step_whitelist@ =~= spec_first_whitelist(feature_config));
            assert(config.last_step_whitelist@ =~= seq![
                ExecutionState::EndBlock,
                ExecutionState::EndChunk,
            ]);
            assert(spec_configured_shape(config, feature_config));
        }
        Ok(config)
    }

    /// The two-phase protocol for one kind: a trial configuration against a
    /// placeholder window of the global maximum height discovers the
    /// gadget's real height; the placeholder is then discarded and the
    /// gadget configured again against a window of the discovered height.
    /// Only the second build is registered.
    pub fn configure_gadget(
        registry: &mut Vec<Option<GadgetEntry>>,
        debug_map: &mut Vec<Vec<DebugExpr>>,
        instrument: &mut Instrument,
        kind: ExecutionState,
    ) -> (r: Result<(), ExecError>)
        requires
            old(registry)@.len() == N_EXECUTION_STATES,
            old(debug_map)@.len() == N_EXECUTION_STATES,
        ensures
            final(registry)@.len() == N_EXECUTION_STATES,
            final(debug_map)@.len() == N_EXECUTION_STATES,
            old(registry)@[kind.spec_kind_index()] is Some ==> (r == Result::<
                (),
                ExecError,
            >::Err(ExecError::DuplicateRegistration) && final(registry)@ == old(registry)@),
            old(registry)@[kind.spec_kind_index()] is None ==> {
                &&& r is Ok
                &&& final(registry)@[kind.spec_kind_index()] matches Some(e) && e.kind == kind
                    && e.spec_wf() && e.name == spec_gadget_name(kind)
                &&& final(instrument).records@ == old(instrument).records@.push(
                    (kind, spec_needed_rows(kind)),
                )
                &&& final(debug_map)@[kind.spec_kind_index()]@ == (if kind
                    == ExecutionState::BeginChunk {
                    seq![DebugExpr::StepCurrRwCounter]
                } else {
                    old(debug_map)@[kind.spec_kind_index()]@
                })
            },
            old(registry)@[kind.spec_kind_index()] is Some ==> final(instrument).records@ == old(instrument).records@,
            forall|j: int|
                0 <= j < N_EXECUTION_STATES && j != kind.spec_kind_index() ==> (
                #[trigger] final(registry)@[j]) == old(registry)@[j],
            forall|j: int|
                0 <= j < N_EXECUTION_STATES && j != kind.spec_kind_index() ==> (
                #[trigger] final(debug_map)@[j]) == old(debug_map)@[j],
    {
        // trial pass: measure against the oversized placeholder
        let placeholder = StepWindow { height: MAX_STEP_HEIGHT };
        let trial = gadget_configure(kind, &placeholder);
        let height = trial.height;
        if height < 1 || height > MAX_STEP_HEIGHT {
            return Err(ExecError::HeightOutOfRange);
        }
        // final pass: the right-sized successor window
        let window = StepWindow { height };
        let build = gadget_configure(kind, &window);
        Self::configure_gadget_impl(registry, debug_map, instrument, build, height)
    }

    /// Registers one final gadget build: records its height and stored
    /// layout in the kind's slot and its instrumentation entry, and wires
    /// the kind's debug expressions. Registering an already-filled slot
    /// fails without touching the registry.
    pub fn configure_gadget_impl(
        registry: &mut Vec<Option<GadgetEntry>>,
        debug_map: &mut Vec<Vec<DebugExpr>>,
        instrument: &mut Instrument,
        build: GadgetBuild,
        height: usize,
    ) -> (r: Result<(), ExecError>)
        requires
            old(registry)@.len() == N_EXECUTION_STATES,
            old(debug_map)@.len() == N_EXECUTION_STATES,
            height == spec_needed_rows(build.kind),
            1 <= height <= MAX_STEP_HEIGHT,
            build.stored_layout@ == spec_stored_layout(spec_stored_shape(build.kind)),
        ensures
            final(registry)@.len() == N_EXECUTION_STATES,
            final(debug_map)@.len() == N_EXECUTION_STATES,
            old(registry)@[build.kind.spec_kind_index()] is Some ==> (r == Result::<
                (),
                ExecError,
            >::Err(ExecError::DuplicateRegistration) && final(registry)@ == old(registry)@
                && final(debug_map)@ == old(debug_map)@),
            old(registry)@[build.kind.spec_kind_index()] is None ==> (r is Ok && final(registry)@
                == old(registry)@.update(
                build.kind.spec_kind_index(),
                Some(
                    GadgetEntry {
                        kind: build.kind,
                        name: build.name,
                        height,
                        stored_layout: build.stored_layout,
                    },
                ),
            ) && final(registry)@[build.kind.spec_kind_index()]->0.spec_wf()),
            old(registry)@[build.kind.spec_kind_index()] is None ==> final(instrument).records@
                == old(instrument).records@.push((build.kind, height)),
            old(registry)@[build.kind.spec_kind_index()] is Some ==> final(instrument).records@
                == old(instrument).records@,
            old(registry)@[build.kind.spec_kind_index()] is None ==> final(debug_map)@[build.kind.spec_kind_index()]@ == (if build.kind == ExecutionState::BeginChunk {
                seq![DebugExpr::StepCurrRwCounter]
            } else {
                old(debug_map)@[build.kind.spec_kind_index()]@
            }),
            forall|j: int|
                0 <= j < N_EXECUTION_STATES && j != build.kind.spec_kind_index() ==> (
                #[trigger] final(debug_map)@[j]) == old(debug_map)@[j],
    {
        let idx = build.kind.kind_index();
        if registry[idx].is_some() {
            return Err(ExecError::DuplicateRegistration);
        }
        instrument.records.push((build.kind, height));
        if build.kind == ExecutionState::BeginChunk {
            // the chunk-opening step reports its global counter under debug
            let mut exprs = Vec::new();
            exprs.push(DebugExpr::StepCurrRwCounter);
            debug_map[idx] = exprs;
        }
        let kind = build.kind;
        registry[idx] = Some(
            GadgetEntry { kind, name: build.name, height, stored_layout: build.stored_layout },
        );
        Ok(())
    }

    /// One membership binding per tagged column of the step window: the
    /// binder is agnostic to table internals and only records which table
    /// each tagged cell must look into. The produced list is complete: it
    /// holds exactly the lookup-typed columns, in column order.
    pub fn configure_lookup() -> (bindings: Vec<LookupBinding>)
        ensures
            bindings@ == spec_lookup_bindings(),
            forall|j: int|
                0 <= j < bindings@.len() ==> {
                    &&& (#[trigger] bindings@[j]).column < STEP_WIDTH
                    &&& spec_step_column_types()[bindings@[j].column as int] == CellType::Lookup(
                        bindings@[j].table,
                    )
                },
    {
        let types = step_column_types();
        let mut bindings: Vec<LookupBinding> = Vec::new();
        let mut col: usize = 0;
        while col < types.len()
            invariant
                types@ == spec_step_column_types(),
                types@.len() == STEP_WIDTH,
                col <= types@.len(),
                bindings@ == spec_lookup_bindings_upto(col as int),
                forall|j: int|
                    0 <= j < bindings@.len() ==> {
                        &&& (#[trigger] bindings@[j]).column < STEP_WIDTH
                        &&& spec_step_column_types()[bindings@[j].column as int]
                            == CellType::Lookup(bindings@[j].table)
                    },
            decreases types@.len() - col,
        {
            match types[col] {
                CellType::Lookup(table) => {
                    bindings.push(LookupBinding { column: col, table });
                },
                _ => (),
            }
            col = col + 1;
        }
        bindings
    }

    /// The instrumentation gathered while the gadgets were built.
    pub fn instrument(&self) -> (r: &Instrument)
        ensures
            r == &self.instrument,
    {
        &self.instrument
    }

    /// The registered gadget of a kind, if any.
    pub fn gadget_of(&self, kind: ExecutionState) -> (r: Option<&GadgetEntry>)
        requires
            self.spec_wf(),
        ensures
            match r {
                Some(e) => {
                    &&& self.spec_registered(kind)
                    &&& e.kind == kind
                    &&& e.spec_wf()
                },
                None => !self.spec_registered(kind),
            },
    {
        let idx = kind.kind_index();
        match &self.registry[idx] {
            Some(e) => {
                proof {
                    lemma_kind_index_injective();
                }
                Some(e)
            },
            None => None,
        }
    }

    /// The registered height of a kind, or the fatal missing-gadget error.
    pub fn height_of(&self, kind: ExecutionState) -> (r: Result<usize, ExecError>)
        requires
            self.spec_wf(),
        ensures
            self.spec_registered(kind) ==> r == Result::<usize, ExecError>::Ok(
                spec_needed_rows(kind),
            ),
            !self.spec_registered(kind) ==> r == Result::<usize, ExecError>::Err(
                ExecError::MissingGadget,
            ),
    {
        match self.gadget_of(kind) {
            Some(e) => Ok(e.height),
            None => Err(ExecError::MissingGadget),
        }
    }

    /// The column annotations of the step window, group by group, followed
    /// by the four bookkeeping columns: every label is pinned to its
    /// column's role.
    pub fn annotate_circuit(&self) -> (labels: Vec<(&'static str, usize)>)
        ensures
            labels@.len() == STEP_WIDTH + 4,
            forall|j: int|
                0 <= j < STEP_WIDTH ==> (#[trigger] labels@[j]) == (
                    spec_column_label(spec_step_column_types()[j]),
                    j as usize,
                ),
            labels@[STEP_WIDTH as int] == ("EVM_q_step", 0usize),
            labels@[STEP_WIDTH + 1] == ("EVM_num_rows_inv", 0usize),
            labels@[STEP_WIDTH + 2] == ("EVM_rows_until_next_step", 0usize),
            labels@[STEP_WIDTH + 3] == ("Copy_Constr_const", 0usize),
    {
        let types = step_column_types();
        let mut labels: Vec<(&'static str, usize)> = Vec::new();
        let mut index: usize = 0;
        let mut run: usize = 0;
        while index < types.len()
            invariant
                types@ == spec_step_column_types(),
                types@.len() == STEP_WIDTH,
                index <= types@.len(),
                labels@.len() == index,
                forall|j: int|
                    0 <= j < index ==> (#[trigger] labels@[j]) == (
                        spec_column_label(spec_step_column_types()[j]),
                        j as usize,
                    ),
            decreases types@.len() - index,
        {
            let label = match types[index] {
                CellType::Lookup(Table::Fixed) => "EVM_lookup_fixed",
                CellType::Lookup(Table::Tx) => "EVM_lookup_tx",
                CellType::Lookup(Table::Rw) => "EVM_lookup_rw",
                CellType::Lookup(Table::Bytecode) => "EVM_lookup_bytecode",
                CellType::Lookup(Table::Block) => "EVM_lookup_block",
                CellType::Lookup(Table::Copy) => "EVM_lookup_copy",
                CellType::Lookup(Table::Keccak) => "EVM_lookup_keccak",
                CellType::Lookup(Table::Exp) => "EVM_lookup_exp",
                CellType::Lookup(Table::Sig) => "EVM_lookup_sig",
                CellType::Lookup(Table::ChunkCtx) => "EVM_lookupchunk_ctx",
                CellType::Lookup(Table::U8) => "EVM_lookup_u8",
                CellType::Lookup(Table::U16) => "EVM_lookup_u16",
                CellType::StoragePhase2 => "EVM_adv_phase2",
                CellType::StoragePermutation => "EVM_copy",
                CellType::StoragePhase1 => "EVM_adv_phase1",
            };
            labels.push((label, index));
            index = index + 1;
        }
        labels.push(("EVM_q_step", 0));
        labels.push(("EVM_num_rows_inv", 0));
        labels.push(("EVM_rows_until_next_step", 0));
        labels.push(("Copy_Constr_const", 0));
        labels
    }
}

/// For every declared step kind the features enable, exactly one gadget
/// and one height stand registered: the kind's own slot holds its entry
/// with the discovered height, and no other slot holds an entry of this
/// kind.
pub proof fn lemma_registry_exactly_one(c: ExecutionConfig, kind: ExecutionState)
    requires
        c.spec_wf(),
        c.spec_fully_registered(),
        spec_kind_enabled(kind, c.feature_config),
    ensures
        c.registry@[kind.spec_kind_index()] matches Some(e) && e.kind == kind && e.height
            == spec_needed_rows(kind),
        forall|i: int|
            0 <= i < N_EXECUTION_STATES && i != kind.spec_kind_index() ==> ((
            #[trigger] c.registry@[i]) matches Some(e2) ==> e2.kind != kind),
{
    lemma_kind_index_injective();
    assert(c.spec_registered(kind));
}

impl ExecutionConfig {
    /// Evaluates the debug expressions registered for a kind on a step's
    /// block-start row. Reported only under a debug flag; never part of
    /// the produced constraint system.
    pub fn debug_expression_values(&self, kind: ExecutionState, state: &StepRowState) -> (vals:
        Vec<(DebugExpr, u64)>)
        requires
            self.spec_wf(),
        ensures
            vals@.len() == self.debug_map@[kind.spec_kind_index()]@.len(),
            forall|j: int|
                0 <= j < vals@.len() ==> (#[trigger] vals@[j]) == (
                    self.debug_map@[kind.spec_kind_index()]@[j],
                    state.rw_counter,
                ),
    {
        let idx = kind.kind_index();
        let exprs = &self.debug_map[idx];
        let mut vals: Vec<(DebugExpr, u64)> = Vec::new();
        let mut j: usize = 0;
        while j < exprs.len()
            invariant
                exprs == &self.debug_map@[kind.spec_kind_index()],
                j <= exprs@.len(),
                vals@.len() == j,
                forall|t: int|
                    0 <= t < j ==> (#[trigger] vals@[t]) == (exprs@[t], state.rw_counter),
            decreases exprs@.len() - j,
        {
            let value = match exprs[j] {
                DebugExpr::StepCurrRwCounter => state.rw_counter,
            };
            vals.push((exprs[j], value));
            j = j + 1;
        }
        vals
    }
}

} // verus!
