//! The gadget model and its two-phase configuration protocol.
//!
//! A gadget is the constraint unit bound one-to-one to a step kind; it owns
//! a fixed name and a fixed height that is discovered, not chosen: a first
//! configuration pass runs against a placeholder successor window of the
//! global maximum height purely to measure how many rows the gadget needs,
//! then that placeholder is discarded and the gadget is configured a second
//! time against a window of the measured height. Only the second pass's
//! produce is kept. The trial pass is free of side effects on the registry.

use vstd::prelude::*;

use crate::param::MAX_STEP_HEIGHT;
use crate::step::ExecutionState;

verus! {

/// One named value a gadget materializes into an extra cell so later code
/// can reuse it: a read/write lookup value (possibly written with
/// reversion), the single value standing for a whole copy-event run, or an
/// ordinary intermediate value. Each read/write lookup carries its own
/// ordinal, so two distinct lookups stay distinct even when their values
/// coincide.
#[derive(Clone, Copy, Debug, PartialEq, Eq, Structural)]
pub enum StoredKind {
    RwLookup { with_reversion: bool, ordinal: usize },
    CopyLookup,
    Intermediate,
}

/// How many stored values of each sort a gadget materializes, in the fixed
/// order they are laid down: plain read/write lookups first, then the copy
/// run's single value, then the reversible writes, then the ordinary
/// intermediates.
#[derive(Clone, Copy, Debug, PartialEq, Eq, Structural)]
pub struct StoredShape {
    pub n_rw: usize,
    pub has_copy: bool,
    pub n_rev: usize,
    pub n_other: usize,
}

/// The successor-step window a configuration pass runs against: either the
/// oversized placeholder of the trial pass or the right-sized final window.
#[derive(Clone, Copy, Debug, PartialEq, Eq, Structural)]
pub struct StepWindow {
    pub height: usize,
}

/// What one configuration pass of a gadget produces.
pub struct GadgetBuild {
    pub kind: ExecutionState,
    pub name: &'static str,
    pub height: usize,
    pub stored_layout: Vec<StoredKind>,
}

/// The gadget's fixed name, as the registry shape sees it.
pub open spec fn spec_gadget_name(kind: ExecutionState) -> &'static str {
    match kind {
            ExecutionState::BeginTx => "BeginTx",
            ExecutionState::EndTx => "EndTx",
            ExecutionState::BeginChunk => "BeginChunk",
            ExecutionState::EndChunk => "EndChunk",
            ExecutionState::EndBlock => "EndBlock",
            ExecutionState::Padding => "Padding",
            ExecutionState::InvalidTx => "InvalidTx",
            ExecutionState::STOP => "STOP",
            ExecutionState::ADD_SUB => "ADD_SUB",
            ExecutionState::MUL_DIV_MOD => "MUL_DIV_MOD",
            ExecutionState::SDIV_SMOD => "SDIV_SMOD",
            ExecutionState::MULMOD => "MULMOD",
            ExecutionState::ADDMOD => "ADDMOD",
            ExecutionState::EXP => "EXP",
            ExecutionState::SIGNEXTEND => "SIGNEXTEND",
            ExecutionState::CMP => "CMP",
            ExecutionState::SCMP => "SCMP",
            ExecutionState::ISZERO => "ISZERO",
            ExecutionState::BITWISE => "BITWISE",
            ExecutionState::NOT => "NOT",
            ExecutionState::BYTE => "BYTE",
            ExecutionState::SHL_SHR => "SHL_SHR",
            ExecutionState::SAR => "SAR",
            ExecutionState::SHA3 => "SHA3",
            ExecutionState::ADDRESS => "ADDRESS",
            ExecutionState::BALANCE => "BALANCE",
            ExecutionState::ORIGIN => "ORIGIN",
            ExecutionState::CALLER => "CALLER",
            ExecutionState::CALLVALUE => "CALLVALUE",
            ExecutionState::CALLDATALOAD => "CALLDATALOAD",
            ExecutionState::CALLDATASIZE => "CALLDATASIZE",
            ExecutionState::CALLDATACOPY => "CALLDATACOPY",
            ExecutionState::CODESIZE => "CODESIZE",
            ExecutionState::CODECOPY => "CODECOPY",
            ExecutionState::GASPRICE => "GASPRICE",
            ExecutionState::EXTCODESIZE => "EXTCODESIZE",
            ExecutionState::EXTCODECOPY => "EXTCODECOPY",
            ExecutionState::RETURNDATASIZE => "RETURNDATASIZE",
            ExecutionState::RETURNDATACOPY => "RETURNDATACOPY",
            ExecutionState::EXTCODEHASH => "EXTCODEHASH",
            ExecutionState::BLOCKHASH => "BLOCKHASH",
            ExecutionState::BLOCKCTX => "BLOCKCTX",
            ExecutionState::CHAINID => "CHAINID",
            ExecutionState::SELFBALANCE => "SELFBALANCE",
            ExecutionState::POP => "POP",
            ExecutionState::MEMORY => "MEMORY",
            ExecutionState::SLOAD => "SLOAD",
            ExecutionState::SSTORE => "SSTORE",
            ExecutionState::TLOAD => "TLOAD",
            ExecutionState::TSTORE => "TSTORE",
            ExecutionState::JUMP => "JUMP",
            ExecutionState::JUMPI => "JUMPI",
            ExecutionState::PC => "PC",
            ExecutionState::MSIZE => "MSIZE",
            ExecutionState::GAS => "GAS",
            ExecutionState::JUMPDEST => "JUMPDEST",
            ExecutionState::PUSH => "PUSH",
            ExecutionState::DUP => "DUP",
            ExecutionState::SWAP => "SWAP",
            ExecutionState::LOG => "LOG",
            ExecutionState::CREATE => "CREATE",
            ExecutionState::CREATE2 => "CREATE2",
            ExecutionState::CALL_OP => "CALL_OP",
            ExecutionState::RETURN_REVERT => "RETURN_REVERT",
            ExecutionState::SELFDESTRUCT => "SELFDESTRUCT",
            ExecutionState::ErrorInvalidOpcode => "ErrorInvalidOpcode",
            ExecutionState::ErrorStack => "ErrorStack",
            ExecutionState::ErrorWriteProtection => "ErrorWriteProtection",
            ExecutionState::ErrorInvalidJump => "ErrorInvalidJump",
            ExecutionState::ErrorReturnDataOutOfBound => "ErrorReturnDataOutOfBound",
            ExecutionState::ErrorPrecompileFailed => "ErrorPrecompileFailed",
            ExecutionState::ErrorOutOfGasConstant => "ErrorOutOfGasConstant",
            ExecutionState::ErrorOutOfGasStaticMemoryExpansion => "ErrorOutOfGasStaticMemoryExpansion",
            ExecutionState::ErrorOutOfGasDynamicMemoryExpansion => "ErrorOutOfGasDynamicMemoryExpansion",
            ExecutionState::ErrorOutOfGasMemoryCopy => "ErrorOutOfGasMemoryCopy",
            ExecutionState::ErrorOutOfGasAccountAccess => "ErrorOutOfGasAccountAccess",
            ExecutionState::ErrorCodeStore => "ErrorCodeStore",
            ExecutionState::ErrorOutOfGasLOG => "ErrorOutOfGasLOG",
            ExecutionState::ErrorOutOfGasEXP => "ErrorOutOfGasEXP",
            ExecutionState::ErrorOutOfGasSHA3 => "ErrorOutOfGasSHA3",
            ExecutionState::ErrorOutOfGasEXTCODECOPY => "ErrorOutOfGasEXTCODECOPY",
            ExecutionState::ErrorOutOfGasCall => "ErrorOutOfGasCall",
            ExecutionState::ErrorOutOfGasPrecompile => "ErrorOutOfGasPrecompile",
            ExecutionState::ErrorOutOfGasSloadSstore => "ErrorOutOfGasSloadSstore",
            ExecutionState::ErrorOutOfGasCREATE => "ErrorOutOfGasCREATE",
            ExecutionState::ErrorOutOfGasSELFDESTRUCT => "ErrorOutOfGasSELFDESTRUCT",
            ExecutionState::ErrorInvalidCreationCode => "ErrorInvalidCreationCode",
            ExecutionState::PrecompileEcrecover => "PrecompileEcrecover",
            ExecutionState::PrecompileIdentity => "PrecompileIdentity",
    }
}

/// The gadget's fixed name.
pub fn gadget_name(kind: ExecutionState) -> (name: &'static str)
    ensures
        name == spec_gadget_name(kind),
{
    match kind {
            ExecutionState::BeginTx => "BeginTx",
            ExecutionState::EndTx => "EndTx",
            ExecutionState::BeginChunk => "BeginChunk",
            ExecutionState::EndChunk => "EndChunk",
            ExecutionState::EndBlock => "EndBlock",
            ExecutionState::Padding => "Padding",
            ExecutionState::InvalidTx => "InvalidTx",
            ExecutionState::STOP => "STOP",
            ExecutionState::ADD_SUB => "ADD_SUB",
            ExecutionState::MUL_DIV_MOD => "MUL_DIV_MOD",
            ExecutionState::SDIV_SMOD => "SDIV_SMOD",
            ExecutionState::MULMOD => "MULMOD",
            ExecutionState::ADDMOD => "ADDMOD",
            ExecutionState::EXP => "EXP",
            ExecutionState::SIGNEXTEND => "SIGNEXTEND",
            ExecutionState::CMP => "CMP",
            ExecutionState::SCMP => "SCMP",
            ExecutionState::ISZERO => "ISZERO",
            ExecutionState::BITWISE => "BITWISE",
            ExecutionState::NOT => "NOT",
            ExecutionState::BYTE => "BYTE",
            ExecutionState::SHL_SHR => "SHL_SHR",
            ExecutionState::SAR => "SAR",
            ExecutionState::SHA3 => "SHA3",
            ExecutionState::ADDRESS => "ADDRESS",
            ExecutionState::BALANCE => "BALANCE",
            ExecutionState::ORIGIN => "ORIGIN",
            ExecutionState::CALLER => "CALLER",
            ExecutionState::CALLVALUE => "CALLVALUE",
            ExecutionState::CALLDATALOAD => "CALLDATALOAD",
            ExecutionState::CALLDATASIZE => "CALLDATASIZE",
            ExecutionState::CALLDATACOPY => "CALLDATACOPY",
            ExecutionState::CODESIZE => "CODESIZE",
            ExecutionState::CODECOPY => "CODECOPY",
            ExecutionState::GASPRICE => "GASPRICE",
            ExecutionState::EXTCODESIZE => "EXTCODESIZE",
            ExecutionState::EXTCODECOPY => "EXTCODECOPY",
            ExecutionState::RETURNDATASIZE => "RETURNDATASIZE",
            ExecutionState::RETURNDATACOPY => "RETURNDATACOPY",
            ExecutionState::EXTCODEHASH => "EXTCODEHASH",
            ExecutionState::BLOCKHASH => "BLOCKHASH",
            ExecutionState::BLOCKCTX => "BLOCKCTX",
            ExecutionState::CHAINID => "CHAINID",
            ExecutionState::SELFBALANCE => "SELFBALANCE",
            ExecutionState::POP => "POP",
            ExecutionState::MEMORY => "MEMORY",
            ExecutionState::SLOAD => "SLOAD",
            ExecutionState::SSTORE => "SSTORE",
            ExecutionState::TLOAD => "TLOAD",
            ExecutionState::TSTORE => "TSTORE",
            ExecutionState::JUMP => "JUMP",
            ExecutionState::JUMPI => "JUMPI",
            ExecutionState::PC => "PC",
            ExecutionState::MSIZE => "MSIZE",
            ExecutionState::GAS => "GAS",
            ExecutionState::JUMPDEST => "JUMPDEST",
            ExecutionState::PUSH => "PUSH",
            ExecutionState::DUP => "DUP",
            ExecutionState::SWAP => "SWAP",
            ExecutionState::LOG => "LOG",
            ExecutionState::CREATE => "CREATE",
            ExecutionState::CREATE2 => "CREATE2",
            ExecutionState::CALL_OP => "CALL_OP",
            ExecutionState::RETURN_REVERT => "RETURN_REVERT",
            ExecutionState::SELFDESTRUCT => "SELFDESTRUCT",
            ExecutionState::ErrorInvalidOpcode => "ErrorInvalidOpcode",
            ExecutionState::ErrorStack => "ErrorStack",
            ExecutionState::ErrorWriteProtection => "ErrorWriteProtection",
            ExecutionState::ErrorInvalidJump => "ErrorInvalidJump",
            ExecutionState::ErrorReturnDataOutOfBound => "ErrorReturnDataOutOfBound",
            ExecutionState::ErrorPrecompileFailed => "ErrorPrecompileFailed",
            ExecutionState::ErrorOutOfGasConstant => "ErrorOutOfGasConstant",
            ExecutionState::ErrorOutOfGasStaticMemoryExpansion => "ErrorOutOfGasStaticMemoryExpansion",
            ExecutionState::ErrorOutOfGasDynamicMemoryExpansion => "ErrorOutOfGasDynamicMemoryExpansion",
            ExecutionState::ErrorOutOfGasMemoryCopy => "ErrorOutOfGasMemoryCopy",
            ExecutionState::ErrorOutOfGasAccountAccess => "ErrorOutOfGasAccountAccess",
            ExecutionState::ErrorCodeStore => "ErrorCodeStore",
            ExecutionState::ErrorOutOfGasLOG => "ErrorOutOfGasLOG",
            ExecutionState::ErrorOutOfGasEXP => "ErrorOutOfGasEXP",
            ExecutionState::ErrorOutOfGasSHA3 => "ErrorOutOfGasSHA3",
            ExecutionState::ErrorOutOfGasEXTCODECOPY => "ErrorOutOfGasEXTCODECOPY",
            ExecutionState::ErrorOutOfGasCall => "ErrorOutOfGasCall",
            ExecutionState::ErrorOutOfGasPrecompile => "ErrorOutOfGasPrecompile",
            ExecutionState::ErrorOutOfGasSloadSstore => "ErrorOutOfGasSloadSstore",
            ExecutionState::ErrorOutOfGasCREATE => "ErrorOutOfGasCREATE",
            ExecutionState::ErrorOutOfGasSELFDESTRUCT => "ErrorOutOfGasSELFDESTRUCT",
            ExecutionState::ErrorInvalidCreationCode => "ErrorInvalidCreationCode",
            ExecutionState::PrecompileEcrecover => "PrecompileEcrecover",
            ExecutionState::PrecompileIdentity => "PrecompileIdentity",
    }
}

/// The number of rows a gadget of this kind needs, as its trial
/// configuration discovers it.
pub open spec fn spec_needed_rows(kind: ExecutionState) -> usize {
    match kind {
        ExecutionState::BeginTx => 9,
        ExecutionState::EndTx => 7,
        ExecutionState::BeginChunk
        | ExecutionState::EndChunk
        | ExecutionState::EndBlock
        | ExecutionState::Padding => 1,
        ExecutionState::InvalidTx => 2,
        ExecutionState::CALL_OP => 14,
        ExecutionState::CREATE | ExecutionState::CREATE2 => 12,
        ExecutionState::SSTORE => 10,
        ExecutionState::RETURN_REVERT | ExecutionState::SLOAD => 8,
        ExecutionState::SHA3 => 6,
        ExecutionState::BALANCE
        | ExecutionState::EXTCODESIZE
        | ExecutionState::EXTCODEHASH
        | ExecutionState::EXP
        | ExecutionState::PrecompileEcrecover
        | ExecutionState::PrecompileIdentity => 5,
        ExecutionState::CALLDATACOPY
        | ExecutionState::CODECOPY
        | ExecutionState::EXTCODECOPY
        | ExecutionState::RETURNDATACOPY
        | ExecutionState::LOG => 4,
        ExecutionState::MUL_DIV_MOD
        | ExecutionState::SDIV_SMOD
        | ExecutionState::MULMOD
        | ExecutionState::ADDMOD
        | ExecutionState::SAR
        | ExecutionState::SHL_SHR
        | ExecutionState::MEMORY
        | ExecutionState::SIGNEXTEND => 3,
        s => if s.spec_is_error() {
            3
        } else {
            2
        },
    }
}

pub fn needed_rows(kind: ExecutionState) -> (h: usize)
    ensures
        h == spec_needed_rows(kind),
        1 <= h <= MAX_STEP_HEIGHT,
{
    match kind {
        ExecutionState::BeginTx => 9,
        ExecutionState::EndTx => 7,
        ExecutionState::BeginChunk
        | ExecutionState::EndChunk
        | ExecutionState::EndBlock
        | ExecutionState::Padding => 1,
        ExecutionState::InvalidTx => 2,
        ExecutionState::CALL_OP => 14,
        ExecutionState::CREATE | ExecutionState::CREATE2 => 12,
        ExecutionState::SSTORE => 10,
        ExecutionState::RETURN_REVERT | ExecutionState::SLOAD => 8,
        ExecutionState::SHA3 => 6,
        ExecutionState::BALANCE
        | ExecutionState::EXTCODESIZE
        | ExecutionState::EXTCODEHASH
        | ExecutionState::EXP
        | ExecutionState::PrecompileEcrecover
        | ExecutionState::PrecompileIdentity => 5,
        ExecutionState::CALLDATACOPY
        | ExecutionState::CODECOPY
        | ExecutionState::EXTCODECOPY
        | ExecutionState::RETURNDATACOPY
        | ExecutionState::LOG => 4,
        ExecutionState::MUL_DIV_MOD
        | ExecutionState::SDIV_SMOD
        | ExecutionState::MULMOD
        | ExecutionState::ADDMOD
        | ExecutionState::SAR
        | ExecutionState::SHL_SHR
        | ExecutionState::MEMORY
        | ExecutionState::SIGNEXTEND => 3,
        s => if s.is_error() {
            3
        } else {
            2
        },
    }
}

/// The shape of the stored values a gadget of this kind materializes.
pub open spec fn spec_stored_shape(kind: ExecutionState) -> StoredShape {
    match kind {
        ExecutionState::BeginChunk
        | ExecutionState::EndChunk
        | ExecutionState::EndBlock
        | ExecutionState::Padding => StoredShape { n_rw: 0, has_copy: false, n_rev: 0, n_other: 0 },
        ExecutionState::BeginTx => StoredShape { n_rw: 2, has_copy: false, n_rev: 0, n_other: 1 },
        ExecutionState::EndTx => StoredShape { n_rw: 1, has_copy: false, n_rev: 1, n_other: 0 },
        ExecutionState::InvalidTx
        | ExecutionState::STOP => StoredShape { n_rw: 1, has_copy: false, n_rev: 0, n_other: 0 },
        ExecutionState::SSTORE
        | ExecutionState::TSTORE => StoredShape { n_rw: 1, has_copy: false, n_rev: 1, n_other: 1 },
        ExecutionState::CALL_OP => StoredShape { n_rw: 3, has_copy: false, n_rev: 1, n_other: 1 },
        ExecutionState::CALLDATACOPY
        | ExecutionState::CODECOPY
        | ExecutionState::EXTCODECOPY
        | ExecutionState::RETURNDATACOPY
        | ExecutionState::SHA3 => StoredShape { n_rw: 2, has_copy: true, n_rev: 0, n_other: 0 },
        ExecutionState::LOG => StoredShape { n_rw: 1, has_copy: true, n_rev: 0, n_other: 1 },
        s => if s.spec_is_error() {
            StoredShape { n_rw: 1, has_copy: false, n_rev: 0, n_other: 0 }
        } else {
            StoredShape { n_rw: 2, has_copy: false, n_rev: 0, n_other: 1 }
        },
    }
}

/// How many read/write events a step of this kind performs through its
/// gadget's lookups: the step's intra-block counter offset.
pub open spec fn spec_rw_counter_offset(kind: ExecutionState) -> u64 {
    (spec_stored_shape(kind).n_rw + spec_stored_shape(kind).n_rev) as u64
}

pub fn stored_shape(kind: ExecutionState) -> (s: StoredShape)
    ensures
        s == spec_stored_shape(kind),
        s.n_rw <= 4 && s.n_rev <= 1 && s.n_other <= 1,
{
    match kind {
        ExecutionState::BeginChunk
        | ExecutionState::EndChunk
        | ExecutionState::EndBlock
        | ExecutionState::Padding => StoredShape { n_rw: 0, has_copy: false, n_rev: 0, n_other: 0 },
        ExecutionState::BeginTx => StoredShape { n_rw: 2, has_copy: false, n_rev: 0, n_other: 1 },
        ExecutionState::EndTx => StoredShape { n_rw: 1, has_copy: false, n_rev: 1, n_other: 0 },
        ExecutionState::InvalidTx
        | ExecutionState::STOP => StoredShape { n_rw: 1, has_copy: false, n_rev: 0, n_other: 0 },
        ExecutionState::SSTORE
        | ExecutionState::TSTORE => StoredShape { n_rw: 1, has_copy: false, n_rev: 1, n_other: 1 },
        ExecutionState::CALL_OP => StoredShape { n_rw: 3, has_copy: false, n_rev: 1, n_other: 1 },
        ExecutionState::CALLDATACOPY
        | ExecutionState::CODECOPY
        | ExecutionState::EXTCODECOPY
        | ExecutionState::RETURNDATACOPY
        | ExecutionState::SHA3 => StoredShape { n_rw: 2, has_copy: true, n_rev: 0, n_other: 0 },
        ExecutionState::LOG => StoredShape { n_rw: 1, has_copy: true, n_rev: 0, n_other: 1 },
        s => if s.is_error() {
            StoredShape { n_rw: 1, has_copy: false, n_rev: 0, n_other: 0 }
        } else {
            StoredShape { n_rw: 2, has_copy: false, n_rev: 0, n_other: 1 }
        },
    }
}

/// The stored-value layout a shape lays down, in order.
pub open spec fn spec_stored_layout(shape: StoredShape) -> Seq<StoredKind> {
    Seq::new(
        shape.n_rw as nat,
        |i: int| StoredKind::RwLookup { with_reversion: false, ordinal: i as usize },
    ) + (if (shape.has_copy) {
        seq![StoredKind::CopyLookup]
    } else {
        Seq::empty()
    }) + Seq::new(
        shape.n_rev as nat,
        |i: int|
            StoredKind::RwLookup {
                with_reversion: true,
                ordinal: (shape.n_rw + (if shape.has_copy {
                    1int
                } else {
                    0int
                }) + i) as usize,
            },
    ) + Seq::new(shape.n_other as nat, |i: int| StoredKind::Intermediate)
}

pub fn build_stored_layout(shape: StoredShape) -> (layout: Vec<StoredKind>)
    requires
        shape.n_rw <= 4,
        shape.n_rev <= 1,
        shape.n_other <= 1,
    ensures
        layout@ == spec_stored_layout(shape),
{
    let mut layout: Vec<StoredKind> = Vec::new();
    let mut i: usize = 0;
    while i < shape.n_rw
        invariant
            i <= shape.n_rw,
            layout@ == Seq::new(
                i as nat,
                |j: int| StoredKind::RwLookup { with_reversion: false, ordinal: j as usize },
            ),
        decreases shape.n_rw - i,
    {
        layout.push(StoredKind::RwLookup { with_reversion: false, ordinal: i });
        i = i + 1;
        proof {
            assert(layout@ =~= Seq::new(
                i as nat,
                |j: int| StoredKind::RwLookup { with_reversion: false, ordinal: j as usize },
            ));
        }
    }
    let n_copy: usize = if shape.has_copy {
        layout.push(StoredKind::CopyLookup);
        1
    } else {
        0
    };
    let mut t: usize = 0;
    while t < shape.n_rev
        invariant
            t <= shape.n_rev,
            shape.n_rw <= 4,
            shape.n_rev <= 1,
            n_copy == (if shape.has_copy {
                1int
            } else {
                0int
            }),
            layout@ == Seq::new(
                shape.n_rw as nat,
                |j: int| StoredKind::RwLookup { with_reversion: false, ordinal: j as usize },
            ) + (if (shape.has_copy) {
                seq![StoredKind::CopyLookup]
            } else {
                Seq::<StoredKind>::empty()
            }) + Seq::new(
                t as nat,
                |j: int|
                    StoredKind::RwLookup {
                        with_reversion: true,
                        ordinal: (shape.n_rw + (if shape.has_copy {
                            1int
                        } else {
                            0int
                        }) + j) as usize,
                    },
            ),
        decreases shape.n_rev - t,
    {
        layout.push(
            StoredKind::RwLookup { with_reversion: true, ordinal: shape.n_rw + n_copy + t },
        );
        t = t + 1;
        proof {
            assert(layout@ =~= Seq::new(
                shape.n_rw as nat,
                |j: int| StoredKind::RwLookup { with_reversion: false, ordinal: j as usize },
            ) + (if (shape.has_copy) {
                seq![StoredKind::CopyLookup]
            } else {
                Seq::<StoredKind>::empty()
            }) + Seq::new(
                t as nat,
                |j: int|
                    StoredKind::RwLookup {
                        with_reversion: true,
                        ordinal: (shape.n_rw + (if shape.has_copy {
                            1int
                        } else {
                            0int
                        }) + j) as usize,
                    },
            ));
        }
    }
    let mut o: usize = 0;
    while o < shape.n_other
        invariant
            o <= shape.n_other,
            layout@ == Seq::new(
                shape.n_rw as nat,
                |j: int| StoredKind::RwLookup { with_reversion: false, ordinal: j as usize },
            ) + (if (shape.has_copy) {
                seq![StoredKind::CopyLookup]
            } else {
                Seq::<StoredKind>::empty()
            }) + Seq::new(
                shape.n_rev as nat,
                |j: int|
                    StoredKind::RwLookup {
                        with_reversion: true,
                        ordinal: (shape.n_rw + (if shape.has_copy {
                            1int
                        } else {
                            0int
                        }) + j) as usize,
                    },
            ) + Seq::new(o as nat, |j: int| StoredKind::Intermediate),
        decreases shape.n_other - o,
    {
        layout.push(StoredKind::Intermediate);
        o = o + 1;
        proof {
            assert(layout@ =~= Seq::new(
                shape.n_rw as nat,
                |j: int| StoredKind::RwLookup { with_reversion: false, ordinal: j as usize },
            ) + (if (shape.has_copy) {
                seq![StoredKind::CopyLookup]
            } else {
                Seq::<StoredKind>::empty()
            }) + Seq::new(
                shape.n_rev as nat,
                |j: int|
                    StoredKind::RwLookup {
                        with_reversion: true,
                        ordinal: (shape.n_rw + (if shape.has_copy {
                            1int
                        } else {
                            0int
                        }) + j) as usize,
                    },
            ) + Seq::new(o as nat, |j: int| StoredKind::Intermediate));
        }
    }
    proof {
        assert(layout@ =~= spec_stored_layout(shape));
    }
    layout
}

pub fn rw_counter_offset(kind: ExecutionState) -> (off: u64)
    ensures
        off == spec_rw_counter_offset(kind),
{
    let shape = stored_shape(kind);
    (shape.n_rw + shape.n_rev) as u64
}

/// One configuration pass of the gadget bound to this kind, run against the
/// given successor window: it reports the rows the gadget needs and the
/// stored values it materializes. The pass only reads the window, so a
/// trial run leaves no trace behind.
pub fn gadget_configure(kind: ExecutionState, window: &StepWindow) -> (b: GadgetBuild)
    requires
        window.height >= spec_needed_rows(kind),
    ensures
        b.kind == kind,
        b.name == spec_gadget_name(kind),
        b.height == spec_needed_rows(kind),
        b.stored_layout@ == spec_stored_layout(spec_stored_shape(kind)),
{
    let height = needed_rows(kind);
    let shape = stored_shape(kind);
    GadgetBuild {
        kind,
        name: gadget_name(kind),
        height,
        stored_layout: build_stored_layout(shape),
    }
}

} // verus!
