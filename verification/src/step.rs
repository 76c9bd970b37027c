//! The closed enumeration of step kinds and its classification.
//!
//! Three families: ordinary opcode kinds, internal pseudo-kinds marking
//! transaction and chunk boundaries, and error kinds, one per distinct
//! abnormal-halt condition. Every kind classifies as halting or not; the
//! state machine over kinds only ever names opcode kinds as a destination
//! through that classification.

use vstd::prelude::*;

verus! {

/// The number of declared step kinds.
pub const N_EXECUTION_STATES: usize = 89;

/// Tag classifying a trace step: an opcode, a boundary pseudo-step, or an
/// error condition.
#[allow(non_camel_case_types)]
#[derive(Clone, Copy, Debug, PartialEq, Eq, Structural)]
pub enum ExecutionState {
    BeginTx,
    EndTx,
    BeginChunk,
    EndChunk,
    EndBlock,
    Padding,
    InvalidTx,
    STOP,
    ADD_SUB,
    MUL_DIV_MOD,
    SDIV_SMOD,
    MULMOD,
    ADDMOD,
    EXP,
    SIGNEXTEND,
    CMP,
    SCMP,
    ISZERO,
    BITWISE,
    NOT,
    BYTE,
    SHL_SHR,
    SAR,
    SHA3,
    ADDRESS,
    BALANCE,
    ORIGIN,
    CALLER,
    CALLVALUE,
    CALLDATALOAD,
    CALLDATASIZE,
    CALLDATACOPY,
    CODESIZE,
    CODECOPY,
    GASPRICE,
    EXTCODESIZE,
    EXTCODECOPY,
    RETURNDATASIZE,
    RETURNDATACOPY,
    EXTCODEHASH,
    BLOCKHASH,
    BLOCKCTX,
    CHAINID,
    SELFBALANCE,
    POP,
    MEMORY,
    SLOAD,
    SSTORE,
    TLOAD,
    TSTORE,
    JUMP,
    JUMPI,
    PC,
    MSIZE,
    GAS,
    JUMPDEST,
    PUSH,
    DUP,
    SWAP,
    LOG,
    CREATE,
    CREATE2,
    CALL_OP,
    RETURN_REVERT,
    SELFDESTRUCT,
    ErrorInvalidOpcode,
    ErrorStack,
    ErrorWriteProtection,
    ErrorInvalidJump,
    ErrorReturnDataOutOfBound,
    ErrorPrecompileFailed,
    ErrorOutOfGasConstant,
    ErrorOutOfGasStaticMemoryExpansion,
    ErrorOutOfGasDynamicMemoryExpansion,
    ErrorOutOfGasMemoryCopy,
    ErrorOutOfGasAccountAccess,
    ErrorCodeStore,
    ErrorOutOfGasLOG,
    ErrorOutOfGasEXP,
    ErrorOutOfGasSHA3,
    ErrorOutOfGasEXTCODECOPY,
    ErrorOutOfGasCall,
    ErrorOutOfGasPrecompile,
    ErrorOutOfGasSloadSstore,
    ErrorOutOfGasCREATE,
    ErrorOutOfGasSELFDESTRUCT,
    ErrorInvalidCreationCode,
    PrecompileEcrecover,
    PrecompileIdentity,
}

impl ExecutionState {
    /// The fixed position of this kind in registry tables.
    pub open spec fn spec_kind_index(self) -> int {
        match self {
            ExecutionState::BeginTx => 0,
            ExecutionState::EndTx => 1,
            ExecutionState::BeginChunk => 2,
            ExecutionState::EndChunk => 3,
            ExecutionState::EndBlock => 4,
            ExecutionState::Padding => 5,
            ExecutionState::InvalidTx => 6,
            ExecutionState::STOP => 7,
            ExecutionState::ADD_SUB => 8,
            ExecutionState::MUL_DIV_MOD => 9,
            ExecutionState::SDIV_SMOD => 10,
            ExecutionState::MULMOD => 11,
            ExecutionState::ADDMOD => 12,
            ExecutionState::EXP => 13,
            ExecutionState::SIGNEXTEND => 14,
            ExecutionState::CMP => 15,
            ExecutionState::SCMP => 16,
            ExecutionState::ISZERO => 17,
            ExecutionState::BITWISE => 18,
            ExecutionState::NOT => 19,
            ExecutionState::BYTE => 20,
            ExecutionState::SHL_SHR => 21,
            ExecutionState::SAR => 22,
            ExecutionState::SHA3 => 23,
            ExecutionState::ADDRESS => 24,
            ExecutionState::BALANCE => 25,
            ExecutionState::ORIGIN => 26,
            ExecutionState::CALLER => 27,
            ExecutionState::CALLVALUE => 28,
            ExecutionState::CALLDATALOAD => 29,
            ExecutionState::CALLDATASIZE => 30,
            ExecutionState::CALLDATACOPY => 31,
            ExecutionState::CODESIZE => 32,
            ExecutionState::CODECOPY => 33,
            ExecutionState::GASPRICE => 34,
            ExecutionState::EXTCODESIZE => 35,
            ExecutionState::EXTCODECOPY => 36,
            ExecutionState::RETURNDATASIZE => 37,
            ExecutionState::RETURNDATACOPY => 38,
            ExecutionState::EXTCODEHASH => 39,
            ExecutionState::BLOCKHASH => 40,
            ExecutionState::BLOCKCTX => 41,
            ExecutionState::CHAINID => 42,
            ExecutionState::SELFBALANCE => 43,
            ExecutionState::POP => 44,
            ExecutionState::MEMORY => 45,
            ExecutionState::SLOAD => 46,
            ExecutionState::SSTORE => 47,
            ExecutionState::TLOAD => 48,
            ExecutionState::TSTORE => 49,
            ExecutionState::JUMP => 50,
            ExecutionState::JUMPI => 51,
            ExecutionState::PC => 52,
            ExecutionState::MSIZE => 53,
            ExecutionState::GAS => 54,
            ExecutionState::JUMPDEST => 55,
            ExecutionState::PUSH => 56,
            ExecutionState::DUP => 57,
            ExecutionState::SWAP => 58,
            ExecutionState::LOG => 59,
            ExecutionState::CREATE => 60,
            ExecutionState::CREATE2 => 61,
            ExecutionState::CALL_OP => 62,
            ExecutionState::RETURN_REVERT => 63,
            ExecutionState::SELFDESTRUCT => 64,
            ExecutionState::ErrorInvalidOpcode => 65,
            ExecutionState::ErrorStack => 66,
            ExecutionState::ErrorWriteProtection => 67,
            ExecutionState::ErrorInvalidJump => 68,
            ExecutionState::ErrorReturnDataOutOfBound => 69,
            ExecutionState::ErrorPrecompileFailed => 70,
            ExecutionState::ErrorOutOfGasConstant => 71,
            ExecutionState::ErrorOutOfGasStaticMemoryExpansion => 72,
            ExecutionState::ErrorOutOfGasDynamicMemoryExpansion => 73,
            ExecutionState::ErrorOutOfGasMemoryCopy => 74,
            ExecutionState::ErrorOutOfGasAccountAccess => 75,
            ExecutionState::ErrorCodeStore => 76,
            ExecutionState::ErrorOutOfGasLOG => 77,
            ExecutionState::ErrorOutOfGasEXP => 78,
            ExecutionState::ErrorOutOfGasSHA3 => 79,
            ExecutionState::ErrorOutOfGasEXTCODECOPY => 80,
            ExecutionState::ErrorOutOfGasCall => 81,
            ExecutionState::ErrorOutOfGasPrecompile => 82,
            ExecutionState::ErrorOutOfGasSloadSstore => 83,
            ExecutionState::ErrorOutOfGasCREATE => 84,
            ExecutionState::ErrorOutOfGasSELFDESTRUCT => 85,
            ExecutionState::ErrorInvalidCreationCode => 86,
            ExecutionState::PrecompileEcrecover => 87,
            ExecutionState::PrecompileIdentity => 88,
        }
    }

    pub fn kind_index(&self) -> (i: usize)
        ensures
            i == self.spec_kind_index(),
            i < N_EXECUTION_STATES,
    {
        match self {
            ExecutionState::BeginTx => 0,
            ExecutionState::EndTx => 1,
            ExecutionState::BeginChunk => 2,
            ExecutionState::EndChunk => 3,
            ExecutionState::EndBlock => 4,
            ExecutionState::Padding => 5,
            ExecutionState::InvalidTx => 6,
            ExecutionState::STOP => 7,
            ExecutionState::ADD_SUB => 8,
            ExecutionState::MUL_DIV_MOD => 9,
            ExecutionState::SDIV_SMOD => 10,
            ExecutionState::MULMOD => 11,
            ExecutionState::ADDMOD => 12,
            ExecutionState::EXP => 13,
            ExecutionState::SIGNEXTEND => 14,
            ExecutionState::CMP => 15,
            ExecutionState::SCMP => 16,
            ExecutionState::ISZERO => 17,
            ExecutionState::BITWISE => 18,
            ExecutionState::NOT => 19,
            ExecutionState::BYTE => 20,
            ExecutionState::SHL_SHR => 21,
            ExecutionState::SAR => 22,
            ExecutionState::SHA3 => 23,
            ExecutionState::ADDRESS => 24,
            ExecutionState::BALANCE => 25,
            ExecutionState::ORIGIN => 26,
            ExecutionState::CALLER => 27,
            ExecutionState::CALLVALUE => 28,
            ExecutionState::CALLDATALOAD => 29,
            ExecutionState::CALLDATASIZE => 30,
            ExecutionState::CALLDATACOPY => 31,
            ExecutionState::CODESIZE => 32,
            ExecutionState::CODECOPY => 33,
            ExecutionState::GASPRICE => 34,
            ExecutionState::EXTCODESIZE => 35,
            ExecutionState::EXTCODECOPY => 36,
            ExecutionState::RETURNDATASIZE => 37,
            ExecutionState::RETURNDATACOPY => 38,
            ExecutionState::EXTCODEHASH => 39,
            ExecutionState::BLOCKHASH => 40,
            ExecutionState::BLOCKCTX => 41,
            ExecutionState::CHAINID => 42,
            ExecutionState::SELFBALANCE => 43,
            ExecutionState::POP => 44,
            ExecutionState::MEMORY => 45,
            ExecutionState::SLOAD => 46,
            ExecutionState::SSTORE => 47,
            ExecutionState::TLOAD => 48,
            ExecutionState::TSTORE => 49,
            ExecutionState::JUMP => 50,
            ExecutionState::JUMPI => 51,
            ExecutionState::PC => 52,
            ExecutionState::MSIZE => 53,
            ExecutionState::GAS => 54,
            ExecutionState::JUMPDEST => 55,
            ExecutionState::PUSH => 56,
            ExecutionState::DUP => 57,
            ExecutionState::SWAP => 58,
            ExecutionState::LOG => 59,
            ExecutionState::CREATE => 60,
            ExecutionState::CREATE2 => 61,
            ExecutionState::CALL_OP => 62,
            ExecutionState::RETURN_REVERT => 63,
            ExecutionState::SELFDESTRUCT => 64,
            ExecutionState::ErrorInvalidOpcode => 65,
            ExecutionState::ErrorStack => 66,
            ExecutionState::ErrorWriteProtection => 67,
            ExecutionState::ErrorInvalidJump => 68,
            ExecutionState::ErrorReturnDataOutOfBound => 69,
            ExecutionState::ErrorPrecompileFailed => 70,
            ExecutionState::ErrorOutOfGasConstant => 71,
            ExecutionState::ErrorOutOfGasStaticMemoryExpansion => 72,
            ExecutionState::ErrorOutOfGasDynamicMemoryExpansion => 73,
            ExecutionState::ErrorOutOfGasMemoryCopy => 74,
            ExecutionState::ErrorOutOfGasAccountAccess => 75,
            ExecutionState::ErrorCodeStore => 76,
            ExecutionState::ErrorOutOfGasLOG => 77,
            ExecutionState::ErrorOutOfGasEXP => 78,
            ExecutionState::ErrorOutOfGasSHA3 => 79,
            ExecutionState::ErrorOutOfGasEXTCODECOPY => 80,
            ExecutionState::ErrorOutOfGasCall => 81,
            ExecutionState::ErrorOutOfGasPrecompile => 82,
            ExecutionState::ErrorOutOfGasSloadSstore => 83,
            ExecutionState::ErrorOutOfGasCREATE => 84,
            ExecutionState::ErrorOutOfGasSELFDESTRUCT => 85,
            ExecutionState::ErrorInvalidCreationCode => 86,
            ExecutionState::PrecompileEcrecover => 87,
            ExecutionState::PrecompileIdentity => 88,
        }
    }

    /// Whether this kind is an internal pseudo-kind marking a transaction or
    /// chunk boundary rather than an opcode.
    pub open spec fn spec_is_internal(self) -> bool {
        match self {
            ExecutionState::BeginTx
            | ExecutionState::EndTx
            | ExecutionState::BeginChunk
            | ExecutionState::EndChunk
            | ExecutionState::EndBlock
            | ExecutionState::Padding
            | ExecutionState::InvalidTx => true,
            _ => false,
        }
    }

    pub fn is_internal(&self) -> (r: bool)
        ensures
            r == self.spec_is_internal(),
    {
        match self {
            ExecutionState::BeginTx
            | ExecutionState::EndTx
            | ExecutionState::BeginChunk
            | ExecutionState::EndChunk
            | ExecutionState::EndBlock
            | ExecutionState::Padding
            | ExecutionState::InvalidTx => true,
            _ => false,
        }
    }

    /// Whether this kind names an abnormal-halt condition.
    pub open spec fn spec_is_error(self) -> bool {
        match self {
            ExecutionState::ErrorInvalidOpcode
            | ExecutionState::ErrorStack
            | ExecutionState::ErrorWriteProtection
            | ExecutionState::ErrorInvalidJump
            | ExecutionState::ErrorReturnDataOutOfBound
            | ExecutionState::ErrorPrecompileFailed
            | ExecutionState::ErrorOutOfGasConstant
            | ExecutionState::ErrorOutOfGasStaticMemoryExpansion
            | ExecutionState::ErrorOutOfGasDynamicMemoryExpansion
            | ExecutionState::ErrorOutOfGasMemoryCopy
            | ExecutionState::ErrorOutOfGasAccountAccess
            | ExecutionState::ErrorCodeStore
            | ExecutionState::ErrorOutOfGasLOG
            | ExecutionState::ErrorOutOfGasEXP
            | ExecutionState::ErrorOutOfGasSHA3
            | ExecutionState::ErrorOutOfGasEXTCODECOPY
            | ExecutionState::ErrorOutOfGasCall
            | ExecutionState::ErrorOutOfGasPrecompile
            | ExecutionState::ErrorOutOfGasSloadSstore
            | ExecutionState::ErrorOutOfGasCREATE
            | ExecutionState::ErrorOutOfGasSELFDESTRUCT
            | ExecutionState::ErrorInvalidCreationCode => true,
            _ => false,
        }
    }

    /// Whether a step of this kind halts its call context: a successful halt,
    /// a self-destruct, or any error kind. Only a halting kind or `BeginTx`
    /// may precede `EndTx`.
    pub open spec fn spec_halts(self) -> bool {
        match self {
            ExecutionState::STOP
            | ExecutionState::RETURN_REVERT
            | ExecutionState::SELFDESTRUCT => true,
            s => s.spec_is_error(),
        }
    }

    pub fn halts(&self) -> (r: bool)
        ensures
            r == self.spec_halts(),
    {
        match self {
            ExecutionState::STOP
            | ExecutionState::RETURN_REVERT
            | ExecutionState::SELFDESTRUCT => true,
            s => s.is_error(),
        }
    }

    pub fn is_error(&self) -> (r: bool)
        ensures
            r == self.spec_is_error(),
    {
        let i = self.kind_index();
        65 <= i && i <= 86
    }
}

/// The kind at a given registry position, if any: the inverse of
/// `spec_kind_index`.
pub open spec fn spec_kind_of_index(i: int) -> Option<ExecutionState> {
    if i < 0 {
        None
    } else if i == 0 {
        Some(ExecutionState::BeginTx)
    } else if i == 1 {
        Some(ExecutionState::EndTx)
    } else if i == 2 {
        Some(ExecutionState::BeginChunk)
    } else if i == 3 {
        Some(ExecutionState::EndChunk)
    } else if i == 4 {
        Some(ExecutionState::EndBlock)
    } else if i == 5 {
        Some(ExecutionState::Padding)
    } else if i == 6 {
        Some(ExecutionState::InvalidTx)
    } else if i == 7 {
        Some(ExecutionState::STOP)
    } else if i == 8 {
        Some(ExecutionState::ADD_SUB)
    } else if i == 9 {
        Some(ExecutionState::MUL_DIV_MOD)
    } else if i == 10 {
        Some(ExecutionState::SDIV_SMOD)
    } else if i == 11 {
        Some(ExecutionState::MULMOD)
    } else if i == 12 {
        Some(ExecutionState::ADDMOD)
    } else if i == 13 {
        Some(ExecutionState::EXP)
    } else if i == 14 {
        Some(ExecutionState::SIGNEXTEND)
    } else if i == 15 {
        Some(ExecutionState::CMP)
    } else if i == 16 {
        Some(ExecutionState::SCMP)
    } else if i == 17 {
        Some(ExecutionState::ISZERO)
    } else if i == 18 {
        Some(ExecutionState::BITWISE)
    } else if i == 19 {
        Some(ExecutionState::NOT)
    } else if i == 20 {
        Some(ExecutionState::BYTE)
    } else if i == 21 {
        Some(ExecutionState::SHL_SHR)
    } else if i == 22 {
        Some(ExecutionState::SAR)
    } else if i == 23 {
        Some(ExecutionState::SHA3)
    } else if i == 24 {
        Some(ExecutionState::ADDRESS)
    } else if i == 25 {
        Some(ExecutionState::BALANCE)
    } else if i == 26 {
        Some(ExecutionState::ORIGIN)
    } else if i == 27 {
        Some(ExecutionState::CALLER)
    } else if i == 28 {
        Some(ExecutionState::CALLVALUE)
    } else if i == 29 {
        Some(ExecutionState::CALLDATALOAD)
    } else if i == 30 {
        Some(ExecutionState::CALLDATASIZE)
    } else if i == 31 {
        Some(ExecutionState::CALLDATACOPY)
    } else if i == 32 {
        Some(ExecutionState::CODESIZE)
    } else if i == 33 {
        Some(ExecutionState::CODECOPY)
    } else if i == 34 {
        Some(ExecutionState::GASPRICE)
    } else if i == 35 {
        Some(ExecutionState::EXTCODESIZE)
    } else if i == 36 {
        Some(ExecutionState::EXTCODECOPY)
    } else if i == 37 {
        Some(ExecutionState::RETURNDATASIZE)
    } else if i == 38 {
        Some(ExecutionState::RETURNDATACOPY)
    } else if i == 39 {
        Some(ExecutionState::EXTCODEHASH)
    } else if i == 40 {
        Some(ExecutionState::BLOCKHASH)
    } else if i == 41 {
        Some(ExecutionState::BLOCKCTX)
    } else if i == 42 {
        Some(ExecutionState::CHAINID)
    } else if i == 43 {
        Some(ExecutionState::SELFBALANCE)
    } else if i == 44 {
        Some(ExecutionState::POP)
    } else if i == 45 {
        Some(ExecutionState::MEMORY)
    } else if i == 46 {
        Some(ExecutionState::SLOAD)
    } else if i == 47 {
        Some(ExecutionState::SSTORE)
    } else if i == 48 {
        Some(ExecutionState::TLOAD)
    } else if i == 49 {
        Some(ExecutionState::TSTORE)
    } else if i == 50 {
        Some(ExecutionState::JUMP)
    } else if i == 51 {
        Some(ExecutionState::JUMPI)
    } else if i == 52 {
        Some(ExecutionState::PC)
    } else if i == 53 {
        Some(ExecutionState::MSIZE)
    } else if i == 54 {
        Some(ExecutionState::GAS)
    } else if i == 55 {
        Some(ExecutionState::JUMPDEST)
    } else if i == 56 {
        Some(ExecutionState::PUSH)
    } else if i == 57 {
        Some(ExecutionState::DUP)
    } else if i == 58 {
        Some(ExecutionState::SWAP)
    } else if i == 59 {
        Some(ExecutionState::LOG)
    } else if i == 60 {
        Some(ExecutionState::CREATE)
    } else if i == 61 {
        Some(ExecutionState::CREATE2)
    } else if i == 62 {
        Some(ExecutionState::CALL_OP)
    } else if i == 63 {
        Some(ExecutionState::RETURN_REVERT)
    } else if i == 64 {
        Some(ExecutionState::SELFDESTRUCT)
    } else if i == 65 {
        Some(ExecutionState::ErrorInvalidOpcode)
    } else if i == 66 {
        Some(ExecutionState::ErrorStack)
    } else if i == 67 {
        Some(ExecutionState::ErrorWriteProtection)
    } else if i == 68 {
        Some(ExecutionState::ErrorInvalidJump)
    } else if i == 69 {
        Some(ExecutionState::ErrorReturnDataOutOfBound)
    } else if i == 70 {
        Some(ExecutionState::ErrorPrecompileFailed)
    } else if i == 71 {
        Some(ExecutionState::ErrorOutOfGasConstant)
    } else if i == 72 {
        Some(ExecutionState::ErrorOutOfGasStaticMemoryExpansion)
    } else if i == 73 {
        Some(ExecutionState::ErrorOutOfGasDynamicMemoryExpansion)
    } else if i == 74 {
        Some(ExecutionState::ErrorOutOfGasMemoryCopy)
    } else if i == 75 {
        Some(ExecutionState::ErrorOutOfGasAccountAccess)
    } else if i == 76 {
        Some(ExecutionState::ErrorCodeStore)
    } else if i == 77 {
        Some(ExecutionState::ErrorOutOfGasLOG)
    } else if i == 78 {
        Some(ExecutionState::ErrorOutOfGasEXP)
    } else if i == 79 {
        Some(ExecutionState::ErrorOutOfGasSHA3)
    } else if i == 80 {
        Some(ExecutionState::ErrorOutOfGasEXTCODECOPY)
    } else if i == 81 {
        Some(ExecutionState::ErrorOutOfGasCall)
    } else if i == 82 {
        Some(ExecutionState::ErrorOutOfGasPrecompile)
    } else if i == 83 {
        Some(ExecutionState::ErrorOutOfGasSloadSstore)
    } else if i == 84 {
        Some(ExecutionState::ErrorOutOfGasCREATE)
    } else if i == 85 {
        Some(ExecutionState::ErrorOutOfGasSELFDESTRUCT)
    } else if i == 86 {
        Some(ExecutionState::ErrorInvalidCreationCode)
    } else if i == 87 {
        Some(ExecutionState::PrecompileEcrecover)
    } else if i == 88 {
        Some(ExecutionState::PrecompileIdentity)
    } else {
        None
    }
}

/// Every kind is recovered from its own registry position.
pub proof fn lemma_kind_of_index_roundtrip()
    ensures
        forall|s: ExecutionState| #[trigger]
            spec_kind_of_index(s.spec_kind_index()) == Some(s),
{
}

/// Distinct kinds occupy distinct registry positions.
pub proof fn lemma_kind_index_injective()
    ensures
        forall|a: ExecutionState, b: ExecutionState|
            a.spec_kind_index() == b.spec_kind_index() ==> a == b,
{
    assert forall|a: ExecutionState, b: ExecutionState|
        a.spec_kind_index() == b.spec_kind_index() implies a == b by {
        assert(spec_kind_of_index(a.spec_kind_index()) == Some(a));
        assert(spec_kind_of_index(b.spec_kind_index()) == Some(b));
    }
}

/// Every declared kind, in registry order: the list that configuration
/// walks, each kind standing at its own index.
pub fn iter_all() -> (states: Vec<ExecutionState>)
    ensures
        states@.len() == N_EXECUTION_STATES,
        forall|i: int|
            0 <= i < states@.len() ==> (#[trigger] states@[i]).spec_kind_index() == i,
{
    let mut states: Vec<ExecutionState> = Vec::new();
    states.push(ExecutionState::BeginTx);
    states.push(ExecutionState::EndTx);
    states.push(ExecutionState::BeginChunk);
    states.push(ExecutionState::EndChunk);
    states.push(ExecutionState::EndBlock);
    states.push(ExecutionState::Padding);
    states.push(ExecutionState::InvalidTx);
    states.push(ExecutionState::STOP);
    states.push(ExecutionState::ADD_SUB);
    states.push(ExecutionState::MUL_DIV_MOD);
    states.push(ExecutionState::SDIV_SMOD);
    states.push(ExecutionState::MULMOD);
    states.push(ExecutionState::ADDMOD);
    states.push(ExecutionState::EXP);
    states.push(ExecutionState::SIGNEXTEND);
    states.push(ExecutionState::CMP);
    states.push(ExecutionState::SCMP);
    states.push(ExecutionState::ISZERO);
    states.push(ExecutionState::BITWISE);
    states.push(ExecutionState::NOT);
    states.push(ExecutionState::BYTE);
    states.push(ExecutionState::SHL_SHR);
    states.push(ExecutionState::SAR);
    states.push(ExecutionState::SHA3);
    states.push(ExecutionState::ADDRESS);
    states.push(ExecutionState::BALANCE);
    states.push(ExecutionState::ORIGIN);
    states.push(ExecutionState::CALLER);
    states.push(ExecutionState::CALLVALUE);
    states.push(ExecutionState::CALLDATALOAD);
    states.push(ExecutionState::CALLDATASIZE);
    states.push(ExecutionState::CALLDATACOPY);
    states.push(ExecutionState::CODESIZE);
    states.push(ExecutionState::CODECOPY);
    states.push(ExecutionState::GASPRICE);
    states.push(ExecutionState::EXTCODESIZE);
    states.push(ExecutionState::EXTCODECOPY);
    states.push(ExecutionState::RETURNDATASIZE);
    states.push(ExecutionState::RETURNDATACOPY);
    states.push(ExecutionState::EXTCODEHASH);
    states.push(ExecutionState::BLOCKHASH);
    states.push(ExecutionState::BLOCKCTX);
    states.push(ExecutionState::CHAINID);
    states.push(ExecutionState::SELFBALANCE);
    states.push(ExecutionState::POP);
    states.push(ExecutionState::MEMORY);
    states.push(ExecutionState::SLOAD);
    states.push(ExecutionState::SSTORE);
    states.push(ExecutionState::TLOAD);
    states.push(ExecutionState::TSTORE);
    states.push(ExecutionState::JUMP);
    states.push(ExecutionState::JUMPI);
    states.push(ExecutionState::PC);
    states.push(ExecutionState::MSIZE);
    states.push(ExecutionState::GAS);
    states.push(ExecutionState::JUMPDEST);
    states.push(ExecutionState::PUSH);
    states.push(ExecutionState::DUP);
    states.push(ExecutionState::SWAP);
    states.push(ExecutionState::LOG);
    states.push(ExecutionState::CREATE);
    states.push(ExecutionState::CREATE2);
    states.push(ExecutionState::CALL_OP);
    states.push(ExecutionState::RETURN_REVERT);
    states.push(ExecutionState::SELFDESTRUCT);
    states.push(ExecutionState::ErrorInvalidOpcode);
    states.push(ExecutionState::ErrorStack);
    states.push(ExecutionState::ErrorWriteProtection);
    states.push(ExecutionState::ErrorInvalidJump);
    states.push(ExecutionState::ErrorReturnDataOutOfBound);
    states.push(ExecutionState::ErrorPrecompileFailed);
    states.push(ExecutionState::ErrorOutOfGasConstant);
    states.push(ExecutionState::ErrorOutOfGasStaticMemoryExpansion);
    states.push(ExecutionState::ErrorOutOfGasDynamicMemoryExpansion);
    states.push(ExecutionState::ErrorOutOfGasMemoryCopy);
    states.push(ExecutionState::ErrorOutOfGasAccountAccess);
    states.push(ExecutionState::ErrorCodeStore);
    states.push(ExecutionState::ErrorOutOfGasLOG);
    states.push(ExecutionState::ErrorOutOfGasEXP);
    states.push(ExecutionState::ErrorOutOfGasSHA3);
    states.push(ExecutionState::ErrorOutOfGasEXTCODECOPY);
    states.push(ExecutionState::ErrorOutOfGasCall);
    states.push(ExecutionState::ErrorOutOfGasPrecompile);
    states.push(ExecutionState::ErrorOutOfGasSloadSstore);
    states.push(ExecutionState::ErrorOutOfGasCREATE);
    states.push(ExecutionState::ErrorOutOfGasSELFDESTRUCT);
    states.push(ExecutionState::ErrorInvalidCreationCode);
    states.push(ExecutionState::PrecompileEcrecover);
    states.push(ExecutionState::PrecompileIdentity);
    states
}

} // verus!
