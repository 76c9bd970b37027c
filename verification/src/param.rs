//! Fixed shape parameters of the step grid.
//!
//! The column budget is split into groups: one column per external-table
//! lookup slot, then the later-phase value columns, the copy-constraint
//! columns, the byte- and word-range lookup columns, and the plain
//! first-phase value columns.

use vstd::prelude::*;

verus! {

/// The global maximum height of a single row block; a gadget whose
/// discovered height exceeds it is a fatal configuration error.
pub const MAX_STEP_HEIGHT: usize = 21;

pub const FIXED_TABLE_LOOKUPS: usize = 8;

pub const TX_TABLE_LOOKUPS: usize = 4;

pub const RW_TABLE_LOOKUPS: usize = 13;

pub const BYTECODE_TABLE_LOOKUPS: usize = 4;

pub const BLOCK_TABLE_LOOKUPS: usize = 1;

pub const COPY_TABLE_LOOKUPS: usize = 1;

pub const KECCAK_TABLE_LOOKUPS: usize = 1;

pub const EXP_TABLE_LOOKUPS: usize = 1;

pub const SIG_TABLE_LOOKUPS: usize = 1;

pub const CHUNK_CTX_TABLE_LOOKUPS: usize = 1;

/// Columns reserved for external-table lookup slots.
pub const EVM_LOOKUP_COLS: usize = FIXED_TABLE_LOOKUPS + TX_TABLE_LOOKUPS + RW_TABLE_LOOKUPS
    + BYTECODE_TABLE_LOOKUPS + BLOCK_TABLE_LOOKUPS + COPY_TABLE_LOOKUPS + KECCAK_TABLE_LOOKUPS
    + EXP_TABLE_LOOKUPS + SIG_TABLE_LOOKUPS + CHUNK_CTX_TABLE_LOOKUPS;

pub const N_PHASE2_COLUMNS: usize = 4;

pub const N_COPY_COLUMNS: usize = 2;

pub const N_U8_LOOKUPS: usize = 12;

pub const N_U16_LOOKUPS: usize = 6;

pub const N_PHASE1_COLUMNS: usize = 5;

/// The fixed width of the step grid.
pub const STEP_WIDTH: usize = EVM_LOOKUP_COLS + N_PHASE2_COLUMNS + N_COPY_COLUMNS + N_U8_LOOKUPS
    + N_U16_LOOKUPS + N_PHASE1_COLUMNS;

} // verus!
