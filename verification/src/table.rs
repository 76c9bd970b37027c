//! Identities of the external reference tables and the tagging of value
//! cells with the table each must look into.
//!
//! The lookup binder is agnostic to table internals: a table is consumed
//! only as "the ordered list of column values it contributes for a row",
//! compared through a random linear combination under the one shared
//! challenge scalar.

use vstd::prelude::*;

use crate::param::{
    BLOCK_TABLE_LOOKUPS, BYTECODE_TABLE_LOOKUPS, CHUNK_CTX_TABLE_LOOKUPS, COPY_TABLE_LOOKUPS,
    EXP_TABLE_LOOKUPS, FIXED_TABLE_LOOKUPS, KECCAK_TABLE_LOOKUPS, N_COPY_COLUMNS,
    N_PHASE1_COLUMNS, N_PHASE2_COLUMNS, N_U16_LOOKUPS, N_U8_LOOKUPS, RW_TABLE_LOOKUPS,
    SIG_TABLE_LOOKUPS, STEP_WIDTH, TX_TABLE_LOOKUPS,
};

verus! {

/// Identity of an external reference table.
#[derive(Clone, Copy, Debug, PartialEq, Eq, Structural)]
pub enum Table {
    Fixed,
    U8,
    U16,
    Tx,
    Rw,
    Bytecode,
    Block,
    Copy,
    Keccak,
    Exp,
    Sig,
    ChunkCtx,
}

/// The role of one value column of the step window.
#[derive(Clone, Copy, Debug, PartialEq, Eq, Structural)]
pub enum CellType {
    StoragePhase1,
    StoragePhase2,
    StoragePermutation,
    Lookup(Table),
}

/// How many lookup slots each table identity owns in the step window.
pub fn table_lookup_count(table: Table) -> (n: usize)
    ensures
        n >= 1,
{
    match table {
        Table::Fixed => FIXED_TABLE_LOOKUPS,
        Table::U8 => N_U8_LOOKUPS,
        Table::U16 => N_U16_LOOKUPS,
        Table::Tx => TX_TABLE_LOOKUPS,
        Table::Rw => RW_TABLE_LOOKUPS,
        Table::Bytecode => BYTECODE_TABLE_LOOKUPS,
        Table::Block => BLOCK_TABLE_LOOKUPS,
        Table::Copy => COPY_TABLE_LOOKUPS,
        Table::Keccak => KECCAK_TABLE_LOOKUPS,
        Table::Exp => EXP_TABLE_LOOKUPS,
        Table::Sig => SIG_TABLE_LOOKUPS,
        Table::ChunkCtx => CHUNK_CTX_TABLE_LOOKUPS,
    }
}

fn push_n(types: &mut Vec<CellType>, t: CellType, n: usize)
    ensures
        final(types)@ == old(types)@ + Seq::new(n as nat, |i: int| t),
{
    let mut i: usize = 0;
    while i < n
        invariant
            i <= n,
            types@ == old(types)@ + Seq::new(i as nat, |j: int| t),
        decreases n - i,
    {
        types.push(t);
        i = i + 1;
        assert(old(types)@ + Seq::new((i - 1) as nat, |j: int| t) + seq![t] =~= old(types)@
            + Seq::new(i as nat, |j: int| t));
    }
}

/// A run of identical cell types.
pub open spec fn spec_cells(t: CellType, n: usize) -> Seq<CellType> {
    Seq::new(n as nat, |i: int| t)
}

/// The fixed role of every column of the step window, as a sequence:
/// lookup slots first, then the later-phase, copy, range-lookup and
/// first-phase groups.
pub open spec fn spec_step_column_types() -> Seq<CellType> {
    spec_cells(CellType::Lookup(Table::Fixed), FIXED_TABLE_LOOKUPS) + spec_cells(
        CellType::Lookup(Table::Tx),
        TX_TABLE_LOOKUPS,
    ) + spec_cells(CellType::Lookup(Table::Rw), RW_TABLE_LOOKUPS) + spec_cells(
        CellType::Lookup(Table::Bytecode),
        BYTECODE_TABLE_LOOKUPS,
    ) + spec_cells(CellType::Lookup(Table::Block), BLOCK_TABLE_LOOKUPS) + spec_cells(
        CellType::Lookup(Table::Copy),
        COPY_TABLE_LOOKUPS,
    ) + spec_cells(CellType::Lookup(Table::Keccak), KECCAK_TABLE_LOOKUPS) + spec_cells(
        CellType::Lookup(Table::Exp),
        EXP_TABLE_LOOKUPS,
    ) + spec_cells(CellType::Lookup(Table::Sig), SIG_TABLE_LOOKUPS) + spec_cells(
        CellType::Lookup(Table::ChunkCtx),
        CHUNK_CTX_TABLE_LOOKUPS,
    ) + spec_cells(CellType::StoragePhase2, N_PHASE2_COLUMNS) + spec_cells(
        CellType::StoragePermutation,
        N_COPY_COLUMNS,
    ) + spec_cells(CellType::Lookup(Table::U8), N_U8_LOOKUPS) + spec_cells(
        CellType::Lookup(Table::U16),
        N_U16_LOOKUPS,
    ) + spec_cells(CellType::StoragePhase1, N_PHASE1_COLUMNS)
}

/// The fixed role of every column of the step window, lookup slots first,
/// in the order the column groups are annotated.
pub fn step_column_types() -> (types: Vec<CellType>)
    ensures
        types@.len() == STEP_WIDTH,
        types@ == spec_step_column_types(),
{
    let mut types: Vec<CellType> = Vec::new();
    push_n(&mut types, CellType::Lookup(Table::Fixed), FIXED_TABLE_LOOKUPS);
    push_n(&mut types, CellType::Lookup(Table::Tx), TX_TABLE_LOOKUPS);
    push_n(&mut types, CellType::Lookup(Table::Rw), RW_TABLE_LOOKUPS);
    push_n(&mut types, CellType::Lookup(Table::Bytecode), BYTECODE_TABLE_LOOKUPS);
    push_n(&mut types, CellType::Lookup(Table::Block), BLOCK_TABLE_LOOKUPS);
    push_n(&mut types, CellType::Lookup(Table::Copy), COPY_TABLE_LOOKUPS);
    push_n(&mut types, CellType::Lookup(Table::Keccak), KECCAK_TABLE_LOOKUPS);
    push_n(&mut types, CellType::Lookup(Table::Exp), EXP_TABLE_LOOKUPS);
    push_n(&mut types, CellType::Lookup(Table::Sig), SIG_TABLE_LOOKUPS);
    push_n(&mut types, CellType::Lookup(Table::ChunkCtx), CHUNK_CTX_TABLE_LOOKUPS);
    push_n(&mut types, CellType::StoragePhase2, N_PHASE2_COLUMNS);
    push_n(&mut types, CellType::StoragePermutation, N_COPY_COLUMNS);
    push_n(&mut types, CellType::Lookup(Table::U8), N_U8_LOOKUPS);
    push_n(&mut types, CellType::Lookup(Table::U16), N_U16_LOOKUPS);
    push_n(&mut types, CellType::StoragePhase1, N_PHASE1_COLUMNS);
    assert(types@ =~= spec_step_column_types());
    types
}

} // verus!
