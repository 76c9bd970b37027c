//! A verified model of the execution-step orchestration layer of an
//! EVM-style arithmetic circuit.
//!
//! The library compiles an ordered machine-execution trace, split into
//! provable chunks, into a fixed-shape grid of witness values together with
//! the constraint data that any filled grid must satisfy: a row-block
//! allocator with its boolean selector tracks, a registry binding each step
//! kind to exactly one gadget and one row height, a state machine over step
//! kinds, membership bindings into external reference tables, chunk-boundary
//! stitching, and a debug-only cross-check of recorded read/write events.

pub mod assign;
pub mod checker;
pub mod config;
pub mod field;
pub mod gadget;
pub mod grid;
pub mod param;
pub mod step;
pub mod table;
pub mod transition;
pub mod witness;
