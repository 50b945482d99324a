//! Code generation from a block-structured mid-level IR to native IR.
//!
//! `plan` decides, for each MIR construct, what native code it becomes, or
//! which fault stops the program; `codegen` replays a plan through the native
//! IR library and emits textual IR or object files; `laws` states the
//! structural facts that every plan has.

pub mod codegen;
pub mod error;
pub mod laws;
pub mod mir;
pub mod native;
pub mod plan;
pub mod string_map;
pub mod types;
