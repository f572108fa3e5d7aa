//! Lowering of one typed, already-checked class declaration into the
//! structural class descriptor consumed by a bytecode assembler.
//!
//! The crate models the declaration (`ast`), the descriptor (`hhas`), and the
//! classified fatal errors (`error`), and proves that the orchestrator in
//! `emit_class` produces exactly the descriptor described by its
//! specification functions.

pub mod ast;
pub mod emit_attribute;
pub mod emit_body;
pub mod emit_class;
pub mod emit_method;
pub mod emit_property;
pub mod emit_type_constant;
pub mod emit_type_hint;
pub mod error;
pub mod hhas;
pub mod laws;
pub mod strings;
