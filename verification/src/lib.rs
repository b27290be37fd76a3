//! Lowering of JavaScript / TypeScript concrete syntax trees into a common,
//! language-neutral IR.
pub mod ir;
pub mod ir_model;
pub mod source;
pub mod cst;
pub mod text;
pub mod lower;
pub mod bindings;
pub mod parser;
pub mod tree_sitter_calls;
