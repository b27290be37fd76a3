//! Lowering of declarations and patterns.
mod class;
mod function;
mod import_export;
mod pattern;
mod variable;
