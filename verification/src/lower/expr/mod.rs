//! Lowering of expressions.
mod assignment;
mod binary;
mod call;
mod collection;
mod function;
mod literal;
mod member;
