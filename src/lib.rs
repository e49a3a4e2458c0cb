//! Core of an embeddable scripting language: reference-counted heap cells
//! with checked shared and exclusive borrows, stable item hashes, a lexer
//! and a parser, a code generator that keeps the operand stack balanced, a
//! registry of host modules and a linker, and a stack machine that runs
//! compiled units and hands host calls back to its embedder.
use vstd::prelude::*;

pub mod access;
pub mod ast;
pub mod compile;
pub mod context;
pub mod decl;
pub mod hash;
pub mod http;
pub mod lexer;
pub mod parser;
pub mod token;
pub mod unit;
pub mod ref_count;
pub mod reflection;
pub mod select;
pub mod shared;
pub mod std_result;
pub mod value;
pub mod vm;

verus! {

} // verus!
