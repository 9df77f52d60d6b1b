//! The untyped abstract syntax of ZoKrates programs and its construction
//! from the parse tree of a source file.
use vstd::prelude::*;

pub mod number;
pub mod parse_tree;
pub mod untyped;
pub mod correspondence;
pub mod convert;
pub mod symbols;
pub mod laws;
pub mod expression_laws;
pub mod statement_laws;
pub mod symbol_laws;
