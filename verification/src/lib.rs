//! A small symbolic-algebra kernel.
//!
//! Expression trees are built from value leaves, the symbolic identity
//! elements `Zero` and `One`, and unary/binary operator nodes.  The kernel
//! evaluates a tree to a concrete `i64` value (`eval`), differentiates a tree
//! symbolically with respect to a tagged variable (`deriv`), and simplifies a
//! tree through a terminating set of local rewrite rules (`reduce`).
//!
//! Variables are told apart by identifiers built from two binary symbols and
//! a pairing constructor; a two-valued logic kernel supplies the boolean
//! algebra that identifier equality and differentiation decide with.

use vstd::prelude::*;

pub mod arith;
pub mod boolean;
pub mod expr;
pub mod func;
pub mod ident;
pub mod tags;

verus! {

/// First symbol of the binary alphabet; doubles as the type-level `False`.
#[derive(Copy, Clone, Debug)]
pub struct T0;

/// Second symbol of the binary alphabet; doubles as the type-level `True`.
#[derive(Copy, Clone, Debug)]
pub struct T1;

} // verus!


