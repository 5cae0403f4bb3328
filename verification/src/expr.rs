//! The expression tree and its evaluator.
//!
//! A tree is a closed sum of node kinds: a value leaf carrying an `i64` and a
//! variable tag, the symbolic identity elements `Zero` and `One`, unary
//! negate/not, and the binary arithmetic, bitwise, shift and remainder
//! operators.  `value_of` gives each tree its mathematical value; `eval_ok`
//! says when every host operation along the way is defined and in range, and
//! the evaluator computes `value_of` exactly under that precondition.

use crate::arith::{
    div_i64, in_i64, lemma_tdiv_in_range, lemma_trem_in_range, rem_i64, tdiv, trem,
};
use crate::expr::var::Var;
use vstd::prelude::*;

pub mod deriv;
pub mod ops;
pub mod var;

verus! {

/// Something that evaluates to a concrete value.
pub trait Expression {
    type Output;

    /// When evaluation is defined (no host operation fails or overflows).
    spec fn eval_req(&self) -> bool;

    /// The value evaluation returns.
    spec fn eval_spec(&self) -> Self::Output;

    fn eval(&self) -> (r: Self::Output)
        requires
            self.eval_req(),
        ensures
            r == self.eval_spec(),
    ;
}

/// Something that rewrites to a simplified form of itself.
pub trait Reduce {
    type Output;

    /// The simplified form.
    spec fn reduce_spec(&self) -> Self::Output;

    fn reduce(&self) -> (r: Self::Output)
        ensures
            r == self.reduce_spec(),
    ;
}

/// The symbolic additive identity.
#[derive(Copy, Clone, Debug)]
pub struct Zero;

/// The symbolic multiplicative identity.
#[derive(Copy, Clone, Debug)]
pub struct One;

impl Expression for Zero {
    type Output = i64;

    open spec fn eval_req(&self) -> bool {
        true
    }

    open spec fn eval_spec(&self) -> i64 {
        0
    }

    fn eval(&self) -> (r: i64) {
        0
    }
}

impl Expression for One {
    type Output = i64;

    open spec fn eval_req(&self) -> bool {
        true
    }

    open spec fn eval_spec(&self) -> i64 {
        1
    }

    fn eval(&self) -> (r: i64) {
        1
    }
}

/// An expression tree.
#[derive(Debug)]
pub enum Tree {
    Leaf(Var),
    Zero,
    One,
    Neg(Box<Tree>),
    Not(Box<Tree>),
    Add(Box<Tree>, Box<Tree>),
    Sub(Box<Tree>, Box<Tree>),
    Mul(Box<Tree>, Box<Tree>),
    Div(Box<Tree>, Box<Tree>),
    BitAnd(Box<Tree>, Box<Tree>),
    BitOr(Box<Tree>, Box<Tree>),
    BitXor(Box<Tree>, Box<Tree>),
    Shl(Box<Tree>, Box<Tree>),
    Shr(Box<Tree>, Box<Tree>),
    Rem(Box<Tree>, Box<Tree>),
}

/// The mathematical value of a tree: each node applies its host operator to
/// its children's values, with division and remainder rounding toward zero as
/// Rust's `/` and `%` do.
pub open spec fn value_of(t: Tree) -> int
    decreases t,
{
    match t {
        Tree::Leaf(v) => v.value as int,
        Tree::Zero => 0,
        Tree::One => 1,
        Tree::Neg(a) => -value_of(*a),
        Tree::Not(a) => !(value_of(*a) as i64) as int,
        Tree::Add(a, b) => value_of(*a) + value_of(*b),
        Tree::Sub(a, b) => value_of(*a) - value_of(*b),
        Tree::Mul(a, b) => value_of(*a) * value_of(*b),
        Tree::Div(a, b) => tdiv(value_of(*a), value_of(*b)),
        Tree::BitAnd(a, b) => ((value_of(*a) as i64) & (value_of(*b) as i64)) as int,
        Tree::BitOr(a, b) => ((value_of(*a) as i64) | (value_of(*b) as i64)) as int,
        Tree::BitXor(a, b) => ((value_of(*a) as i64) ^ (value_of(*b) as i64)) as int,
        Tree::Shl(a, b) => ((value_of(*a) as i64) << (value_of(*b) as i64)) as int,
        Tree::Shr(a, b) => ((value_of(*a) as i64) >> (value_of(*b) as i64)) as int,
        Tree::Rem(a, b) => trem(value_of(*a), value_of(*b)),
    }
}

/// When evaluating a tree performs only defined, in-range host operations:
/// no intermediate result leaves `i64`, every divisor is nonzero, division
/// never overflows, and shift amounts lie below the width.
pub open spec fn eval_ok(t: Tree) -> bool
    decreases t,
{
    match t {
        Tree::Leaf(_) => true,
        Tree::Zero => true,
        Tree::One => true,
        Tree::Neg(a) => eval_ok(*a) && in_i64(-value_of(*a)),
        Tree::Not(a) => eval_ok(*a),
        Tree::Add(a, b) => eval_ok(*a) && eval_ok(*b) && in_i64(value_of(*a) + value_of(*b)),
        Tree::Sub(a, b) => eval_ok(*a) && eval_ok(*b) && in_i64(value_of(*a) - value_of(*b)),
        Tree::Mul(a, b) => eval_ok(*a) && eval_ok(*b) && in_i64(value_of(*a) * value_of(*b)),
        Tree::Div(a, b) => eval_ok(*a) && eval_ok(*b) && value_of(*b) != 0 && !(value_of(*a)
            == i64::MIN && value_of(*b) == -1),
        Tree::BitAnd(a, b) => eval_ok(*a) && eval_ok(*b),
        Tree::BitOr(a, b) => eval_ok(*a) && eval_ok(*b),
        Tree::BitXor(a, b) => eval_ok(*a) && eval_ok(*b),
        Tree::Shl(a, b) => eval_ok(*a) && eval_ok(*b) && 0 <= value_of(*b) < 64,
        Tree::Shr(a, b) => eval_ok(*a) && eval_ok(*b) && 0 <= value_of(*b) < 64,
        Tree::Rem(a, b) => eval_ok(*a) && eval_ok(*b) && value_of(*b) != 0 && !(value_of(*a)
            == i64::MIN && value_of(*b) == -1),
    }
}

/// A tree whose evaluation is defined has an in-range value.
pub proof fn lemma_value_in_range(t: Tree)
    requires
        eval_ok(t),
    ensures
        in_i64(value_of(t)),
    decreases t,
{
    match t {
        Tree::Not(a) => {
            let x = value_of(*a) as i64;
            assert(i64::MIN <= !x <= i64::MAX) by (bit_vector);
        },
        Tree::Div(a, b) => {
            lemma_value_in_range(*a);
            lemma_value_in_range(*b);
            lemma_tdiv_in_range(value_of(*a), value_of(*b));
        },
        Tree::Rem(a, b) => {
            lemma_value_in_range(*a);
            lemma_value_in_range(*b);
            lemma_trem_in_range(value_of(*a), value_of(*b));
        },
        _ => {},
    }
}

/// Evaluates a tree bottom-up, applying the host operator at each node.
pub fn eval_tree(t: &Tree) -> (r: i64)
    requires
        eval_ok(*t),
    ensures
        r as int == value_of(*t),
    decreases *t,
{
    match t {
        Tree::Leaf(v) => v.value,
        Tree::Zero => 0,
        Tree::One => 1,
        Tree::Neg(a) => {
            let x = eval_tree(a);
            -x
        },
        Tree::Not(a) => {
            let x = eval_tree(a);
            !x
        },
        Tree::Add(a, b) => eval_tree(a) + eval_tree(b),
        Tree::Sub(a, b) => eval_tree(a) - eval_tree(b),
        Tree::Mul(a, b) => eval_tree(a) * eval_tree(b),
        Tree::Div(a, b) => div_i64(eval_tree(a), eval_tree(b)),
        Tree::BitAnd(a, b) => eval_tree(a) & eval_tree(b),
        Tree::BitOr(a, b) => eval_tree(a) | eval_tree(b),
        Tree::BitXor(a, b) => eval_tree(a) ^ eval_tree(b),
        Tree::Shl(a, b) => eval_tree(a) << eval_tree(b),
        Tree::Shr(a, b) => eval_tree(a) >> eval_tree(b),
        Tree::Rem(a, b) => rem_i64(eval_tree(a), eval_tree(b)),
    }
}

impl Expression for Tree {
    type Output = i64;

    open spec fn eval_req(&self) -> bool {
        eval_ok(*self)
    }

    open spec fn eval_spec(&self) -> i64 {
        value_of(*self) as i64
    }

    fn eval(&self) -> (r: i64) {
        proof {
            lemma_value_in_range(*self);
        }
        eval_tree(self)
    }
}

impl Clone for Tree {
    fn clone(&self) -> (r: Self)
        ensures
            r == *self,
        decreases *self,
    {
        match self {
            Tree::Leaf(v) => Tree::Leaf(v.clone()),
            Tree::Zero => Tree::Zero,
            Tree::One => Tree::One,
            Tree::Neg(a) => Tree::Neg(Box::new((**a).clone())),
            Tree::Not(a) => Tree::Not(Box::new((**a).clone())),
            Tree::Add(a, b) => Tree::Add(Box::new((**a).clone()), Box::new((**b).clone())),
            Tree::Sub(a, b) => Tree::Sub(Box::new((**a).clone()), Box::new((**b).clone())),
            Tree::Mul(a, b) => Tree::Mul(Box::new((**a).clone()), Box::new((**b).clone())),
            Tree::Div(a, b) => Tree::Div(Box::new((**a).clone()), Box::new((**b).clone())),
            Tree::BitAnd(a, b) => Tree::BitAnd(Box::new((**a).clone()), Box::new((**b).clone())),
            Tree::BitOr(a, b) => Tree::BitOr(Box::new((**a).clone()), Box::new((**b).clone())),
            Tree::BitXor(a, b) => Tree::BitXor(Box::new((**a).clone()), Box::new((**b).clone())),
            Tree::Shl(a, b) => Tree::Shl(Box::new((**a).clone()), Box::new((**b).clone())),
            Tree::Shr(a, b) => Tree::Shr(Box::new((**a).clone()), Box::new((**b).clone())),
            Tree::Rem(a, b) => Tree::Rem(Box::new((**a).clone()), Box::new((**b).clone())),
        }
    }
}

impl PartialEq for Tree {
    fn eq(&self, other: &Tree) -> (r: bool)
        decreases *self,
    {
        match (self, other) {
            (Tree::Leaf(a), Tree::Leaf(b)) => *a == *b,
            (Tree::Zero, Tree::Zero) => true,
            (Tree::One, Tree::One) => true,
            (Tree::Neg(a), Tree::Neg(b)) => **a == **b,
            (Tree::Not(a), Tree::Not(b)) => **a == **b,
            (Tree::Add(a1, a2), Tree::Add(b1, b2)) => **a1 == **b1 && **a2 == **b2,
            (Tree::Sub(a1, a2), Tree::Sub(b1, b2)) => **a1 == **b1 && **a2 == **b2,
            (Tree::Mul(a1, a2), Tree::Mul(b1, b2)) => **a1 == **b1 && **a2 == **b2,
            (Tree::Div(a1, a2), Tree::Div(b1, b2)) => **a1 == **b1 && **a2 == **b2,
            (Tree::BitAnd(a1, a2), Tree::BitAnd(b1, b2)) => **a1 == **b1 && **a2 == **b2,
            (Tree::BitOr(a1, a2), Tree::BitOr(b1, b2)) => **a1 == **b1 && **a2 == **b2,
            (Tree::BitXor(a1, a2), Tree::BitXor(b1, b2)) => **a1 == **b1 && **a2 == **b2,
            (Tree::Shl(a1, a2), Tree::Shl(b1, b2)) => **a1 == **b1 && **a2 == **b2,
            (Tree::Shr(a1, a2), Tree::Shr(b1, b2)) => **a1 == **b1 && **a2 == **b2,
            (Tree::Rem(a1, a2), Tree::Rem(b1, b2)) => **a1 == **b1 && **a2 == **b2,
            _ => false,
        }
    }
}

impl vstd::std_specs::cmp::PartialEqSpecImpl for Tree {
    open spec fn obeys_eq_spec() -> bool {
        true
    }

    open spec fn eq_spec(&self, other: &Tree) -> bool {
        *self == *other
    }
}

/// A thin wrapper around a tree root, exposing evaluation, differentiation
/// and reduction.
#[derive(Debug)]
pub struct Expr(pub Tree);

impl View for Expr {
    type V = Tree;

    open spec fn view(&self) -> Tree {
        self.0
    }
}

impl Clone for Expr {
    fn clone(&self) -> (r: Self)
        ensures
            r == *self,
    {
        Expr(self.0.clone())
    }
}

impl PartialEq for Expr {
    fn eq(&self, other: &Expr) -> (r: bool) {
        self.0 == other.0
    }
}

impl vstd::std_specs::cmp::PartialEqSpecImpl for Expr {
    open spec fn obeys_eq_spec() -> bool {
        true
    }

    open spec fn eq_spec(&self, other: &Expr) -> bool {
        *self == *other
    }
}

impl Expr {
    /// Evaluates the wrapped tree to its concrete value.
    pub fn eval(&self) -> (r: i64)
        requires
            eval_ok(self@),
        ensures
            r as int == value_of(self@),
    {
        eval_tree(&self.0)
    }
}

impl Expression for Expr {
    type Output = i64;

    open spec fn eval_req(&self) -> bool {
        eval_ok(self@)
    }

    open spec fn eval_spec(&self) -> i64 {
        value_of(self@) as i64
    }

    fn eval(&self) -> (r: i64) {
        proof {
            lemma_value_in_range(self@);
        }
        eval_tree(&self.0)
    }
}

} // verus!
