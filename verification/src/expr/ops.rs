//! Operator composition and the algebraic simplifier.
//!
//! `reduced` is the rewrite system: children are reduced first, then the
//! parent is matched against the identity-element shapes, most specific
//! first, falling back to rebuilding the node from its reduced children.
//! Nodes with no rule (logical not, the bitwise, shift and remainder
//! operators, and a quotient whose denominator reduces to `Zero`) pass
//! through unchanged.

use crate::arith::lemma_tdiv_basics;
use crate::expr::{eval_ok, value_of, Expr, Reduce, Tree};
use vstd::prelude::*;

verus! {

/// The number of nodes in a tree.
pub open spec fn size_of(t: Tree) -> nat
    decreases t,
{
    match t {
        Tree::Leaf(_) => 1,
        Tree::Zero => 1,
        Tree::One => 1,
        Tree::Neg(a) => 1 + size_of(*a),
        Tree::Not(a) => 1 + size_of(*a),
        Tree::Add(a, b) => 1 + size_of(*a) + size_of(*b),
        Tree::Sub(a, b) => 1 + size_of(*a) + size_of(*b),
        Tree::Mul(a, b) => 1 + size_of(*a) + size_of(*b),
        Tree::Div(a, b) => 1 + size_of(*a) + size_of(*b),
        Tree::BitAnd(a, b) => 1 + size_of(*a) + size_of(*b),
        Tree::BitOr(a, b) => 1 + size_of(*a) + size_of(*b),
        Tree::BitXor(a, b) => 1 + size_of(*a) + size_of(*b),
        Tree::Shl(a, b) => 1 + size_of(*a) + size_of(*b),
        Tree::Shr(a, b) => 1 + size_of(*a) + size_of(*b),
        Tree::Rem(a, b) => 1 + size_of(*a) + size_of(*b),
    }
}

/// Every tree has at least one node.
pub proof fn lemma_size_pos(t: Tree)
    ensures
        1 <= size_of(t),
{
    match t {
        Tree::Leaf(_) => {},
        Tree::Zero => {},
        Tree::One => {},
        Tree::Neg(_) => {},
        Tree::Not(_) => {},
        Tree::Add(_, _) => {},
        Tree::Sub(_, _) => {},
        Tree::Mul(_, _) => {},
        Tree::Div(_, _) => {},
        Tree::BitAnd(_, _) => {},
        Tree::BitOr(_, _) => {},
        Tree::BitXor(_, _) => {},
        Tree::Shl(_, _) => {},
        Tree::Shr(_, _) => {},
        Tree::Rem(_, _) => {},
    }
}

/// The simplified form of a tree under the rewrite rules.
pub open spec fn reduced(t: Tree) -> Tree
    decreases t,
{
    match t {
        Tree::Neg(a) => {
            let ra = reduced(*a);
            if ra == Tree::Zero {
                Tree::Zero
            } else {
                Tree::Neg(Box::new(ra))
            }
        },
        Tree::Add(a, b) => {
            let ra = reduced(*a);
            let rb = reduced(*b);
            if ra == Tree::Zero {
                rb
            } else if rb == Tree::Zero {
                ra
            } else {
                Tree::Add(Box::new(ra), Box::new(rb))
            }
        },
        Tree::Sub(a, b) => {
            let ra = reduced(*a);
            let rb = reduced(*b);
            if rb == Tree::Zero {
                ra
            } else if ra == Tree::Zero {
                Tree::Neg(Box::new(rb))
            } else if ra == Tree::One && rb == Tree::One {
                Tree::Zero
            } else {
                Tree::Sub(Box::new(ra), Box::new(rb))
            }
        },
        Tree::Mul(a, b) => {
            let ra = reduced(*a);
            let rb = reduced(*b);
            if ra == Tree::Zero || rb == Tree::Zero {
                Tree::Zero
            } else if ra == Tree::One {
                rb
            } else if rb == Tree::One {
                ra
            } else {
                Tree::Mul(Box::new(ra), Box::new(rb))
            }
        },
        Tree::Div(a, b) => {
            let ra = reduced(*a);
            let rb = reduced(*b);
            if rb == Tree::Zero {
                t
            } else if rb == Tree::One && ra != Tree::One {
                ra
            } else if ra == Tree::Zero {
                Tree::Zero
            } else {
                Tree::Div(Box::new(ra), Box::new(rb))
            }
        },
        _ => t,
    }
}

/// Rewrites a tree to its simplified form.
pub fn reduce_tree(t: Tree) -> (r: Tree)
    ensures
        r == reduced(t),
    decreases t,
{
    match t {
        Tree::Neg(a) => {
            let ra = reduce_tree(*a);
            match ra {
                Tree::Zero => Tree::Zero,
                ra2 => Tree::Neg(Box::new(ra2)),
            }
        },
        Tree::Add(a, b) => {
            let ra = reduce_tree(*a);
            let rb = reduce_tree(*b);
            match (ra, rb) {
                (Tree::Zero, rb2) => rb2,
                (ra2, Tree::Zero) => ra2,
                (ra2, rb2) => Tree::Add(Box::new(ra2), Box::new(rb2)),
            }
        },
        Tree::Sub(a, b) => {
            let ra = reduce_tree(*a);
            let rb = reduce_tree(*b);
            match (ra, rb) {
                (ra2, Tree::Zero) => ra2,
                (Tree::Zero, rb2) => Tree::Neg(Box::new(rb2)),
                (Tree::One, Tree::One) => Tree::Zero,
                (ra2, rb2) => Tree::Sub(Box::new(ra2), Box::new(rb2)),
            }
        },
        Tree::Mul(a, b) => {
            let ra = reduce_tree(*a);
            let rb = reduce_tree(*b);
            match (ra, rb) {
                (Tree::Zero, _) => Tree::Zero,
                (_, Tree::Zero) => Tree::Zero,
                (Tree::One, rb2) => rb2,
                (ra2, Tree::One) => ra2,
                (ra2, rb2) => Tree::Mul(Box::new(ra2), Box::new(rb2)),
            }
        },
        Tree::Div(a, b) => {
            let rb = reduce_tree((*b).clone());
            match rb {
                Tree::Zero => Tree::Div(a, b),
                rb2 => {
                    let ra = reduce_tree(*a);
                    match (ra, rb2) {
                        (ra2, Tree::One) => {
                            match ra2 {
                                Tree::One => Tree::Div(
                                    Box::new(Tree::One),
                                    Box::new(Tree::One),
                                ),
                                ra3 => ra3,
                            }
                        },
                        (Tree::Zero, _) => Tree::Zero,
                        (ra2, rb3) => Tree::Div(Box::new(ra2), Box::new(rb3)),
                    }
                },
            }
        },
        other => other,
    }
}

/// Reduction soundness: rewriting never changes a tree's value, and a tree
/// whose evaluation was defined still evaluates after rewriting.
pub proof fn lemma_reduce_sound(t: Tree)
    ensures
        value_of(reduced(t)) == value_of(t),
        eval_ok(t) ==> eval_ok(reduced(t)),
    decreases t,
{
    match t {
        Tree::Neg(a) => {
            lemma_reduce_sound(*a);
        },
        Tree::Add(a, b) => {
            lemma_reduce_sound(*a);
            lemma_reduce_sound(*b);
        },
        Tree::Sub(a, b) => {
            lemma_reduce_sound(*a);
            lemma_reduce_sound(*b);
        },
        Tree::Mul(a, b) => {
            lemma_reduce_sound(*a);
            lemma_reduce_sound(*b);
        },
        Tree::Div(a, b) => {
            lemma_reduce_sound(*a);
            lemma_reduce_sound(*b);
            if reduced(*b) != Tree::Zero {
                lemma_tdiv_basics(value_of(*a), value_of(*b));
            }
        },
        _ => {},
    }
}

/// Reduction idempotence: a reduced tree is a fixed point of the rewrite
/// system, so reducing it again changes nothing, structurally.
pub proof fn lemma_reduce_idempotent(t: Tree)
    ensures
        reduced(reduced(t)) == reduced(t),
    decreases t,
{
    match t {
        Tree::Neg(a) => {
            lemma_reduce_idempotent(*a);
        },
        Tree::Add(a, b) => {
            lemma_reduce_idempotent(*a);
            lemma_reduce_idempotent(*b);
        },
        Tree::Sub(a, b) => {
            lemma_reduce_idempotent(*a);
            lemma_reduce_idempotent(*b);
        },
        Tree::Mul(a, b) => {
            lemma_reduce_idempotent(*a);
            lemma_reduce_idempotent(*b);
        },
        Tree::Div(a, b) => {
            lemma_reduce_idempotent(*a);
            lemma_reduce_idempotent(*b);
        },
        _ => {},
    }
}

/// Confluence of the rewrite order: reducing a node's children first and then
/// the rebuilt node agrees with reducing the node in one pass.  For a
/// quotient this holds whenever the denominator does not reduce to `Zero`;
/// such a quotient has no rule and passes through with its children as they
/// came.
pub proof fn lemma_reduce_staged(a: Tree, b: Tree)
    ensures
        reduced(Tree::Neg(Box::new(reduced(a)))) == reduced(Tree::Neg(Box::new(a))),
        reduced(Tree::Add(Box::new(reduced(a)), Box::new(reduced(b)))) == reduced(
            Tree::Add(Box::new(a), Box::new(b)),
        ),
        reduced(Tree::Sub(Box::new(reduced(a)), Box::new(reduced(b)))) == reduced(
            Tree::Sub(Box::new(a), Box::new(b)),
        ),
        reduced(Tree::Mul(Box::new(reduced(a)), Box::new(reduced(b)))) == reduced(
            Tree::Mul(Box::new(a), Box::new(b)),
        ),
        reduced(b) != Tree::Zero ==> reduced(
            Tree::Div(Box::new(reduced(a)), Box::new(reduced(b))),
        ) == reduced(Tree::Div(Box::new(a), Box::new(b))),
{
    lemma_reduce_idempotent(a);
    lemma_reduce_idempotent(b);
}

/// Reduction never grows a tree.
pub proof fn lemma_reduce_shrinks(t: Tree)
    ensures
        size_of(reduced(t)) <= size_of(t),
    decreases t,
{
    match t {
        Tree::Neg(a) => {
            lemma_reduce_shrinks(*a);
        },
        Tree::Add(a, b) => {
            lemma_reduce_shrinks(*a);
            lemma_reduce_shrinks(*b);
            lemma_size_pos(reduced(*a));
            lemma_size_pos(reduced(*b));
        },
        Tree::Sub(a, b) => {
            lemma_reduce_shrinks(*a);
            lemma_reduce_shrinks(*b);
            lemma_size_pos(reduced(*a));
            lemma_size_pos(reduced(*b));
        },
        Tree::Mul(a, b) => {
            lemma_reduce_shrinks(*a);
            lemma_reduce_shrinks(*b);
            lemma_size_pos(reduced(*a));
            lemma_size_pos(reduced(*b));
        },
        Tree::Div(a, b) => {
            lemma_reduce_shrinks(*a);
            lemma_reduce_shrinks(*b);
            lemma_size_pos(reduced(*a));
            lemma_size_pos(reduced(*b));
        },
        _ => {},
    }
}

impl Reduce for Tree {
    type Output = Tree;

    open spec fn reduce_spec(&self) -> Tree {
        reduced(*self)
    }

    fn reduce(&self) -> (r: Tree) {
        reduce_tree(self.clone())
    }
}

impl Expr {
    /// Rewrites the wrapped tree to its simplified form.
    pub fn reduce(&self) -> (r: Expr)
        ensures
            r@ == reduced(self@),
    {
        Expr(reduce_tree(self.0.clone()))
    }

    /// Composes `-self`.
    pub fn neg(self) -> (r: Expr)
        ensures
            r@ == Tree::Neg(Box::new(self@)),
    {
        Expr(Tree::Neg(Box::new(self.0)))
    }

    /// Composes `!self`.
    pub fn not(self) -> (r: Expr)
        ensures
            r@ == Tree::Not(Box::new(self@)),
    {
        Expr(Tree::Not(Box::new(self.0)))
    }

    /// Composes `self + rhs`.
    pub fn add(self, rhs: Expr) -> (r: Expr)
        ensures
            r@ == Tree::Add(Box::new(self@), Box::new(rhs@)),
    {
        Expr(Tree::Add(Box::new(self.0), Box::new(rhs.0)))
    }

    /// Composes `self - rhs`.
    pub fn sub(self, rhs: Expr) -> (r: Expr)
        ensures
            r@ == Tree::Sub(Box::new(self@), Box::new(rhs@)),
    {
        Expr(Tree::Sub(Box::new(self.0), Box::new(rhs.0)))
    }

    /// Composes `self * rhs`.
    pub fn mul(self, rhs: Expr) -> (r: Expr)
        ensures
            r@ == Tree::Mul(Box::new(self@), Box::new(rhs@)),
    {
        Expr(Tree::Mul(Box::new(self.0), Box::new(rhs.0)))
    }

    /// Composes `self / rhs`.
    pub fn div(self, rhs: Expr) -> (r: Expr)
        ensures
            r@ == Tree::Div(Box::new(self@), Box::new(rhs@)),
    {
        Expr(Tree::Div(Box::new(self.0), Box::new(rhs.0)))
    }

    /// Composes `self & rhs`.
    pub fn bitand(self, rhs: Expr) -> (r: Expr)
        ensures
            r@ == Tree::BitAnd(Box::new(self@), Box::new(rhs@)),
    {
        Expr(Tree::BitAnd(Box::new(self.0), Box::new(rhs.0)))
    }

    /// Composes `self | rhs`.
    pub fn bitor(self, rhs: Expr) -> (r: Expr)
        ensures
            r@ == Tree::BitOr(Box::new(self@), Box::new(rhs@)),
    {
        Expr(Tree::BitOr(Box::new(self.0), Box::new(rhs.0)))
    }

    /// Composes `self ^ rhs`.
    pub fn bitxor(self, rhs: Expr) -> (r: Expr)
        ensures
            r@ == Tree::BitXor(Box::new(self@), Box::new(rhs@)),
    {
        Expr(Tree::BitXor(Box::new(self.0), Box::new(rhs.0)))
    }

    /// Composes `self << rhs`.
    pub fn shl(self, rhs: Expr) -> (r: Expr)
        ensures
            r@ == Tree::Shl(Box::new(self@), Box::new(rhs@)),
    {
        Expr(Tree::Shl(Box::new(self.0), Box::new(rhs.0)))
    }

    /// Composes `self >> rhs`.
    pub fn shr(self, rhs: Expr) -> (r: Expr)
        ensures
            r@ == Tree::Shr(Box::new(self@), Box::new(rhs@)),
    {
        Expr(Tree::Shr(Box::new(self.0), Box::new(rhs.0)))
    }

    /// Composes `self % rhs`.
    pub fn rem(self, rhs: Expr) -> (r: Expr)
        ensures
            r@ == Tree::Rem(Box::new(self@), Box::new(rhs@)),
    {
        Expr(Tree::Rem(Box::new(self.0), Box::new(rhs.0)))
    }

    /// The additive identity as an expression.
    pub fn zero() -> (r: Expr)
        ensures
            r@ == Tree::Zero,
    {
        Expr(Tree::Zero)
    }

    /// The multiplicative identity as an expression.
    pub fn one() -> (r: Expr)
        ensures
            r@ == Tree::One,
    {
        Expr(Tree::One)
    }
}

} // verus!
