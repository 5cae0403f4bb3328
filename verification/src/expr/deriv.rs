//! The symbolic differentiator.
//!
//! Differentiation is defined for leaves, the identity elements, negation and
//! the four arithmetic operators; the bitwise, shift and remainder node kinds
//! have no rule, and asking for their derivative is refused with a tagged
//! error naming the node kind.  Every production simplifies its own result
//! site-locally before composing it into the parent's result, which bounds
//! the growth of the produced trees.

use crate::arith::tdiv;
use crate::expr::ops::{lemma_reduce_sound, reduce_tree, reduced};
use crate::expr::var::Var;
use crate::expr::{value_of, Expr, Tree};
use crate::ident::{id_eq, Ident, TypeId};
use vstd::prelude::*;

verus! {

/// Something that has a symbolic partial derivative with respect to a tagged
/// variable.
pub trait Deriv {
    type Output;

    /// The derivative with respect to the variable `tag` identifies.
    spec fn deriv_spec(&self, tag: Ident) -> Self::Output;

    fn deriv(&self, tag: &Ident) -> (r: Self::Output)
        ensures
            r == self.deriv_spec(*tag),
    ;
}

/// The node kinds that no differentiation rule covers.
#[derive(Copy, Clone, Debug, PartialEq, Eq, Structural)]
pub enum OpKind {
    Not,
    BitAnd,
    BitOr,
    BitXor,
    Shl,
    Shr,
    Rem,
}

/// Differentiation was asked of a node kind it is not defined for.
#[derive(Copy, Clone, Debug, PartialEq, Eq, Structural)]
pub struct DerivError {
    pub kind: OpKind,
}

/// Whether every node of the tree has a differentiation rule.
pub open spec fn derivable(t: Tree) -> bool
    decreases t,
{
    match t {
        Tree::Leaf(_) => true,
        Tree::Zero => true,
        Tree::One => true,
        Tree::Neg(a) => derivable(*a),
        Tree::Add(a, b) => derivable(*a) && derivable(*b),
        Tree::Sub(a, b) => derivable(*a) && derivable(*b),
        Tree::Mul(a, b) => derivable(*a) && derivable(*b),
        Tree::Div(a, b) => derivable(*a) && derivable(*b),
        _ => false,
    }
}

/// The kind of the leftmost node that has no differentiation rule; only
/// meaningful when the tree is not derivable.
pub open spec fn undef_kind(t: Tree) -> OpKind
    decreases t,
{
    match t {
        Tree::Not(_) => OpKind::Not,
        Tree::BitAnd(_, _) => OpKind::BitAnd,
        Tree::BitOr(_, _) => OpKind::BitOr,
        Tree::BitXor(_, _) => OpKind::BitXor,
        Tree::Shl(_, _) => OpKind::Shl,
        Tree::Shr(_, _) => OpKind::Shr,
        Tree::Rem(_, _) => OpKind::Rem,
        Tree::Neg(a) => undef_kind(*a),
        Tree::Add(a, b) => if !derivable(*a) {
            undef_kind(*a)
        } else {
            undef_kind(*b)
        },
        Tree::Sub(a, b) => if !derivable(*a) {
            undef_kind(*a)
        } else {
            undef_kind(*b)
        },
        Tree::Mul(a, b) => if !derivable(*a) {
            undef_kind(*a)
        } else {
            undef_kind(*b)
        },
        Tree::Div(a, b) => if !derivable(*a) {
            undef_kind(*a)
        } else {
            undef_kind(*b)
        },
        _ => OpKind::Not,
    }
}

/// The derivative of a derivable tree with respect to `tag`, with each
/// combination simplified at its own site: the sum, difference, product and
/// quotient rules, the select of `One` or `Zero` at a leaf, and `Zero` for
/// the identity elements.
pub open spec fn derived(t: Tree, tag: Ident) -> Tree
    decreases t,
{
    match t {
        Tree::Leaf(v) => if id_eq(v.tag, tag) {
            Tree::One
        } else {
            Tree::Zero
        },
        Tree::Zero => Tree::Zero,
        Tree::One => Tree::Zero,
        Tree::Neg(a) => Tree::Neg(Box::new(derived(*a, tag))),
        Tree::Add(a, b) => reduced(
            Tree::Add(Box::new(derived(*a, tag)), Box::new(derived(*b, tag))),
        ),
        Tree::Sub(a, b) => reduced(
            Tree::Sub(Box::new(derived(*a, tag)), Box::new(derived(*b, tag))),
        ),
        Tree::Mul(a, b) => reduced(
            Tree::Add(
                Box::new(reduced(Tree::Mul(Box::new(derived(*a, tag)), b))),
                Box::new(reduced(Tree::Mul(a, Box::new(derived(*b, tag))))),
            ),
        ),
        Tree::Div(a, b) => reduced(
            Tree::Sub(
                Box::new(reduced(Tree::Div(Box::new(derived(*a, tag)), b))),
                Box::new(
                    reduced(
                        Tree::Mul(
                            Box::new(
                                reduced(
                                    Tree::Div(a, Box::new(reduced(Tree::Mul(b, b)))),
                                ),
                            ),
                            Box::new(derived(*b, tag)),
                        ),
                    ),
                ),
            ),
        ),
        _ => t,
    }
}

/// The textbook differentiation rules, with no simplification anywhere: the
/// shape `derived` would produce if every `reduced` call were the identity.
pub open spec fn raw_deriv(t: Tree, tag: Ident) -> Tree
    decreases t,
{
    match t {
        Tree::Leaf(v) => if id_eq(v.tag, tag) {
            Tree::One
        } else {
            Tree::Zero
        },
        Tree::Zero => Tree::Zero,
        Tree::One => Tree::Zero,
        Tree::Neg(a) => Tree::Neg(Box::new(raw_deriv(*a, tag))),
        Tree::Add(a, b) => Tree::Add(
            Box::new(raw_deriv(*a, tag)),
            Box::new(raw_deriv(*b, tag)),
        ),
        Tree::Sub(a, b) => Tree::Sub(
            Box::new(raw_deriv(*a, tag)),
            Box::new(raw_deriv(*b, tag)),
        ),
        Tree::Mul(a, b) => Tree::Add(
            Box::new(Tree::Mul(Box::new(raw_deriv(*a, tag)), b)),
            Box::new(Tree::Mul(a, Box::new(raw_deriv(*b, tag)))),
        ),
        Tree::Div(a, b) => Tree::Sub(
            Box::new(Tree::Div(Box::new(raw_deriv(*a, tag)), b)),
            Box::new(
                Tree::Mul(
                    Box::new(Tree::Div(a, Box::new(Tree::Mul(b, b)))),
                    Box::new(raw_deriv(*b, tag)),
                ),
            ),
        ),
        _ => t,
    }
}

/// Variable selectivity: differentiating a leaf with respect to its own tag
/// yields `One`, and with respect to any other tag yields `Zero`, whatever
/// value the leaf carries.
pub proof fn lemma_deriv_leaf(v: Var, tag: Ident)
    ensures
        id_eq(v.tag, tag) ==> derived(Tree::Leaf(v), tag) == Tree::One,
        !id_eq(v.tag, tag) ==> derived(Tree::Leaf(v), tag) == Tree::Zero,
{
}

/// Rule equivalence: the eagerly simplified derivative evaluates to exactly
/// the value of the unsimplified sum/difference/product/quotient rules.
pub proof fn lemma_deriv_value(t: Tree, tag: Ident)
    requires
        derivable(t),
    ensures
        value_of(derived(t, tag)) == value_of(raw_deriv(t, tag)),
    decreases t,
{
    match t {
        Tree::Neg(a) => {
            lemma_deriv_value(*a, tag);
        },
        Tree::Add(a, b) => {
            lemma_deriv_value(*a, tag);
            lemma_deriv_value(*b, tag);
            lemma_reduce_sound(
                Tree::Add(Box::new(derived(*a, tag)), Box::new(derived(*b, tag))),
            );
        },
        Tree::Sub(a, b) => {
            lemma_deriv_value(*a, tag);
            lemma_deriv_value(*b, tag);
            lemma_reduce_sound(
                Tree::Sub(Box::new(derived(*a, tag)), Box::new(derived(*b, tag))),
            );
        },
        Tree::Mul(a, b) => {
            lemma_deriv_value(*a, tag);
            lemma_deriv_value(*b, tag);
            let left = Tree::Mul(Box::new(derived(*a, tag)), b);
            let right = Tree::Mul(a, Box::new(derived(*b, tag)));
            lemma_reduce_sound(left);
            lemma_reduce_sound(right);
            lemma_reduce_sound(Tree::Add(Box::new(reduced(left)), Box::new(reduced(right))));
            assert(value_of(Tree::Add(Box::new(reduced(left)), Box::new(reduced(right))))
                == value_of(reduced(left)) + value_of(reduced(right)));
            assert(value_of(left) == value_of(derived(*a, tag)) * value_of(*b));
            assert(value_of(right) == value_of(*a) * value_of(derived(*b, tag)));
            let rleft = Tree::Mul(Box::new(raw_deriv(*a, tag)), b);
            let rright = Tree::Mul(a, Box::new(raw_deriv(*b, tag)));
            assert(raw_deriv(t, tag) == Tree::Add(Box::new(rleft), Box::new(rright)));
            assert(value_of(Tree::Add(Box::new(rleft), Box::new(rright)))
                == value_of(rleft) + value_of(rright));
            assert(value_of(rleft) == value_of(raw_deriv(*a, tag)) * value_of(*b));
            assert(value_of(rright) == value_of(*a) * value_of(raw_deriv(*b, tag)));
        },
        Tree::Div(a, b) => {
            lemma_deriv_value(*a, tag);
            lemma_deriv_value(*b, tag);
            let den = Tree::Mul(b, b);
            lemma_reduce_sound(den);
            let ratio = Tree::Div(a, Box::new(reduced(den)));
            lemma_reduce_sound(ratio);
            let left = Tree::Div(Box::new(derived(*a, tag)), b);
            lemma_reduce_sound(left);
            let right = Tree::Mul(Box::new(reduced(ratio)), Box::new(derived(*b, tag)));
            lemma_reduce_sound(right);
            lemma_reduce_sound(Tree::Sub(Box::new(reduced(left)), Box::new(reduced(right))));
            assert(value_of(Tree::Sub(Box::new(reduced(left)), Box::new(reduced(right))))
                == value_of(reduced(left)) - value_of(reduced(right)));
            assert(value_of(left) == tdiv(value_of(derived(*a, tag)), value_of(*b)));
            assert(value_of(ratio) == tdiv(value_of(*a), value_of(reduced(den))));
            assert(value_of(den) == value_of(*b) * value_of(*b));
            assert(value_of(right) == value_of(reduced(ratio)) * value_of(derived(*b, tag)));
            let rden = Tree::Mul(b, b);
            let rratio = Tree::Div(a, Box::new(rden));
            let rleft = Tree::Div(Box::new(raw_deriv(*a, tag)), b);
            let rright = Tree::Mul(Box::new(rratio), Box::new(raw_deriv(*b, tag)));
            assert(raw_deriv(t, tag) == Tree::Sub(Box::new(rleft), Box::new(rright)));
            assert(value_of(Tree::Sub(Box::new(rleft), Box::new(rright)))
                == value_of(rleft) - value_of(rright));
            assert(value_of(rleft) == tdiv(value_of(raw_deriv(*a, tag)), value_of(*b)));
            assert(value_of(rright) == value_of(rratio) * value_of(raw_deriv(*b, tag)));
            assert(value_of(rratio) == tdiv(value_of(*a), value_of(rden)));
            assert(value_of(rden) == value_of(*b) * value_of(*b));
        },
        _ => {},
    }
}

/// Differentiates a tree with respect to `tag`, or reports the leftmost node
/// kind that differentiation is not defined for.
pub fn deriv_tree(t: &Tree, tag: &Ident) -> (r: Result<Tree, DerivError>)
    ensures
        derivable(*t) ==> r == Ok::<Tree, DerivError>(derived(*t, *tag)),
        !derivable(*t) ==> r == Err::<Tree, DerivError>((DerivError { kind: undef_kind(*t) })),
    decreases *t,
{
    match t {
        Tree::Leaf(v) => Ok(v.tag.equal(tag).select(Tree::One, Tree::Zero)),
        Tree::Zero => Ok(Tree::Zero),
        Tree::One => Ok(Tree::Zero),
        Tree::Neg(a) => {
            match deriv_tree(a, tag) {
                Ok(da) => Ok(Tree::Neg(Box::new(da))),
                Err(e) => Err(e),
            }
        },
        Tree::Add(a, b) => {
            match deriv_tree(a, tag) {
                Ok(da) => match deriv_tree(b, tag) {
                    Ok(db) => Ok(reduce_tree(Tree::Add(Box::new(da), Box::new(db)))),
                    Err(e) => Err(e),
                },
                Err(e) => Err(e),
            }
        },
        Tree::Sub(a, b) => {
            match deriv_tree(a, tag) {
                Ok(da) => match deriv_tree(b, tag) {
                    Ok(db) => Ok(reduce_tree(Tree::Sub(Box::new(da), Box::new(db)))),
                    Err(e) => Err(e),
                },
                Err(e) => Err(e),
            }
        },
        Tree::Mul(a, b) => {
            match deriv_tree(a, tag) {
                Ok(da) => match deriv_tree(b, tag) {
                    Ok(db) => {
                        let left = reduce_tree(Tree::Mul(Box::new(da), Box::new((**b).clone())));
                        let right = reduce_tree(Tree::Mul(Box::new((**a).clone()), Box::new(db)));
                        Ok(reduce_tree(Tree::Add(Box::new(left), Box::new(right))))
                    },
                    Err(e) => Err(e),
                },
                Err(e) => Err(e),
            }
        },
        Tree::Div(a, b) => {
            match deriv_tree(a, tag) {
                Ok(da) => match deriv_tree(b, tag) {
                    Ok(db) => {
                        let den = reduce_tree(
                            Tree::Mul(Box::new((**b).clone()), Box::new((**b).clone())),
                        );
                        let ratio = reduce_tree(
                            Tree::Div(Box::new((**a).clone()), Box::new(den)),
                        );
                        let left = reduce_tree(Tree::Div(Box::new(da), Box::new((**b).clone())));
                        let right = reduce_tree(Tree::Mul(Box::new(ratio), Box::new(db)));
                        Ok(reduce_tree(Tree::Sub(Box::new(left), Box::new(right))))
                    },
                    Err(e) => Err(e),
                },
                Err(e) => Err(e),
            }
        },
        Tree::Not(_) => Err(DerivError { kind: OpKind::Not }),
        Tree::BitAnd(_, _) => Err(DerivError { kind: OpKind::BitAnd }),
        Tree::BitOr(_, _) => Err(DerivError { kind: OpKind::BitOr }),
        Tree::BitXor(_, _) => Err(DerivError { kind: OpKind::BitXor }),
        Tree::Shl(_, _) => Err(DerivError { kind: OpKind::Shl }),
        Tree::Shr(_, _) => Err(DerivError { kind: OpKind::Shr }),
        Tree::Rem(_, _) => Err(DerivError { kind: OpKind::Rem }),
    }
}

impl Deriv for Tree {
    type Output = Result<Tree, DerivError>;

    open spec fn deriv_spec(&self, tag: Ident) -> Result<Tree, DerivError> {
        if derivable(*self) {
            Ok(derived(*self, tag))
        } else {
            Err(DerivError { kind: undef_kind(*self) })
        }
    }

    fn deriv(&self, tag: &Ident) -> (r: Result<Tree, DerivError>) {
        deriv_tree(self, tag)
    }
}

impl Expr {
    /// Differentiates the wrapped tree with respect to the variable a tag
    /// type identifies; the result is already simplified.  Asking for the
    /// derivative of a node kind that has no rule is refused.
    pub fn deriv<Tag: TypeId>(&self, _tag: Tag) -> (r: Result<Expr, DerivError>)
        ensures
            derivable(self@) ==> (r matches Ok(d) && d@ == derived(self@, Tag::id_spec())),
            !derivable(self@) ==> r == Err::<Expr, DerivError>(
                (DerivError { kind: undef_kind(self@) }),
            ),
    {
        let id = Tag::ident();
        match deriv_tree(&self.0, &id) {
            Ok(d) => Ok(Expr(d)),
            Err(e) => Err(e),
        }
    }
}

} // verus!
