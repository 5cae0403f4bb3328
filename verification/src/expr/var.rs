//! Value leaves: a concrete value together with the identifier of the
//! variable it stands for.

use crate::expr::deriv::Deriv;
use crate::expr::{Expr, Expression, Reduce, Tree};
use crate::ident::{id_eq, lemma_equal_exact, Ident, TypeId};
use vstd::prelude::*;

verus! {

/// A value leaf.  The tag is fixed at construction; two leaves stand for the
/// same variable exactly when their tags are equal, whatever values they
/// carry.
#[derive(Debug)]
pub struct Var {
    pub value: i64,
    pub tag: Ident,
}

impl Var {
    /// Wraps a value with a variable tag.
    pub fn new(value: i64, tag: Ident) -> (r: Var)
        ensures
            r == (Var { value, tag }),
    {
        Var { value, tag }
    }
}

impl Clone for Var {
    fn clone(&self) -> (r: Self)
        ensures
            r == *self,
    {
        Var { value: self.value, tag: self.tag.clone() }
    }
}

impl Default for Var {
    fn default() -> (r: Var)
        ensures
            r == (Var { value: 0, tag: Ident::Bit0 }),
    {
        Var { value: 0, tag: Ident::Bit0 }
    }
}

impl PartialEq for Var {
    fn eq(&self, other: &Var) -> (r: bool) {
        proof {
            lemma_equal_exact(self.tag, other.tag);
        }
        self.value == other.value && self.tag.equal(&other.tag).to_bool()
    }
}

impl vstd::std_specs::cmp::PartialEqSpecImpl for Var {
    open spec fn obeys_eq_spec() -> bool {
        true
    }

    open spec fn eq_spec(&self, other: &Var) -> bool {
        *self == *other
    }
}

impl Expression for Var {
    type Output = i64;

    open spec fn eval_req(&self) -> bool {
        true
    }

    open spec fn eval_spec(&self) -> i64 {
        self.value
    }

    fn eval(&self) -> (r: i64) {
        self.value
    }
}

impl Reduce for Var {
    type Output = Var;

    open spec fn reduce_spec(&self) -> Var {
        *self
    }

    fn reduce(&self) -> (r: Var) {
        self.clone()
    }
}

impl Deriv for Var {
    type Output = Tree;

    open spec fn deriv_spec(&self, tag: Ident) -> Tree {
        if id_eq(self.tag, tag) {
            Tree::One
        } else {
            Tree::Zero
        }
    }

    fn deriv(&self, tag: &Ident) -> (r: Tree) {
        self.tag.equal(tag).select(Tree::One, Tree::Zero)
    }
}

/// Builds a variable-leaf expression from a value and a tag type.
pub fn var<Tag: TypeId>(value: i64, _tag: Tag) -> (e: Expr)
    ensures
        e@ == Tree::Leaf(Var { value, tag: Tag::id_spec() }),
{
    Expr(Tree::Leaf(Var::new(value, Tag::ident())))
}

} // verus!
