//! The identifier-equality engine.
//!
//! An identifier is a value over an alphabet of two binary symbols plus a
//! pairing constructor, so the identifier space is isomorphic to bit strings
//! of any length.  Equality is structural: the two symbols are equal only to
//! themselves, a pair equals a pair exactly when both components are equal
//! (the logic kernel's AND combines the component results), and a symbol never
//! equals a pair.
//!
//! A type-level mirror exists as well: `TypeEq` decides equality of the
//! type-level encodings that `TypeId` assigns to tag types.

use crate::boolean::{Bool, BoolAnd, Truth};
use crate::func::Func;
use crate::{T0, T1};
use vstd::prelude::*;

verus! {

/// A runtime identifier: a nested pair of binary choices.
#[derive(Debug)]
pub enum Ident {
    Bit0,
    Bit1,
    Pair(Box<Ident>, Box<Ident>),
}

/// Structural identifier equality, as the engine decides it.
pub open spec fn id_eq(a: Ident, b: Ident) -> bool
    decreases a,
{
    match (a, b) {
        (Ident::Bit0, Ident::Bit0) => true,
        (Ident::Bit1, Ident::Bit1) => true,
        (Ident::Pair(l1, l2), Ident::Pair(r1, r2)) => id_eq(*l1, *r1) && id_eq(*l2, *r2),
        _ => false,
    }
}

impl Ident {
    /// Decides structural equality, combining pair components with the logic
    /// kernel's AND.
    pub fn equal(&self, other: &Ident) -> (r: Truth)
        ensures
            r.holds() == id_eq(*self, *other),
        decreases *self,
    {
        match (self, other) {
            (Ident::Bit0, Ident::Bit0) => Truth::True,
            (Ident::Bit1, Ident::Bit1) => Truth::True,
            (Ident::Pair(l1, l2), Ident::Pair(r1, r2)) => l1.equal(r1).and(l2.equal(r2)),
            _ => Truth::False,
        }
    }

    /// Pairs two identifiers into a composite identifier.
    pub fn pair(first: Ident, second: Ident) -> (r: Ident)
        ensures
            r == Ident::Pair(Box::new(first), Box::new(second)),
    {
        Ident::Pair(Box::new(first), Box::new(second))
    }
}

impl Clone for Ident {
    fn clone(&self) -> (r: Self)
        ensures
            r == *self,
        decreases *self,
    {
        match self {
            Ident::Bit0 => Ident::Bit0,
            Ident::Bit1 => Ident::Bit1,
            Ident::Pair(a, b) => Ident::Pair(Box::new((**a).clone()), Box::new((**b).clone())),
        }
    }
}

impl PartialEq for Ident {
    fn eq(&self, other: &Ident) -> (r: bool)
        decreases *self,
    {
        match (self, other) {
            (Ident::Bit0, Ident::Bit0) => true,
            (Ident::Bit1, Ident::Bit1) => true,
            (Ident::Pair(l1, l2), Ident::Pair(r1, r2)) => **l1 == **r1 && **l2 == **r2,
            _ => false,
        }
    }
}

impl vstd::std_specs::cmp::PartialEqSpecImpl for Ident {
    open spec fn obeys_eq_spec() -> bool {
        true
    }

    open spec fn eq_spec(&self, other: &Ident) -> bool {
        *self == *other
    }
}

/// Structural equality coincides with equality of the values themselves, so
/// the engine decides a genuine equality relation.
pub proof fn lemma_equal_exact(a: Ident, b: Ident)
    ensures
        id_eq(a, b) <==> a == b,
    decreases a,
{
    match (a, b) {
        (Ident::Pair(l1, l2), Ident::Pair(r1, r2)) => {
            lemma_equal_exact(*l1, *r1);
            lemma_equal_exact(*l2, *r2);
        },
        _ => {},
    }
}

/// Every identifier equals itself.
pub proof fn lemma_equal_reflexive(a: Ident)
    ensures
        id_eq(a, a),
    decreases a,
{
    match a {
        Ident::Pair(l, r) => {
            lemma_equal_reflexive(*l);
            lemma_equal_reflexive(*r);
        },
        _ => {},
    }
}

/// Identifier equality is symmetric.
pub proof fn lemma_equal_symmetric(a: Ident, b: Ident)
    ensures
        id_eq(a, b) == id_eq(b, a),
    decreases a,
{
    match (a, b) {
        (Ident::Pair(l1, l2), Ident::Pair(r1, r2)) => {
            lemma_equal_symmetric(*l1, *r1);
            lemma_equal_symmetric(*l2, *r2);
        },
        _ => {},
    }
}

/// On composite identifiers, equality is the conjunction of component-wise
/// equality.
pub proof fn lemma_equal_pair(l1: Ident, l2: Ident, r1: Ident, r2: Ident)
    ensures
        id_eq(Ident::Pair(Box::new(l1), Box::new(l2)), Ident::Pair(Box::new(r1), Box::new(r2)))
            == (id_eq(l1, r1) && id_eq(l2, r2)),
{
}

/// Type-level identifier equality: the associated type denotes the answer.
pub trait TypeEq<Rhs> {
    type Output: Bool;
}

/// Shorthand for the type-level answer of `TypeEq`.
pub type IsEq<L, R> = <L as TypeEq<R>>::Output;

/// Assigns a type-level identifier (a nested tuple of `T0`/`T1`) and the
/// matching runtime identifier to a tag type.
pub trait TypeId {
    type Id;

    /// The runtime identifier denoting this tag.
    spec fn id_spec() -> Ident;

    /// Builds the runtime identifier denoting this tag.
    fn ident() -> (r: Ident)
        ensures
            r == Self::id_spec(),
    ;
}

/// Function marker deciding type-level equality against `L`.
#[derive(Debug)]
pub struct TypeEqFn<L>(core::marker::PhantomData<L>);

impl<L: TypeEq<R>, R> Func<R> for TypeEqFn<L> {
    type Output = IsEq<L, R>;

    fn call(_input: R) -> Self::Output {
        <IsEq<L, R> as Bool>::make()
    }
}

impl TypeEq<T0> for T1 {
    type Output = crate::boolean::False;
}

impl TypeEq<T1> for T0 {
    type Output = crate::boolean::False;
}

impl TypeEq<T1> for T1 {
    type Output = crate::boolean::True;
}

impl TypeEq<T0> for T0 {
    type Output = crate::boolean::True;
}

impl<R1, R2> TypeEq<(R1, R2)> for T1 {
    type Output = crate::boolean::False;
}

impl<R1, R2> TypeEq<(R1, R2)> for T0 {
    type Output = crate::boolean::False;
}

impl<L1, L2> TypeEq<T1> for (L1, L2) {
    type Output = crate::boolean::False;
}

impl<L1, L2> TypeEq<T0> for (L1, L2) {
    type Output = crate::boolean::False;
}

impl<L1, L2, R1, R2> TypeEq<(R1, R2)> for (L1, L2) where
    L1: TypeEq<R1>,
    L2: TypeEq<R2>,
    IsEq<L1, R1>: BoolAnd<IsEq<L2, R2>>,
 {
    type Output = <IsEq<L1, R1> as BoolAnd<IsEq<L2, R2>>>::Output;
}

} // verus!
