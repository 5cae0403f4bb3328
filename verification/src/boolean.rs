//! The two-valued logic kernel: a closed algebra over exactly two
//! inhabitants, with NOT/AND/OR/XOR and a ternary select.
//!
//! The kernel exists in two forms.  `Truth` is the runtime form: a two-variant
//! enum whose operations carry their truth tables as contracts.  `True` and
//! `False` are the type-level form: each operator trait fixes its result as an
//! associated type, and every implementation proves that the chosen type
//! denotes the right table entry.

use crate::func::Func;
use crate::{T0, T1};
use vstd::prelude::*;

verus! {

/// A runtime truth value of the logic kernel.
#[derive(Copy, Clone, Debug, PartialEq, Eq, Structural)]
pub enum Truth {
    True,
    False,
}

impl Truth {
    /// Whether this value is the kernel's `True`.
    pub open spec fn holds(self) -> bool {
        self == Truth::True
    }

    /// The kernel value denoting a host boolean.
    pub open spec fn of_bool(b: bool) -> Truth {
        if b {
            Truth::True
        } else {
            Truth::False
        }
    }

    pub fn from_bool(b: bool) -> (r: Truth)
        ensures
            r == Truth::of_bool(b),
    {
        if b {
            Truth::True
        } else {
            Truth::False
        }
    }

    pub fn to_bool(self) -> (b: bool)
        ensures
            b == self.holds(),
    {
        match self {
            Truth::True => true,
            Truth::False => false,
        }
    }

    /// NOT: True maps to False and False to True.
    pub fn not(self) -> (r: Truth)
        ensures
            r.holds() == !self.holds(),
    {
        match self {
            Truth::True => Truth::False,
            Truth::False => Truth::True,
        }
    }

    /// AND, total over all four input pairs.
    pub fn and(self, rhs: Truth) -> (r: Truth)
        ensures
            r.holds() == (self.holds() && rhs.holds()),
    {
        match (self, rhs) {
            (Truth::False, Truth::False) => Truth::False,
            (Truth::False, Truth::True) => Truth::False,
            (Truth::True, Truth::False) => Truth::False,
            (Truth::True, Truth::True) => Truth::True,
        }
    }

    /// OR, total over all four input pairs.
    pub fn or(self, rhs: Truth) -> (r: Truth)
        ensures
            r.holds() == (self.holds() || rhs.holds()),
    {
        match (self, rhs) {
            (Truth::False, Truth::False) => Truth::False,
            (Truth::False, Truth::True) => Truth::True,
            (Truth::True, Truth::False) => Truth::True,
            (Truth::True, Truth::True) => Truth::True,
        }
    }

    /// XOR, total over all four input pairs.
    pub fn xor(self, rhs: Truth) -> (r: Truth)
        ensures
            r.holds() == (self.holds() != rhs.holds()),
    {
        match (self, rhs) {
            (Truth::False, Truth::False) => Truth::False,
            (Truth::False, Truth::True) => Truth::True,
            (Truth::True, Truth::False) => Truth::True,
            (Truth::True, Truth::True) => Truth::False,
        }
    }

    /// Ternary select: yields `t` when the condition is True and `f` when it
    /// is False; the branch not chosen is never inspected.
    pub fn select<A>(self, t: A, f: A) -> (r: A)
        ensures
            self.holds() ==> r == t,
            !self.holds() ==> r == f,
    {
        match self {
            Truth::True => t,
            Truth::False => f,
        }
    }
}

/// The type-level False.
pub type False = T0;

/// The type-level True.
pub type True = T1;

/// Seals `Bool`: only `True` and `False` inhabit the type-level kernel.
pub trait Sealed {}

impl Sealed for True {}

impl Sealed for False {}

/// A type-level boolean.  Each implementing type denotes one truth value.
pub trait Bool: Sealed + Copy + Sized {
    /// The truth value the type denotes.
    spec fn truth(self) -> bool;

    /// The (unique) value of the type.
    fn make() -> Self;

    /// The denoted truth value, at runtime.
    fn to_bool(self) -> (b: bool)
        ensures
            b == self.truth(),
    ;
}

impl Bool for True {
    open spec fn truth(self) -> bool {
        true
    }

    fn make() -> Self {
        T1
    }

    fn to_bool(self) -> (b: bool) {
        true
    }
}

impl Bool for False {
    open spec fn truth(self) -> bool {
        false
    }

    fn make() -> Self {
        T0
    }

    fn to_bool(self) -> (b: bool) {
        false
    }
}

/// Type-level NOT; the contract is the truth table of the chosen output type.
pub trait BoolNot: Bool {
    type Output: Bool;

    fn not(self) -> (r: Self::Output)
        ensures
            r.truth() == !self.truth(),
    ;
}

impl BoolNot for True {
    type Output = False;

    fn not(self) -> (r: False) {
        T0
    }
}

impl BoolNot for False {
    type Output = True;

    fn not(self) -> (r: True) {
        T1
    }
}

/// Type-level AND.
pub trait BoolAnd<R: Bool>: Bool {
    type Output: Bool;

    fn and(self, rhs: R) -> (r: Self::Output)
        ensures
            r.truth() == (self.truth() && rhs.truth()),
    ;
}

impl BoolAnd<False> for False {
    type Output = False;

    fn and(self, _rhs: False) -> (r: False) {
        T0
    }
}

impl BoolAnd<True> for False {
    type Output = False;

    fn and(self, _rhs: True) -> (r: False) {
        T0
    }
}

impl BoolAnd<False> for True {
    type Output = False;

    fn and(self, _rhs: False) -> (r: False) {
        T0
    }
}

impl BoolAnd<True> for True {
    type Output = True;

    fn and(self, _rhs: True) -> (r: True) {
        T1
    }
}

/// Type-level OR.
pub trait BoolOr<R: Bool>: Bool {
    type Output: Bool;

    fn or(self, rhs: R) -> (r: Self::Output)
        ensures
            r.truth() == (self.truth() || rhs.truth()),
    ;
}

impl BoolOr<False> for False {
    type Output = False;

    fn or(self, _rhs: False) -> (r: False) {
        T0
    }
}

impl BoolOr<True> for False {
    type Output = True;

    fn or(self, _rhs: True) -> (r: True) {
        T1
    }
}

impl BoolOr<False> for True {
    type Output = True;

    fn or(self, _rhs: False) -> (r: True) {
        T1
    }
}

impl BoolOr<True> for True {
    type Output = True;

    fn or(self, _rhs: True) -> (r: True) {
        T1
    }
}

/// Type-level XOR.
pub trait BoolXor<R: Bool>: Bool {
    type Output: Bool;

    fn xor(self, rhs: R) -> (r: Self::Output)
        ensures
            r.truth() == (self.truth() != rhs.truth()),
    ;
}

impl BoolXor<False> for False {
    type Output = False;

    fn xor(self, _rhs: False) -> (r: False) {
        T0
    }
}

impl BoolXor<True> for False {
    type Output = True;

    fn xor(self, _rhs: True) -> (r: True) {
        T1
    }
}

impl BoolXor<False> for True {
    type Output = True;

    fn xor(self, _rhs: False) -> (r: True) {
        T1
    }
}

impl BoolXor<True> for True {
    type Output = False;

    fn xor(self, _rhs: True) -> (r: False) {
        T0
    }
}

/// Type-level select: `True` chooses the first branch's type and value,
/// `False` the second's; the two branches may have different types.
pub trait BoolIfElse<T, F>: Bool {
    type Output;

    /// The branch the condition chooses.
    spec fn chosen(self, t: T, f: F) -> Self::Output;

    fn if_else(self, t: T, f: F) -> (r: Self::Output)
        ensures
            r == self.chosen(t, f),
    ;
}

impl<T, F> BoolIfElse<T, F> for True {
    type Output = T;

    open spec fn chosen(self, t: T, f: F) -> T {
        t
    }

    fn if_else(self, t: T, f: F) -> (r: T) {
        t
    }
}

impl<T, F> BoolIfElse<T, F> for False {
    type Output = F;

    open spec fn chosen(self, t: T, f: F) -> F {
        f
    }

    fn if_else(self, t: T, f: F) -> (r: F) {
        f
    }
}

/// Function marker for type-level AND.
pub struct AndFn;

impl<L: BoolAnd<R>, R: Bool> Func<(L, R)> for AndFn {
    type Output = <L as BoolAnd<R>>::Output;

    fn call(input: (L, R)) -> Self::Output {
        input.0.and(input.1)
    }
}

/// Function marker for type-level OR.
pub struct OrFn;

impl<L: BoolOr<R>, R: Bool> Func<(L, R)> for OrFn {
    type Output = <L as BoolOr<R>>::Output;

    fn call(input: (L, R)) -> Self::Output {
        input.0.or(input.1)
    }
}

/// Function marker for type-level XOR.
pub struct XorFn;

impl<L: BoolXor<R>, R: Bool> Func<(L, R)> for XorFn {
    type Output = <L as BoolXor<R>>::Output;

    fn call(input: (L, R)) -> Self::Output {
        input.0.xor(input.1)
    }
}

} // verus!
