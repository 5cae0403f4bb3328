//! The pre-defined tag namespace: twenty-six pairwise-distinct tag types,
//! one per letter, each carrying its identifier both as a type-level encoding
//! and as the matching runtime value.

use crate::ident::{Ident, TypeId};
use crate::{T0, T1};
use vstd::prelude::*;

verus! {

/// Tag `A`.
#[derive(Copy, Clone, Debug)]
pub struct A;

impl TypeId for A {
    type Id = T0;

    open spec fn id_spec() -> Ident {
        Ident::Bit0
    }

    fn ident() -> (r: Ident) {
        Ident::Bit0
    }
}

/// Tag `B`.
#[derive(Copy, Clone, Debug)]
pub struct B;

impl TypeId for B {
    type Id = T1;

    open spec fn id_spec() -> Ident {
        Ident::Bit1
    }

    fn ident() -> (r: Ident) {
        Ident::Bit1
    }
}

/// Tag `C`.
#[derive(Copy, Clone, Debug)]
pub struct C;

impl TypeId for C {
    type Id = (T1, T0);

    open spec fn id_spec() -> Ident {
        Ident::Pair(Box::new(Ident::Bit1), Box::new(Ident::Bit0))
    }

    fn ident() -> (r: Ident) {
        Ident::Pair(Box::new(Ident::Bit1), Box::new(Ident::Bit0))
    }
}

/// Tag `D`.
#[derive(Copy, Clone, Debug)]
pub struct D;

impl TypeId for D {
    type Id = (T1, T1);

    open spec fn id_spec() -> Ident {
        Ident::Pair(Box::new(Ident::Bit1), Box::new(Ident::Bit1))
    }

    fn ident() -> (r: Ident) {
        Ident::Pair(Box::new(Ident::Bit1), Box::new(Ident::Bit1))
    }
}

/// Tag `E`.
#[derive(Copy, Clone, Debug)]
pub struct E;

impl TypeId for E {
    type Id = (T1, (T0, T0));

    open spec fn id_spec() -> Ident {
        Ident::Pair(Box::new(Ident::Bit1), Box::new(Ident::Pair(Box::new(Ident::Bit0), Box::new(Ident::Bit0))))
    }

    fn ident() -> (r: Ident) {
        Ident::Pair(Box::new(Ident::Bit1), Box::new(Ident::Pair(Box::new(Ident::Bit0), Box::new(Ident::Bit0))))
    }
}

/// Tag `F`.
#[derive(Copy, Clone, Debug)]
pub struct F;

impl TypeId for F {
    type Id = (T1, (T0, T1));

    open spec fn id_spec() -> Ident {
        Ident::Pair(Box::new(Ident::Bit1), Box::new(Ident::Pair(Box::new(Ident::Bit0), Box::new(Ident::Bit1))))
    }

    fn ident() -> (r: Ident) {
        Ident::Pair(Box::new(Ident::Bit1), Box::new(Ident::Pair(Box::new(Ident::Bit0), Box::new(Ident::Bit1))))
    }
}

/// Tag `G`.
#[derive(Copy, Clone, Debug)]
pub struct G;

impl TypeId for G {
    type Id = (T1, (T1, T0));

    open spec fn id_spec() -> Ident {
        Ident::Pair(Box::new(Ident::Bit1), Box::new(Ident::Pair(Box::new(Ident::Bit1), Box::new(Ident::Bit0))))
    }

    fn ident() -> (r: Ident) {
        Ident::Pair(Box::new(Ident::Bit1), Box::new(Ident::Pair(Box::new(Ident::Bit1), Box::new(Ident::Bit0))))
    }
}

/// Tag `H`.
#[derive(Copy, Clone, Debug)]
pub struct H;

impl TypeId for H {
    type Id = (T1, (T1, T1));

    open spec fn id_spec() -> Ident {
        Ident::Pair(Box::new(Ident::Bit1), Box::new(Ident::Pair(Box::new(Ident::Bit1), Box::new(Ident::Bit1))))
    }

    fn ident() -> (r: Ident) {
        Ident::Pair(Box::new(Ident::Bit1), Box::new(Ident::Pair(Box::new(Ident::Bit1), Box::new(Ident::Bit1))))
    }
}

/// Tag `I`.
#[derive(Copy, Clone, Debug)]
pub struct I;

impl TypeId for I {
    type Id = (T1, (T0, (T0, T0)));

    open spec fn id_spec() -> Ident {
        Ident::Pair(Box::new(Ident::Bit1), Box::new(Ident::Pair(Box::new(Ident::Bit0), Box::new(Ident::Pair(Box::new(Ident::Bit0), Box::new(Ident::Bit0))))))
    }

    fn ident() -> (r: Ident) {
        Ident::Pair(Box::new(Ident::Bit1), Box::new(Ident::Pair(Box::new(Ident::Bit0), Box::new(Ident::Pair(Box::new(Ident::Bit0), Box::new(Ident::Bit0))))))
    }
}

/// Tag `J`.
#[derive(Copy, Clone, Debug)]
pub struct J;

impl TypeId for J {
    type Id = (T1, (T0, (T0, T1)));

    open spec fn id_spec() -> Ident {
        Ident::Pair(Box::new(Ident::Bit1), Box::new(Ident::Pair(Box::new(Ident::Bit0), Box::new(Ident::Pair(Box::new(Ident::Bit0), Box::new(Ident::Bit1))))))
    }

    fn ident() -> (r: Ident) {
        Ident::Pair(Box::new(Ident::Bit1), Box::new(Ident::Pair(Box::new(Ident::Bit0), Box::new(Ident::Pair(Box::new(Ident::Bit0), Box::new(Ident::Bit1))))))
    }
}

/// Tag `K`.
#[derive(Copy, Clone, Debug)]
pub struct K;

impl TypeId for K {
    type Id = (T1, (T0, (T1, T0)));

    open spec fn id_spec() -> Ident {
        Ident::Pair(Box::new(Ident::Bit1), Box::new(Ident::Pair(Box::new(Ident::Bit0), Box::new(Ident::Pair(Box::new(Ident::Bit1), Box::new(Ident::Bit0))))))
    }

    fn ident() -> (r: Ident) {
        Ident::Pair(Box::new(Ident::Bit1), Box::new(Ident::Pair(Box::new(Ident::Bit0), Box::new(Ident::Pair(Box::new(Ident::Bit1), Box::new(Ident::Bit0))))))
    }
}

/// Tag `L`.
#[derive(Copy, Clone, Debug)]
pub struct L;

impl TypeId for L {
    type Id = (T1, (T0, (T1, T1)));

    open spec fn id_spec() -> Ident {
        Ident::Pair(Box::new(Ident::Bit1), Box::new(Ident::Pair(Box::new(Ident::Bit0), Box::new(Ident::Pair(Box::new(Ident::Bit1), Box::new(Ident::Bit1))))))
    }

    fn ident() -> (r: Ident) {
        Ident::Pair(Box::new(Ident::Bit1), Box::new(Ident::Pair(Box::new(Ident::Bit0), Box::new(Ident::Pair(Box::new(Ident::Bit1), Box::new(Ident::Bit1))))))
    }
}

/// Tag `M`.
#[derive(Copy, Clone, Debug)]
pub struct M;

impl TypeId for M {
    type Id = (T1, (T1, (T0, T0)));

    open spec fn id_spec() -> Ident {
        Ident::Pair(Box::new(Ident::Bit1), Box::new(Ident::Pair(Box::new(Ident::Bit1), Box::new(Ident::Pair(Box::new(Ident::Bit0), Box::new(Ident::Bit0))))))
    }

    fn ident() -> (r: Ident) {
        Ident::Pair(Box::new(Ident::Bit1), Box::new(Ident::Pair(Box::new(Ident::Bit1), Box::new(Ident::Pair(Box::new(Ident::Bit0), Box::new(Ident::Bit0))))))
    }
}

/// Tag `N`.
#[derive(Copy, Clone, Debug)]
pub struct N;

impl TypeId for N {
    type Id = (T1, (T1, (T0, T1)));

    open spec fn id_spec() -> Ident {
        Ident::Pair(Box::new(Ident::Bit1), Box::new(Ident::Pair(Box::new(Ident::Bit1), Box::new(Ident::Pair(Box::new(Ident::Bit0), Box::new(Ident::Bit1))))))
    }

    fn ident() -> (r: Ident) {
        Ident::Pair(Box::new(Ident::Bit1), Box::new(Ident::Pair(Box::new(Ident::Bit1), Box::new(Ident::Pair(Box::new(Ident::Bit0), Box::new(Ident::Bit1))))))
    }
}

/// Tag `O`.
#[derive(Copy, Clone, Debug)]
pub struct O;

impl TypeId for O {
    type Id = (T1, (T1, (T1, T0)));

    open spec fn id_spec() -> Ident {
        Ident::Pair(Box::new(Ident::Bit1), Box::new(Ident::Pair(Box::new(Ident::Bit1), Box::new(Ident::Pair(Box::new(Ident::Bit1), Box::new(Ident::Bit0))))))
    }

    fn ident() -> (r: Ident) {
        Ident::Pair(Box::new(Ident::Bit1), Box::new(Ident::Pair(Box::new(Ident::Bit1), Box::new(Ident::Pair(Box::new(Ident::Bit1), Box::new(Ident::Bit0))))))
    }
}

/// Tag `P`.
#[derive(Copy, Clone, Debug)]
pub struct P;

impl TypeId for P {
    type Id = (T1, (T1, (T1, T1)));

    open spec fn id_spec() -> Ident {
        Ident::Pair(Box::new(Ident::Bit1), Box::new(Ident::Pair(Box::new(Ident::Bit1), Box::new(Ident::Pair(Box::new(Ident::Bit1), Box::new(Ident::Bit1))))))
    }

    fn ident() -> (r: Ident) {
        Ident::Pair(Box::new(Ident::Bit1), Box::new(Ident::Pair(Box::new(Ident::Bit1), Box::new(Ident::Pair(Box::new(Ident::Bit1), Box::new(Ident::Bit1))))))
    }
}

/// Tag `Q`.
#[derive(Copy, Clone, Debug)]
pub struct Q;

impl TypeId for Q {
    type Id = (T1, (T0, (T0, (T0, T0))));

    open spec fn id_spec() -> Ident {
        Ident::Pair(Box::new(Ident::Bit1), Box::new(Ident::Pair(Box::new(Ident::Bit0), Box::new(Ident::Pair(Box::new(Ident::Bit0), Box::new(Ident::Pair(Box::new(Ident::Bit0), Box::new(Ident::Bit0))))))))
    }

    fn ident() -> (r: Ident) {
        Ident::Pair(Box::new(Ident::Bit1), Box::new(Ident::Pair(Box::new(Ident::Bit0), Box::new(Ident::Pair(Box::new(Ident::Bit0), Box::new(Ident::Pair(Box::new(Ident::Bit0), Box::new(Ident::Bit0))))))))
    }
}

/// Tag `R`.
#[derive(Copy, Clone, Debug)]
pub struct R;

impl TypeId for R {
    type Id = (T1, (T0, (T0, (T0, T1))));

    open spec fn id_spec() -> Ident {
        Ident::Pair(Box::new(Ident::Bit1), Box::new(Ident::Pair(Box::new(Ident::Bit0), Box::new(Ident::Pair(Box::new(Ident::Bit0), Box::new(Ident::Pair(Box::new(Ident::Bit0), Box::new(Ident::Bit1))))))))
    }

    fn ident() -> (r: Ident) {
        Ident::Pair(Box::new(Ident::Bit1), Box::new(Ident::Pair(Box::new(Ident::Bit0), Box::new(Ident::Pair(Box::new(Ident::Bit0), Box::new(Ident::Pair(Box::new(Ident::Bit0), Box::new(Ident::Bit1))))))))
    }
}

/// Tag `S`.
#[derive(Copy, Clone, Debug)]
pub struct S;

impl TypeId for S {
    type Id = (T1, (T0, (T0, (T1, T0))));

    open spec fn id_spec() -> Ident {
        Ident::Pair(Box::new(Ident::Bit1), Box::new(Ident::Pair(Box::new(Ident::Bit0), Box::new(Ident::Pair(Box::new(Ident::Bit0), Box::new(Ident::Pair(Box::new(Ident::Bit1), Box::new(Ident::Bit0))))))))
    }

    fn ident() -> (r: Ident) {
        Ident::Pair(Box::new(Ident::Bit1), Box::new(Ident::Pair(Box::new(Ident::Bit0), Box::new(Ident::Pair(Box::new(Ident::Bit0), Box::new(Ident::Pair(Box::new(Ident::Bit1), Box::new(Ident::Bit0))))))))
    }
}

/// Tag `T`.
#[derive(Copy, Clone, Debug)]
pub struct T;

impl TypeId for T {
    type Id = (T1, (T0, (T0, (T1, T1))));

    open spec fn id_spec() -> Ident {
        Ident::Pair(Box::new(Ident::Bit1), Box::new(Ident::Pair(Box::new(Ident::Bit0), Box::new(Ident::Pair(Box::new(Ident::Bit0), Box::new(Ident::Pair(Box::new(Ident::Bit1), Box::new(Ident::Bit1))))))))
    }

    fn ident() -> (r: Ident) {
        Ident::Pair(Box::new(Ident::Bit1), Box::new(Ident::Pair(Box::new(Ident::Bit0), Box::new(Ident::Pair(Box::new(Ident::Bit0), Box::new(Ident::Pair(Box::new(Ident::Bit1), Box::new(Ident::Bit1))))))))
    }
}

/// Tag `U`.
#[derive(Copy, Clone, Debug)]
pub struct U;

impl TypeId for U {
    type Id = (T1, (T0, (T1, (T0, T0))));

    open spec fn id_spec() -> Ident {
        Ident::Pair(Box::new(Ident::Bit1), Box::new(Ident::Pair(Box::new(Ident::Bit0), Box::new(Ident::Pair(Box::new(Ident::Bit1), Box::new(Ident::Pair(Box::new(Ident::Bit0), Box::new(Ident::Bit0))))))))
    }

    fn ident() -> (r: Ident) {
        Ident::Pair(Box::new(Ident::Bit1), Box::new(Ident::Pair(Box::new(Ident::Bit0), Box::new(Ident::Pair(Box::new(Ident::Bit1), Box::new(Ident::Pair(Box::new(Ident::Bit0), Box::new(Ident::Bit0))))))))
    }
}

/// Tag `V`.
#[derive(Copy, Clone, Debug)]
pub struct V;

impl TypeId for V {
    type Id = (T1, (T0, (T1, (T0, T1))));

    open spec fn id_spec() -> Ident {
        Ident::Pair(Box::new(Ident::Bit1), Box::new(Ident::Pair(Box::new(Ident::Bit0), Box::new(Ident::Pair(Box::new(Ident::Bit1), Box::new(Ident::Pair(Box::new(Ident::Bit0), Box::new(Ident::Bit1))))))))
    }

    fn ident() -> (r: Ident) {
        Ident::Pair(Box::new(Ident::Bit1), Box::new(Ident::Pair(Box::new(Ident::Bit0), Box::new(Ident::Pair(Box::new(Ident::Bit1), Box::new(Ident::Pair(Box::new(Ident::Bit0), Box::new(Ident::Bit1))))))))
    }
}

/// Tag `W`.
#[derive(Copy, Clone, Debug)]
pub struct W;

impl TypeId for W {
    type Id = (T1, (T0, (T1, (T1, T0))));

    open spec fn id_spec() -> Ident {
        Ident::Pair(Box::new(Ident::Bit1), Box::new(Ident::Pair(Box::new(Ident::Bit0), Box::new(Ident::Pair(Box::new(Ident::Bit1), Box::new(Ident::Pair(Box::new(Ident::Bit1), Box::new(Ident::Bit0))))))))
    }

    fn ident() -> (r: Ident) {
        Ident::Pair(Box::new(Ident::Bit1), Box::new(Ident::Pair(Box::new(Ident::Bit0), Box::new(Ident::Pair(Box::new(Ident::Bit1), Box::new(Ident::Pair(Box::new(Ident::Bit1), Box::new(Ident::Bit0))))))))
    }
}

/// Tag `X`.
#[derive(Copy, Clone, Debug)]
pub struct X;

impl TypeId for X {
    type Id = (T1, (T0, (T1, (T1, T1))));

    open spec fn id_spec() -> Ident {
        Ident::Pair(Box::new(Ident::Bit1), Box::new(Ident::Pair(Box::new(Ident::Bit0), Box::new(Ident::Pair(Box::new(Ident::Bit1), Box::new(Ident::Pair(Box::new(Ident::Bit1), Box::new(Ident::Bit1))))))))
    }

    fn ident() -> (r: Ident) {
        Ident::Pair(Box::new(Ident::Bit1), Box::new(Ident::Pair(Box::new(Ident::Bit0), Box::new(Ident::Pair(Box::new(Ident::Bit1), Box::new(Ident::Pair(Box::new(Ident::Bit1), Box::new(Ident::Bit1))))))))
    }
}

/// Tag `Y`.
#[derive(Copy, Clone, Debug)]
pub struct Y;

impl TypeId for Y {
    type Id = (T1, (T1, (T0, (T0, T0))));

    open spec fn id_spec() -> Ident {
        Ident::Pair(Box::new(Ident::Bit1), Box::new(Ident::Pair(Box::new(Ident::Bit1), Box::new(Ident::Pair(Box::new(Ident::Bit0), Box::new(Ident::Pair(Box::new(Ident::Bit0), Box::new(Ident::Bit0))))))))
    }

    fn ident() -> (r: Ident) {
        Ident::Pair(Box::new(Ident::Bit1), Box::new(Ident::Pair(Box::new(Ident::Bit1), Box::new(Ident::Pair(Box::new(Ident::Bit0), Box::new(Ident::Pair(Box::new(Ident::Bit0), Box::new(Ident::Bit0))))))))
    }
}

/// Tag `Z`.
#[derive(Copy, Clone, Debug)]
pub struct Z;

impl TypeId for Z {
    type Id = (T1, (T1, (T0, (T0, T1))));

    open spec fn id_spec() -> Ident {
        Ident::Pair(Box::new(Ident::Bit1), Box::new(Ident::Pair(Box::new(Ident::Bit1), Box::new(Ident::Pair(Box::new(Ident::Bit0), Box::new(Ident::Pair(Box::new(Ident::Bit0), Box::new(Ident::Bit1))))))))
    }

    fn ident() -> (r: Ident) {
        Ident::Pair(Box::new(Ident::Bit1), Box::new(Ident::Pair(Box::new(Ident::Bit1), Box::new(Ident::Pair(Box::new(Ident::Bit0), Box::new(Ident::Pair(Box::new(Ident::Bit0), Box::new(Ident::Bit1))))))))
    }
}

} // verus!
