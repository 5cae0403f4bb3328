//! A minimal "callable" convention: zero-sized marker types that can be
//! invoked with an input to produce an output.  The logic kernel's operator
//! markers and the identifier-equality marker implement it.

use vstd::prelude::*;

verus! {

/// A function-like marker: calling `Self` with an input of type `I` produces
/// a value of the output type the implementation picks.
pub trait Func<I> {
    type Output;

    fn call(input: I) -> Self::Output;
}

/// The flip side of `Func`: an input value that a marker `F` accepts.
pub trait CanApply<F> {
    type Output;

    fn apply(self) -> Self::Output;
}

impl<F: Func<I>, I> CanApply<F> for I {
    type Output = <F as Func<I>>::Output;

    fn apply(self) -> <F as Func<I>>::Output {
        F::call(self)
    }
}

/// Marker that applies a right-nested tuple of function markers in order:
/// `Chain<(F, (G, ()))>` applies `F`, then `G` to what `F` returned.
pub struct Chain<F>(core::marker::PhantomData<F>);

/// Builds the chain marker for a tuple of function markers; only the tuple's
/// type matters, so the value is discarded.
pub fn chain<F>(_functions: F) -> Chain<F> {
    Chain(core::marker::PhantomData)
}

impl<I> Func<I> for Chain<()> {
    type Output = I;

    fn call(input: I) -> I {
        input
    }
}

impl<F, Fs, I> Func<I> for Chain<(F, Fs)> where
    I: CanApply<F>,
    <I as CanApply<F>>::Output: CanApply<Chain<Fs>>,
 {
    type Output = <<I as CanApply<F>>::Output as CanApply<Chain<Fs>>>::Output;

    fn call(input: I) -> Self::Output {
        input.apply().apply()
    }
}

/// The identity function marker.
#[derive(Clone, Copy, Debug)]
pub struct Identity;

impl<T> Func<T> for Identity {
    type Output = T;

    fn call(input: T) -> T {
        input
    }
}

} // verus!
