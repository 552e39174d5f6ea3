//! Activation functions: a scalar function paired with its derivative.

use vstd::prelude::*;
use crate::scalar::Scalar;

verus! {

/// A pure function from scalars to scalars.
///
/// `value_at` names what `apply` returns, so that applying one function to
/// one argument twice gives one result.
pub trait ScalarFn<S> {
    spec fn value_at(&self, x: S) -> S;

    fn apply(&self, x: &S) -> (y: S)
        ensures
            y == self.value_at(*x),
    ;
}

/// The function applied at every layer transition, and its derivative.
///
/// By convention the derivative is a function of the *activated* value: the
/// backward pass hands it an activation, not the weighted sum that led to it.
pub struct Activation<F, D> {
    pub function: F,
    pub derivation: D,
}

/// `x` where `x` is positive, zero elsewhere.
pub struct Rectifier;

/// One where the argument is positive, zero elsewhere.
pub struct RectifierSlope;

impl<S: Scalar> ScalarFn<S> for Rectifier {
    open spec fn value_at(&self, x: S) -> S {
        if x.positive() {
            x
        } else {
            S::zero_value()
        }
    }

    fn apply(&self, x: &S) -> (y: S) {
        if x.is_positive() {
            *x
        } else {
            S::zero()
        }
    }
}

impl<S: Scalar> ScalarFn<S> for RectifierSlope {
    open spec fn value_at(&self, x: S) -> S {
        if x.positive() {
            S::one_value()
        } else {
            S::zero_value()
        }
    }

    fn apply(&self, x: &S) -> (y: S) {
        if x.is_positive() {
            S::one()
        } else {
            S::zero()
        }
    }
}

impl Activation<Rectifier, RectifierSlope> {
    /// The rectifier `max(x, 0)` with the slope `1` on positive values and
    /// `0` elsewhere.
    pub fn softmax() -> (a: Self)
        ensures
            a.function == Rectifier,
            a.derivation == RectifierSlope,
    {
        Activation { function: Rectifier, derivation: RectifierSlope }
    }
}

} // verus!
