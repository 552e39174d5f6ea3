//! The arithmetic a network asks of its numbers.

use vstd::prelude::*;

verus! {

/// A number type a network can compute with.
///
/// Every executable operation is paired with a specification function that
/// names its result, so that a computation over scalars is a function of its
/// inputs alone. Beyond that only `from_draw` is held to anything: no
/// identity, associativity or ordering law is assumed by the network.
pub trait Scalar: Copy + Sized {
    /// The additive start value of every accumulated sum.
    spec fn zero_value() -> Self;

    /// The slope of the identity.
    spec fn one_value() -> Self;

    /// What `plus` returns.
    spec fn sum(self, rhs: Self) -> Self;

    /// What `minus` returns.
    spec fn difference(self, rhs: Self) -> Self;

    /// What `times` returns.
    spec fn product(self, rhs: Self) -> Self;

    /// What `is_positive` returns.
    spec fn positive(self) -> bool;

    /// What `from_draw` returns.
    spec fn unit_draw(word: u32) -> Self;

    fn zero() -> (r: Self)
        ensures
            r == Self::zero_value(),
    ;

    fn one() -> (r: Self)
        ensures
            r == Self::one_value(),
    ;

    fn plus(self, rhs: Self) -> (r: Self)
        ensures
            r == self.sum(rhs),
    ;

    fn minus(self, rhs: Self) -> (r: Self)
        ensures
            r == self.difference(rhs),
    ;

    fn times(self, rhs: Self) -> (r: Self)
        ensures
            r == self.product(rhs),
    ;

    /// Whether the value is strictly greater than zero.
    fn is_positive(self) -> (r: bool)
        ensures
            r == self.positive(),
    ;

    /// Maps 32 uniformly distributed bits to a value in `[0, 1)`: to an `r`
    /// for which `0 - r` is not positive and `1 - r` is.
    fn from_draw(word: u32) -> (r: Self)
        ensures
            r == Self::unit_draw(word),
            !Self::zero_value().difference(r).positive(),
            Self::one_value().difference(r).positive(),
    ;
}

/// Whether `0 <= x < 1`, as the scalar's own arithmetic sees it: `0 - x` is
/// not positive, and `1 - x` is.
pub open spec fn in_unit_interval<S: Scalar>(x: S) -> bool {
    &&& !S::zero_value().difference(x).positive()
    &&& S::one_value().difference(x).positive()
}

} // verus!
