//! Random initial parameters.

use vstd::prelude::*;
use crate::scalar::{in_unit_interval, Scalar};

verus! {

/// Whether `x` is what some 32 random bits are mapped to, and lies in
/// `[0, 1)`.
pub open spec fn is_unit_draw<S: Scalar>(x: S) -> bool {
    &&& exists|word: u32| x == S::unit_draw(word)
    &&& in_unit_interval(x)
}

/// Calls `rand::random::<u32>()`, which draws 32 bits from the generator of
/// the calling thread.
///
/// Trusted, with nothing claimed of the word that comes back: every `u32` is
/// a possible outcome, and two calls may differ. The outside function panics
/// where the operating system gives the thread's generator no seed; no
/// argument decides that, so no precondition rules it out.
#[verifier::external_body]
pub(crate) fn random_word() -> (word: u32) {
    rand::random::<u32>()
}

/// A vector of `n` independent draws from `[0, 1)`.
pub(crate) fn random_vector<S: Scalar>(n: usize) -> (v: Vec<S>)
    ensures
        v@.len() == n,
        forall|k: int| 0 <= k < n ==> is_unit_draw(#[trigger] v@[k]),
{
    let mut v: Vec<S> = Vec::new();
    let mut k: usize = 0;
    while k < n
        invariant
            k <= n,
            v@.len() == k,
            forall|j: int| 0 <= j < k ==> is_unit_draw(#[trigger] v@[j]),
        decreases n - k,
    {
        let word = random_word();
        v.push(S::from_draw(word));
        k += 1;
    }
    v
}

/// A matrix of `height` rows and `width` columns of independent draws from
/// `[0, 1)`, drawn row by row.
pub(crate) fn random_matrix<S: Scalar>(height: usize, width: usize) -> (m: Vec<Vec<S>>)
    ensures
        m@.len() == height,
        forall|r: int| 0 <= r < height ==> (#[trigger] m@[r])@.len() == width,
        forall|r: int, c: int|
            0 <= r < height && 0 <= c < width ==> is_unit_draw(#[trigger] m@[r]@[c]),
{
    let mut m: Vec<Vec<S>> = Vec::new();
    let mut r: usize = 0;
    while r < height
        invariant
            r <= height,
            m@.len() == r,
            forall|j: int| 0 <= j < r ==> (#[trigger] m@[j])@.len() == width,
            forall|j: int, c: int|
                0 <= j < r && 0 <= c < width ==> is_unit_draw(#[trigger] m@[j]@[c]),
        decreases height - r,
    {
        let row = random_vector::<S>(width);
        m.push(row);
        r += 1;
    }
    m
}

} // verus!
