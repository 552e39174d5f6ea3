//! Vectors and matrices over a scalar type: what the layers compute, as
//! functions on sequences, and the loops that compute it.
//!
//! A matrix is a sequence of rows. Every sum is accumulated from the scalar
//! zero, in order of rising index.

use vstd::prelude::*;
use crate::activation::ScalarFn;
use crate::scalar::Scalar;

verus! {

/// The rows of a matrix held as a vector of vectors.
pub open spec fn rows_of<S>(m: Vec<Vec<S>>) -> Seq<Seq<S>> {
    Seq::new(m@.len(), |r: int| m@[r]@)
}

/// Whether `m` has `height` rows of `width` entries each.
pub open spec fn rectangular<S>(m: Seq<Seq<S>>, height: nat, width: nat) -> bool {
    &&& m.len() == height
    &&& forall|r: int| 0 <= r < m.len() ==> (#[trigger] m[r]).len() == width
}

/// The sum of the first `n` products `a[k] * b[k]`.
pub open spec fn dot_prefix<S: Scalar>(a: Seq<S>, b: Seq<S>, n: nat) -> S
    decreases n,
{
    if n == 0 {
        S::zero_value()
    } else {
        dot_prefix(a, b, (n - 1) as nat).sum(a[n - 1].product(b[n - 1]))
    }
}

/// The inner product of two vectors of one length.
pub open spec fn dot<S: Scalar>(a: Seq<S>, b: Seq<S>) -> S {
    dot_prefix(a, b, a.len())
}

/// Column `c` of a matrix.
pub open spec fn column<S>(m: Seq<Seq<S>>, c: int) -> Seq<S> {
    Seq::new(m.len(), |r: int| m[r][c])
}

/// `w · x + b`: one entry for each row of `w`.
pub open spec fn affine<S: Scalar>(w: Seq<Seq<S>>, x: Seq<S>, b: Seq<S>) -> Seq<S> {
    Seq::new(w.len(), |r: int| dot(w[r], x).sum(b[r]))
}

/// `f` applied to every entry of `v`.
pub open spec fn mapped<S, F: ScalarFn<S>>(f: F, v: Seq<S>) -> Seq<S> {
    Seq::new(v.len(), |k: int| f.value_at(v[k]))
}

/// `a - b`, entry by entry.
pub open spec fn differences<S: Scalar>(a: Seq<S>, b: Seq<S>) -> Seq<S> {
    Seq::new(a.len(), |k: int| a[k].difference(b[k]))
}

/// `a + b`, entry by entry.
pub open spec fn sums<S: Scalar>(a: Seq<S>, b: Seq<S>) -> Seq<S> {
    Seq::new(a.len(), |k: int| a[k].sum(b[k]))
}

/// `(g ⊙ e) × rate`: the entrywise product of `g` and `e`, each entry then
/// multiplied by `rate`.
pub open spec fn scaled_products<S: Scalar>(g: Seq<S>, e: Seq<S>, rate: S) -> Seq<S> {
    Seq::new(g.len(), |k: int| g[k].product(e[k]).product(rate))
}

/// `w + delta · transpose(x)`: entry `(r, c)` grows by `delta[r] * x[c]`.
pub open spec fn plus_outer<S: Scalar>(w: Seq<Seq<S>>, delta: Seq<S>, x: Seq<S>) -> Seq<Seq<S>> {
    Seq::new(w.len(), |r: int| Seq::new(w[r].len(), |c: int| w[r][c].sum(delta[r].product(x[c]))))
}

/// `transpose(w) · e` for a matrix of the given width: entry `c` is the inner
/// product of column `c` with `e`.
pub open spec fn transposed_apply<S: Scalar>(w: Seq<Seq<S>>, e: Seq<S>, width: nat) -> Seq<S> {
    Seq::new(width, |c: int| dot(column(w, c), e))
}

pub(crate) fn copy_of<S: Copy>(v: &Vec<S>) -> (r: Vec<S>)
    ensures
        r@ == v@,
{
    let mut r: Vec<S> = Vec::new();
    let mut k: usize = 0;
    while k < v.len()
        invariant
            k <= v.len(),
            r@ == v@.take(k as int),
        decreases v.len() - k,
    {
        r.push(v[k]);
        k += 1;
    }
    r
}

pub(crate) fn inner_product<S: Scalar>(a: &Vec<S>, b: &Vec<S>) -> (r: S)
    requires
        a.len() == b.len(),
    ensures
        r == dot(a@, b@),
{
    let mut acc = S::zero();
    let mut k: usize = 0;
    while k < a.len()
        invariant
            k <= a.len(),
            a.len() == b.len(),
            acc == dot_prefix(a@, b@, k as nat),
        decreases a.len() - k,
    {
        acc = acc.plus(a[k].times(b[k]));
        k += 1;
    }
    acc
}

pub(crate) fn column_product<S: Scalar>(w: &Vec<Vec<S>>, c: usize, e: &Vec<S>) -> (r: S)
    requires
        w.len() == e.len(),
        forall|r: int| 0 <= r < w.len() ==> c < (#[trigger] w@[r]).len(),
    ensures
        r == dot(column(rows_of(*w), c as int), e@),
{
    let ghost col = column(rows_of(*w), c as int);
    let mut acc = S::zero();
    let mut k: usize = 0;
    while k < w.len()
        invariant
            k <= w.len(),
            w.len() == e.len(),
            forall|r: int| 0 <= r < w.len() ==> c < (#[trigger] w@[r]).len(),
            col == column(rows_of(*w), c as int),
            acc == dot_prefix(col, e@, k as nat),
        decreases w.len() - k,
    {
        acc = acc.plus(w[k][c].times(e[k]));
        k += 1;
    }
    acc
}

pub(crate) fn affine_image<S: Scalar>(w: &Vec<Vec<S>>, x: &Vec<S>, b: &Vec<S>) -> (r: Vec<S>)
    requires
        rectangular(rows_of(*w), b@.len(), x@.len()),
    ensures
        r@ == affine(rows_of(*w), x@, b@),
{
    let mut out: Vec<S> = Vec::new();
    let mut r: usize = 0;
    while r < w.len()
        invariant
            r <= w.len(),
            rectangular(rows_of(*w), b@.len(), x@.len()),
            out@ == affine(rows_of(*w), x@, b@).take(r as int),
        decreases w.len() - r,
    {
        assert(rows_of(*w)[r as int].len() == x@.len());
        let entry = inner_product(&w[r], x).plus(b[r]);
        out.push(entry);
        r += 1;
    }
    out
}

pub(crate) fn image<S, F: ScalarFn<S>>(f: &F, v: &Vec<S>) -> (r: Vec<S>)
    ensures
        r@ == mapped(*f, v@),
{
    let mut out: Vec<S> = Vec::new();
    let mut k: usize = 0;
    while k < v.len()
        invariant
            k <= v.len(),
            out@ == mapped(*f, v@).take(k as int),
        decreases v.len() - k,
    {
        out.push(f.apply(&v[k]));
        k += 1;
    }
    out
}

pub(crate) fn subtract<S: Scalar>(a: &Vec<S>, b: &Vec<S>) -> (r: Vec<S>)
    requires
        a.len() == b.len(),
    ensures
        r@ == differences(a@, b@),
{
    let mut out: Vec<S> = Vec::new();
    let mut k: usize = 0;
    while k < a.len()
        invariant
            k <= a.len(),
            a.len() == b.len(),
            out@ == differences(a@, b@).take(k as int),
        decreases a.len() - k,
    {
        out.push(a[k].minus(b[k]));
        k += 1;
    }
    out
}

pub(crate) fn add_vectors<S: Scalar>(a: &Vec<S>, b: &Vec<S>) -> (r: Vec<S>)
    requires
        a.len() == b.len(),
    ensures
        r@ == sums(a@, b@),
{
    let mut out: Vec<S> = Vec::new();
    let mut k: usize = 0;
    while k < a.len()
        invariant
            k <= a.len(),
            a.len() == b.len(),
            out@ == sums(a@, b@).take(k as int),
        decreases a.len() - k,
    {
        out.push(a[k].plus(b[k]));
        k += 1;
    }
    out
}

pub(crate) fn scale_products<S: Scalar>(g: &Vec<S>, e: &Vec<S>, rate: S) -> (r: Vec<S>)
    requires
        g.len() == e.len(),
    ensures
        r@ == scaled_products(g@, e@, rate),
{
    let mut out: Vec<S> = Vec::new();
    let mut k: usize = 0;
    while k < g.len()
        invariant
            k <= g.len(),
            g.len() == e.len(),
            out@ == scaled_products(g@, e@, rate).take(k as int),
        decreases g.len() - k,
    {
        out.push(g[k].times(e[k]).times(rate));
        k += 1;
    }
    out
}

pub(crate) fn add_outer<S: Scalar>(w: &Vec<Vec<S>>, delta: &Vec<S>, x: &Vec<S>) -> (r: Vec<Vec<S>>)
    requires
        rectangular(rows_of(*w), delta@.len(), x@.len()),
    ensures
        rows_of(r) == plus_outer(rows_of(*w), delta@, x@),
{
    let mut out: Vec<Vec<S>> = Vec::new();
    let mut r: usize = 0;
    while r < w.len()
        invariant
            r <= w.len(),
            rectangular(rows_of(*w), delta@.len(), x@.len()),
            rows_of(out) == plus_outer(rows_of(*w), delta@, x@).take(r as int),
        decreases w.len() - r,
    {
        let ghost target = plus_outer(rows_of(*w), delta@, x@)[r as int];
        assert(rows_of(*w)[r as int].len() == x@.len());
        let mut row: Vec<S> = Vec::new();
        let mut c: usize = 0;
        while c < x.len()
            invariant
                c <= x.len(),
                r < w.len(),
                r < delta.len(),
                w@[r as int]@.len() == x@.len(),
                target == plus_outer(rows_of(*w), delta@, x@)[r as int],
                row@ == target.take(c as int),
            decreases x.len() - c,
        {
            row.push(w[r][c].plus(delta[r].times(x[c])));
            c += 1;
        }
        assert(row@ == target);
        let ghost before = rows_of(out);
        out.push(row);
        assert(rows_of(out) =~= before.push(target));
        r += 1;
    }
    out
}

pub(crate) fn apply_transposed<S: Scalar>(w: &Vec<Vec<S>>, e: &Vec<S>, width: usize) -> (r: Vec<S>)
    requires
        rectangular(rows_of(*w), e@.len(), width as nat),
    ensures
        r@ == transposed_apply(rows_of(*w), e@, width as nat),
{
    let mut out: Vec<S> = Vec::new();
    let mut c: usize = 0;
    while c < width
        invariant
            c <= width,
            rectangular(rows_of(*w), e@.len(), width as nat),
            out@ == transposed_apply(rows_of(*w), e@, width as nat).take(c as int),
        decreases width - c,
    {
        assert forall|r: int| 0 <= r < w.len() implies c < (#[trigger] w@[r]).len() by {
            assert(rows_of(*w)[r].len() == width);
        }
        out.push(column_product(w, c, e));
        c += 1;
    }
    out
}

} // verus!
