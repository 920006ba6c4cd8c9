//! The mathematical model of the octavian integers.
//!
//! An octavian is modelled as a sequence of eight mathematical integers: its
//! coordinates in a fixed basis of the E8 lattice.  The spec functions here
//! define, over such sequences, the bilinear form given by the Gram matrix,
//! the derived norm and trace, conjugation, and the ring multiplication
//! through the adjoint matrices.  The executable operations on `Octavian`
//! are specified against these functions.

use vstd::prelude::*;

use crate::tables::GRAM_MATRIX;
use crate::tables::OCTAVIAN_ADJOINT_MATRICES;
use crate::tables::OCTAVIAN_UNITS_COEFFICIENTS;

verus! {

/// The coefficients of an octavian form a sequence of exactly eight integers.
pub open spec fn is_coeffs(s: Seq<int>) -> bool {
    s.len() == 8
}

/// A sequence of machine integers, read as a sequence of mathematical integers.
pub open spec fn to_int_seq(s: Seq<i32>) -> Seq<int> {
    Seq::new(s.len(), |i: int| s[i] as int)
}

/// Entry `(i, j)` of the Gram matrix.
#[verifier::opaque]
pub open spec fn gram(i: int, j: int) -> int {
    (GRAM_MATRIX@[i])@[j] as int
}

/// Entry `(i, j)` of the `k`-th adjoint matrix: the matrix of left
/// multiplication by the `k`-th basis vector.
#[verifier::opaque]
pub open spec fn adj(k: int, i: int, j: int) -> int {
    ((OCTAVIAN_ADJOINT_MATRICES@[k])@[i])@[j] as int
}

/// Coefficient `i` of row `r` of the unit table.
#[verifier::opaque]
pub open spec fn unit_row(r: int, i: int) -> int {
    (OCTAVIAN_UNITS_COEFFICIENTS@[r])@[i] as int
}

/// Row `r` of the unit table as a coefficient sequence.
pub open spec fn unit_row_seq(r: int) -> Seq<int> {
    Seq::new(8, |i: int| unit_row(r, i))
}

/// The all-zero element.
pub open spec fn zero_seq() -> Seq<int> {
    seq![0, 0, 0, 0, 0, 0, 0, 0]
}

/// The multiplicative identity.  In this basis "one" is not a unit coordinate
/// vector; it has these fixed coordinates.
pub open spec fn identity_seq() -> Seq<int> {
    seq![-2, -3, -4, -6, -5, -4, -3, -2]
}

/// The `k`-th basis vector: coefficient 1 in position `k` and 0 elsewhere.
pub open spec fn basis_seq(k: int) -> Seq<int> {
    seq![
        if k == 0 { 1int } else { 0 },
        if k == 1 { 1int } else { 0 },
        if k == 2 { 1int } else { 0 },
        if k == 3 { 1int } else { 0 },
        if k == 4 { 1int } else { 0 },
        if k == 5 { 1int } else { 0 },
        if k == 6 { 1int } else { 0 },
        if k == 7 { 1int } else { 0 },
    ]
}

/// Coefficient-wise sum.
pub open spec fn add_seq(x: Seq<int>, y: Seq<int>) -> Seq<int> {
    Seq::new(8, |i: int| x[i] + y[i])
}

/// Coefficient-wise difference.
pub open spec fn sub_seq(x: Seq<int>, y: Seq<int>) -> Seq<int> {
    Seq::new(8, |i: int| x[i] - y[i])
}

/// Coefficient-wise negation.
pub open spec fn neg_seq(x: Seq<int>) -> Seq<int> {
    Seq::new(8, |i: int| -x[i])
}

/// Right scalar multiplication.
pub open spec fn scale_seq(x: Seq<int>, t: int) -> Seq<int> {
    Seq::new(8, |i: int| x[i] * t)
}

/// Truncating integer division: the quotient is rounded towards zero, as the
/// division operator of the coefficient type does.
pub open spec fn tdiv(a: int, b: int) -> int {
    if a == 0 {
        0
    } else if a > 0 && b > 0 {
        a / b
    } else if a < 0 && b < 0 {
        (a * -1) / (b * -1)
    } else if a < 0 {
        ((a * -1) / b) * -1
    } else {
        (a / (b * -1)) * -1
    }
}

/// Right scalar division, truncating towards zero in each coefficient.
pub open spec fn unscale_seq(x: Seq<int>, t: int) -> Seq<int> {
    Seq::new(8, |i: int| tdiv(x[i], t))
}

/// Partial sum of the first `n` terms of row `i` of the Gram matrix applied
/// to `y`: the sum of `gram(i, j) * y[j]` over `j < n`.
pub open spec fn gram_row_prefix(i: int, y: Seq<int>, n: int) -> int
    decreases n,
{
    if n <= 0 {
        0
    } else {
        gram_row_prefix(i, y, n - 1) + gram(i, n - 1) * y[n - 1]
    }
}

/// Row `i` of the Gram matrix applied to `y`.
pub open spec fn gram_row(i: int, y: Seq<int>) -> int {
    gram_row_prefix(i, y, 8)
}

/// Partial sum of the first `n` terms of the inner product: the sum of
/// `x[i] * gram_row(i, y)` over `i < n`.
pub open spec fn inner_prefix(x: Seq<int>, y: Seq<int>, n: int) -> int
    decreases n,
{
    if n <= 0 {
        0
    } else {
        inner_prefix(x, y, n - 1) + x[n - 1] * gram_row(n - 1, y)
    }
}

/// The inner product of two coefficient sequences under the Gram matrix:
/// the two-stage contraction `x . (G y)`.
pub open spec fn inner_product_spec(x: Seq<int>, y: Seq<int>) -> int {
    inner_prefix(x, y, 8)
}

/// The norm: half the inner product of an element with itself.  For
/// coefficient sequences of integers the inner product is always even, so
/// the halving is exact.
pub open spec fn norm_spec(x: Seq<int>) -> int {
    inner_product_spec(x, x) / 2
}

/// The trace: the inner product of an element with the identity.
pub open spec fn trace_spec(x: Seq<int>) -> int {
    inner_product_spec(x, identity_seq())
}

/// The conjugate: the identity scaled by the trace, minus the element.
pub open spec fn conj_seq(x: Seq<int>) -> Seq<int> {
    sub_seq(scale_seq(identity_seq(), trace_spec(x)), x)
}

/// Partial sum of the first `n` terms of entry `(i, j)` of the left adjoint
/// matrix of `x`: the sum of `adj(k, i, j) * x[k]` over `k < n`.
pub open spec fn adjoint_entry_prefix(x: Seq<int>, i: int, j: int, n: int) -> int
    decreases n,
{
    if n <= 0 {
        0
    } else {
        adjoint_entry_prefix(x, i, j, n - 1) + adj(n - 1, i, j) * x[n - 1]
    }
}

/// Entry `(i, j)` of the left adjoint matrix of `x`: the adjoint matrices
/// combined entry-wise, each weighted by the matching coefficient of `x`.
pub open spec fn adjoint_entry(x: Seq<int>, i: int, j: int) -> int {
    adjoint_entry_prefix(x, i, j, 8)
}

/// Partial sum of the first `n` terms of coefficient `i` of the product
/// `x * y`: the sum of `adjoint_entry(x, i, j) * y[j]` over `j < n`.
pub open spec fn mul_entry_prefix(x: Seq<int>, y: Seq<int>, i: int, n: int) -> int
    decreases n,
{
    if n <= 0 {
        0
    } else {
        mul_entry_prefix(x, y, i, n - 1) + adjoint_entry(x, i, n - 1) * y[n - 1]
    }
}

/// Coefficient `i` of the product `x * y`: row `i` of the left adjoint
/// matrix of `x`, applied to `y`.
pub open spec fn mul_entry(x: Seq<int>, y: Seq<int>, i: int) -> int {
    mul_entry_prefix(x, y, i, 8)
}

/// The product `x * y`: the left adjoint matrix of `x` applied to the
/// coefficient vector of `y`.
pub open spec fn mul_seq(x: Seq<int>, y: Seq<int>) -> Seq<int> {
    Seq::new(8, |i: int| mul_entry(x, y, i))
}

} // verus!
