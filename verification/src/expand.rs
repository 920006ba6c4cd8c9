//! Written-out forms of the model's recursive sums, and the two facts about
//! the tables that the executable operations lean on: the self inner product
//! is even, and the trace reads off the negated last coefficient.

use vstd::prelude::*;

use vstd::arithmetic::div_mod::lemma_div_multiples_vanish;

use crate::arith::lemma_mul_const;
use crate::arith::lemma_mul_form2;
use crate::arith::lemma_mul_form4;
use crate::model::adjoint_entry;
use crate::model::adjoint_entry_prefix;
use crate::model::gram;
use crate::model::gram_row;
use crate::model::gram_row_prefix;
use crate::model::identity_seq;
use crate::model::inner_prefix;
use crate::model::inner_product_spec;
use crate::model::is_coeffs;
use crate::model::mul_entry;
use crate::model::mul_entry_prefix;
use crate::model::norm_spec;
use crate::model::trace_spec;

verus! {

/// `gram_row` written out: the sum of `gram(i, j) * y[j]` over all eight `j`.
pub proof fn lemma_gram_row_unroll(i: int, y: Seq<int>)
    requires
        is_coeffs(y),
    ensures
        gram_row(i, y) == gram(i, 0) * y[0] + gram(i, 1) * y[1] + gram(i, 2) * y[2] + gram(i, 3)
            * y[3] + gram(i, 4) * y[4] + gram(i, 5) * y[5] + gram(i, 6) * y[6] + gram(i, 7) * y[7],
{
    assert(gram_row_prefix(i, y, 1) == gram_row_prefix(i, y, 0) + gram(i, 0) * y[0]);
    assert(gram_row_prefix(i, y, 2) == gram_row_prefix(i, y, 1) + gram(i, 1) * y[1]);
    assert(gram_row_prefix(i, y, 3) == gram_row_prefix(i, y, 2) + gram(i, 2) * y[2]);
    assert(gram_row_prefix(i, y, 4) == gram_row_prefix(i, y, 3) + gram(i, 3) * y[3]);
    assert(gram_row_prefix(i, y, 5) == gram_row_prefix(i, y, 4) + gram(i, 4) * y[4]);
    assert(gram_row_prefix(i, y, 6) == gram_row_prefix(i, y, 5) + gram(i, 5) * y[5]);
    assert(gram_row_prefix(i, y, 7) == gram_row_prefix(i, y, 6) + gram(i, 6) * y[6]);
    assert(gram_row_prefix(i, y, 8) == gram_row_prefix(i, y, 7) + gram(i, 7) * y[7]);
}

/// The inner product written out: the sum of `x[i] * gram_row(i, y)` over
/// all eight `i`.
pub proof fn lemma_inner_unroll(x: Seq<int>, y: Seq<int>)
    requires
        is_coeffs(x),
        is_coeffs(y),
    ensures
        inner_product_spec(x, y) == x[0] * gram_row(0, y) + x[1] * gram_row(1, y) + x[2]
            * gram_row(2, y) + x[3] * gram_row(3, y) + x[4] * gram_row(4, y) + x[5] * gram_row(
            5,
            y,
        ) + x[6] * gram_row(6, y) + x[7] * gram_row(7, y),
{
    assert(inner_prefix(x, y, 1) == inner_prefix(x, y, 0) + x[0] * gram_row(0, y));
    assert(inner_prefix(x, y, 2) == inner_prefix(x, y, 1) + x[1] * gram_row(1, y));
    assert(inner_prefix(x, y, 3) == inner_prefix(x, y, 2) + x[2] * gram_row(2, y));
    assert(inner_prefix(x, y, 4) == inner_prefix(x, y, 3) + x[3] * gram_row(3, y));
    assert(inner_prefix(x, y, 5) == inner_prefix(x, y, 4) + x[4] * gram_row(4, y));
    assert(inner_prefix(x, y, 6) == inner_prefix(x, y, 5) + x[5] * gram_row(5, y));
    assert(inner_prefix(x, y, 7) == inner_prefix(x, y, 6) + x[6] * gram_row(6, y));
    assert(inner_prefix(x, y, 8) == inner_prefix(x, y, 7) + x[7] * gram_row(7, y));
}

/// A product coefficient written out: the sum of
/// `adjoint_entry(x, i, j) * y[j]` over all eight `j`.
pub proof fn lemma_mul_entry_unroll(x: Seq<int>, y: Seq<int>, i: int)
    requires
        is_coeffs(x),
        is_coeffs(y),
    ensures
        mul_entry(x, y, i) == adjoint_entry(x, i, 0) * y[0] + adjoint_entry(x, i, 1) * y[1]
            + adjoint_entry(x, i, 2) * y[2] + adjoint_entry(x, i, 3) * y[3] + adjoint_entry(
            x,
            i,
            4,
        ) * y[4] + adjoint_entry(x, i, 5) * y[5] + adjoint_entry(x, i, 6) * y[6] + adjoint_entry(
            x,
            i,
            7,
        ) * y[7],
{
    assert(mul_entry_prefix(x, y, i, 1) == mul_entry_prefix(x, y, i, 0) + adjoint_entry(x, i, 0)
        * y[0]);
    assert(mul_entry_prefix(x, y, i, 2) == mul_entry_prefix(x, y, i, 1) + adjoint_entry(x, i, 1)
        * y[1]);
    assert(mul_entry_prefix(x, y, i, 3) == mul_entry_prefix(x, y, i, 2) + adjoint_entry(x, i, 2)
        * y[2]);
    assert(mul_entry_prefix(x, y, i, 4) == mul_entry_prefix(x, y, i, 3) + adjoint_entry(x, i, 3)
        * y[3]);
    assert(mul_entry_prefix(x, y, i, 5) == mul_entry_prefix(x, y, i, 4) + adjoint_entry(x, i, 4)
        * y[4]);
    assert(mul_entry_prefix(x, y, i, 6) == mul_entry_prefix(x, y, i, 5) + adjoint_entry(x, i, 5)
        * y[5]);
    assert(mul_entry_prefix(x, y, i, 7) == mul_entry_prefix(x, y, i, 6) + adjoint_entry(x, i, 6)
        * y[6]);
    assert(mul_entry_prefix(x, y, i, 8) == mul_entry_prefix(x, y, i, 7) + adjoint_entry(x, i, 7)
        * y[7]);
}

/// The eight Gram rows applied to a coefficient sequence, with the matrix
/// entries evaluated.
#[verifier::rlimit(100)]
pub proof fn lemma_gram_rows_eval(y: Seq<int>)
    requires
        is_coeffs(y),
    ensures
        gram_row(0, y) == 2 * y[0] - y[2],
        gram_row(1, y) == 2 * y[1] - y[3],
        gram_row(2, y) == -y[0] + 2 * y[2] - y[3],
        gram_row(3, y) == -y[1] - y[2] + 2 * y[3] - y[4],
        gram_row(4, y) == -y[3] + 2 * y[4] - y[5],
        gram_row(5, y) == -y[4] + 2 * y[5] - y[6],
        gram_row(6, y) == -y[5] + 2 * y[6] - y[7],
        gram_row(7, y) == -y[6] + 2 * y[7],
{
    reveal(crate::model::gram);
    assert(gram_row_prefix(0, y, 1) == gram_row_prefix(0, y, 0) + 2 * y[0]);
    assert(gram_row_prefix(0, y, 2) == gram_row_prefix(0, y, 1) + 0 * y[1]);
    assert(gram_row_prefix(0, y, 3) == gram_row_prefix(0, y, 2) + -1 * y[2]);
    assert(gram_row_prefix(0, y, 4) == gram_row_prefix(0, y, 3) + 0 * y[3]);
    assert(gram_row_prefix(0, y, 5) == gram_row_prefix(0, y, 4) + 0 * y[4]);
    assert(gram_row_prefix(0, y, 6) == gram_row_prefix(0, y, 5) + 0 * y[5]);
    assert(gram_row_prefix(0, y, 7) == gram_row_prefix(0, y, 6) + 0 * y[6]);
    assert(gram_row_prefix(0, y, 8) == gram_row_prefix(0, y, 7) + 0 * y[7]);
    assert(gram_row_prefix(1, y, 1) == gram_row_prefix(1, y, 0) + 0 * y[0]);
    assert(gram_row_prefix(1, y, 2) == gram_row_prefix(1, y, 1) + 2 * y[1]);
    assert(gram_row_prefix(1, y, 3) == gram_row_prefix(1, y, 2) + 0 * y[2]);
    assert(gram_row_prefix(1, y, 4) == gram_row_prefix(1, y, 3) + -1 * y[3]);
    assert(gram_row_prefix(1, y, 5) == gram_row_prefix(1, y, 4) + 0 * y[4]);
    assert(gram_row_prefix(1, y, 6) == gram_row_prefix(1, y, 5) + 0 * y[5]);
    assert(gram_row_prefix(1, y, 7) == gram_row_prefix(1, y, 6) + 0 * y[6]);
    assert(gram_row_prefix(1, y, 8) == gram_row_prefix(1, y, 7) + 0 * y[7]);
    assert(gram_row_prefix(2, y, 1) == gram_row_prefix(2, y, 0) + -1 * y[0]);
    assert(gram_row_prefix(2, y, 2) == gram_row_prefix(2, y, 1) + 0 * y[1]);
    assert(gram_row_prefix(2, y, 3) == gram_row_prefix(2, y, 2) + 2 * y[2]);
    assert(gram_row_prefix(2, y, 4) == gram_row_prefix(2, y, 3) + -1 * y[3]);
    assert(gram_row_prefix(2, y, 5) == gram_row_prefix(2, y, 4) + 0 * y[4]);
    assert(gram_row_prefix(2, y, 6) == gram_row_prefix(2, y, 5) + 0 * y[5]);
    assert(gram_row_prefix(2, y, 7) == gram_row_prefix(2, y, 6) + 0 * y[6]);
    assert(gram_row_prefix(2, y, 8) == gram_row_prefix(2, y, 7) + 0 * y[7]);
    assert(gram_row_prefix(3, y, 1) == gram_row_prefix(3, y, 0) + 0 * y[0]);
    assert(gram_row_prefix(3, y, 2) == gram_row_prefix(3, y, 1) + -1 * y[1]);
    assert(gram_row_prefix(3, y, 3) == gram_row_prefix(3, y, 2) + -1 * y[2]);
    assert(gram_row_prefix(3, y, 4) == gram_row_prefix(3, y, 3) + 2 * y[3]);
    assert(gram_row_prefix(3, y, 5) == gram_row_prefix(3, y, 4) + -1 * y[4]);
    assert(gram_row_prefix(3, y, 6) == gram_row_prefix(3, y, 5) + 0 * y[5]);
    assert(gram_row_prefix(3, y, 7) == gram_row_prefix(3, y, 6) + 0 * y[6]);
    assert(gram_row_prefix(3, y, 8) == gram_row_prefix(3, y, 7) + 0 * y[7]);
    assert(gram_row_prefix(4, y, 1) == gram_row_prefix(4, y, 0) + 0 * y[0]);
    assert(gram_row_prefix(4, y, 2) == gram_row_prefix(4, y, 1) + 0 * y[1]);
    assert(gram_row_prefix(4, y, 3) == gram_row_prefix(4, y, 2) + 0 * y[2]);
    assert(gram_row_prefix(4, y, 4) == gram_row_prefix(4, y, 3) + -1 * y[3]);
    assert(gram_row_prefix(4, y, 5) == gram_row_prefix(4, y, 4) + 2 * y[4]);
    assert(gram_row_prefix(4, y, 6) == gram_row_prefix(4, y, 5) + -1 * y[5]);
    assert(gram_row_prefix(4, y, 7) == gram_row_prefix(4, y, 6) + 0 * y[6]);
    assert(gram_row_prefix(4, y, 8) == gram_row_prefix(4, y, 7) + 0 * y[7]);
    assert(gram_row_prefix(5, y, 1) == gram_row_prefix(5, y, 0) + 0 * y[0]);
    assert(gram_row_prefix(5, y, 2) == gram_row_prefix(5, y, 1) + 0 * y[1]);
    assert(gram_row_prefix(5, y, 3) == gram_row_prefix(5, y, 2) + 0 * y[2]);
    assert(gram_row_prefix(5, y, 4) == gram_row_prefix(5, y, 3) + 0 * y[3]);
    assert(gram_row_prefix(5, y, 5) == gram_row_prefix(5, y, 4) + -1 * y[4]);
    assert(gram_row_prefix(5, y, 6) == gram_row_prefix(5, y, 5) + 2 * y[5]);
    assert(gram_row_prefix(5, y, 7) == gram_row_prefix(5, y, 6) + -1 * y[6]);
    assert(gram_row_prefix(5, y, 8) == gram_row_prefix(5, y, 7) + 0 * y[7]);
    assert(gram_row_prefix(6, y, 1) == gram_row_prefix(6, y, 0) + 0 * y[0]);
    assert(gram_row_prefix(6, y, 2) == gram_row_prefix(6, y, 1) + 0 * y[1]);
    assert(gram_row_prefix(6, y, 3) == gram_row_prefix(6, y, 2) + 0 * y[2]);
    assert(gram_row_prefix(6, y, 4) == gram_row_prefix(6, y, 3) + 0 * y[3]);
    assert(gram_row_prefix(6, y, 5) == gram_row_prefix(6, y, 4) + 0 * y[4]);
    assert(gram_row_prefix(6, y, 6) == gram_row_prefix(6, y, 5) + -1 * y[5]);
    assert(gram_row_prefix(6, y, 7) == gram_row_prefix(6, y, 6) + 2 * y[6]);
    assert(gram_row_prefix(6, y, 8) == gram_row_prefix(6, y, 7) + -1 * y[7]);
    assert(gram_row_prefix(7, y, 1) == gram_row_prefix(7, y, 0) + 0 * y[0]);
    assert(gram_row_prefix(7, y, 2) == gram_row_prefix(7, y, 1) + 0 * y[1]);
    assert(gram_row_prefix(7, y, 3) == gram_row_prefix(7, y, 2) + 0 * y[2]);
    assert(gram_row_prefix(7, y, 4) == gram_row_prefix(7, y, 3) + 0 * y[3]);
    assert(gram_row_prefix(7, y, 5) == gram_row_prefix(7, y, 4) + 0 * y[4]);
    assert(gram_row_prefix(7, y, 6) == gram_row_prefix(7, y, 5) + 0 * y[5]);
    assert(gram_row_prefix(7, y, 7) == gram_row_prefix(7, y, 6) + -1 * y[6]);
    assert(gram_row_prefix(7, y, 8) == gram_row_prefix(7, y, 7) + 2 * y[7]);
}

/// The inner product of an element with itself is exactly twice its norm:
/// the Gram matrix has an even diagonal and a symmetric off-diagonal
/// pattern, so the halving in the norm is exact for every integer
/// coefficient sequence.
#[verifier::rlimit(50)]
pub proof fn lemma_inner_self_even(x: Seq<int>)
    requires
        is_coeffs(x),
    ensures
        inner_product_spec(x, x) == 2 * norm_spec(x),
        norm_spec(x) == x[0] * x[0] + x[1] * x[1] + x[2] * x[2] + x[3] * x[3] + x[4] * x[4] + x[5] * x[5] + x[6] * x[6] + x[7] * x[7] - x[0] * x[2] - x[1] * x[3] - x[2] * x[3] - x[3] * x[4] - x[4] * x[5] - x[5] * x[6] - x[6] * x[7],
{
    let a = x[0];
    let b = x[1];
    let c = x[2];
    let d = x[3];
    let e = x[4];
    let f = x[5];
    let g = x[6];
    let h = x[7];
    lemma_inner_unroll(x, x);
    lemma_gram_rows_eval(x);
    assert(gram_row(0, x) == 2 * a + (-1) * c);
    assert(gram_row(1, x) == 2 * b + (-1) * d);
    assert(gram_row(2, x) == (-1) * a + 2 * c + (-1) * d + 0 * 0);
    assert(gram_row(3, x) == (-1) * b + (-1) * c + 2 * d + (-1) * e);
    assert(gram_row(4, x) == (-1) * d + 2 * e + (-1) * f + 0 * 0);
    assert(gram_row(5, x) == (-1) * e + 2 * f + (-1) * g + 0 * 0);
    assert(gram_row(6, x) == (-1) * f + 2 * g + (-1) * h + 0 * 0);
    assert(gram_row(7, x) == (-1) * g + 2 * h);
    lemma_mul_form2(a, gram_row(0, x), 2, a, -1, c);
    lemma_mul_form2(b, gram_row(1, x), 2, b, -1, d);
    lemma_mul_form4(c, gram_row(2, x), -1, a, 2, c, -1, d, 0, 0);
    lemma_mul_form4(d, gram_row(3, x), -1, b, -1, c, 2, d, -1, e);
    lemma_mul_form4(e, gram_row(4, x), -1, d, 2, e, -1, f, 0, 0);
    lemma_mul_form4(f, gram_row(5, x), -1, e, 2, f, -1, g, 0, 0);
    lemma_mul_form4(g, gram_row(6, x), -1, f, 2, g, -1, h, 0, 0);
    lemma_mul_form2(h, gram_row(7, x), -1, g, 2, h);
    let n = a * a + b * b + c * c + d * d + e * e + f * f + g * g + h * h - a * c - b * d - c * d
        - d * e - e * f - f * g - g * h;
    assert(inner_product_spec(x, x) == 2 * n);
    lemma_div_multiples_vanish(n, 2);
    assert(norm_spec(x) == n);
}

/// The trace has a closed form in this basis: the Gram matrix applied to
/// the identity vector is zero in every coordinate but the last, so the
/// inner product with the identity reads off the negated last coefficient.
#[verifier::rlimit(50)]
pub proof fn lemma_trace_is_neg_last(x: Seq<int>)
    requires
        is_coeffs(x),
    ensures
        trace_spec(x) == -x[7],
{
    let one = identity_seq();
    lemma_inner_unroll(x, one);
    lemma_gram_rows_eval(one);
    assert(one[0] == -2 && one[1] == -3 && one[2] == -4 && one[3] == -6 && one[4] == -5 && one[5]
        == -4 && one[6] == -3 && one[7] == -2);
    assert(gram_row(0, one) == 2 * (-2) - (-4));
    assert(gram_row(7, one) == -(-3) + 2 * (-2));
    lemma_mul_const(x[0], gram_row(0, one), 0);
    lemma_mul_const(x[1], gram_row(1, one), 0);
    lemma_mul_const(x[2], gram_row(2, one), 0);
    lemma_mul_const(x[3], gram_row(3, one), 0);
    lemma_mul_const(x[4], gram_row(4, one), 0);
    lemma_mul_const(x[5], gram_row(5, one), 0);
    lemma_mul_const(x[6], gram_row(6, one), 0);
    lemma_mul_const(x[7], gram_row(7, one), -1);
}

/// Row `0` of the left adjoint matrix of `x`, with the table entries
/// evaluated.
#[verifier::rlimit(100)]
pub proof fn lemma_adjoint_entries_eval_0(x: Seq<int>)
    requires
        is_coeffs(x),
    ensures
        adjoint_entry(x, 0, 0) == (2) * x[0] + (1) * x[1] + (-1) * x[2] + (0) * x[3] + (-1) * x[4] + (0) * x[5] + (1) * x[6] + (-1) * x[7],
        adjoint_entry(x, 0, 1) == (-1) * x[0] + (2) * x[1] + (2) * x[2] + (-2) * x[3] + (0) * x[4] + (0) * x[5] + (0) * x[6] + (0) * x[7],
        adjoint_entry(x, 0, 2) == (-1) * x[0] + (-2) * x[1] + (2) * x[2] + (0) * x[3] + (0) * x[4] + (0) * x[5] + (0) * x[6] + (0) * x[7],
        adjoint_entry(x, 0, 3) == (0) * x[0] + (0) * x[1] + (-2) * x[2] + (2) * x[3] + (0) * x[4] + (-1) * x[5] + (0) * x[6] + (0) * x[7],
        adjoint_entry(x, 0, 4) == (1) * x[0] + (0) * x[1] + (0) * x[2] + (-2) * x[3] + (2) * x[4] + (0) * x[5] + (0) * x[6] + (0) * x[7],
        adjoint_entry(x, 0, 5) == (0) * x[0] + (0) * x[1] + (0) * x[2] + (1) * x[3] + (-2) * x[4] + (2) * x[5] + (-2) * x[6] + (1) * x[7],
        adjoint_entry(x, 0, 6) == (-1) * x[0] + (0) * x[1] + (0) * x[2] + (0) * x[3] + (0) * x[4] + (0) * x[5] + (2) * x[6] + (-2) * x[7],
        adjoint_entry(x, 0, 7) == (0) * x[0] + (0) * x[1] + (0) * x[2] + (0) * x[3] + (0) * x[4] + (-1) * x[5] + (0) * x[6] + (2) * x[7],
{
    reveal(crate::model::adj);
    assert(adjoint_entry_prefix(x, 0, 0, 1) == adjoint_entry_prefix(x, 0, 0, 0) + (2) * x[0]);
    assert(adjoint_entry_prefix(x, 0, 0, 2) == adjoint_entry_prefix(x, 0, 0, 1) + (1) * x[1]);
    assert(adjoint_entry_prefix(x, 0, 0, 3) == adjoint_entry_prefix(x, 0, 0, 2) + (-1) * x[2]);
    assert(adjoint_entry_prefix(x, 0, 0, 4) == adjoint_entry_prefix(x, 0, 0, 3) + (0) * x[3]);
    assert(adjoint_entry_prefix(x, 0, 0, 5) == adjoint_entry_prefix(x, 0, 0, 4) + (-1) * x[4]);
    assert(adjoint_entry_prefix(x, 0, 0, 6) == adjoint_entry_prefix(x, 0, 0, 5) + (0) * x[5]);
    assert(adjoint_entry_prefix(x, 0, 0, 7) == adjoint_entry_prefix(x, 0, 0, 6) + (1) * x[6]);
    assert(adjoint_entry_prefix(x, 0, 0, 8) == adjoint_entry_prefix(x, 0, 0, 7) + (-1) * x[7]);
    assert(adjoint_entry_prefix(x, 0, 1, 1) == adjoint_entry_prefix(x, 0, 1, 0) + (-1) * x[0]);
    assert(adjoint_entry_prefix(x, 0, 1, 2) == adjoint_entry_prefix(x, 0, 1, 1) + (2) * x[1]);
    assert(adjoint_entry_prefix(x, 0, 1, 3) == adjoint_entry_prefix(x, 0, 1, 2) + (2) * x[2]);
    assert(adjoint_entry_prefix(x, 0, 1, 4) == adjoint_entry_prefix(x, 0, 1, 3) + (-2) * x[3]);
    assert(adjoint_entry_prefix(x, 0, 1, 5) == adjoint_entry_prefix(x, 0, 1, 4) + (0) * x[4]);
    assert(adjoint_entry_prefix(x, 0, 1, 6) == adjoint_entry_prefix(x, 0, 1, 5) + (0) * x[5]);
    assert(adjoint_entry_prefix(x, 0, 1, 7) == adjoint_entry_prefix(x, 0, 1, 6) + (0) * x[6]);
    assert(adjoint_entry_prefix(x, 0, 1, 8) == adjoint_entry_prefix(x, 0, 1, 7) + (0) * x[7]);
    assert(adjoint_entry_prefix(x, 0, 2, 1) == adjoint_entry_prefix(x, 0, 2, 0) + (-1) * x[0]);
    assert(adjoint_entry_prefix(x, 0, 2, 2) == adjoint_entry_prefix(x, 0, 2, 1) + (-2) * x[1]);
    assert(adjoint_entry_prefix(x, 0, 2, 3) == adjoint_entry_prefix(x, 0, 2, 2) + (2) * x[2]);
    assert(adjoint_entry_prefix(x, 0, 2, 4) == adjoint_entry_prefix(x, 0, 2, 3) + (0) * x[3]);
    assert(adjoint_entry_prefix(x, 0, 2, 5) == adjoint_entry_prefix(x, 0, 2, 4) + (0) * x[4]);
    assert(adjoint_entry_prefix(x, 0, 2, 6) == adjoint_entry_prefix(x, 0, 2, 5) + (0) * x[5]);
    assert(adjoint_entry_prefix(x, 0, 2, 7) == adjoint_entry_prefix(x, 0, 2, 6) + (0) * x[6]);
    assert(adjoint_entry_prefix(x, 0, 2, 8) == adjoint_entry_prefix(x, 0, 2, 7) + (0) * x[7]);
    assert(adjoint_entry_prefix(x, 0, 3, 1) == adjoint_entry_prefix(x, 0, 3, 0) + (0) * x[0]);
    assert(adjoint_entry_prefix(x, 0, 3, 2) == adjoint_entry_prefix(x, 0, 3, 1) + (0) * x[1]);
    assert(adjoint_entry_prefix(x, 0, 3, 3) == adjoint_entry_prefix(x, 0, 3, 2) + (-2) * x[2]);
    assert(adjoint_entry_prefix(x, 0, 3, 4) == adjoint_entry_prefix(x, 0, 3, 3) + (2) * x[3]);
    assert(adjoint_entry_prefix(x, 0, 3, 5) == adjoint_entry_prefix(x, 0, 3, 4) + (0) * x[4]);
    assert(adjoint_entry_prefix(x, 0, 3, 6) == adjoint_entry_prefix(x, 0, 3, 5) + (-1) * x[5]);
    assert(adjoint_entry_prefix(x, 0, 3, 7) == adjoint_entry_prefix(x, 0, 3, 6) + (0) * x[6]);
    assert(adjoint_entry_prefix(x, 0, 3, 8) == adjoint_entry_prefix(x, 0, 3, 7) + (0) * x[7]);
    assert(adjoint_entry_prefix(x, 0, 4, 1) == adjoint_entry_prefix(x, 0, 4, 0) + (1) * x[0]);
    assert(adjoint_entry_prefix(x, 0, 4, 2) == adjoint_entry_prefix(x, 0, 4, 1) + (0) * x[1]);
    assert(adjoint_entry_prefix(x, 0, 4, 3) == adjoint_entry_prefix(x, 0, 4, 2) + (0) * x[2]);
    assert(adjoint_entry_prefix(x, 0, 4, 4) == adjoint_entry_prefix(x, 0, 4, 3) + (-2) * x[3]);
    assert(adjoint_entry_prefix(x, 0, 4, 5) == adjoint_entry_prefix(x, 0, 4, 4) + (2) * x[4]);
    assert(adjoint_entry_prefix(x, 0, 4, 6) == adjoint_entry_prefix(x, 0, 4, 5) + (0) * x[5]);
    assert(adjoint_entry_prefix(x, 0, 4, 7) == adjoint_entry_prefix(x, 0, 4, 6) + (0) * x[6]);
    assert(adjoint_entry_prefix(x, 0, 4, 8) == adjoint_entry_prefix(x, 0, 4, 7) + (0) * x[7]);
    assert(adjoint_entry_prefix(x, 0, 5, 1) == adjoint_entry_prefix(x, 0, 5, 0) + (0) * x[0]);
    assert(adjoint_entry_prefix(x, 0, 5, 2) == adjoint_entry_prefix(x, 0, 5, 1) + (0) * x[1]);
    assert(adjoint_entry_prefix(x, 0, 5, 3) == adjoint_entry_prefix(x, 0, 5, 2) + (0) * x[2]);
    assert(adjoint_entry_prefix(x, 0, 5, 4) == adjoint_entry_prefix(x, 0, 5, 3) + (1) * x[3]);
    assert(adjoint_entry_prefix(x, 0, 5, 5) == adjoint_entry_prefix(x, 0, 5, 4) + (-2) * x[4]);
    assert(adjoint_entry_prefix(x, 0, 5, 6) == adjoint_entry_prefix(x, 0, 5, 5) + (2) * x[5]);
    assert(adjoint_entry_prefix(x, 0, 5, 7) == adjoint_entry_prefix(x, 0, 5, 6) + (-2) * x[6]);
    assert(adjoint_entry_prefix(x, 0, 5, 8) == adjoint_entry_prefix(x, 0, 5, 7) + (1) * x[7]);
    assert(adjoint_entry_prefix(x, 0, 6, 1) == adjoint_entry_prefix(x, 0, 6, 0) + (-1) * x[0]);
    assert(adjoint_entry_prefix(x, 0, 6, 2) == adjoint_entry_prefix(x, 0, 6, 1) + (0) * x[1]);
    assert(adjoint_entry_prefix(x, 0, 6, 3) == adjoint_entry_prefix(x, 0, 6, 2) + (0) * x[2]);
    assert(adjoint_entry_prefix(x, 0, 6, 4) == adjoint_entry_prefix(x, 0, 6, 3) + (0) * x[3]);
    assert(adjoint_entry_prefix(x, 0, 6, 5) == adjoint_entry_prefix(x, 0, 6, 4) + (0) * x[4]);
    assert(adjoint_entry_prefix(x, 0, 6, 6) == adjoint_entry_prefix(x, 0, 6, 5) + (0) * x[5]);
    assert(adjoint_entry_prefix(x, 0, 6, 7) == adjoint_entry_prefix(x, 0, 6, 6) + (2) * x[6]);
    assert(adjoint_entry_prefix(x, 0, 6, 8) == adjoint_entry_prefix(x, 0, 6, 7) + (-2) * x[7]);
    assert(adjoint_entry_prefix(x, 0, 7, 1) == adjoint_entry_prefix(x, 0, 7, 0) + (0) * x[0]);
    assert(adjoint_entry_prefix(x, 0, 7, 2) == adjoint_entry_prefix(x, 0, 7, 1) + (0) * x[1]);
    assert(adjoint_entry_prefix(x, 0, 7, 3) == adjoint_entry_prefix(x, 0, 7, 2) + (0) * x[2]);
    assert(adjoint_entry_prefix(x, 0, 7, 4) == adjoint_entry_prefix(x, 0, 7, 3) + (0) * x[3]);
    assert(adjoint_entry_prefix(x, 0, 7, 5) == adjoint_entry_prefix(x, 0, 7, 4) + (0) * x[4]);
    assert(adjoint_entry_prefix(x, 0, 7, 6) == adjoint_entry_prefix(x, 0, 7, 5) + (-1) * x[5]);
    assert(adjoint_entry_prefix(x, 0, 7, 7) == adjoint_entry_prefix(x, 0, 7, 6) + (0) * x[6]);
    assert(adjoint_entry_prefix(x, 0, 7, 8) == adjoint_entry_prefix(x, 0, 7, 7) + (2) * x[7]);
}

/// Row `1` of the left adjoint matrix of `x`, with the table entries
/// evaluated.
#[verifier::rlimit(100)]
pub proof fn lemma_adjoint_entries_eval_1(x: Seq<int>)
    requires
        is_coeffs(x),
    ensures
        adjoint_entry(x, 1, 0) == (3) * x[0] + (1) * x[1] + (-2) * x[2] + (0) * x[3] + (-1) * x[4] + (0) * x[5] + (2) * x[6] + (-1) * x[7],
        adjoint_entry(x, 1, 1) == (-1) * x[0] + (3) * x[1] + (2) * x[2] + (-3) * x[3] + (1) * x[4] + (-1) * x[5] + (1) * x[6] + (-1) * x[7],
        adjoint_entry(x, 1, 2) == (-1) * x[0] + (-2) * x[1] + (3) * x[2] + (0) * x[3] + (0) * x[4] + (-1) * x[5] + (0) * x[6] + (0) * x[7],
        adjoint_entry(x, 1, 3) == (0) * x[0] + (0) * x[1] + (-3) * x[2] + (3) * x[3] + (-1) * x[4] + (0) * x[5] + (-1) * x[6] + (1) * x[7],
        adjoint_entry(x, 1, 4) == (1) * x[0] + (-1) * x[1] + (0) * x[2] + (-2) * x[3] + (3) * x[4] + (0) * x[5] + (0) * x[6] + (-1) * x[7],
        adjoint_entry(x, 1, 5) == (0) * x[0] + (1) * x[1] + (1) * x[2] + (0) * x[3] + (-3) * x[4] + (3) * x[5] + (-2) * x[6] + (1) * x[7],
        adjoint_entry(x, 1, 6) == (-2) * x[0] + (-1) * x[1] + (0) * x[2] + (1) * x[3] + (0) * x[4] + (-1) * x[5] + (3) * x[6] + (-2) * x[7],
        adjoint_entry(x, 1, 7) == (1) * x[0] + (0) * x[1] + (0) * x[2] + (-1) * x[3] + (1) * x[4] + (-1) * x[5] + (-1) * x[6] + (3) * x[7],
{
    reveal(crate::model::adj);
    assert(adjoint_entry_prefix(x, 1, 0, 1) == adjoint_entry_prefix(x, 1, 0, 0) + (3) * x[0]);
    assert(adjoint_entry_prefix(x, 1, 0, 2) == adjoint_entry_prefix(x, 1, 0, 1) + (1) * x[1]);
    assert(adjoint_entry_prefix(x, 1, 0, 3) == adjoint_entry_prefix(x, 1, 0, 2) + (-2) * x[2]);
    assert(adjoint_entry_prefix(x, 1, 0, 4) == adjoint_entry_prefix(x, 1, 0, 3) + (0) * x[3]);
    assert(adjoint_entry_prefix(x, 1, 0, 5) == adjoint_entry_prefix(x, 1, 0, 4) + (-1) * x[4]);
    assert(adjoint_entry_prefix(x, 1, 0, 6) == adjoint_entry_prefix(x, 1, 0, 5) + (0) * x[5]);
    assert(adjoint_entry_prefix(x, 1, 0, 7) == adjoint_entry_prefix(x, 1, 0, 6) + (2) * x[6]);
    assert(adjoint_entry_prefix(x, 1, 0, 8) == adjoint_entry_prefix(x, 1, 0, 7) + (-1) * x[7]);
    assert(adjoint_entry_prefix(x, 1, 1, 1) == adjoint_entry_prefix(x, 1, 1, 0) + (-1) * x[0]);
    assert(adjoint_entry_prefix(x, 1, 1, 2) == adjoint_entry_prefix(x, 1, 1, 1) + (3) * x[1]);
    assert(adjoint_entry_prefix(x, 1, 1, 3) == adjoint_entry_prefix(x, 1, 1, 2) + (2) * x[2]);
    assert(adjoint_entry_prefix(x, 1, 1, 4) == adjoint_entry_prefix(x, 1, 1, 3) + (-3) * x[3]);
    assert(adjoint_entry_prefix(x, 1, 1, 5) == adjoint_entry_prefix(x, 1, 1, 4) + (1) * x[4]);
    assert(adjoint_entry_prefix(x, 1, 1, 6) == adjoint_entry_prefix(x, 1, 1, 5) + (-1) * x[5]);
    assert(adjoint_entry_prefix(x, 1, 1, 7) == adjoint_entry_prefix(x, 1, 1, 6) + (1) * x[6]);
    assert(adjoint_entry_prefix(x, 1, 1, 8) == adjoint_entry_prefix(x, 1, 1, 7) + (-1) * x[7]);
    assert(adjoint_entry_prefix(x, 1, 2, 1) == adjoint_entry_prefix(x, 1, 2, 0) + (-1) * x[0]);
    assert(adjoint_entry_prefix(x, 1, 2, 2) == adjoint_entry_prefix(x, 1, 2, 1) + (-2) * x[1]);
    assert(adjoint_entry_prefix(x, 1, 2, 3) == adjoint_entry_prefix(x, 1, 2, 2) + (3) * x[2]);
    assert(adjoint_entry_prefix(x, 1, 2, 4) == adjoint_entry_prefix(x, 1, 2, 3) + (0) * x[3]);
    assert(adjoint_entry_prefix(x, 1, 2, 5) == adjoint_entry_prefix(x, 1, 2, 4) + (0) * x[4]);
    assert(adjoint_entry_prefix(x, 1, 2, 6) == adjoint_entry_prefix(x, 1, 2, 5) + (-1) * x[5]);
    assert(adjoint_entry_prefix(x, 1, 2, 7) == adjoint_entry_prefix(x, 1, 2, 6) + (0) * x[6]);
    assert(adjoint_entry_prefix(x, 1, 2, 8) == adjoint_entry_prefix(x, 1, 2, 7) + (0) * x[7]);
    assert(adjoint_entry_prefix(x, 1, 3, 1) == adjoint_entry_prefix(x, 1, 3, 0) + (0) * x[0]);
    assert(adjoint_entry_prefix(x, 1, 3, 2) == adjoint_entry_prefix(x, 1, 3, 1) + (0) * x[1]);
    assert(adjoint_entry_prefix(x, 1, 3, 3) == adjoint_entry_prefix(x, 1, 3, 2) + (-3) * x[2]);
    assert(adjoint_entry_prefix(x, 1, 3, 4) == adjoint_entry_prefix(x, 1, 3, 3) + (3) * x[3]);
    assert(adjoint_entry_prefix(x, 1, 3, 5) == adjoint_entry_prefix(x, 1, 3, 4) + (-1) * x[4]);
    assert(adjoint_entry_prefix(x, 1, 3, 6) == adjoint_entry_prefix(x, 1, 3, 5) + (0) * x[5]);
    assert(adjoint_entry_prefix(x, 1, 3, 7) == adjoint_entry_prefix(x, 1, 3, 6) + (-1) * x[6]);
    assert(adjoint_entry_prefix(x, 1, 3, 8) == adjoint_entry_prefix(x, 1, 3, 7) + (1) * x[7]);
    assert(adjoint_entry_prefix(x, 1, 4, 1) == adjoint_entry_prefix(x, 1, 4, 0) + (1) * x[0]);
    assert(adjoint_entry_prefix(x, 1, 4, 2) == adjoint_entry_prefix(x, 1, 4, 1) + (-1) * x[1]);
    assert(adjoint_entry_prefix(x, 1, 4, 3) == adjoint_entry_prefix(x, 1, 4, 2) + (0) * x[2]);
    assert(adjoint_entry_prefix(x, 1, 4, 4) == adjoint_entry_prefix(x, 1, 4, 3) + (-2) * x[3]);
    assert(adjoint_entry_prefix(x, 1, 4, 5) == adjoint_entry_prefix(x, 1, 4, 4) + (3) * x[4]);
    assert(adjoint_entry_prefix(x, 1, 4, 6) == adjoint_entry_prefix(x, 1, 4, 5) + (0) * x[5]);
    assert(adjoint_entry_prefix(x, 1, 4, 7) == adjoint_entry_prefix(x, 1, 4, 6) + (0) * x[6]);
    assert(adjoint_entry_prefix(x, 1, 4, 8) == adjoint_entry_prefix(x, 1, 4, 7) + (-1) * x[7]);
    assert(adjoint_entry_prefix(x, 1, 5, 1) == adjoint_entry_prefix(x, 1, 5, 0) + (0) * x[0]);
    assert(adjoint_entry_prefix(x, 1, 5, 2) == adjoint_entry_prefix(x, 1, 5, 1) + (1) * x[1]);
    assert(adjoint_entry_prefix(x, 1, 5, 3) == adjoint_entry_prefix(x, 1, 5, 2) + (1) * x[2]);
    assert(adjoint_entry_prefix(x, 1, 5, 4) == adjoint_entry_prefix(x, 1, 5, 3) + (0) * x[3]);
    assert(adjoint_entry_prefix(x, 1, 5, 5) == adjoint_entry_prefix(x, 1, 5, 4) + (-3) * x[4]);
    assert(adjoint_entry_prefix(x, 1, 5, 6) == adjoint_entry_prefix(x, 1, 5, 5) + (3) * x[5]);
    assert(adjoint_entry_prefix(x, 1, 5, 7) == adjoint_entry_prefix(x, 1, 5, 6) + (-2) * x[6]);
    assert(adjoint_entry_prefix(x, 1, 5, 8) == adjoint_entry_prefix(x, 1, 5, 7) + (1) * x[7]);
    assert(adjoint_entry_prefix(x, 1, 6, 1) == adjoint_entry_prefix(x, 1, 6, 0) + (-2) * x[0]);
    assert(adjoint_entry_prefix(x, 1, 6, 2) == adjoint_entry_prefix(x, 1, 6, 1) + (-1) * x[1]);
    assert(adjoint_entry_prefix(x, 1, 6, 3) == adjoint_entry_prefix(x, 1, 6, 2) + (0) * x[2]);
    assert(adjoint_entry_prefix(x, 1, 6, 4) == adjoint_entry_prefix(x, 1, 6, 3) + (1) * x[3]);
    assert(adjoint_entry_prefix(x, 1, 6, 5) == adjoint_entry_prefix(x, 1, 6, 4) + (0) * x[4]);
    assert(adjoint_entry_prefix(x, 1, 6, 6) == adjoint_entry_prefix(x, 1, 6, 5) + (-1) * x[5]);
    assert(adjoint_entry_prefix(x, 1, 6, 7) == adjoint_entry_prefix(x, 1, 6, 6) + (3) * x[6]);
    assert(adjoint_entry_prefix(x, 1, 6, 8) == adjoint_entry_prefix(x, 1, 6, 7) + (-2) * x[7]);
    assert(adjoint_entry_prefix(x, 1, 7, 1) == adjoint_entry_prefix(x, 1, 7, 0) + (1) * x[0]);
    assert(adjoint_entry_prefix(x, 1, 7, 2) == adjoint_entry_prefix(x, 1, 7, 1) + (0) * x[1]);
    assert(adjoint_entry_prefix(x, 1, 7, 3) == adjoint_entry_prefix(x, 1, 7, 2) + (0) * x[2]);
    assert(adjoint_entry_prefix(x, 1, 7, 4) == adjoint_entry_prefix(x, 1, 7, 3) + (-1) * x[3]);
    assert(adjoint_entry_prefix(x, 1, 7, 5) == adjoint_entry_prefix(x, 1, 7, 4) + (1) * x[4]);
    assert(adjoint_entry_prefix(x, 1, 7, 6) == adjoint_entry_prefix(x, 1, 7, 5) + (-1) * x[5]);
    assert(adjoint_entry_prefix(x, 1, 7, 7) == adjoint_entry_prefix(x, 1, 7, 6) + (-1) * x[6]);
    assert(adjoint_entry_prefix(x, 1, 7, 8) == adjoint_entry_prefix(x, 1, 7, 7) + (3) * x[7]);
}

/// Row `2` of the left adjoint matrix of `x`, with the table entries
/// evaluated.
#[verifier::rlimit(100)]
pub proof fn lemma_adjoint_entries_eval_2(x: Seq<int>)
    requires
        is_coeffs(x),
    ensures
        adjoint_entry(x, 2, 0) == (4) * x[0] + (2) * x[1] + (-2) * x[2] + (0) * x[3] + (-2) * x[4] + (0) * x[5] + (2) * x[6] + (-1) * x[7],
        adjoint_entry(x, 2, 1) == (-2) * x[0] + (4) * x[1] + (3) * x[2] + (-4) * x[3] + (1) * x[4] + (-1) * x[5] + (1) * x[6] + (0) * x[7],
        adjoint_entry(x, 2, 2) == (-2) * x[0] + (-3) * x[1] + (4) * x[2] + (0) * x[3] + (0) * x[4] + (-1) * x[5] + (0) * x[6] + (0) * x[7],
        adjoint_entry(x, 2, 3) == (0) * x[0] + (0) * x[1] + (-4) * x[2] + (4) * x[3] + (-1) * x[4] + (0) * x[5] + (-1) * x[6] + (0) * x[7],
        adjoint_entry(x, 2, 4) == (2) * x[0] + (-1) * x[1] + (0) * x[2] + (-3) * x[3] + (4) * x[4] + (-1) * x[5] + (1) * x[6] + (-1) * x[7],
        adjoint_entry(x, 2, 5) == (0) * x[0] + (1) * x[1] + (1) * x[2] + (0) * x[3] + (-3) * x[4] + (4) * x[5] + (-4) * x[6] + (2) * x[7],
        adjoint_entry(x, 2, 6) == (-2) * x[0] + (-1) * x[1] + (0) * x[2] + (1) * x[3] + (-1) * x[4] + (0) * x[5] + (4) * x[6] + (-3) * x[7],
        adjoint_entry(x, 2, 7) == (1) * x[0] + (0) * x[1] + (-1) * x[2] + (0) * x[3] + (1) * x[4] + (-2) * x[5] + (-1) * x[6] + (4) * x[7],
{
    reveal(crate::model::adj);
    assert(adjoint_entry_prefix(x, 2, 0, 1) == adjoint_entry_prefix(x, 2, 0, 0) + (4) * x[0]);
    assert(adjoint_entry_prefix(x, 2, 0, 2) == adjoint_entry_prefix(x, 2, 0, 1) + (2) * x[1]);
    assert(adjoint_entry_prefix(x, 2, 0, 3) == adjoint_entry_prefix(x, 2, 0, 2) + (-2) * x[2]);
    assert(adjoint_entry_prefix(x, 2, 0, 4) == adjoint_entry_prefix(x, 2, 0, 3) + (0) * x[3]);
    assert(adjoint_entry_prefix(x, 2, 0, 5) == adjoint_entry_prefix(x, 2, 0, 4) + (-2) * x[4]);
    assert(adjoint_entry_prefix(x, 2, 0, 6) == adjoint_entry_prefix(x, 2, 0, 5) + (0) * x[5]);
    assert(adjoint_entry_prefix(x, 2, 0, 7) == adjoint_entry_prefix(x, 2, 0, 6) + (2) * x[6]);
    assert(adjoint_entry_prefix(x, 2, 0, 8) == adjoint_entry_prefix(x, 2, 0, 7) + (-1) * x[7]);
    assert(adjoint_entry_prefix(x, 2, 1, 1) == adjoint_entry_prefix(x, 2, 1, 0) + (-2) * x[0]);
    assert(adjoint_entry_prefix(x, 2, 1, 2) == adjoint_entry_prefix(x, 2, 1, 1) + (4) * x[1]);
    assert(adjoint_entry_prefix(x, 2, 1, 3) == adjoint_entry_prefix(x, 2, 1, 2) + (3) * x[2]);
    assert(adjoint_entry_prefix(x, 2, 1, 4) == adjoint_entry_prefix(x, 2, 1, 3) + (-4) * x[3]);
    assert(adjoint_entry_prefix(x, 2, 1, 5) == adjoint_entry_prefix(x, 2, 1, 4) + (1) * x[4]);
    assert(adjoint_entry_prefix(x, 2, 1, 6) == adjoint_entry_prefix(x, 2, 1, 5) + (-1) * x[5]);
    assert(adjoint_entry_prefix(x, 2, 1, 7) == adjoint_entry_prefix(x, 2, 1, 6) + (1) * x[6]);
    assert(adjoint_entry_prefix(x, 2, 1, 8) == adjoint_entry_prefix(x, 2, 1, 7) + (0) * x[7]);
    assert(adjoint_entry_prefix(x, 2, 2, 1) == adjoint_entry_prefix(x, 2, 2, 0) + (-2) * x[0]);
    assert(adjoint_entry_prefix(x, 2, 2, 2) == adjoint_entry_prefix(x, 2, 2, 1) + (-3) * x[1]);
    assert(adjoint_entry_prefix(x, 2, 2, 3) == adjoint_entry_prefix(x, 2, 2, 2) + (4) * x[2]);
    assert(adjoint_entry_prefix(x, 2, 2, 4) == adjoint_entry_prefix(x, 2, 2, 3) + (0) * x[3]);
    assert(adjoint_entry_prefix(x, 2, 2, 5) == adjoint_entry_prefix(x, 2, 2, 4) + (0) * x[4]);
    assert(adjoint_entry_prefix(x, 2, 2, 6) == adjoint_entry_prefix(x, 2, 2, 5) + (-1) * x[5]);
    assert(adjoint_entry_prefix(x, 2, 2, 7) == adjoint_entry_prefix(x, 2, 2, 6) + (0) * x[6]);
    assert(adjoint_entry_prefix(x, 2, 2, 8) == adjoint_entry_prefix(x, 2, 2, 7) + (0) * x[7]);
    assert(adjoint_entry_prefix(x, 2, 3, 1) == adjoint_entry_prefix(x, 2, 3, 0) + (0) * x[0]);
    assert(adjoint_entry_prefix(x, 2, 3, 2) == adjoint_entry_prefix(x, 2, 3, 1) + (0) * x[1]);
    assert(adjoint_entry_prefix(x, 2, 3, 3) == adjoint_entry_prefix(x, 2, 3, 2) + (-4) * x[2]);
    assert(adjoint_entry_prefix(x, 2, 3, 4) == adjoint_entry_prefix(x, 2, 3, 3) + (4) * x[3]);
    assert(adjoint_entry_prefix(x, 2, 3, 5) == adjoint_entry_prefix(x, 2, 3, 4) + (-1) * x[4]);
    assert(adjoint_entry_prefix(x, 2, 3, 6) == adjoint_entry_prefix(x, 2, 3, 5) + (0) * x[5]);
    assert(adjoint_entry_prefix(x, 2, 3, 7) == adjoint_entry_prefix(x, 2, 3, 6) + (-1) * x[6]);
    assert(adjoint_entry_prefix(x, 2, 3, 8) == adjoint_entry_prefix(x, 2, 3, 7) + (0) * x[7]);
    assert(adjoint_entry_prefix(x, 2, 4, 1) == adjoint_entry_prefix(x, 2, 4, 0) + (2) * x[0]);
    assert(adjoint_entry_prefix(x, 2, 4, 2) == adjoint_entry_prefix(x, 2, 4, 1) + (-1) * x[1]);
    assert(adjoint_entry_prefix(x, 2, 4, 3) == adjoint_entry_prefix(x, 2, 4, 2) + (0) * x[2]);
    assert(adjoint_entry_prefix(x, 2, 4, 4) == adjoint_entry_prefix(x, 2, 4, 3) + (-3) * x[3]);
    assert(adjoint_entry_prefix(x, 2, 4, 5) == adjoint_entry_prefix(x, 2, 4, 4) + (4) * x[4]);
    assert(adjoint_entry_prefix(x, 2, 4, 6) == adjoint_entry_prefix(x, 2, 4, 5) + (-1) * x[5]);
    assert(adjoint_entry_prefix(x, 2, 4, 7) == adjoint_entry_prefix(x, 2, 4, 6) + (1) * x[6]);
    assert(adjoint_entry_prefix(x, 2, 4, 8) == adjoint_entry_prefix(x, 2, 4, 7) + (-1) * x[7]);
    assert(adjoint_entry_prefix(x, 2, 5, 1) == adjoint_entry_prefix(x, 2, 5, 0) + (0) * x[0]);
    assert(adjoint_entry_prefix(x, 2, 5, 2) == adjoint_entry_prefix(x, 2, 5, 1) + (1) * x[1]);
    assert(adjoint_entry_prefix(x, 2, 5, 3) == adjoint_entry_prefix(x, 2, 5, 2) + (1) * x[2]);
    assert(adjoint_entry_prefix(x, 2, 5, 4) == adjoint_entry_prefix(x, 2, 5, 3) + (0) * x[3]);
    assert(adjoint_entry_prefix(x, 2, 5, 5) == adjoint_entry_prefix(x, 2, 5, 4) + (-3) * x[4]);
    assert(adjoint_entry_prefix(x, 2, 5, 6) == adjoint_entry_prefix(x, 2, 5, 5) + (4) * x[5]);
    assert(adjoint_entry_prefix(x, 2, 5, 7) == adjoint_entry_prefix(x, 2, 5, 6) + (-4) * x[6]);
    assert(adjoint_entry_prefix(x, 2, 5, 8) == adjoint_entry_prefix(x, 2, 5, 7) + (2) * x[7]);
    assert(adjoint_entry_prefix(x, 2, 6, 1) == adjoint_entry_prefix(x, 2, 6, 0) + (-2) * x[0]);
    assert(adjoint_entry_prefix(x, 2, 6, 2) == adjoint_entry_prefix(x, 2, 6, 1) + (-1) * x[1]);
    assert(adjoint_entry_prefix(x, 2, 6, 3) == adjoint_entry_prefix(x, 2, 6, 2) + (0) * x[2]);
    assert(adjoint_entry_prefix(x, 2, 6, 4) == adjoint_entry_prefix(x, 2, 6, 3) + (1) * x[3]);
    assert(adjoint_entry_prefix(x, 2, 6, 5) == adjoint_entry_prefix(x, 2, 6, 4) + (-1) * x[4]);
    assert(adjoint_entry_prefix(x, 2, 6, 6) == adjoint_entry_prefix(x, 2, 6, 5) + (0) * x[5]);
    assert(adjoint_entry_prefix(x, 2, 6, 7) == adjoint_entry_prefix(x, 2, 6, 6) + (4) * x[6]);
    assert(adjoint_entry_prefix(x, 2, 6, 8) == adjoint_entry_prefix(x, 2, 6, 7) + (-3) * x[7]);
    assert(adjoint_entry_prefix(x, 2, 7, 1) == adjoint_entry_prefix(x, 2, 7, 0) + (1) * x[0]);
    assert(adjoint_entry_prefix(x, 2, 7, 2) == adjoint_entry_prefix(x, 2, 7, 1) + (0) * x[1]);
    assert(adjoint_entry_prefix(x, 2, 7, 3) == adjoint_entry_prefix(x, 2, 7, 2) + (-1) * x[2]);
    assert(adjoint_entry_prefix(x, 2, 7, 4) == adjoint_entry_prefix(x, 2, 7, 3) + (0) * x[3]);
    assert(adjoint_entry_prefix(x, 2, 7, 5) == adjoint_entry_prefix(x, 2, 7, 4) + (1) * x[4]);
    assert(adjoint_entry_prefix(x, 2, 7, 6) == adjoint_entry_prefix(x, 2, 7, 5) + (-2) * x[5]);
    assert(adjoint_entry_prefix(x, 2, 7, 7) == adjoint_entry_prefix(x, 2, 7, 6) + (-1) * x[6]);
    assert(adjoint_entry_prefix(x, 2, 7, 8) == adjoint_entry_prefix(x, 2, 7, 7) + (4) * x[7]);
}

/// Row `3` of the left adjoint matrix of `x`, with the table entries
/// evaluated.
#[verifier::rlimit(100)]
pub proof fn lemma_adjoint_entries_eval_3(x: Seq<int>)
    requires
        is_coeffs(x),
    ensures
        adjoint_entry(x, 3, 0) == (6) * x[0] + (2) * x[1] + (-3) * x[2] + (0) * x[3] + (-3) * x[4] + (1) * x[5] + (3) * x[6] + (-2) * x[7],
        adjoint_entry(x, 3, 1) == (-2) * x[0] + (6) * x[1] + (4) * x[2] + (-6) * x[3] + (2) * x[4] + (-2) * x[5] + (2) * x[6] + (-1) * x[7],
        adjoint_entry(x, 3, 2) == (-3) * x[0] + (-4) * x[1] + (6) * x[2] + (0) * x[3] + (0) * x[4] + (-2) * x[5] + (0) * x[6] + (1) * x[7],
        adjoint_entry(x, 3, 3) == (0) * x[0] + (0) * x[1] + (-6) * x[2] + (6) * x[3] + (-2) * x[4] + (0) * x[5] + (-1) * x[6] + (0) * x[7],
        adjoint_entry(x, 3, 4) == (3) * x[0] + (-2) * x[1] + (0) * x[2] + (-4) * x[3] + (6) * x[4] + (-1) * x[5] + (0) * x[6] + (-1) * x[7],
        adjoint_entry(x, 3, 5) == (-1) * x[0] + (2) * x[1] + (2) * x[2] + (0) * x[3] + (-5) * x[4] + (6) * x[5] + (-5) * x[6] + (2) * x[7],
        adjoint_entry(x, 3, 6) == (-3) * x[0] + (-2) * x[1] + (0) * x[2] + (1) * x[3] + (0) * x[4] + (-1) * x[5] + (6) * x[6] + (-4) * x[7],
        adjoint_entry(x, 3, 7) == (2) * x[0] + (1) * x[1] + (-1) * x[2] + (-1) * x[3] + (1) * x[4] + (-2) * x[5] + (-2) * x[6] + (6) * x[7],
{
    reveal(crate::model::adj);
    assert(adjoint_entry_prefix(x, 3, 0, 1) == adjoint_entry_prefix(x, 3, 0, 0) + (6) * x[0]);
    assert(adjoint_entry_prefix(x, 3, 0, 2) == adjoint_entry_prefix(x, 3, 0, 1) + (2) * x[1]);
    assert(adjoint_entry_prefix(x, 3, 0, 3) == adjoint_entry_prefix(x, 3, 0, 2) + (-3) * x[2]);
    assert(adjoint_entry_prefix(x, 3, 0, 4) == adjoint_entry_prefix(x, 3, 0, 3) + (0) * x[3]);
    assert(adjoint_entry_prefix(x, 3, 0, 5) == adjoint_entry_prefix(x, 3, 0, 4) + (-3) * x[4]);
    assert(adjoint_entry_prefix(x, 3, 0, 6) == adjoint_entry_prefix(x, 3, 0, 5) + (1) * x[5]);
    assert(adjoint_entry_prefix(x, 3, 0, 7) == adjoint_entry_prefix(x, 3, 0, 6) + (3) * x[6]);
    assert(adjoint_entry_prefix(x, 3, 0, 8) == adjoint_entry_prefix(x, 3, 0, 7) + (-2) * x[7]);
    assert(adjoint_entry_prefix(x, 3, 1, 1) == adjoint_entry_prefix(x, 3, 1, 0) + (-2) * x[0]);
    assert(adjoint_entry_prefix(x, 3, 1, 2) == adjoint_entry_prefix(x, 3, 1, 1) + (6) * x[1]);
    assert(adjoint_entry_prefix(x, 3, 1, 3) == adjoint_entry_prefix(x, 3, 1, 2) + (4) * x[2]);
    assert(adjoint_entry_prefix(x, 3, 1, 4) == adjoint_entry_prefix(x, 3, 1, 3) + (-6) * x[3]);
    assert(adjoint_entry_prefix(x, 3, 1, 5) == adjoint_entry_prefix(x, 3, 1, 4) + (2) * x[4]);
    assert(adjoint_entry_prefix(x, 3, 1, 6) == adjoint_entry_prefix(x, 3, 1, 5) + (-2) * x[5]);
    assert(adjoint_entry_prefix(x, 3, 1, 7) == adjoint_entry_prefix(x, 3, 1, 6) + (2) * x[6]);
    assert(adjoint_entry_prefix(x, 3, 1, 8) == adjoint_entry_prefix(x, 3, 1, 7) + (-1) * x[7]);
    assert(adjoint_entry_prefix(x, 3, 2, 1) == adjoint_entry_prefix(x, 3, 2, 0) + (-3) * x[0]);
    assert(adjoint_entry_prefix(x, 3, 2, 2) == adjoint_entry_prefix(x, 3, 2, 1) + (-4) * x[1]);
    assert(adjoint_entry_prefix(x, 3, 2, 3) == adjoint_entry_prefix(x, 3, 2, 2) + (6) * x[2]);
    assert(adjoint_entry_prefix(x, 3, 2, 4) == adjoint_entry_prefix(x, 3, 2, 3) + (0) * x[3]);
    assert(adjoint_entry_prefix(x, 3, 2, 5) == adjoint_entry_prefix(x, 3, 2, 4) + (0) * x[4]);
    assert(adjoint_entry_prefix(x, 3, 2, 6) == adjoint_entry_prefix(x, 3, 2, 5) + (-2) * x[5]);
    assert(adjoint_entry_prefix(x, 3, 2, 7) == adjoint_entry_prefix(x, 3, 2, 6) + (0) * x[6]);
    assert(adjoint_entry_prefix(x, 3, 2, 8) == adjoint_entry_prefix(x, 3, 2, 7) + (1) * x[7]);
    assert(adjoint_entry_prefix(x, 3, 3, 1) == adjoint_entry_prefix(x, 3, 3, 0) + (0) * x[0]);
    assert(adjoint_entry_prefix(x, 3, 3, 2) == adjoint_entry_prefix(x, 3, 3, 1) + (0) * x[1]);
    assert(adjoint_entry_prefix(x, 3, 3, 3) == adjoint_entry_prefix(x, 3, 3, 2) + (-6) * x[2]);
    assert(adjoint_entry_prefix(x, 3, 3, 4) == adjoint_entry_prefix(x, 3, 3, 3) + (6) * x[3]);
    assert(adjoint_entry_prefix(x, 3, 3, 5) == adjoint_entry_prefix(x, 3, 3, 4) + (-2) * x[4]);
    assert(adjoint_entry_prefix(x, 3, 3, 6) == adjoint_entry_prefix(x, 3, 3, 5) + (0) * x[5]);
    assert(adjoint_entry_prefix(x, 3, 3, 7) == adjoint_entry_prefix(x, 3, 3, 6) + (-1) * x[6]);
    assert(adjoint_entry_prefix(x, 3, 3, 8) == adjoint_entry_prefix(x, 3, 3, 7) + (0) * x[7]);
    assert(adjoint_entry_prefix(x, 3, 4, 1) == adjoint_entry_prefix(x, 3, 4, 0) + (3) * x[0]);
    assert(adjoint_entry_prefix(x, 3, 4, 2) == adjoint_entry_prefix(x, 3, 4, 1) + (-2) * x[1]);
    assert(adjoint_entry_prefix(x, 3, 4, 3) == adjoint_entry_prefix(x, 3, 4, 2) + (0) * x[2]);
    assert(adjoint_entry_prefix(x, 3, 4, 4) == adjoint_entry_prefix(x, 3, 4, 3) + (-4) * x[3]);
    assert(adjoint_entry_prefix(x, 3, 4, 5) == adjoint_entry_prefix(x, 3, 4, 4) + (6) * x[4]);
    assert(adjoint_entry_prefix(x, 3, 4, 6) == adjoint_entry_prefix(x, 3, 4, 5) + (-1) * x[5]);
    assert(adjoint_entry_prefix(x, 3, 4, 7) == adjoint_entry_prefix(x, 3, 4, 6) + (0) * x[6]);
    assert(adjoint_entry_prefix(x, 3, 4, 8) == adjoint_entry_prefix(x, 3, 4, 7) + (-1) * x[7]);
    assert(adjoint_entry_prefix(x, 3, 5, 1) == adjoint_entry_prefix(x, 3, 5, 0) + (-1) * x[0]);
    assert(adjoint_entry_prefix(x, 3, 5, 2) == adjoint_entry_prefix(x, 3, 5, 1) + (2) * x[1]);
    assert(adjoint_entry_prefix(x, 3, 5, 3) == adjoint_entry_prefix(x, 3, 5, 2) + (2) * x[2]);
    assert(adjoint_entry_prefix(x, 3, 5, 4) == adjoint_entry_prefix(x, 3, 5, 3) + (0) * x[3]);
    assert(adjoint_entry_prefix(x, 3, 5, 5) == adjoint_entry_prefix(x, 3, 5, 4) + (-5) * x[4]);
    assert(adjoint_entry_prefix(x, 3, 5, 6) == adjoint_entry_prefix(x, 3, 5, 5) + (6) * x[5]);
    assert(adjoint_entry_prefix(x, 3, 5, 7) == adjoint_entry_prefix(x, 3, 5, 6) + (-5) * x[6]);
    assert(adjoint_entry_prefix(x, 3, 5, 8) == adjoint_entry_prefix(x, 3, 5, 7) + (2) * x[7]);
    assert(adjoint_entry_prefix(x, 3, 6, 1) == adjoint_entry_prefix(x, 3, 6, 0) + (-3) * x[0]);
    assert(adjoint_entry_prefix(x, 3, 6, 2) == adjoint_entry_prefix(x, 3, 6, 1) + (-2) * x[1]);
    assert(adjoint_entry_prefix(x, 3, 6, 3) == adjoint_entry_prefix(x, 3, 6, 2) + (0) * x[2]);
    assert(adjoint_entry_prefix(x, 3, 6, 4) == adjoint_entry_prefix(x, 3, 6, 3) + (1) * x[3]);
    assert(adjoint_entry_prefix(x, 3, 6, 5) == adjoint_entry_prefix(x, 3, 6, 4) + (0) * x[4]);
    assert(adjoint_entry_prefix(x, 3, 6, 6) == adjoint_entry_prefix(x, 3, 6, 5) + (-1) * x[5]);
    assert(adjoint_entry_prefix(x, 3, 6, 7) == adjoint_entry_prefix(x, 3, 6, 6) + (6) * x[6]);
    assert(adjoint_entry_prefix(x, 3, 6, 8) == adjoint_entry_prefix(x, 3, 6, 7) + (-4) * x[7]);
    assert(adjoint_entry_prefix(x, 3, 7, 1) == adjoint_entry_prefix(x, 3, 7, 0) + (2) * x[0]);
    assert(adjoint_entry_prefix(x, 3, 7, 2) == adjoint_entry_prefix(x, 3, 7, 1) + (1) * x[1]);
    assert(adjoint_entry_prefix(x, 3, 7, 3) == adjoint_entry_prefix(x, 3, 7, 2) + (-1) * x[2]);
    assert(adjoint_entry_prefix(x, 3, 7, 4) == adjoint_entry_prefix(x, 3, 7, 3) + (-1) * x[3]);
    assert(adjoint_entry_prefix(x, 3, 7, 5) == adjoint_entry_prefix(x, 3, 7, 4) + (1) * x[4]);
    assert(adjoint_entry_prefix(x, 3, 7, 6) == adjoint_entry_prefix(x, 3, 7, 5) + (-2) * x[5]);
    assert(adjoint_entry_prefix(x, 3, 7, 7) == adjoint_entry_prefix(x, 3, 7, 6) + (-2) * x[6]);
    assert(adjoint_entry_prefix(x, 3, 7, 8) == adjoint_entry_prefix(x, 3, 7, 7) + (6) * x[7]);
}

/// Row `4` of the left adjoint matrix of `x`, with the table entries
/// evaluated.
#[verifier::rlimit(100)]
pub proof fn lemma_adjoint_entries_eval_4(x: Seq<int>)
    requires
        is_coeffs(x),
    ensures
        adjoint_entry(x, 4, 0) == (5) * x[0] + (1) * x[1] + (-2) * x[2] + (0) * x[3] + (-2) * x[4] + (0) * x[5] + (3) * x[6] + (-2) * x[7],
        adjoint_entry(x, 4, 1) == (-1) * x[0] + (5) * x[1] + (3) * x[2] + (-5) * x[3] + (2) * x[4] + (-2) * x[5] + (1) * x[6] + (0) * x[7],
        adjoint_entry(x, 4, 2) == (-3) * x[0] + (-3) * x[1] + (5) * x[2] + (0) * x[3] + (0) * x[4] + (-1) * x[5] + (-1) * x[6] + (1) * x[7],
        adjoint_entry(x, 4, 3) == (0) * x[0] + (0) * x[1] + (-5) * x[2] + (5) * x[3] + (-2) * x[4] + (0) * x[5] + (0) * x[6] + (0) * x[7],
        adjoint_entry(x, 4, 4) == (2) * x[0] + (-2) * x[1] + (0) * x[2] + (-3) * x[3] + (5) * x[4] + (-1) * x[5] + (0) * x[6] + (-1) * x[7],
        adjoint_entry(x, 4, 5) == (0) * x[0] + (2) * x[1] + (1) * x[2] + (0) * x[3] + (-4) * x[4] + (5) * x[5] + (-4) * x[6] + (1) * x[7],
        adjoint_entry(x, 4, 6) == (-3) * x[0] + (-1) * x[1] + (1) * x[2] + (0) * x[3] + (0) * x[4] + (-1) * x[5] + (5) * x[6] + (-3) * x[7],
        adjoint_entry(x, 4, 7) == (2) * x[0] + (0) * x[1] + (-1) * x[2] + (0) * x[3] + (0) * x[4] + (-1) * x[5] + (-2) * x[6] + (5) * x[7],
{
    reveal(crate::model::adj);
    assert(adjoint_entry_prefix(x, 4, 0, 1) == adjoint_entry_prefix(x, 4, 0, 0) + (5) * x[0]);
    assert(adjoint_entry_prefix(x, 4, 0, 2) == adjoint_entry_prefix(x, 4, 0, 1) + (1) * x[1]);
    assert(adjoint_entry_prefix(x, 4, 0, 3) == adjoint_entry_prefix(x, 4, 0, 2) + (-2) * x[2]);
    assert(adjoint_entry_prefix(x, 4, 0, 4) == adjoint_entry_prefix(x, 4, 0, 3) + (0) * x[3]);
    assert(adjoint_entry_prefix(x, 4, 0, 5) == adjoint_entry_prefix(x, 4, 0, 4) + (-2) * x[4]);
    assert(adjoint_entry_prefix(x, 4, 0, 6) == adjoint_entry_prefix(x, 4, 0, 5) + (0) * x[5]);
    assert(adjoint_entry_prefix(x, 4, 0, 7) == adjoint_entry_prefix(x, 4, 0, 6) + (3) * x[6]);
    assert(adjoint_entry_prefix(x, 4, 0, 8) == adjoint_entry_prefix(x, 4, 0, 7) + (-2) * x[7]);
    assert(adjoint_entry_prefix(x, 4, 1, 1) == adjoint_entry_prefix(x, 4, 1, 0) + (-1) * x[0]);
    assert(adjoint_entry_prefix(x, 4, 1, 2) == adjoint_entry_prefix(x, 4, 1, 1) + (5) * x[1]);
    assert(adjoint_entry_prefix(x, 4, 1, 3) == adjoint_entry_prefix(x, 4, 1, 2) + (3) * x[2]);
    assert(adjoint_entry_prefix(x, 4, 1, 4) == adjoint_entry_prefix(x, 4, 1, 3) + (-5) * x[3]);
    assert(adjoint_entry_prefix(x, 4, 1, 5) == adjoint_entry_prefix(x, 4, 1, 4) + (2) * x[4]);
    assert(adjoint_entry_prefix(x, 4, 1, 6) == adjoint_entry_prefix(x, 4, 1, 5) + (-2) * x[5]);
    assert(adjoint_entry_prefix(x, 4, 1, 7) == adjoint_entry_prefix(x, 4, 1, 6) + (1) * x[6]);
    assert(adjoint_entry_prefix(x, 4, 1, 8) == adjoint_entry_prefix(x, 4, 1, 7) + (0) * x[7]);
    assert(adjoint_entry_prefix(x, 4, 2, 1) == adjoint_entry_prefix(x, 4, 2, 0) + (-3) * x[0]);
    assert(adjoint_entry_prefix(x, 4, 2, 2) == adjoint_entry_prefix(x, 4, 2, 1) + (-3) * x[1]);
    assert(adjoint_entry_prefix(x, 4, 2, 3) == adjoint_entry_prefix(x, 4, 2, 2) + (5) * x[2]);
    assert(adjoint_entry_prefix(x, 4, 2, 4) == adjoint_entry_prefix(x, 4, 2, 3) + (0) * x[3]);
    assert(adjoint_entry_prefix(x, 4, 2, 5) == adjoint_entry_prefix(x, 4, 2, 4) + (0) * x[4]);
    assert(adjoint_entry_prefix(x, 4, 2, 6) == adjoint_entry_prefix(x, 4, 2, 5) + (-1) * x[5]);
    assert(adjoint_entry_prefix(x, 4, 2, 7) == adjoint_entry_prefix(x, 4, 2, 6) + (-1) * x[6]);
    assert(adjoint_entry_prefix(x, 4, 2, 8) == adjoint_entry_prefix(x, 4, 2, 7) + (1) * x[7]);
    assert(adjoint_entry_prefix(x, 4, 3, 1) == adjoint_entry_prefix(x, 4, 3, 0) + (0) * x[0]);
    assert(adjoint_entry_prefix(x, 4, 3, 2) == adjoint_entry_prefix(x, 4, 3, 1) + (0) * x[1]);
    assert(adjoint_entry_prefix(x, 4, 3, 3) == adjoint_entry_prefix(x, 4, 3, 2) + (-5) * x[2]);
    assert(adjoint_entry_prefix(x, 4, 3, 4) == adjoint_entry_prefix(x, 4, 3, 3) + (5) * x[3]);
    assert(adjoint_entry_prefix(x, 4, 3, 5) == adjoint_entry_prefix(x, 4, 3, 4) + (-2) * x[4]);
    assert(adjoint_entry_prefix(x, 4, 3, 6) == adjoint_entry_prefix(x, 4, 3, 5) + (0) * x[5]);
    assert(adjoint_entry_prefix(x, 4, 3, 7) == adjoint_entry_prefix(x, 4, 3, 6) + (0) * x[6]);
    assert(adjoint_entry_prefix(x, 4, 3, 8) == adjoint_entry_prefix(x, 4, 3, 7) + (0) * x[7]);
    assert(adjoint_entry_prefix(x, 4, 4, 1) == adjoint_entry_prefix(x, 4, 4, 0) + (2) * x[0]);
    assert(adjoint_entry_prefix(x, 4, 4, 2) == adjoint_entry_prefix(x, 4, 4, 1) + (-2) * x[1]);
    assert(adjoint_entry_prefix(x, 4, 4, 3) == adjoint_entry_prefix(x, 4, 4, 2) + (0) * x[2]);
    assert(adjoint_entry_prefix(x, 4, 4, 4) == adjoint_entry_prefix(x, 4, 4, 3) + (-3) * x[3]);
    assert(adjoint_entry_prefix(x, 4, 4, 5) == adjoint_entry_prefix(x, 4, 4, 4) + (5) * x[4]);
    assert(adjoint_entry_prefix(x, 4, 4, 6) == adjoint_entry_prefix(x, 4, 4, 5) + (-1) * x[5]);
    assert(adjoint_entry_prefix(x, 4, 4, 7) == adjoint_entry_prefix(x, 4, 4, 6) + (0) * x[6]);
    assert(adjoint_entry_prefix(x, 4, 4, 8) == adjoint_entry_prefix(x, 4, 4, 7) + (-1) * x[7]);
    assert(adjoint_entry_prefix(x, 4, 5, 1) == adjoint_entry_prefix(x, 4, 5, 0) + (0) * x[0]);
    assert(adjoint_entry_prefix(x, 4, 5, 2) == adjoint_entry_prefix(x, 4, 5, 1) + (2) * x[1]);
    assert(adjoint_entry_prefix(x, 4, 5, 3) == adjoint_entry_prefix(x, 4, 5, 2) + (1) * x[2]);
    assert(adjoint_entry_prefix(x, 4, 5, 4) == adjoint_entry_prefix(x, 4, 5, 3) + (0) * x[3]);
    assert(adjoint_entry_prefix(x, 4, 5, 5) == adjoint_entry_prefix(x, 4, 5, 4) + (-4) * x[4]);
    assert(adjoint_entry_prefix(x, 4, 5, 6) == adjoint_entry_prefix(x, 4, 5, 5) + (5) * x[5]);
    assert(adjoint_entry_prefix(x, 4, 5, 7) == adjoint_entry_prefix(x, 4, 5, 6) + (-4) * x[6]);
    assert(adjoint_entry_prefix(x, 4, 5, 8) == adjoint_entry_prefix(x, 4, 5, 7) + (1) * x[7]);
    assert(adjoint_entry_prefix(x, 4, 6, 1) == adjoint_entry_prefix(x, 4, 6, 0) + (-3) * x[0]);
    assert(adjoint_entry_prefix(x, 4, 6, 2) == adjoint_entry_prefix(x, 4, 6, 1) + (-1) * x[1]);
    assert(adjoint_entry_prefix(x, 4, 6, 3) == adjoint_entry_prefix(x, 4, 6, 2) + (1) * x[2]);
    assert(adjoint_entry_prefix(x, 4, 6, 4) == adjoint_entry_prefix(x, 4, 6, 3) + (0) * x[3]);
    assert(adjoint_entry_prefix(x, 4, 6, 5) == adjoint_entry_prefix(x, 4, 6, 4) + (0) * x[4]);
    assert(adjoint_entry_prefix(x, 4, 6, 6) == adjoint_entry_prefix(x, 4, 6, 5) + (-1) * x[5]);
    assert(adjoint_entry_prefix(x, 4, 6, 7) == adjoint_entry_prefix(x, 4, 6, 6) + (5) * x[6]);
    assert(adjoint_entry_prefix(x, 4, 6, 8) == adjoint_entry_prefix(x, 4, 6, 7) + (-3) * x[7]);
    assert(adjoint_entry_prefix(x, 4, 7, 1) == adjoint_entry_prefix(x, 4, 7, 0) + (2) * x[0]);
    assert(adjoint_entry_prefix(x, 4, 7, 2) == adjoint_entry_prefix(x, 4, 7, 1) + (0) * x[1]);
    assert(adjoint_entry_prefix(x, 4, 7, 3) == adjoint_entry_prefix(x, 4, 7, 2) + (-1) * x[2]);
    assert(adjoint_entry_prefix(x, 4, 7, 4) == adjoint_entry_prefix(x, 4, 7, 3) + (0) * x[3]);
    assert(adjoint_entry_prefix(x, 4, 7, 5) == adjoint_entry_prefix(x, 4, 7, 4) + (0) * x[4]);
    assert(adjoint_entry_prefix(x, 4, 7, 6) == adjoint_entry_prefix(x, 4, 7, 5) + (-1) * x[5]);
    assert(adjoint_entry_prefix(x, 4, 7, 7) == adjoint_entry_prefix(x, 4, 7, 6) + (-2) * x[6]);
    assert(adjoint_entry_prefix(x, 4, 7, 8) == adjoint_entry_prefix(x, 4, 7, 7) + (5) * x[7]);
}

/// Row `5` of the left adjoint matrix of `x`, with the table entries
/// evaluated.
#[verifier::rlimit(100)]
pub proof fn lemma_adjoint_entries_eval_5(x: Seq<int>)
    requires
        is_coeffs(x),
    ensures
        adjoint_entry(x, 5, 0) == (4) * x[0] + (1) * x[1] + (-1) * x[2] + (-1) * x[3] + (-1) * x[4] + (0) * x[5] + (2) * x[6] + (-1) * x[7],
        adjoint_entry(x, 5, 1) == (-1) * x[0] + (4) * x[1] + (2) * x[2] + (-4) * x[3] + (2) * x[4] + (-1) * x[5] + (0) * x[6] + (0) * x[7],
        adjoint_entry(x, 5, 2) == (-3) * x[0] + (-2) * x[1] + (4) * x[2] + (0) * x[3] + (0) * x[4] + (-1) * x[5] + (0) * x[6] + (0) * x[7],
        adjoint_entry(x, 5, 3) == (1) * x[0] + (0) * x[1] + (-4) * x[2] + (4) * x[3] + (-2) * x[4] + (0) * x[5] + (0) * x[6] + (0) * x[7],
        adjoint_entry(x, 5, 4) == (1) * x[0] + (-2) * x[1] + (0) * x[2] + (-2) * x[3] + (4) * x[4] + (-1) * x[5] + (0) * x[6] + (0) * x[7],
        adjoint_entry(x, 5, 5) == (0) * x[0] + (1) * x[1] + (1) * x[2] + (0) * x[3] + (-3) * x[4] + (4) * x[5] + (-3) * x[6] + (0) * x[7],
        adjoint_entry(x, 5, 6) == (-2) * x[0] + (0) * x[1] + (0) * x[2] + (0) * x[3] + (0) * x[4] + (-1) * x[5] + (4) * x[6] + (-2) * x[7],
        adjoint_entry(x, 5, 7) == (1) * x[0] + (0) * x[1] + (0) * x[2] + (0) * x[3] + (0) * x[4] + (-1) * x[5] + (-2) * x[6] + (4) * x[7],
{
    reveal(crate::model::adj);
    assert(adjoint_entry_prefix(x, 5, 0, 1) == adjoint_entry_prefix(x, 5, 0, 0) + (4) * x[0]);
    assert(adjoint_entry_prefix(x, 5, 0, 2) == adjoint_entry_prefix(x, 5, 0, 1) + (1) * x[1]);
    assert(adjoint_entry_prefix(x, 5, 0, 3) == adjoint_entry_prefix(x, 5, 0, 2) + (-1) * x[2]);
    assert(adjoint_entry_prefix(x, 5, 0, 4) == adjoint_entry_prefix(x, 5, 0, 3) + (-1) * x[3]);
    assert(adjoint_entry_prefix(x, 5, 0, 5) == adjoint_entry_prefix(x, 5, 0, 4) + (-1) * x[4]);
    assert(adjoint_entry_prefix(x, 5, 0, 6) == adjoint_entry_prefix(x, 5, 0, 5) + (0) * x[5]);
    assert(adjoint_entry_prefix(x, 5, 0, 7) == adjoint_entry_prefix(x, 5, 0, 6) + (2) * x[6]);
    assert(adjoint_entry_prefix(x, 5, 0, 8) == adjoint_entry_prefix(x, 5, 0, 7) + (-1) * x[7]);
    assert(adjoint_entry_prefix(x, 5, 1, 1) == adjoint_entry_prefix(x, 5, 1, 0) + (-1) * x[0]);
    assert(adjoint_entry_prefix(x, 5, 1, 2) == adjoint_entry_prefix(x, 5, 1, 1) + (4) * x[1]);
    assert(adjoint_entry_prefix(x, 5, 1, 3) == adjoint_entry_prefix(x, 5, 1, 2) + (2) * x[2]);
    assert(adjoint_entry_prefix(x, 5, 1, 4) == adjoint_entry_prefix(x, 5, 1, 3) + (-4) * x[3]);
    assert(adjoint_entry_prefix(x, 5, 1, 5) == adjoint_entry_prefix(x, 5, 1, 4) + (2) * x[4]);
    assert(adjoint_entry_prefix(x, 5, 1, 6) == adjoint_entry_prefix(x, 5, 1, 5) + (-1) * x[5]);
    assert(adjoint_entry_prefix(x, 5, 1, 7) == adjoint_entry_prefix(x, 5, 1, 6) + (0) * x[6]);
    assert(adjoint_entry_prefix(x, 5, 1, 8) == adjoint_entry_prefix(x, 5, 1, 7) + (0) * x[7]);
    assert(adjoint_entry_prefix(x, 5, 2, 1) == adjoint_entry_prefix(x, 5, 2, 0) + (-3) * x[0]);
    assert(adjoint_entry_prefix(x, 5, 2, 2) == adjoint_entry_prefix(x, 5, 2, 1) + (-2) * x[1]);
    assert(adjoint_entry_prefix(x, 5, 2, 3) == adjoint_entry_prefix(x, 5, 2, 2) + (4) * x[2]);
    assert(adjoint_entry_prefix(x, 5, 2, 4) == adjoint_entry_prefix(x, 5, 2, 3) + (0) * x[3]);
    assert(adjoint_entry_prefix(x, 5, 2, 5) == adjoint_entry_prefix(x, 5, 2, 4) + (0) * x[4]);
    assert(adjoint_entry_prefix(x, 5, 2, 6) == adjoint_entry_prefix(x, 5, 2, 5) + (-1) * x[5]);
    assert(adjoint_entry_prefix(x, 5, 2, 7) == adjoint_entry_prefix(x, 5, 2, 6) + (0) * x[6]);
    assert(adjoint_entry_prefix(x, 5, 2, 8) == adjoint_entry_prefix(x, 5, 2, 7) + (0) * x[7]);
    assert(adjoint_entry_prefix(x, 5, 3, 1) == adjoint_entry_prefix(x, 5, 3, 0) + (1) * x[0]);
    assert(adjoint_entry_prefix(x, 5, 3, 2) == adjoint_entry_prefix(x, 5, 3, 1) + (0) * x[1]);
    assert(adjoint_entry_prefix(x, 5, 3, 3) == adjoint_entry_prefix(x, 5, 3, 2) + (-4) * x[2]);
    assert(adjoint_entry_prefix(x, 5, 3, 4) == adjoint_entry_prefix(x, 5, 3, 3) + (4) * x[3]);
    assert(adjoint_entry_prefix(x, 5, 3, 5) == adjoint_entry_prefix(x, 5, 3, 4) + (-2) * x[4]);
    assert(adjoint_entry_prefix(x, 5, 3, 6) == adjoint_entry_prefix(x, 5, 3, 5) + (0) * x[5]);
    assert(adjoint_entry_prefix(x, 5, 3, 7) == adjoint_entry_prefix(x, 5, 3, 6) + (0) * x[6]);
    assert(adjoint_entry_prefix(x, 5, 3, 8) == adjoint_entry_prefix(x, 5, 3, 7) + (0) * x[7]);
    assert(adjoint_entry_prefix(x, 5, 4, 1) == adjoint_entry_prefix(x, 5, 4, 0) + (1) * x[0]);
    assert(adjoint_entry_prefix(x, 5, 4, 2) == adjoint_entry_prefix(x, 5, 4, 1) + (-2) * x[1]);
    assert(adjoint_entry_prefix(x, 5, 4, 3) == adjoint_entry_prefix(x, 5, 4, 2) + (0) * x[2]);
    assert(adjoint_entry_prefix(x, 5, 4, 4) == adjoint_entry_prefix(x, 5, 4, 3) + (-2) * x[3]);
    assert(adjoint_entry_prefix(x, 5, 4, 5) == adjoint_entry_prefix(x, 5, 4, 4) + (4) * x[4]);
    assert(adjoint_entry_prefix(x, 5, 4, 6) == adjoint_entry_prefix(x, 5, 4, 5) + (-1) * x[5]);
    assert(adjoint_entry_prefix(x, 5, 4, 7) == adjoint_entry_prefix(x, 5, 4, 6) + (0) * x[6]);
    assert(adjoint_entry_prefix(x, 5, 4, 8) == adjoint_entry_prefix(x, 5, 4, 7) + (0) * x[7]);
    assert(adjoint_entry_prefix(x, 5, 5, 1) == adjoint_entry_prefix(x, 5, 5, 0) + (0) * x[0]);
    assert(adjoint_entry_prefix(x, 5, 5, 2) == adjoint_entry_prefix(x, 5, 5, 1) + (1) * x[1]);
    assert(adjoint_entry_prefix(x, 5, 5, 3) == adjoint_entry_prefix(x, 5, 5, 2) + (1) * x[2]);
    assert(adjoint_entry_prefix(x, 5, 5, 4) == adjoint_entry_prefix(x, 5, 5, 3) + (0) * x[3]);
    assert(adjoint_entry_prefix(x, 5, 5, 5) == adjoint_entry_prefix(x, 5, 5, 4) + (-3) * x[4]);
    assert(adjoint_entry_prefix(x, 5, 5, 6) == adjoint_entry_prefix(x, 5, 5, 5) + (4) * x[5]);
    assert(adjoint_entry_prefix(x, 5, 5, 7) == adjoint_entry_prefix(x, 5, 5, 6) + (-3) * x[6]);
    assert(adjoint_entry_prefix(x, 5, 5, 8) == adjoint_entry_prefix(x, 5, 5, 7) + (0) * x[7]);
    assert(adjoint_entry_prefix(x, 5, 6, 1) == adjoint_entry_prefix(x, 5, 6, 0) + (-2) * x[0]);
    assert(adjoint_entry_prefix(x, 5, 6, 2) == adjoint_entry_prefix(x, 5, 6, 1) + (0) * x[1]);
    assert(adjoint_entry_prefix(x, 5, 6, 3) == adjoint_entry_prefix(x, 5, 6, 2) + (0) * x[2]);
    assert(adjoint_entry_prefix(x, 5, 6, 4) == adjoint_entry_prefix(x, 5, 6, 3) + (0) * x[3]);
    assert(adjoint_entry_prefix(x, 5, 6, 5) == adjoint_entry_prefix(x, 5, 6, 4) + (0) * x[4]);
    assert(adjoint_entry_prefix(x, 5, 6, 6) == adjoint_entry_prefix(x, 5, 6, 5) + (-1) * x[5]);
    assert(adjoint_entry_prefix(x, 5, 6, 7) == adjoint_entry_prefix(x, 5, 6, 6) + (4) * x[6]);
    assert(adjoint_entry_prefix(x, 5, 6, 8) == adjoint_entry_prefix(x, 5, 6, 7) + (-2) * x[7]);
    assert(adjoint_entry_prefix(x, 5, 7, 1) == adjoint_entry_prefix(x, 5, 7, 0) + (1) * x[0]);
    assert(adjoint_entry_prefix(x, 5, 7, 2) == adjoint_entry_prefix(x, 5, 7, 1) + (0) * x[1]);
    assert(adjoint_entry_prefix(x, 5, 7, 3) == adjoint_entry_prefix(x, 5, 7, 2) + (0) * x[2]);
    assert(adjoint_entry_prefix(x, 5, 7, 4) == adjoint_entry_prefix(x, 5, 7, 3) + (0) * x[3]);
    assert(adjoint_entry_prefix(x, 5, 7, 5) == adjoint_entry_prefix(x, 5, 7, 4) + (0) * x[4]);
    assert(adjoint_entry_prefix(x, 5, 7, 6) == adjoint_entry_prefix(x, 5, 7, 5) + (-1) * x[5]);
    assert(adjoint_entry_prefix(x, 5, 7, 7) == adjoint_entry_prefix(x, 5, 7, 6) + (-2) * x[6]);
    assert(adjoint_entry_prefix(x, 5, 7, 8) == adjoint_entry_prefix(x, 5, 7, 7) + (4) * x[7]);
}

/// Row `6` of the left adjoint matrix of `x`, with the table entries
/// evaluated.
#[verifier::rlimit(100)]
pub proof fn lemma_adjoint_entries_eval_6(x: Seq<int>)
    requires
        is_coeffs(x),
    ensures
        adjoint_entry(x, 6, 0) == (3) * x[0] + (0) * x[1] + (-1) * x[2] + (0) * x[3] + (-1) * x[4] + (0) * x[5] + (1) * x[6] + (0) * x[7],
        adjoint_entry(x, 6, 1) == (0) * x[0] + (3) * x[1] + (1) * x[2] + (-3) * x[3] + (1) * x[4] + (0) * x[5] + (0) * x[6] + (0) * x[7],
        adjoint_entry(x, 6, 2) == (-2) * x[0] + (-1) * x[1] + (3) * x[2] + (-1) * x[3] + (1) * x[4] + (-1) * x[5] + (0) * x[6] + (0) * x[7],
        adjoint_entry(x, 6, 3) == (0) * x[0] + (0) * x[1] + (-2) * x[2] + (3) * x[3] + (-2) * x[4] + (0) * x[5] + (0) * x[6] + (0) * x[7],
        adjoint_entry(x, 6, 4) == (1) * x[0] + (-1) * x[1] + (-1) * x[2] + (-1) * x[3] + (3) * x[4] + (-1) * x[5] + (0) * x[6] + (0) * x[7],
        adjoint_entry(x, 6, 5) == (0) * x[0] + (0) * x[1] + (1) * x[2] + (0) * x[3] + (-2) * x[4] + (3) * x[5] + (-2) * x[6] + (0) * x[7],
        adjoint_entry(x, 6, 6) == (-1) * x[0] + (0) * x[1] + (0) * x[2] + (0) * x[3] + (0) * x[4] + (-1) * x[5] + (3) * x[6] + (-2) * x[7],
        adjoint_entry(x, 6, 7) == (0) * x[0] + (0) * x[1] + (0) * x[2] + (0) * x[3] + (0) * x[4] + (0) * x[5] + (-2) * x[6] + (3) * x[7],
{
    reveal(crate::model::adj);
    assert(adjoint_entry_prefix(x, 6, 0, 1) == adjoint_entry_prefix(x, 6, 0, 0) + (3) * x[0]);
    assert(adjoint_entry_prefix(x, 6, 0, 2) == adjoint_entry_prefix(x, 6, 0, 1) + (0) * x[1]);
    assert(adjoint_entry_prefix(x, 6, 0, 3) == adjoint_entry_prefix(x, 6, 0, 2) + (-1) * x[2]);
    assert(adjoint_entry_prefix(x, 6, 0, 4) == adjoint_entry_prefix(x, 6, 0, 3) + (0) * x[3]);
    assert(adjoint_entry_prefix(x, 6, 0, 5) == adjoint_entry_prefix(x, 6, 0, 4) + (-1) * x[4]);
    assert(adjoint_entry_prefix(x, 6, 0, 6) == adjoint_entry_prefix(x, 6, 0, 5) + (0) * x[5]);
    assert(adjoint_entry_prefix(x, 6, 0, 7) == adjoint_entry_prefix(x, 6, 0, 6) + (1) * x[6]);
    assert(adjoint_entry_prefix(x, 6, 0, 8) == adjoint_entry_prefix(x, 6, 0, 7) + (0) * x[7]);
    assert(adjoint_entry_prefix(x, 6, 1, 1) == adjoint_entry_prefix(x, 6, 1, 0) + (0) * x[0]);
    assert(adjoint_entry_prefix(x, 6, 1, 2) == adjoint_entry_prefix(x, 6, 1, 1) + (3) * x[1]);
    assert(adjoint_entry_prefix(x, 6, 1, 3) == adjoint_entry_prefix(x, 6, 1, 2) + (1) * x[2]);
    assert(adjoint_entry_prefix(x, 6, 1, 4) == adjoint_entry_prefix(x, 6, 1, 3) + (-3) * x[3]);
    assert(adjoint_entry_prefix(x, 6, 1, 5) == adjoint_entry_prefix(x, 6, 1, 4) + (1) * x[4]);
    assert(adjoint_entry_prefix(x, 6, 1, 6) == adjoint_entry_prefix(x, 6, 1, 5) + (0) * x[5]);
    assert(adjoint_entry_prefix(x, 6, 1, 7) == adjoint_entry_prefix(x, 6, 1, 6) + (0) * x[6]);
    assert(adjoint_entry_prefix(x, 6, 1, 8) == adjoint_entry_prefix(x, 6, 1, 7) + (0) * x[7]);
    assert(adjoint_entry_prefix(x, 6, 2, 1) == adjoint_entry_prefix(x, 6, 2, 0) + (-2) * x[0]);
    assert(adjoint_entry_prefix(x, 6, 2, 2) == adjoint_entry_prefix(x, 6, 2, 1) + (-1) * x[1]);
    assert(adjoint_entry_prefix(x, 6, 2, 3) == adjoint_entry_prefix(x, 6, 2, 2) + (3) * x[2]);
    assert(adjoint_entry_prefix(x, 6, 2, 4) == adjoint_entry_prefix(x, 6, 2, 3) + (-1) * x[3]);
    assert(adjoint_entry_prefix(x, 6, 2, 5) == adjoint_entry_prefix(x, 6, 2, 4) + (1) * x[4]);
    assert(adjoint_entry_prefix(x, 6, 2, 6) == adjoint_entry_prefix(x, 6, 2, 5) + (-1) * x[5]);
    assert(adjoint_entry_prefix(x, 6, 2, 7) == adjoint_entry_prefix(x, 6, 2, 6) + (0) * x[6]);
    assert(adjoint_entry_prefix(x, 6, 2, 8) == adjoint_entry_prefix(x, 6, 2, 7) + (0) * x[7]);
    assert(adjoint_entry_prefix(x, 6, 3, 1) == adjoint_entry_prefix(x, 6, 3, 0) + (0) * x[0]);
    assert(adjoint_entry_prefix(x, 6, 3, 2) == adjoint_entry_prefix(x, 6, 3, 1) + (0) * x[1]);
    assert(adjoint_entry_prefix(x, 6, 3, 3) == adjoint_entry_prefix(x, 6, 3, 2) + (-2) * x[2]);
    assert(adjoint_entry_prefix(x, 6, 3, 4) == adjoint_entry_prefix(x, 6, 3, 3) + (3) * x[3]);
    assert(adjoint_entry_prefix(x, 6, 3, 5) == adjoint_entry_prefix(x, 6, 3, 4) + (-2) * x[4]);
    assert(adjoint_entry_prefix(x, 6, 3, 6) == adjoint_entry_prefix(x, 6, 3, 5) + (0) * x[5]);
    assert(adjoint_entry_prefix(x, 6, 3, 7) == adjoint_entry_prefix(x, 6, 3, 6) + (0) * x[6]);
    assert(adjoint_entry_prefix(x, 6, 3, 8) == adjoint_entry_prefix(x, 6, 3, 7) + (0) * x[7]);
    assert(adjoint_entry_prefix(x, 6, 4, 1) == adjoint_entry_prefix(x, 6, 4, 0) + (1) * x[0]);
    assert(adjoint_entry_prefix(x, 6, 4, 2) == adjoint_entry_prefix(x, 6, 4, 1) + (-1) * x[1]);
    assert(adjoint_entry_prefix(x, 6, 4, 3) == adjoint_entry_prefix(x, 6, 4, 2) + (-1) * x[2]);
    assert(adjoint_entry_prefix(x, 6, 4, 4) == adjoint_entry_prefix(x, 6, 4, 3) + (-1) * x[3]);
    assert(adjoint_entry_prefix(x, 6, 4, 5) == adjoint_entry_prefix(x, 6, 4, 4) + (3) * x[4]);
    assert(adjoint_entry_prefix(x, 6, 4, 6) == adjoint_entry_prefix(x, 6, 4, 5) + (-1) * x[5]);
    assert(adjoint_entry_prefix(x, 6, 4, 7) == adjoint_entry_prefix(x, 6, 4, 6) + (0) * x[6]);
    assert(adjoint_entry_prefix(x, 6, 4, 8) == adjoint_entry_prefix(x, 6, 4, 7) + (0) * x[7]);
    assert(adjoint_entry_prefix(x, 6, 5, 1) == adjoint_entry_prefix(x, 6, 5, 0) + (0) * x[0]);
    assert(adjoint_entry_prefix(x, 6, 5, 2) == adjoint_entry_prefix(x, 6, 5, 1) + (0) * x[1]);
    assert(adjoint_entry_prefix(x, 6, 5, 3) == adjoint_entry_prefix(x, 6, 5, 2) + (1) * x[2]);
    assert(adjoint_entry_prefix(x, 6, 5, 4) == adjoint_entry_prefix(x, 6, 5, 3) + (0) * x[3]);
    assert(adjoint_entry_prefix(x, 6, 5, 5) == adjoint_entry_prefix(x, 6, 5, 4) + (-2) * x[4]);
    assert(adjoint_entry_prefix(x, 6, 5, 6) == adjoint_entry_prefix(x, 6, 5, 5) + (3) * x[5]);
    assert(adjoint_entry_prefix(x, 6, 5, 7) == adjoint_entry_prefix(x, 6, 5, 6) + (-2) * x[6]);
    assert(adjoint_entry_prefix(x, 6, 5, 8) == adjoint_entry_prefix(x, 6, 5, 7) + (0) * x[7]);
    assert(adjoint_entry_prefix(x, 6, 6, 1) == adjoint_entry_prefix(x, 6, 6, 0) + (-1) * x[0]);
    assert(adjoint_entry_prefix(x, 6, 6, 2) == adjoint_entry_prefix(x, 6, 6, 1) + (0) * x[1]);
    assert(adjoint_entry_prefix(x, 6, 6, 3) == adjoint_entry_prefix(x, 6, 6, 2) + (0) * x[2]);
    assert(adjoint_entry_prefix(x, 6, 6, 4) == adjoint_entry_prefix(x, 6, 6, 3) + (0) * x[3]);
    assert(adjoint_entry_prefix(x, 6, 6, 5) == adjoint_entry_prefix(x, 6, 6, 4) + (0) * x[4]);
    assert(adjoint_entry_prefix(x, 6, 6, 6) == adjoint_entry_prefix(x, 6, 6, 5) + (-1) * x[5]);
    assert(adjoint_entry_prefix(x, 6, 6, 7) == adjoint_entry_prefix(x, 6, 6, 6) + (3) * x[6]);
    assert(adjoint_entry_prefix(x, 6, 6, 8) == adjoint_entry_prefix(x, 6, 6, 7) + (-2) * x[7]);
    assert(adjoint_entry_prefix(x, 6, 7, 1) == adjoint_entry_prefix(x, 6, 7, 0) + (0) * x[0]);
    assert(adjoint_entry_prefix(x, 6, 7, 2) == adjoint_entry_prefix(x, 6, 7, 1) + (0) * x[1]);
    assert(adjoint_entry_prefix(x, 6, 7, 3) == adjoint_entry_prefix(x, 6, 7, 2) + (0) * x[2]);
    assert(adjoint_entry_prefix(x, 6, 7, 4) == adjoint_entry_prefix(x, 6, 7, 3) + (0) * x[3]);
    assert(adjoint_entry_prefix(x, 6, 7, 5) == adjoint_entry_prefix(x, 6, 7, 4) + (0) * x[4]);
    assert(adjoint_entry_prefix(x, 6, 7, 6) == adjoint_entry_prefix(x, 6, 7, 5) + (0) * x[5]);
    assert(adjoint_entry_prefix(x, 6, 7, 7) == adjoint_entry_prefix(x, 6, 7, 6) + (-2) * x[6]);
    assert(adjoint_entry_prefix(x, 6, 7, 8) == adjoint_entry_prefix(x, 6, 7, 7) + (3) * x[7]);
}

/// Row `7` of the left adjoint matrix of `x`, with the table entries
/// evaluated.
#[verifier::rlimit(100)]
pub proof fn lemma_adjoint_entries_eval_7(x: Seq<int>)
    requires
        is_coeffs(x),
    ensures
        adjoint_entry(x, 7, 0) == (2) * x[0] + (0) * x[1] + (-1) * x[2] + (0) * x[3] + (0) * x[4] + (0) * x[5] + (0) * x[6] + (0) * x[7],
        adjoint_entry(x, 7, 1) == (0) * x[0] + (2) * x[1] + (0) * x[2] + (-1) * x[3] + (0) * x[4] + (0) * x[5] + (0) * x[6] + (0) * x[7],
        adjoint_entry(x, 7, 2) == (-1) * x[0] + (0) * x[1] + (2) * x[2] + (-1) * x[3] + (0) * x[4] + (0) * x[5] + (0) * x[6] + (0) * x[7],
        adjoint_entry(x, 7, 3) == (0) * x[0] + (-1) * x[1] + (-1) * x[2] + (2) * x[3] + (-1) * x[4] + (0) * x[5] + (0) * x[6] + (0) * x[7],
        adjoint_entry(x, 7, 4) == (0) * x[0] + (0) * x[1] + (0) * x[2] + (-1) * x[3] + (2) * x[4] + (-1) * x[5] + (0) * x[6] + (0) * x[7],
        adjoint_entry(x, 7, 5) == (0) * x[0] + (0) * x[1] + (0) * x[2] + (0) * x[3] + (-1) * x[4] + (2) * x[5] + (-1) * x[6] + (0) * x[7],
        adjoint_entry(x, 7, 6) == (0) * x[0] + (0) * x[1] + (0) * x[2] + (0) * x[3] + (0) * x[4] + (-1) * x[5] + (2) * x[6] + (-1) * x[7],
        adjoint_entry(x, 7, 7) == (0) * x[0] + (0) * x[1] + (0) * x[2] + (0) * x[3] + (0) * x[4] + (0) * x[5] + (-1) * x[6] + (1) * x[7],
{
    reveal(crate::model::adj);
    assert(adjoint_entry_prefix(x, 7, 0, 1) == adjoint_entry_prefix(x, 7, 0, 0) + (2) * x[0]);
    assert(adjoint_entry_prefix(x, 7, 0, 2) == adjoint_entry_prefix(x, 7, 0, 1) + (0) * x[1]);
    assert(adjoint_entry_prefix(x, 7, 0, 3) == adjoint_entry_prefix(x, 7, 0, 2) + (-1) * x[2]);
    assert(adjoint_entry_prefix(x, 7, 0, 4) == adjoint_entry_prefix(x, 7, 0, 3) + (0) * x[3]);
    assert(adjoint_entry_prefix(x, 7, 0, 5) == adjoint_entry_prefix(x, 7, 0, 4) + (0) * x[4]);
    assert(adjoint_entry_prefix(x, 7, 0, 6) == adjoint_entry_prefix(x, 7, 0, 5) + (0) * x[5]);
    assert(adjoint_entry_prefix(x, 7, 0, 7) == adjoint_entry_prefix(x, 7, 0, 6) + (0) * x[6]);
    assert(adjoint_entry_prefix(x, 7, 0, 8) == adjoint_entry_prefix(x, 7, 0, 7) + (0) * x[7]);
    assert(adjoint_entry_prefix(x, 7, 1, 1) == adjoint_entry_prefix(x, 7, 1, 0) + (0) * x[0]);
    assert(adjoint_entry_prefix(x, 7, 1, 2) == adjoint_entry_prefix(x, 7, 1, 1) + (2) * x[1]);
    assert(adjoint_entry_prefix(x, 7, 1, 3) == adjoint_entry_prefix(x, 7, 1, 2) + (0) * x[2]);
    assert(adjoint_entry_prefix(x, 7, 1, 4) == adjoint_entry_prefix(x, 7, 1, 3) + (-1) * x[3]);
    assert(adjoint_entry_prefix(x, 7, 1, 5) == adjoint_entry_prefix(x, 7, 1, 4) + (0) * x[4]);
    assert(adjoint_entry_prefix(x, 7, 1, 6) == adjoint_entry_prefix(x, 7, 1, 5) + (0) * x[5]);
    assert(adjoint_entry_prefix(x, 7, 1, 7) == adjoint_entry_prefix(x, 7, 1, 6) + (0) * x[6]);
    assert(adjoint_entry_prefix(x, 7, 1, 8) == adjoint_entry_prefix(x, 7, 1, 7) + (0) * x[7]);
    assert(adjoint_entry_prefix(x, 7, 2, 1) == adjoint_entry_prefix(x, 7, 2, 0) + (-1) * x[0]);
    assert(adjoint_entry_prefix(x, 7, 2, 2) == adjoint_entry_prefix(x, 7, 2, 1) + (0) * x[1]);
    assert(adjoint_entry_prefix(x, 7, 2, 3) == adjoint_entry_prefix(x, 7, 2, 2) + (2) * x[2]);
    assert(adjoint_entry_prefix(x, 7, 2, 4) == adjoint_entry_prefix(x, 7, 2, 3) + (-1) * x[3]);
    assert(adjoint_entry_prefix(x, 7, 2, 5) == adjoint_entry_prefix(x, 7, 2, 4) + (0) * x[4]);
    assert(adjoint_entry_prefix(x, 7, 2, 6) == adjoint_entry_prefix(x, 7, 2, 5) + (0) * x[5]);
    assert(adjoint_entry_prefix(x, 7, 2, 7) == adjoint_entry_prefix(x, 7, 2, 6) + (0) * x[6]);
    assert(adjoint_entry_prefix(x, 7, 2, 8) == adjoint_entry_prefix(x, 7, 2, 7) + (0) * x[7]);
    assert(adjoint_entry_prefix(x, 7, 3, 1) == adjoint_entry_prefix(x, 7, 3, 0) + (0) * x[0]);
    assert(adjoint_entry_prefix(x, 7, 3, 2) == adjoint_entry_prefix(x, 7, 3, 1) + (-1) * x[1]);
    assert(adjoint_entry_prefix(x, 7, 3, 3) == adjoint_entry_prefix(x, 7, 3, 2) + (-1) * x[2]);
    assert(adjoint_entry_prefix(x, 7, 3, 4) == adjoint_entry_prefix(x, 7, 3, 3) + (2) * x[3]);
    assert(adjoint_entry_prefix(x, 7, 3, 5) == adjoint_entry_prefix(x, 7, 3, 4) + (-1) * x[4]);
    assert(adjoint_entry_prefix(x, 7, 3, 6) == adjoint_entry_prefix(x, 7, 3, 5) + (0) * x[5]);
    assert(adjoint_entry_prefix(x, 7, 3, 7) == adjoint_entry_prefix(x, 7, 3, 6) + (0) * x[6]);
    assert(adjoint_entry_prefix(x, 7, 3, 8) == adjoint_entry_prefix(x, 7, 3, 7) + (0) * x[7]);
    assert(adjoint_entry_prefix(x, 7, 4, 1) == adjoint_entry_prefix(x, 7, 4, 0) + (0) * x[0]);
    assert(adjoint_entry_prefix(x, 7, 4, 2) == adjoint_entry_prefix(x, 7, 4, 1) + (0) * x[1]);
    assert(adjoint_entry_prefix(x, 7, 4, 3) == adjoint_entry_prefix(x, 7, 4, 2) + (0) * x[2]);
    assert(adjoint_entry_prefix(x, 7, 4, 4) == adjoint_entry_prefix(x, 7, 4, 3) + (-1) * x[3]);
    assert(adjoint_entry_prefix(x, 7, 4, 5) == adjoint_entry_prefix(x, 7, 4, 4) + (2) * x[4]);
    assert(adjoint_entry_prefix(x, 7, 4, 6) == adjoint_entry_prefix(x, 7, 4, 5) + (-1) * x[5]);
    assert(adjoint_entry_prefix(x, 7, 4, 7) == adjoint_entry_prefix(x, 7, 4, 6) + (0) * x[6]);
    assert(adjoint_entry_prefix(x, 7, 4, 8) == adjoint_entry_prefix(x, 7, 4, 7) + (0) * x[7]);
    assert(adjoint_entry_prefix(x, 7, 5, 1) == adjoint_entry_prefix(x, 7, 5, 0) + (0) * x[0]);
    assert(adjoint_entry_prefix(x, 7, 5, 2) == adjoint_entry_prefix(x, 7, 5, 1) + (0) * x[1]);
    assert(adjoint_entry_prefix(x, 7, 5, 3) == adjoint_entry_prefix(x, 7, 5, 2) + (0) * x[2]);
    assert(adjoint_entry_prefix(x, 7, 5, 4) == adjoint_entry_prefix(x, 7, 5, 3) + (0) * x[3]);
    assert(adjoint_entry_prefix(x, 7, 5, 5) == adjoint_entry_prefix(x, 7, 5, 4) + (-1) * x[4]);
    assert(adjoint_entry_prefix(x, 7, 5, 6) == adjoint_entry_prefix(x, 7, 5, 5) + (2) * x[5]);
    assert(adjoint_entry_prefix(x, 7, 5, 7) == adjoint_entry_prefix(x, 7, 5, 6) + (-1) * x[6]);
    assert(adjoint_entry_prefix(x, 7, 5, 8) == adjoint_entry_prefix(x, 7, 5, 7) + (0) * x[7]);
    assert(adjoint_entry_prefix(x, 7, 6, 1) == adjoint_entry_prefix(x, 7, 6, 0) + (0) * x[0]);
    assert(adjoint_entry_prefix(x, 7, 6, 2) == adjoint_entry_prefix(x, 7, 6, 1) + (0) * x[1]);
    assert(adjoint_entry_prefix(x, 7, 6, 3) == adjoint_entry_prefix(x, 7, 6, 2) + (0) * x[2]);
    assert(adjoint_entry_prefix(x, 7, 6, 4) == adjoint_entry_prefix(x, 7, 6, 3) + (0) * x[3]);
    assert(adjoint_entry_prefix(x, 7, 6, 5) == adjoint_entry_prefix(x, 7, 6, 4) + (0) * x[4]);
    assert(adjoint_entry_prefix(x, 7, 6, 6) == adjoint_entry_prefix(x, 7, 6, 5) + (-1) * x[5]);
    assert(adjoint_entry_prefix(x, 7, 6, 7) == adjoint_entry_prefix(x, 7, 6, 6) + (2) * x[6]);
    assert(adjoint_entry_prefix(x, 7, 6, 8) == adjoint_entry_prefix(x, 7, 6, 7) + (-1) * x[7]);
    assert(adjoint_entry_prefix(x, 7, 7, 1) == adjoint_entry_prefix(x, 7, 7, 0) + (0) * x[0]);
    assert(adjoint_entry_prefix(x, 7, 7, 2) == adjoint_entry_prefix(x, 7, 7, 1) + (0) * x[1]);
    assert(adjoint_entry_prefix(x, 7, 7, 3) == adjoint_entry_prefix(x, 7, 7, 2) + (0) * x[2]);
    assert(adjoint_entry_prefix(x, 7, 7, 4) == adjoint_entry_prefix(x, 7, 7, 3) + (0) * x[3]);
    assert(adjoint_entry_prefix(x, 7, 7, 5) == adjoint_entry_prefix(x, 7, 7, 4) + (0) * x[4]);
    assert(adjoint_entry_prefix(x, 7, 7, 6) == adjoint_entry_prefix(x, 7, 7, 5) + (0) * x[5]);
    assert(adjoint_entry_prefix(x, 7, 7, 7) == adjoint_entry_prefix(x, 7, 7, 6) + (-1) * x[6]);
    assert(adjoint_entry_prefix(x, 7, 7, 8) == adjoint_entry_prefix(x, 7, 7, 7) + (1) * x[7]);
}

} // verus!
