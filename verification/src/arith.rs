//! Arithmetic facts used throughout the library: bounds on products, the
//! distributive expansions that turn a coefficient times a linear form into
//! a sum of monomials, and the behaviour of truncating division.

use vstd::prelude::*;

use vstd::arithmetic::div_mod::lemma_div_decreases;
use vstd::arithmetic::div_mod::lemma_div_multiples_vanish;
use vstd::arithmetic::div_mod::lemma_div_nonincreasing;
use vstd::arithmetic::div_mod::lemma_div_pos_is_pos;

use crate::model::tdiv;

verus! {

/// The product of two bounded integers is bounded by the product of the
/// bounds.
pub proof fn lemma_mul_bounds(a: int, b: int, ba: int, bb: int)
    by (nonlinear_arith)
    requires
        -ba <= a <= ba,
        -bb <= b <= bb,
        0 <= ba,
        0 <= bb,
    ensures
        -(ba * bb) <= a * b <= ba * bb,
{
}

/// A factor distributes over a value known to be a sum.
pub proof fn lemma_mul_split(x: int, u: int, u1: int, u2: int)
    by (nonlinear_arith)
    requires
        u == u1 + u2,
    ensures
        x * u == x * u1 + x * u2,
{
}

/// Multiplication commutes.
pub proof fn lemma_mul_comm(a: int, b: int)
    by (nonlinear_arith)
    ensures
        a * b == b * a,
{
}

/// A factor times a value known to be a constant.
pub proof fn lemma_mul_const(x: int, u: int, c: int)
    by (nonlinear_arith)
    requires
        u == c,
    ensures
        x * u == c * x,
{
}

/// A factor times a value known to be a linear form of two terms.
pub proof fn lemma_mul_form2(x: int, u: int, c1: int, y1: int, c2: int, y2: int)
    by (nonlinear_arith)
    requires
        u == c1 * y1 + c2 * y2,
    ensures
        x * u == c1 * (x * y1) + c2 * (x * y2),
{
}

/// A factor times a value known to be a linear form of four terms.
pub proof fn lemma_mul_form4(
    x: int,
    u: int,
    c1: int, y1: int,
    c2: int, y2: int,
    c3: int, y3: int,
    c4: int, y4: int,
)
    requires
        u == c1 * y1 + c2 * y2 + c3 * y3 + c4 * y4,
    ensures
        x * u == c1 * (x * y1) + c2 * (x * y2) + c3 * (x * y3) + c4 * (x * y4),
{
    lemma_mul_split(x, u, c1 * y1 + c2 * y2, c3 * y3 + c4 * y4);
    lemma_mul_form2(x, c1 * y1 + c2 * y2, c1, y1, c2, y2);
    lemma_mul_form2(x, c3 * y3 + c4 * y4, c3, y3, c4, y4);
}

/// A factor times a value known to be a linear form of eight terms.
pub proof fn lemma_mul_form8(
    x: int,
    u: int,
    c1: int, y1: int,
    c2: int, y2: int,
    c3: int, y3: int,
    c4: int, y4: int,
    c5: int, y5: int,
    c6: int, y6: int,
    c7: int, y7: int,
    c8: int, y8: int,
)
    requires
        u == c1 * y1 + c2 * y2 + c3 * y3 + c4 * y4 + c5 * y5 + c6 * y6 + c7 * y7 + c8 * y8,
    ensures
        x * u == c1 * (x * y1) + c2 * (x * y2) + c3 * (x * y3) + c4 * (x * y4) + c5 * (x * y5)
            + c6 * (x * y6) + c7 * (x * y7) + c8 * (x * y8),
{
    lemma_mul_split(
        x,
        u,
        c1 * y1 + c2 * y2 + c3 * y3 + c4 * y4,
        c5 * y5 + c6 * y6 + c7 * y7 + c8 * y8,
    );
    lemma_mul_form4(x, c1 * y1 + c2 * y2 + c3 * y3 + c4 * y4, c1, y1, c2, y2, c3, y3, c4, y4);
    lemma_mul_form4(x, c5 * y5 + c6 * y6 + c7 * y7 + c8 * y8, c5, y5, c6, y6, c7, y7, c8, y8);
}

/// Truncating division of a doubled value by two recovers the value.
pub proof fn lemma_tdiv_even_half(n: int)
    ensures
        tdiv(2 * n, 2) == n,
{
    if n > 0 {
        lemma_div_multiples_vanish(n, 2);
    } else if n < 0 {
        assert(2 * n * -1 == 2 * (-n));
        lemma_div_multiples_vanish(-n, 2);
    }
}

/// Truncating division never leaves the coefficient range, except for the
/// one overflowing case of dividing the smallest value by minus one.
#[verifier::rlimit(50)]
pub proof fn lemma_tdiv_in_i32_range(a: int, b: int)
    requires
        i32::MIN <= a <= i32::MAX,
        b != 0,
        !(a == i32::MIN && b == -1),
    ensures
        i32::MIN <= tdiv(a, b) <= i32::MAX,
{
    if a == 0 {
    } else if a > 0 && b > 0 {
        lemma_div_pos_is_pos(a, b);
        lemma_div_nonincreasing(a, b);
    } else if a < 0 && b < 0 {
        let p = a * -1;
        let q = b * -1;
        lemma_div_pos_is_pos(p, q);
        lemma_div_nonincreasing(p, q);
        if a == i32::MIN {
            assert(q >= 2);
            lemma_div_decreases(p, q);
        }
    } else if a < 0 {
        let p = a * -1;
        lemma_div_pos_is_pos(p, b);
        lemma_div_nonincreasing(p, b);
    } else {
        let q = b * -1;
        lemma_div_pos_is_pos(a, q);
        lemma_div_nonincreasing(a, q);
    }
}

} // verus!
