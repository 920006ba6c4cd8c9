//! Algebraic laws of the octavian integers, stated and proved over the
//! mathematical model.

use vstd::prelude::*;

use crate::arith::lemma_mul_comm;
use crate::arith::lemma_mul_const;
use crate::arith::lemma_mul_form2;
use crate::arith::lemma_mul_form8;
use crate::element::Octavian;
use crate::expand::lemma_adjoint_entries_eval_0;
use crate::expand::lemma_adjoint_entries_eval_1;
use crate::expand::lemma_adjoint_entries_eval_2;
use crate::expand::lemma_adjoint_entries_eval_3;
use crate::expand::lemma_adjoint_entries_eval_4;
use crate::expand::lemma_adjoint_entries_eval_5;
use crate::expand::lemma_adjoint_entries_eval_6;
use crate::expand::lemma_adjoint_entries_eval_7;
use crate::expand::lemma_gram_row_unroll;
use crate::expand::lemma_gram_rows_eval;
use crate::expand::lemma_inner_self_even;
use crate::expand::lemma_inner_unroll;
use crate::expand::lemma_mul_entry_unroll;
use crate::expand::lemma_trace_is_neg_last;
use crate::model::add_seq;
use crate::model::adjoint_entry;
use crate::model::basis_seq;
use crate::model::conj_seq;
use crate::model::gram;
use crate::model::gram_row;
use crate::model::identity_seq;
use crate::model::inner_product_spec;
use crate::model::is_coeffs;
use crate::model::mul_entry;
use crate::model::mul_seq;
use crate::model::neg_seq;
use crate::model::norm_spec;
use crate::model::scale_seq;
use crate::model::sub_seq;
use crate::model::trace_spec;
use crate::model::zero_seq;

verus! {

/// Adding the zero element changes nothing: `x + 0 == x`.
pub proof fn lemma_add_zero(x: Seq<int>)
    requires
        is_coeffs(x),
    ensures
        add_seq(x, zero_seq()) == x,
{
    assert(add_seq(x, zero_seq()) =~= x);
}

/// Subtracting an element from itself gives the zero element: `x - x == 0`.
pub proof fn lemma_sub_self(x: Seq<int>)
    requires
        is_coeffs(x),
    ensures
        sub_seq(x, x) == zero_seq(),
{
    assert(sub_seq(x, x) =~= zero_seq());
}

/// Negation is the same as scaling by minus one.
pub proof fn lemma_neg_is_scale(x: Seq<int>)
    requires
        is_coeffs(x),
    ensures
        neg_seq(x) == scale_seq(x, -1),
{
    assert(neg_seq(x) =~= scale_seq(x, -1));
}

/// Conjugation is an involution: conjugating twice gives the element back.
pub proof fn lemma_conj_involution(x: Seq<int>)
    requires
        is_coeffs(x),
    ensures
        conj_seq(conj_seq(x)) == x,
{
    lemma_trace_is_neg_last(x);
    lemma_trace_is_neg_last(conj_seq(x));
    assert(conj_seq(x)[7] == identity_seq()[7] * trace_spec(x) - x[7]);
    assert(identity_seq()[7] == -2);
    assert(trace_spec(conj_seq(x)) == trace_spec(x));
    assert forall|i: int| 0 <= i < 8 implies conj_seq(conj_seq(x))[i] == x[i] by {
        assert(conj_seq(conj_seq(x))[i] == identity_seq()[i] * trace_spec(conj_seq(x))
            - conj_seq(x)[i]);
        assert(conj_seq(x)[i] == identity_seq()[i] * trace_spec(x) - x[i]);
        lemma_mul_eq(identity_seq()[i], trace_spec(conj_seq(x)), trace_spec(x));
    }
    assert(conj_seq(conj_seq(x)) =~= x);
}

/// A factor times either of two equal values gives equal products.
proof fn lemma_mul_eq(x: int, u: int, v: int)
    by (nonlinear_arith)
    requires
        u == v,
    ensures
        x * u == x * v,
{
}

/// The trace of each of the first seven basis vectors is zero; the trace
/// of the eighth is minus one.  In this basis the trace reads off the
/// negated last coefficient, and only the eighth basis vector has a
/// non-zero last coefficient.
pub proof fn lemma_basis_traces(k: int)
    requires
        0 <= k < 8,
    ensures
        trace_spec(basis_seq(k)) == if k == 7 { -1int } else { 0int },
{
    lemma_trace_is_neg_last(basis_seq(k));
}

/// The identity element has norm one and trace two.
pub proof fn lemma_identity_norm_trace()
    ensures
        norm_spec(identity_seq()) == 1,
        trace_spec(identity_seq()) == 2,
{
    let one = identity_seq();
    lemma_inner_unroll(one, one);
    lemma_gram_rows_eval(one);
    assert(inner_product_spec(one, one) == 2) by {
        assert(gram_row(0, one) == 0);
        assert(gram_row(1, one) == 0);
        assert(gram_row(2, one) == 0);
        assert(gram_row(3, one) == 0);
        assert(gram_row(4, one) == 0);
        assert(gram_row(5, one) == 0);
        assert(gram_row(6, one) == 0);
        assert(gram_row(7, one) == -1);
        lemma_mul_const(one[0], gram_row(0, one), 0);
        lemma_mul_const(one[1], gram_row(1, one), 0);
        lemma_mul_const(one[2], gram_row(2, one), 0);
        lemma_mul_const(one[3], gram_row(3, one), 0);
        lemma_mul_const(one[4], gram_row(4, one), 0);
        lemma_mul_const(one[5], gram_row(5, one), 0);
        lemma_mul_const(one[6], gram_row(6, one), 0);
        lemma_mul_const(one[7], gram_row(7, one), -1);
    }
    lemma_trace_is_neg_last(one);
}

/// Rebuilding an octavian from its own coefficient array reproduces the
/// identical value: the coefficient sequence determines the element.
pub proof fn lemma_coefficient_round_trip(x: Octavian)
    ensures
        (Octavian { coefficients: x.coefficients }) == x,
{
}

proof fn lemma_cp_right_term_0_0(x: Seq<int>)
    requires
        is_coeffs(x),
    ensures
        adjoint_entry(x, 0, 0) * conj_seq(x)[0] == (-2) * (x[0] * x[0]) + (-1) * (x[0] * x[1]) + (1) * (x[0] * x[2]) + (1) * (x[0] * x[4]) + (-1) * (x[0] * x[6]) + (5) * (x[0] * x[7]) + (2) * (x[1] * x[7]) + (-2) * (x[2] * x[7]) + (-2) * (x[4] * x[7]) + (2) * (x[6] * x[7]) + (-2) * (x[7] * x[7]),
{
    lemma_trace_is_neg_last(x);
    assert(conj_seq(x)[0] == 2 * x[7] - x[0]);
    lemma_adjoint_entries_eval_0(x);
    lemma_mul_form2(adjoint_entry(x, 0, 0), conj_seq(x)[0], 2, x[7], -1, x[0]);
    lemma_mul_comm(adjoint_entry(x, 0, 0), x[7]);
    lemma_mul_comm(adjoint_entry(x, 0, 0), x[0]);
    lemma_mul_comm(x[7], x[0]);
    lemma_mul_comm(x[0], x[0]);
    lemma_mul_comm(x[7], x[1]);
    lemma_mul_comm(x[0], x[1]);
    lemma_mul_comm(x[7], x[2]);
    lemma_mul_comm(x[0], x[2]);
    lemma_mul_comm(x[7], x[3]);
    lemma_mul_comm(x[0], x[3]);
    lemma_mul_comm(x[7], x[4]);
    lemma_mul_comm(x[0], x[4]);
    lemma_mul_comm(x[7], x[5]);
    lemma_mul_comm(x[0], x[5]);
    lemma_mul_comm(x[7], x[6]);
    lemma_mul_comm(x[0], x[6]);
    lemma_mul_comm(x[7], x[7]);
    lemma_mul_comm(x[0], x[7]);
    lemma_mul_form8(x[7], adjoint_entry(x, 0, 0), (2), x[0], (1), x[1], (-1), x[2], (0), x[3], (-1), x[4], (0), x[5], (1), x[6], (-1), x[7]);
    lemma_mul_form8(x[0], adjoint_entry(x, 0, 0), (2), x[0], (1), x[1], (-1), x[2], (0), x[3], (-1), x[4], (0), x[5], (1), x[6], (-1), x[7]);
}

proof fn lemma_cp_right_term_0_1(x: Seq<int>)
    requires
        is_coeffs(x),
    ensures
        adjoint_entry(x, 0, 1) * conj_seq(x)[1] == (1) * (x[0] * x[1]) + (-3) * (x[0] * x[7]) + (-2) * (x[1] * x[1]) + (-2) * (x[1] * x[2]) + (2) * (x[1] * x[3]) + (6) * (x[1] * x[7]) + (6) * (x[2] * x[7]) + (-6) * (x[3] * x[7]),
{
    lemma_trace_is_neg_last(x);
    assert(conj_seq(x)[1] == 3 * x[7] - x[1]);
    lemma_adjoint_entries_eval_0(x);
    lemma_mul_form2(adjoint_entry(x, 0, 1), conj_seq(x)[1], 3, x[7], -1, x[1]);
    lemma_mul_comm(adjoint_entry(x, 0, 1), x[7]);
    lemma_mul_comm(adjoint_entry(x, 0, 1), x[1]);
    lemma_mul_comm(x[7], x[0]);
    lemma_mul_comm(x[1], x[0]);
    lemma_mul_comm(x[7], x[1]);
    lemma_mul_comm(x[1], x[1]);
    lemma_mul_comm(x[7], x[2]);
    lemma_mul_comm(x[1], x[2]);
    lemma_mul_comm(x[7], x[3]);
    lemma_mul_comm(x[1], x[3]);
    lemma_mul_comm(x[7], x[4]);
    lemma_mul_comm(x[1], x[4]);
    lemma_mul_comm(x[7], x[5]);
    lemma_mul_comm(x[1], x[5]);
    lemma_mul_comm(x[7], x[6]);
    lemma_mul_comm(x[1], x[6]);
    lemma_mul_comm(x[7], x[7]);
    lemma_mul_comm(x[1], x[7]);
    lemma_mul_form8(x[7], adjoint_entry(x, 0, 1), (-1), x[0], (2), x[1], (2), x[2], (-2), x[3], (0), x[4], (0), x[5], (0), x[6], (0), x[7]);
    lemma_mul_form8(x[1], adjoint_entry(x, 0, 1), (-1), x[0], (2), x[1], (2), x[2], (-2), x[3], (0), x[4], (0), x[5], (0), x[6], (0), x[7]);
}

proof fn lemma_cp_right_term_0_2(x: Seq<int>)
    requires
        is_coeffs(x),
    ensures
        adjoint_entry(x, 0, 2) * conj_seq(x)[2] == (1) * (x[0] * x[2]) + (-4) * (x[0] * x[7]) + (2) * (x[1] * x[2]) + (-8) * (x[1] * x[7]) + (-2) * (x[2] * x[2]) + (8) * (x[2] * x[7]),
{
    lemma_trace_is_neg_last(x);
    assert(conj_seq(x)[2] == 4 * x[7] - x[2]);
    lemma_adjoint_entries_eval_0(x);
    lemma_mul_form2(adjoint_entry(x, 0, 2), conj_seq(x)[2], 4, x[7], -1, x[2]);
    lemma_mul_comm(adjoint_entry(x, 0, 2), x[7]);
    lemma_mul_comm(adjoint_entry(x, 0, 2), x[2]);
    lemma_mul_comm(x[7], x[0]);
    lemma_mul_comm(x[2], x[0]);
    lemma_mul_comm(x[7], x[1]);
    lemma_mul_comm(x[2], x[1]);
    lemma_mul_comm(x[7], x[2]);
    lemma_mul_comm(x[2], x[2]);
    lemma_mul_comm(x[7], x[3]);
    lemma_mul_comm(x[2], x[3]);
    lemma_mul_comm(x[7], x[4]);
    lemma_mul_comm(x[2], x[4]);
    lemma_mul_comm(x[7], x[5]);
    lemma_mul_comm(x[2], x[5]);
    lemma_mul_comm(x[7], x[6]);
    lemma_mul_comm(x[2], x[6]);
    lemma_mul_comm(x[7], x[7]);
    lemma_mul_comm(x[2], x[7]);
    lemma_mul_form8(x[7], adjoint_entry(x, 0, 2), (-1), x[0], (-2), x[1], (2), x[2], (0), x[3], (0), x[4], (0), x[5], (0), x[6], (0), x[7]);
    lemma_mul_form8(x[2], adjoint_entry(x, 0, 2), (-1), x[0], (-2), x[1], (2), x[2], (0), x[3], (0), x[4], (0), x[5], (0), x[6], (0), x[7]);
}

proof fn lemma_cp_right_term_0_3(x: Seq<int>)
    requires
        is_coeffs(x),
    ensures
        adjoint_entry(x, 0, 3) * conj_seq(x)[3] == (2) * (x[2] * x[3]) + (-12) * (x[2] * x[7]) + (-2) * (x[3] * x[3]) + (1) * (x[3] * x[5]) + (12) * (x[3] * x[7]) + (-6) * (x[5] * x[7]),
{
    lemma_trace_is_neg_last(x);
    assert(conj_seq(x)[3] == 6 * x[7] - x[3]);
    lemma_adjoint_entries_eval_0(x);
    lemma_mul_form2(adjoint_entry(x, 0, 3), conj_seq(x)[3], 6, x[7], -1, x[3]);
    lemma_mul_comm(adjoint_entry(x, 0, 3), x[7]);
    lemma_mul_comm(adjoint_entry(x, 0, 3), x[3]);
    lemma_mul_comm(x[7], x[0]);
    lemma_mul_comm(x[3], x[0]);
    lemma_mul_comm(x[7], x[1]);
    lemma_mul_comm(x[3], x[1]);
    lemma_mul_comm(x[7], x[2]);
    lemma_mul_comm(x[3], x[2]);
    lemma_mul_comm(x[7], x[3]);
    lemma_mul_comm(x[3], x[3]);
    lemma_mul_comm(x[7], x[4]);
    lemma_mul_comm(x[3], x[4]);
    lemma_mul_comm(x[7], x[5]);
    lemma_mul_comm(x[3], x[5]);
    lemma_mul_comm(x[7], x[6]);
    lemma_mul_comm(x[3], x[6]);
    lemma_mul_comm(x[7], x[7]);
    lemma_mul_comm(x[3], x[7]);
    lemma_mul_form8(x[7], adjoint_entry(x, 0, 3), (0), x[0], (0), x[1], (-2), x[2], (2), x[3], (0), x[4], (-1), x[5], (0), x[6], (0), x[7]);
    lemma_mul_form8(x[3], adjoint_entry(x, 0, 3), (0), x[0], (0), x[1], (-2), x[2], (2), x[3], (0), x[4], (-1), x[5], (0), x[6], (0), x[7]);
}

proof fn lemma_cp_right_term_0_4(x: Seq<int>)
    requires
        is_coeffs(x),
    ensures
        adjoint_entry(x, 0, 4) * conj_seq(x)[4] == (-1) * (x[0] * x[4]) + (5) * (x[0] * x[7]) + (2) * (x[3] * x[4]) + (-10) * (x[3] * x[7]) + (-2) * (x[4] * x[4]) + (10) * (x[4] * x[7]),
{
    lemma_trace_is_neg_last(x);
    assert(conj_seq(x)[4] == 5 * x[7] - x[4]);
    lemma_adjoint_entries_eval_0(x);
    lemma_mul_form2(adjoint_entry(x, 0, 4), conj_seq(x)[4], 5, x[7], -1, x[4]);
    lemma_mul_comm(adjoint_entry(x, 0, 4), x[7]);
    lemma_mul_comm(adjoint_entry(x, 0, 4), x[4]);
    lemma_mul_comm(x[7], x[0]);
    lemma_mul_comm(x[4], x[0]);
    lemma_mul_comm(x[7], x[1]);
    lemma_mul_comm(x[4], x[1]);
    lemma_mul_comm(x[7], x[2]);
    lemma_mul_comm(x[4], x[2]);
    lemma_mul_comm(x[7], x[3]);
    lemma_mul_comm(x[4], x[3]);
    lemma_mul_comm(x[7], x[4]);
    lemma_mul_comm(x[4], x[4]);
    lemma_mul_comm(x[7], x[5]);
    lemma_mul_comm(x[4], x[5]);
    lemma_mul_comm(x[7], x[6]);
    lemma_mul_comm(x[4], x[6]);
    lemma_mul_comm(x[7], x[7]);
    lemma_mul_comm(x[4], x[7]);
    lemma_mul_form8(x[7], adjoint_entry(x, 0, 4), (1), x[0], (0), x[1], (0), x[2], (-2), x[3], (2), x[4], (0), x[5], (0), x[6], (0), x[7]);
    lemma_mul_form8(x[4], adjoint_entry(x, 0, 4), (1), x[0], (0), x[1], (0), x[2], (-2), x[3], (2), x[4], (0), x[5], (0), x[6], (0), x[7]);
}

proof fn lemma_cp_right_term_0_5(x: Seq<int>)
    requires
        is_coeffs(x),
    ensures
        adjoint_entry(x, 0, 5) * conj_seq(x)[5] == (-1) * (x[3] * x[5]) + (4) * (x[3] * x[7]) + (2) * (x[4] * x[5]) + (-8) * (x[4] * x[7]) + (-2) * (x[5] * x[5]) + (2) * (x[5] * x[6]) + (7) * (x[5] * x[7]) + (-8) * (x[6] * x[7]) + (4) * (x[7] * x[7]),
{
    lemma_trace_is_neg_last(x);
    assert(conj_seq(x)[5] == 4 * x[7] - x[5]);
    lemma_adjoint_entries_eval_0(x);
    lemma_mul_form2(adjoint_entry(x, 0, 5), conj_seq(x)[5], 4, x[7], -1, x[5]);
    lemma_mul_comm(adjoint_entry(x, 0, 5), x[7]);
    lemma_mul_comm(adjoint_entry(x, 0, 5), x[5]);
    lemma_mul_comm(x[7], x[0]);
    lemma_mul_comm(x[5], x[0]);
    lemma_mul_comm(x[7], x[1]);
    lemma_mul_comm(x[5], x[1]);
    lemma_mul_comm(x[7], x[2]);
    lemma_mul_comm(x[5], x[2]);
    lemma_mul_comm(x[7], x[3]);
    lemma_mul_comm(x[5], x[3]);
    lemma_mul_comm(x[7], x[4]);
    lemma_mul_comm(x[5], x[4]);
    lemma_mul_comm(x[7], x[5]);
    lemma_mul_comm(x[5], x[5]);
    lemma_mul_comm(x[7], x[6]);
    lemma_mul_comm(x[5], x[6]);
    lemma_mul_comm(x[7], x[7]);
    lemma_mul_comm(x[5], x[7]);
    lemma_mul_form8(x[7], adjoint_entry(x, 0, 5), (0), x[0], (0), x[1], (0), x[2], (1), x[3], (-2), x[4], (2), x[5], (-2), x[6], (1), x[7]);
    lemma_mul_form8(x[5], adjoint_entry(x, 0, 5), (0), x[0], (0), x[1], (0), x[2], (1), x[3], (-2), x[4], (2), x[5], (-2), x[6], (1), x[7]);
}

proof fn lemma_cp_right_term_0_6(x: Seq<int>)
    requires
        is_coeffs(x),
    ensures
        adjoint_entry(x, 0, 6) * conj_seq(x)[6] == (1) * (x[0] * x[6]) + (-3) * (x[0] * x[7]) + (-2) * (x[6] * x[6]) + (8) * (x[6] * x[7]) + (-6) * (x[7] * x[7]),
{
    lemma_trace_is_neg_last(x);
    assert(conj_seq(x)[6] == 3 * x[7] - x[6]);
    lemma_adjoint_entries_eval_0(x);
    lemma_mul_form2(adjoint_entry(x, 0, 6), conj_seq(x)[6], 3, x[7], -1, x[6]);
    lemma_mul_comm(adjoint_entry(x, 0, 6), x[7]);
    lemma_mul_comm(adjoint_entry(x, 0, 6), x[6]);
    lemma_mul_comm(x[7], x[0]);
    lemma_mul_comm(x[6], x[0]);
    lemma_mul_comm(x[7], x[1]);
    lemma_mul_comm(x[6], x[1]);
    lemma_mul_comm(x[7], x[2]);
    lemma_mul_comm(x[6], x[2]);
    lemma_mul_comm(x[7], x[3]);
    lemma_mul_comm(x[6], x[3]);
    lemma_mul_comm(x[7], x[4]);
    lemma_mul_comm(x[6], x[4]);
    lemma_mul_comm(x[7], x[5]);
    lemma_mul_comm(x[6], x[5]);
    lemma_mul_comm(x[7], x[6]);
    lemma_mul_comm(x[6], x[6]);
    lemma_mul_comm(x[7], x[7]);
    lemma_mul_comm(x[6], x[7]);
    lemma_mul_form8(x[7], adjoint_entry(x, 0, 6), (-1), x[0], (0), x[1], (0), x[2], (0), x[3], (0), x[4], (0), x[5], (2), x[6], (-2), x[7]);
    lemma_mul_form8(x[6], adjoint_entry(x, 0, 6), (-1), x[0], (0), x[1], (0), x[2], (0), x[3], (0), x[4], (0), x[5], (2), x[6], (-2), x[7]);
}

proof fn lemma_cp_right_term_0_7(x: Seq<int>)
    requires
        is_coeffs(x),
    ensures
        adjoint_entry(x, 0, 7) * conj_seq(x)[7] == (-1) * (x[5] * x[7]) + (2) * (x[7] * x[7]),
{
    lemma_trace_is_neg_last(x);
    assert(conj_seq(x)[7] == 2 * x[7] - x[7]);
    lemma_adjoint_entries_eval_0(x);
    lemma_mul_form2(adjoint_entry(x, 0, 7), conj_seq(x)[7], 2, x[7], -1, x[7]);
    lemma_mul_comm(adjoint_entry(x, 0, 7), x[7]);
    lemma_mul_comm(x[7], x[0]);
    lemma_mul_comm(x[7], x[1]);
    lemma_mul_comm(x[7], x[2]);
    lemma_mul_comm(x[7], x[3]);
    lemma_mul_comm(x[7], x[4]);
    lemma_mul_comm(x[7], x[5]);
    lemma_mul_comm(x[7], x[6]);
    lemma_mul_comm(x[7], x[7]);
    lemma_mul_comm(adjoint_entry(x, 0, 7), x[7]);
    lemma_mul_form8(x[7], adjoint_entry(x, 0, 7), (0), x[0], (0), x[1], (0), x[2], (0), x[3], (0), x[4], (-1), x[5], (0), x[6], (2), x[7]);
    lemma_mul_form8(x[7], adjoint_entry(x, 0, 7), (0), x[0], (0), x[1], (0), x[2], (0), x[3], (0), x[4], (-1), x[5], (0), x[6], (2), x[7]);
}

proof fn lemma_cp_right_term_1_0(x: Seq<int>)
    requires
        is_coeffs(x),
    ensures
        adjoint_entry(x, 1, 0) * conj_seq(x)[0] == (-3) * (x[0] * x[0]) + (-1) * (x[0] * x[1]) + (2) * (x[0] * x[2]) + (1) * (x[0] * x[4]) + (-2) * (x[0] * x[6]) + (7) * (x[0] * x[7]) + (2) * (x[1] * x[7]) + (-4) * (x[2] * x[7]) + (-2) * (x[4] * x[7]) + (4) * (x[6] * x[7]) + (-2) * (x[7] * x[7]),
{
    lemma_trace_is_neg_last(x);
    assert(conj_seq(x)[0] == 2 * x[7] - x[0]);
    lemma_adjoint_entries_eval_1(x);
    lemma_mul_form2(adjoint_entry(x, 1, 0), conj_seq(x)[0], 2, x[7], -1, x[0]);
    lemma_mul_comm(adjoint_entry(x, 1, 0), x[7]);
    lemma_mul_comm(adjoint_entry(x, 1, 0), x[0]);
    lemma_mul_comm(x[7], x[0]);
    lemma_mul_comm(x[0], x[0]);
    lemma_mul_comm(x[7], x[1]);
    lemma_mul_comm(x[0], x[1]);
    lemma_mul_comm(x[7], x[2]);
    lemma_mul_comm(x[0], x[2]);
    lemma_mul_comm(x[7], x[3]);
    lemma_mul_comm(x[0], x[3]);
    lemma_mul_comm(x[7], x[4]);
    lemma_mul_comm(x[0], x[4]);
    lemma_mul_comm(x[7], x[5]);
    lemma_mul_comm(x[0], x[5]);
    lemma_mul_comm(x[7], x[6]);
    lemma_mul_comm(x[0], x[6]);
    lemma_mul_comm(x[7], x[7]);
    lemma_mul_comm(x[0], x[7]);
    lemma_mul_form8(x[7], adjoint_entry(x, 1, 0), (3), x[0], (1), x[1], (-2), x[2], (0), x[3], (-1), x[4], (0), x[5], (2), x[6], (-1), x[7]);
    lemma_mul_form8(x[0], adjoint_entry(x, 1, 0), (3), x[0], (1), x[1], (-2), x[2], (0), x[3], (-1), x[4], (0), x[5], (2), x[6], (-1), x[7]);
}

proof fn lemma_cp_right_term_1_1(x: Seq<int>)
    requires
        is_coeffs(x),
    ensures
        adjoint_entry(x, 1, 1) * conj_seq(x)[1] == (1) * (x[0] * x[1]) + (-3) * (x[0] * x[7]) + (-3) * (x[1] * x[1]) + (-2) * (x[1] * x[2]) + (3) * (x[1] * x[3]) + (-1) * (x[1] * x[4]) + (1) * (x[1] * x[5]) + (-1) * (x[1] * x[6]) + (10) * (x[1] * x[7]) + (6) * (x[2] * x[7]) + (-9) * (x[3] * x[7]) + (3) * (x[4] * x[7]) + (-3) * (x[5] * x[7]) + (3) * (x[6] * x[7]) + (-3) * (x[7] * x[7]),
{
    lemma_trace_is_neg_last(x);
    assert(conj_seq(x)[1] == 3 * x[7] - x[1]);
    lemma_adjoint_entries_eval_1(x);
    lemma_mul_form2(adjoint_entry(x, 1, 1), conj_seq(x)[1], 3, x[7], -1, x[1]);
    lemma_mul_comm(adjoint_entry(x, 1, 1), x[7]);
    lemma_mul_comm(adjoint_entry(x, 1, 1), x[1]);
    lemma_mul_comm(x[7], x[0]);
    lemma_mul_comm(x[1], x[0]);
    lemma_mul_comm(x[7], x[1]);
    lemma_mul_comm(x[1], x[1]);
    lemma_mul_comm(x[7], x[2]);
    lemma_mul_comm(x[1], x[2]);
    lemma_mul_comm(x[7], x[3]);
    lemma_mul_comm(x[1], x[3]);
    lemma_mul_comm(x[7], x[4]);
    lemma_mul_comm(x[1], x[4]);
    lemma_mul_comm(x[7], x[5]);
    lemma_mul_comm(x[1], x[5]);
    lemma_mul_comm(x[7], x[6]);
    lemma_mul_comm(x[1], x[6]);
    lemma_mul_comm(x[7], x[7]);
    lemma_mul_comm(x[1], x[7]);
    lemma_mul_form8(x[7], adjoint_entry(x, 1, 1), (-1), x[0], (3), x[1], (2), x[2], (-3), x[3], (1), x[4], (-1), x[5], (1), x[6], (-1), x[7]);
    lemma_mul_form8(x[1], adjoint_entry(x, 1, 1), (-1), x[0], (3), x[1], (2), x[2], (-3), x[3], (1), x[4], (-1), x[5], (1), x[6], (-1), x[7]);
}

proof fn lemma_cp_right_term_1_2(x: Seq<int>)
    requires
        is_coeffs(x),
    ensures
        adjoint_entry(x, 1, 2) * conj_seq(x)[2] == (1) * (x[0] * x[2]) + (-4) * (x[0] * x[7]) + (2) * (x[1] * x[2]) + (-8) * (x[1] * x[7]) + (-3) * (x[2] * x[2]) + (1) * (x[2] * x[5]) + (12) * (x[2] * x[7]) + (-4) * (x[5] * x[7]),
{
    lemma_trace_is_neg_last(x);
    assert(conj_seq(x)[2] == 4 * x[7] - x[2]);
    lemma_adjoint_entries_eval_1(x);
    lemma_mul_form2(adjoint_entry(x, 1, 2), conj_seq(x)[2], 4, x[7], -1, x[2]);
    lemma_mul_comm(adjoint_entry(x, 1, 2), x[7]);
    lemma_mul_comm(adjoint_entry(x, 1, 2), x[2]);
    lemma_mul_comm(x[7], x[0]);
    lemma_mul_comm(x[2], x[0]);
    lemma_mul_comm(x[7], x[1]);
    lemma_mul_comm(x[2], x[1]);
    lemma_mul_comm(x[7], x[2]);
    lemma_mul_comm(x[2], x[2]);
    lemma_mul_comm(x[7], x[3]);
    lemma_mul_comm(x[2], x[3]);
    lemma_mul_comm(x[7], x[4]);
    lemma_mul_comm(x[2], x[4]);
    lemma_mul_comm(x[7], x[5]);
    lemma_mul_comm(x[2], x[5]);
    lemma_mul_comm(x[7], x[6]);
    lemma_mul_comm(x[2], x[6]);
    lemma_mul_comm(x[7], x[7]);
    lemma_mul_comm(x[2], x[7]);
    lemma_mul_form8(x[7], adjoint_entry(x, 1, 2), (-1), x[0], (-2), x[1], (3), x[2], (0), x[3], (0), x[4], (-1), x[5], (0), x[6], (0), x[7]);
    lemma_mul_form8(x[2], adjoint_entry(x, 1, 2), (-1), x[0], (-2), x[1], (3), x[2], (0), x[3], (0), x[4], (-1), x[5], (0), x[6], (0), x[7]);
}

proof fn lemma_cp_right_term_1_3(x: Seq<int>)
    requires
        is_coeffs(x),
    ensures
        adjoint_entry(x, 1, 3) * conj_seq(x)[3] == (3) * (x[2] * x[3]) + (-18) * (x[2] * x[7]) + (-3) * (x[3] * x[3]) + (1) * (x[3] * x[4]) + (1) * (x[3] * x[6]) + (17) * (x[3] * x[7]) + (-6) * (x[4] * x[7]) + (-6) * (x[6] * x[7]) + (6) * (x[7] * x[7]),
{
    lemma_trace_is_neg_last(x);
    assert(conj_seq(x)[3] == 6 * x[7] - x[3]);
    lemma_adjoint_entries_eval_1(x);
    lemma_mul_form2(adjoint_entry(x, 1, 3), conj_seq(x)[3], 6, x[7], -1, x[3]);
    lemma_mul_comm(adjoint_entry(x, 1, 3), x[7]);
    lemma_mul_comm(adjoint_entry(x, 1, 3), x[3]);
    lemma_mul_comm(x[7], x[0]);
    lemma_mul_comm(x[3], x[0]);
    lemma_mul_comm(x[7], x[1]);
    lemma_mul_comm(x[3], x[1]);
    lemma_mul_comm(x[7], x[2]);
    lemma_mul_comm(x[3], x[2]);
    lemma_mul_comm(x[7], x[3]);
    lemma_mul_comm(x[3], x[3]);
    lemma_mul_comm(x[7], x[4]);
    lemma_mul_comm(x[3], x[4]);
    lemma_mul_comm(x[7], x[5]);
    lemma_mul_comm(x[3], x[5]);
    lemma_mul_comm(x[7], x[6]);
    lemma_mul_comm(x[3], x[6]);
    lemma_mul_comm(x[7], x[7]);
    lemma_mul_comm(x[3], x[7]);
    lemma_mul_form8(x[7], adjoint_entry(x, 1, 3), (0), x[0], (0), x[1], (-3), x[2], (3), x[3], (-1), x[4], (0), x[5], (-1), x[6], (1), x[7]);
    lemma_mul_form8(x[3], adjoint_entry(x, 1, 3), (0), x[0], (0), x[1], (-3), x[2], (3), x[3], (-1), x[4], (0), x[5], (-1), x[6], (1), x[7]);
}

proof fn lemma_cp_right_term_1_4(x: Seq<int>)
    requires
        is_coeffs(x),
    ensures
        adjoint_entry(x, 1, 4) * conj_seq(x)[4] == (-1) * (x[0] * x[4]) + (5) * (x[0] * x[7]) + (1) * (x[1] * x[4]) + (-5) * (x[1] * x[7]) + (2) * (x[3] * x[4]) + (-10) * (x[3] * x[7]) + (-3) * (x[4] * x[4]) + (16) * (x[4] * x[7]) + (-5) * (x[7] * x[7]),
{
    lemma_trace_is_neg_last(x);
    assert(conj_seq(x)[4] == 5 * x[7] - x[4]);
    lemma_adjoint_entries_eval_1(x);
    lemma_mul_form2(adjoint_entry(x, 1, 4), conj_seq(x)[4], 5, x[7], -1, x[4]);
    lemma_mul_comm(adjoint_entry(x, 1, 4), x[7]);
    lemma_mul_comm(adjoint_entry(x, 1, 4), x[4]);
    lemma_mul_comm(x[7], x[0]);
    lemma_mul_comm(x[4], x[0]);
    lemma_mul_comm(x[7], x[1]);
    lemma_mul_comm(x[4], x[1]);
    lemma_mul_comm(x[7], x[2]);
    lemma_mul_comm(x[4], x[2]);
    lemma_mul_comm(x[7], x[3]);
    lemma_mul_comm(x[4], x[3]);
    lemma_mul_comm(x[7], x[4]);
    lemma_mul_comm(x[4], x[4]);
    lemma_mul_comm(x[7], x[5]);
    lemma_mul_comm(x[4], x[5]);
    lemma_mul_comm(x[7], x[6]);
    lemma_mul_comm(x[4], x[6]);
    lemma_mul_comm(x[7], x[7]);
    lemma_mul_comm(x[4], x[7]);
    lemma_mul_form8(x[7], adjoint_entry(x, 1, 4), (1), x[0], (-1), x[1], (0), x[2], (-2), x[3], (3), x[4], (0), x[5], (0), x[6], (-1), x[7]);
    lemma_mul_form8(x[4], adjoint_entry(x, 1, 4), (1), x[0], (-1), x[1], (0), x[2], (-2), x[3], (3), x[4], (0), x[5], (0), x[6], (-1), x[7]);
}

proof fn lemma_cp_right_term_1_5(x: Seq<int>)
    requires
        is_coeffs(x),
    ensures
        adjoint_entry(x, 1, 5) * conj_seq(x)[5] == (-1) * (x[1] * x[5]) + (4) * (x[1] * x[7]) + (-1) * (x[2] * x[5]) + (4) * (x[2] * x[7]) + (3) * (x[4] * x[5]) + (-12) * (x[4] * x[7]) + (-3) * (x[5] * x[5]) + (2) * (x[5] * x[6]) + (11) * (x[5] * x[7]) + (-8) * (x[6] * x[7]) + (4) * (x[7] * x[7]),
{
    lemma_trace_is_neg_last(x);
    assert(conj_seq(x)[5] == 4 * x[7] - x[5]);
    lemma_adjoint_entries_eval_1(x);
    lemma_mul_form2(adjoint_entry(x, 1, 5), conj_seq(x)[5], 4, x[7], -1, x[5]);
    lemma_mul_comm(adjoint_entry(x, 1, 5), x[7]);
    lemma_mul_comm(adjoint_entry(x, 1, 5), x[5]);
    lemma_mul_comm(x[7], x[0]);
    lemma_mul_comm(x[5], x[0]);
    lemma_mul_comm(x[7], x[1]);
    lemma_mul_comm(x[5], x[1]);
    lemma_mul_comm(x[7], x[2]);
    lemma_mul_comm(x[5], x[2]);
    lemma_mul_comm(x[7], x[3]);
    lemma_mul_comm(x[5], x[3]);
    lemma_mul_comm(x[7], x[4]);
    lemma_mul_comm(x[5], x[4]);
    lemma_mul_comm(x[7], x[5]);
    lemma_mul_comm(x[5], x[5]);
    lemma_mul_comm(x[7], x[6]);
    lemma_mul_comm(x[5], x[6]);
    lemma_mul_comm(x[7], x[7]);
    lemma_mul_comm(x[5], x[7]);
    lemma_mul_form8(x[7], adjoint_entry(x, 1, 5), (0), x[0], (1), x[1], (1), x[2], (0), x[3], (-3), x[4], (3), x[5], (-2), x[6], (1), x[7]);
    lemma_mul_form8(x[5], adjoint_entry(x, 1, 5), (0), x[0], (1), x[1], (1), x[2], (0), x[3], (-3), x[4], (3), x[5], (-2), x[6], (1), x[7]);
}

proof fn lemma_cp_right_term_1_6(x: Seq<int>)
    requires
        is_coeffs(x),
    ensures
        adjoint_entry(x, 1, 6) * conj_seq(x)[6] == (2) * (x[0] * x[6]) + (-6) * (x[0] * x[7]) + (1) * (x[1] * x[6]) + (-3) * (x[1] * x[7]) + (-1) * (x[3] * x[6]) + (3) * (x[3] * x[7]) + (1) * (x[5] * x[6]) + (-3) * (x[5] * x[7]) + (-3) * (x[6] * x[6]) + (11) * (x[6] * x[7]) + (-6) * (x[7] * x[7]),
{
    lemma_trace_is_neg_last(x);
    assert(conj_seq(x)[6] == 3 * x[7] - x[6]);
    lemma_adjoint_entries_eval_1(x);
    lemma_mul_form2(adjoint_entry(x, 1, 6), conj_seq(x)[6], 3, x[7], -1, x[6]);
    lemma_mul_comm(adjoint_entry(x, 1, 6), x[7]);
    lemma_mul_comm(adjoint_entry(x, 1, 6), x[6]);
    lemma_mul_comm(x[7], x[0]);
    lemma_mul_comm(x[6], x[0]);
    lemma_mul_comm(x[7], x[1]);
    lemma_mul_comm(x[6], x[1]);
    lemma_mul_comm(x[7], x[2]);
    lemma_mul_comm(x[6], x[2]);
    lemma_mul_comm(x[7], x[3]);
    lemma_mul_comm(x[6], x[3]);
    lemma_mul_comm(x[7], x[4]);
    lemma_mul_comm(x[6], x[4]);
    lemma_mul_comm(x[7], x[5]);
    lemma_mul_comm(x[6], x[5]);
    lemma_mul_comm(x[7], x[6]);
    lemma_mul_comm(x[6], x[6]);
    lemma_mul_comm(x[7], x[7]);
    lemma_mul_comm(x[6], x[7]);
    lemma_mul_form8(x[7], adjoint_entry(x, 1, 6), (-2), x[0], (-1), x[1], (0), x[2], (1), x[3], (0), x[4], (-1), x[5], (3), x[6], (-2), x[7]);
    lemma_mul_form8(x[6], adjoint_entry(x, 1, 6), (-2), x[0], (-1), x[1], (0), x[2], (1), x[3], (0), x[4], (-1), x[5], (3), x[6], (-2), x[7]);
}

proof fn lemma_cp_right_term_1_7(x: Seq<int>)
    requires
        is_coeffs(x),
    ensures
        adjoint_entry(x, 1, 7) * conj_seq(x)[7] == (1) * (x[0] * x[7]) + (-1) * (x[3] * x[7]) + (1) * (x[4] * x[7]) + (-1) * (x[5] * x[7]) + (-1) * (x[6] * x[7]) + (3) * (x[7] * x[7]),
{
    lemma_trace_is_neg_last(x);
    assert(conj_seq(x)[7] == 2 * x[7] - x[7]);
    lemma_adjoint_entries_eval_1(x);
    lemma_mul_form2(adjoint_entry(x, 1, 7), conj_seq(x)[7], 2, x[7], -1, x[7]);
    lemma_mul_comm(adjoint_entry(x, 1, 7), x[7]);
    lemma_mul_comm(x[7], x[0]);
    lemma_mul_comm(x[7], x[1]);
    lemma_mul_comm(x[7], x[2]);
    lemma_mul_comm(x[7], x[3]);
    lemma_mul_comm(x[7], x[4]);
    lemma_mul_comm(x[7], x[5]);
    lemma_mul_comm(x[7], x[6]);
    lemma_mul_comm(x[7], x[7]);
    lemma_mul_comm(adjoint_entry(x, 1, 7), x[7]);
    lemma_mul_form8(x[7], adjoint_entry(x, 1, 7), (1), x[0], (0), x[1], (0), x[2], (-1), x[3], (1), x[4], (-1), x[5], (-1), x[6], (3), x[7]);
    lemma_mul_form8(x[7], adjoint_entry(x, 1, 7), (1), x[0], (0), x[1], (0), x[2], (-1), x[3], (1), x[4], (-1), x[5], (-1), x[6], (3), x[7]);
}

proof fn lemma_cp_right_term_2_0(x: Seq<int>)
    requires
        is_coeffs(x),
    ensures
        adjoint_entry(x, 2, 0) * conj_seq(x)[0] == (-4) * (x[0] * x[0]) + (-2) * (x[0] * x[1]) + (2) * (x[0] * x[2]) + (2) * (x[0] * x[4]) + (-2) * (x[0] * x[6]) + (9) * (x[0] * x[7]) + (4) * (x[1] * x[7]) + (-4) * (x[2] * x[7]) + (-4) * (x[4] * x[7]) + (4) * (x[6] * x[7]) + (-2) * (x[7] * x[7]),
{
    lemma_trace_is_neg_last(x);
    assert(conj_seq(x)[0] == 2 * x[7] - x[0]);
    lemma_adjoint_entries_eval_2(x);
    lemma_mul_form2(adjoint_entry(x, 2, 0), conj_seq(x)[0], 2, x[7], -1, x[0]);
    lemma_mul_comm(adjoint_entry(x, 2, 0), x[7]);
    lemma_mul_comm(adjoint_entry(x, 2, 0), x[0]);
    lemma_mul_comm(x[7], x[0]);
    lemma_mul_comm(x[0], x[0]);
    lemma_mul_comm(x[7], x[1]);
    lemma_mul_comm(x[0], x[1]);
    lemma_mul_comm(x[7], x[2]);
    lemma_mul_comm(x[0], x[2]);
    lemma_mul_comm(x[7], x[3]);
    lemma_mul_comm(x[0], x[3]);
    lemma_mul_comm(x[7], x[4]);
    lemma_mul_comm(x[0], x[4]);
    lemma_mul_comm(x[7], x[5]);
    lemma_mul_comm(x[0], x[5]);
    lemma_mul_comm(x[7], x[6]);
    lemma_mul_comm(x[0], x[6]);
    lemma_mul_comm(x[7], x[7]);
    lemma_mul_comm(x[0], x[7]);
    lemma_mul_form8(x[7], adjoint_entry(x, 2, 0), (4), x[0], (2), x[1], (-2), x[2], (0), x[3], (-2), x[4], (0), x[5], (2), x[6], (-1), x[7]);
    lemma_mul_form8(x[0], adjoint_entry(x, 2, 0), (4), x[0], (2), x[1], (-2), x[2], (0), x[3], (-2), x[4], (0), x[5], (2), x[6], (-1), x[7]);
}

proof fn lemma_cp_right_term_2_1(x: Seq<int>)
    requires
        is_coeffs(x),
    ensures
        adjoint_entry(x, 2, 1) * conj_seq(x)[1] == (2) * (x[0] * x[1]) + (-6) * (x[0] * x[7]) + (-4) * (x[1] * x[1]) + (-3) * (x[1] * x[2]) + (4) * (x[1] * x[3]) + (-1) * (x[1] * x[4]) + (1) * (x[1] * x[5]) + (-1) * (x[1] * x[6]) + (12) * (x[1] * x[7]) + (9) * (x[2] * x[7]) + (-12) * (x[3] * x[7]) + (3) * (x[4] * x[7]) + (-3) * (x[5] * x[7]) + (3) * (x[6] * x[7]),
{
    lemma_trace_is_neg_last(x);
    assert(conj_seq(x)[1] == 3 * x[7] - x[1]);
    lemma_adjoint_entries_eval_2(x);
    lemma_mul_form2(adjoint_entry(x, 2, 1), conj_seq(x)[1], 3, x[7], -1, x[1]);
    lemma_mul_comm(adjoint_entry(x, 2, 1), x[7]);
    lemma_mul_comm(adjoint_entry(x, 2, 1), x[1]);
    lemma_mul_comm(x[7], x[0]);
    lemma_mul_comm(x[1], x[0]);
    lemma_mul_comm(x[7], x[1]);
    lemma_mul_comm(x[1], x[1]);
    lemma_mul_comm(x[7], x[2]);
    lemma_mul_comm(x[1], x[2]);
    lemma_mul_comm(x[7], x[3]);
    lemma_mul_comm(x[1], x[3]);
    lemma_mul_comm(x[7], x[4]);
    lemma_mul_comm(x[1], x[4]);
    lemma_mul_comm(x[7], x[5]);
    lemma_mul_comm(x[1], x[5]);
    lemma_mul_comm(x[7], x[6]);
    lemma_mul_comm(x[1], x[6]);
    lemma_mul_comm(x[7], x[7]);
    lemma_mul_comm(x[1], x[7]);
    lemma_mul_form8(x[7], adjoint_entry(x, 2, 1), (-2), x[0], (4), x[1], (3), x[2], (-4), x[3], (1), x[4], (-1), x[5], (1), x[6], (0), x[7]);
    lemma_mul_form8(x[1], adjoint_entry(x, 2, 1), (-2), x[0], (4), x[1], (3), x[2], (-4), x[3], (1), x[4], (-1), x[5], (1), x[6], (0), x[7]);
}

proof fn lemma_cp_right_term_2_2(x: Seq<int>)
    requires
        is_coeffs(x),
    ensures
        adjoint_entry(x, 2, 2) * conj_seq(x)[2] == (2) * (x[0] * x[2]) + (-8) * (x[0] * x[7]) + (3) * (x[1] * x[2]) + (-12) * (x[1] * x[7]) + (-4) * (x[2] * x[2]) + (1) * (x[2] * x[5]) + (16) * (x[2] * x[7]) + (-4) * (x[5] * x[7]),
{
    lemma_trace_is_neg_last(x);
    assert(conj_seq(x)[2] == 4 * x[7] - x[2]);
    lemma_adjoint_entries_eval_2(x);
    lemma_mul_form2(adjoint_entry(x, 2, 2), conj_seq(x)[2], 4, x[7], -1, x[2]);
    lemma_mul_comm(adjoint_entry(x, 2, 2), x[7]);
    lemma_mul_comm(adjoint_entry(x, 2, 2), x[2]);
    lemma_mul_comm(x[7], x[0]);
    lemma_mul_comm(x[2], x[0]);
    lemma_mul_comm(x[7], x[1]);
    lemma_mul_comm(x[2], x[1]);
    lemma_mul_comm(x[7], x[2]);
    lemma_mul_comm(x[2], x[2]);
    lemma_mul_comm(x[7], x[3]);
    lemma_mul_comm(x[2], x[3]);
    lemma_mul_comm(x[7], x[4]);
    lemma_mul_comm(x[2], x[4]);
    lemma_mul_comm(x[7], x[5]);
    lemma_mul_comm(x[2], x[5]);
    lemma_mul_comm(x[7], x[6]);
    lemma_mul_comm(x[2], x[6]);
    lemma_mul_comm(x[7], x[7]);
    lemma_mul_comm(x[2], x[7]);
    lemma_mul_form8(x[7], adjoint_entry(x, 2, 2), (-2), x[0], (-3), x[1], (4), x[2], (0), x[3], (0), x[4], (-1), x[5], (0), x[6], (0), x[7]);
    lemma_mul_form8(x[2], adjoint_entry(x, 2, 2), (-2), x[0], (-3), x[1], (4), x[2], (0), x[3], (0), x[4], (-1), x[5], (0), x[6], (0), x[7]);
}

proof fn lemma_cp_right_term_2_3(x: Seq<int>)
    requires
        is_coeffs(x),
    ensures
        adjoint_entry(x, 2, 3) * conj_seq(x)[3] == (4) * (x[2] * x[3]) + (-24) * (x[2] * x[7]) + (-4) * (x[3] * x[3]) + (1) * (x[3] * x[4]) + (1) * (x[3] * x[6]) + (24) * (x[3] * x[7]) + (-6) * (x[4] * x[7]) + (-6) * (x[6] * x[7]),
{
    lemma_trace_is_neg_last(x);
    assert(conj_seq(x)[3] == 6 * x[7] - x[3]);
    lemma_adjoint_entries_eval_2(x);
    lemma_mul_form2(adjoint_entry(x, 2, 3), conj_seq(x)[3], 6, x[7], -1, x[3]);
    lemma_mul_comm(adjoint_entry(x, 2, 3), x[7]);
    lemma_mul_comm(adjoint_entry(x, 2, 3), x[3]);
    lemma_mul_comm(x[7], x[0]);
    lemma_mul_comm(x[3], x[0]);
    lemma_mul_comm(x[7], x[1]);
    lemma_mul_comm(x[3], x[1]);
    lemma_mul_comm(x[7], x[2]);
    lemma_mul_comm(x[3], x[2]);
    lemma_mul_comm(x[7], x[3]);
    lemma_mul_comm(x[3], x[3]);
    lemma_mul_comm(x[7], x[4]);
    lemma_mul_comm(x[3], x[4]);
    lemma_mul_comm(x[7], x[5]);
    lemma_mul_comm(x[3], x[5]);
    lemma_mul_comm(x[7], x[6]);
    lemma_mul_comm(x[3], x[6]);
    lemma_mul_comm(x[7], x[7]);
    lemma_mul_comm(x[3], x[7]);
    lemma_mul_form8(x[7], adjoint_entry(x, 2, 3), (0), x[0], (0), x[1], (-4), x[2], (4), x[3], (-1), x[4], (0), x[5], (-1), x[6], (0), x[7]);
    lemma_mul_form8(x[3], adjoint_entry(x, 2, 3), (0), x[0], (0), x[1], (-4), x[2], (4), x[3], (-1), x[4], (0), x[5], (-1), x[6], (0), x[7]);
}

proof fn lemma_cp_right_term_2_4(x: Seq<int>)
    requires
        is_coeffs(x),
    ensures
        adjoint_entry(x, 2, 4) * conj_seq(x)[4] == (-2) * (x[0] * x[4]) + (10) * (x[0] * x[7]) + (1) * (x[1] * x[4]) + (-5) * (x[1] * x[7]) + (3) * (x[3] * x[4]) + (-15) * (x[3] * x[7]) + (-4) * (x[4] * x[4]) + (1) * (x[4] * x[5]) + (-1) * (x[4] * x[6]) + (21) * (x[4] * x[7]) + (-5) * (x[5] * x[7]) + (5) * (x[6] * x[7]) + (-5) * (x[7] * x[7]),
{
    lemma_trace_is_neg_last(x);
    assert(conj_seq(x)[4] == 5 * x[7] - x[4]);
    lemma_adjoint_entries_eval_2(x);
    lemma_mul_form2(adjoint_entry(x, 2, 4), conj_seq(x)[4], 5, x[7], -1, x[4]);
    lemma_mul_comm(adjoint_entry(x, 2, 4), x[7]);
    lemma_mul_comm(adjoint_entry(x, 2, 4), x[4]);
    lemma_mul_comm(x[7], x[0]);
    lemma_mul_comm(x[4], x[0]);
    lemma_mul_comm(x[7], x[1]);
    lemma_mul_comm(x[4], x[1]);
    lemma_mul_comm(x[7], x[2]);
    lemma_mul_comm(x[4], x[2]);
    lemma_mul_comm(x[7], x[3]);
    lemma_mul_comm(x[4], x[3]);
    lemma_mul_comm(x[7], x[4]);
    lemma_mul_comm(x[4], x[4]);
    lemma_mul_comm(x[7], x[5]);
    lemma_mul_comm(x[4], x[5]);
    lemma_mul_comm(x[7], x[6]);
    lemma_mul_comm(x[4], x[6]);
    lemma_mul_comm(x[7], x[7]);
    lemma_mul_comm(x[4], x[7]);
    lemma_mul_form8(x[7], adjoint_entry(x, 2, 4), (2), x[0], (-1), x[1], (0), x[2], (-3), x[3], (4), x[4], (-1), x[5], (1), x[6], (-1), x[7]);
    lemma_mul_form8(x[4], adjoint_entry(x, 2, 4), (2), x[0], (-1), x[1], (0), x[2], (-3), x[3], (4), x[4], (-1), x[5], (1), x[6], (-1), x[7]);
}

proof fn lemma_cp_right_term_2_5(x: Seq<int>)
    requires
        is_coeffs(x),
    ensures
        adjoint_entry(x, 2, 5) * conj_seq(x)[5] == (-1) * (x[1] * x[5]) + (4) * (x[1] * x[7]) + (-1) * (x[2] * x[5]) + (4) * (x[2] * x[7]) + (3) * (x[4] * x[5]) + (-12) * (x[4] * x[7]) + (-4) * (x[5] * x[5]) + (4) * (x[5] * x[6]) + (14) * (x[5] * x[7]) + (-16) * (x[6] * x[7]) + (8) * (x[7] * x[7]),
{
    lemma_trace_is_neg_last(x);
    assert(conj_seq(x)[5] == 4 * x[7] - x[5]);
    lemma_adjoint_entries_eval_2(x);
    lemma_mul_form2(adjoint_entry(x, 2, 5), conj_seq(x)[5], 4, x[7], -1, x[5]);
    lemma_mul_comm(adjoint_entry(x, 2, 5), x[7]);
    lemma_mul_comm(adjoint_entry(x, 2, 5), x[5]);
    lemma_mul_comm(x[7], x[0]);
    lemma_mul_comm(x[5], x[0]);
    lemma_mul_comm(x[7], x[1]);
    lemma_mul_comm(x[5], x[1]);
    lemma_mul_comm(x[7], x[2]);
    lemma_mul_comm(x[5], x[2]);
    lemma_mul_comm(x[7], x[3]);
    lemma_mul_comm(x[5], x[3]);
    lemma_mul_comm(x[7], x[4]);
    lemma_mul_comm(x[5], x[4]);
    lemma_mul_comm(x[7], x[5]);
    lemma_mul_comm(x[5], x[5]);
    lemma_mul_comm(x[7], x[6]);
    lemma_mul_comm(x[5], x[6]);
    lemma_mul_comm(x[7], x[7]);
    lemma_mul_comm(x[5], x[7]);
    lemma_mul_form8(x[7], adjoint_entry(x, 2, 5), (0), x[0], (1), x[1], (1), x[2], (0), x[3], (-3), x[4], (4), x[5], (-4), x[6], (2), x[7]);
    lemma_mul_form8(x[5], adjoint_entry(x, 2, 5), (0), x[0], (1), x[1], (1), x[2], (0), x[3], (-3), x[4], (4), x[5], (-4), x[6], (2), x[7]);
}

#[verifier::rlimit(100)]
proof fn lemma_cp_right_term_2_6(x: Seq<int>)
    requires
        is_coeffs(x),
    ensures
        adjoint_entry(x, 2, 6) * conj_seq(x)[6] == (2) * (x[0] * x[6]) + (-6) * (x[0] * x[7]) + (1) * (x[1] * x[6]) + (-3) * (x[1] * x[7]) + (-1) * (x[3] * x[6]) + (3) * (x[3] * x[7]) + (1) * (x[4] * x[6]) + (-3) * (x[4] * x[7]) + (-4) * (x[6] * x[6]) + (15) * (x[6] * x[7]) + (-9) * (x[7] * x[7]),
{
    lemma_trace_is_neg_last(x);
    assert(conj_seq(x)[6] == 3 * x[7] - x[6]);
    lemma_adjoint_entries_eval_2(x);
    assert(adjoint_entry(x, 2, 6) * conj_seq(x)[6] == (2) * (x[0] * x[6]) + (-6) * (x[0] * x[7]) + (1) * (x[1] * x[6]) + (-3) * (x[1] * x[7]) + (-1) * (x[3] * x[6]) + (3) * (x[3] * x[7]) + (1) * (x[4] * x[6]) + (-3) * (x[4] * x[7]) + (-4) * (x[6] * x[6]) + (15) * (x[6] * x[7]) + (-9) * (x[7] * x[7])) by (nonlinear_arith)
        requires
            adjoint_entry(x, 2, 6) == (-2) * x[0] + (-1) * x[1] + (0) * x[2] + (1) * x[3] + (-1) * x[4] + (0) * x[5] + (4) * x[6] + (-3) * x[7],
            conj_seq(x)[6] == 3 * x[7] - x[6];
}

proof fn lemma_cp_right_term_2_7(x: Seq<int>)
    requires
        is_coeffs(x),
    ensures
        adjoint_entry(x, 2, 7) * conj_seq(x)[7] == (1) * (x[0] * x[7]) + (-1) * (x[2] * x[7]) + (1) * (x[4] * x[7]) + (-2) * (x[5] * x[7]) + (-1) * (x[6] * x[7]) + (4) * (x[7] * x[7]),
{
    lemma_trace_is_neg_last(x);
    assert(conj_seq(x)[7] == 2 * x[7] - x[7]);
    lemma_adjoint_entries_eval_2(x);
    lemma_mul_form2(adjoint_entry(x, 2, 7), conj_seq(x)[7], 2, x[7], -1, x[7]);
    lemma_mul_comm(adjoint_entry(x, 2, 7), x[7]);
    lemma_mul_comm(x[7], x[0]);
    lemma_mul_comm(x[7], x[1]);
    lemma_mul_comm(x[7], x[2]);
    lemma_mul_comm(x[7], x[3]);
    lemma_mul_comm(x[7], x[4]);
    lemma_mul_comm(x[7], x[5]);
    lemma_mul_comm(x[7], x[6]);
    lemma_mul_comm(x[7], x[7]);
    lemma_mul_comm(adjoint_entry(x, 2, 7), x[7]);
    lemma_mul_form8(x[7], adjoint_entry(x, 2, 7), (1), x[0], (0), x[1], (-1), x[2], (0), x[3], (1), x[4], (-2), x[5], (-1), x[6], (4), x[7]);
    lemma_mul_form8(x[7], adjoint_entry(x, 2, 7), (1), x[0], (0), x[1], (-1), x[2], (0), x[3], (1), x[4], (-2), x[5], (-1), x[6], (4), x[7]);
}

proof fn lemma_cp_right_term_3_0(x: Seq<int>)
    requires
        is_coeffs(x),
    ensures
        adjoint_entry(x, 3, 0) * conj_seq(x)[0] == (-6) * (x[0] * x[0]) + (-2) * (x[0] * x[1]) + (3) * (x[0] * x[2]) + (3) * (x[0] * x[4]) + (-1) * (x[0] * x[5]) + (-3) * (x[0] * x[6]) + (14) * (x[0] * x[7]) + (4) * (x[1] * x[7]) + (-6) * (x[2] * x[7]) + (-6) * (x[4] * x[7]) + (2) * (x[5] * x[7]) + (6) * (x[6] * x[7]) + (-4) * (x[7] * x[7]),
{
    lemma_trace_is_neg_last(x);
    assert(conj_seq(x)[0] == 2 * x[7] - x[0]);
    lemma_adjoint_entries_eval_3(x);
    lemma_mul_form2(adjoint_entry(x, 3, 0), conj_seq(x)[0], 2, x[7], -1, x[0]);
    lemma_mul_comm(adjoint_entry(x, 3, 0), x[7]);
    lemma_mul_comm(adjoint_entry(x, 3, 0), x[0]);
    lemma_mul_comm(x[7], x[0]);
    lemma_mul_comm(x[0], x[0]);
    lemma_mul_comm(x[7], x[1]);
    lemma_mul_comm(x[0], x[1]);
    lemma_mul_comm(x[7], x[2]);
    lemma_mul_comm(x[0], x[2]);
    lemma_mul_comm(x[7], x[3]);
    lemma_mul_comm(x[0], x[3]);
    lemma_mul_comm(x[7], x[4]);
    lemma_mul_comm(x[0], x[4]);
    lemma_mul_comm(x[7], x[5]);
    lemma_mul_comm(x[0], x[5]);
    lemma_mul_comm(x[7], x[6]);
    lemma_mul_comm(x[0], x[6]);
    lemma_mul_comm(x[7], x[7]);
    lemma_mul_comm(x[0], x[7]);
    lemma_mul_form8(x[7], adjoint_entry(x, 3, 0), (6), x[0], (2), x[1], (-3), x[2], (0), x[3], (-3), x[4], (1), x[5], (3), x[6], (-2), x[7]);
    lemma_mul_form8(x[0], adjoint_entry(x, 3, 0), (6), x[0], (2), x[1], (-3), x[2], (0), x[3], (-3), x[4], (1), x[5], (3), x[6], (-2), x[7]);
}

proof fn lemma_cp_right_term_3_1(x: Seq<int>)
    requires
        is_coeffs(x),
    ensures
        adjoint_entry(x, 3, 1) * conj_seq(x)[1] == (2) * (x[0] * x[1]) + (-6) * (x[0] * x[7]) + (-6) * (x[1] * x[1]) + (-4) * (x[1] * x[2]) + (6) * (x[1] * x[3]) + (-2) * (x[1] * x[4]) + (2) * (x[1] * x[5]) + (-2) * (x[1] * x[6]) + (19) * (x[1] * x[7]) + (12) * (x[2] * x[7]) + (-18) * (x[3] * x[7]) + (6) * (x[4] * x[7]) + (-6) * (x[5] * x[7]) + (6) * (x[6] * x[7]) + (-3) * (x[7] * x[7]),
{
    lemma_trace_is_neg_last(x);
    assert(conj_seq(x)[1] == 3 * x[7] - x[1]);
    lemma_adjoint_entries_eval_3(x);
    lemma_mul_form2(adjoint_entry(x, 3, 1), conj_seq(x)[1], 3, x[7], -1, x[1]);
    lemma_mul_comm(adjoint_entry(x, 3, 1), x[7]);
    lemma_mul_comm(adjoint_entry(x, 3, 1), x[1]);
    lemma_mul_comm(x[7], x[0]);
    lemma_mul_comm(x[1], x[0]);
    lemma_mul_comm(x[7], x[1]);
    lemma_mul_comm(x[1], x[1]);
    lemma_mul_comm(x[7], x[2]);
    lemma_mul_comm(x[1], x[2]);
    lemma_mul_comm(x[7], x[3]);
    lemma_mul_comm(x[1], x[3]);
    lemma_mul_comm(x[7], x[4]);
    lemma_mul_comm(x[1], x[4]);
    lemma_mul_comm(x[7], x[5]);
    lemma_mul_comm(x[1], x[5]);
    lemma_mul_comm(x[7], x[6]);
    lemma_mul_comm(x[1], x[6]);
    lemma_mul_comm(x[7], x[7]);
    lemma_mul_comm(x[1], x[7]);
    lemma_mul_form8(x[7], adjoint_entry(x, 3, 1), (-2), x[0], (6), x[1], (4), x[2], (-6), x[3], (2), x[4], (-2), x[5], (2), x[6], (-1), x[7]);
    lemma_mul_form8(x[1], adjoint_entry(x, 3, 1), (-2), x[0], (6), x[1], (4), x[2], (-6), x[3], (2), x[4], (-2), x[5], (2), x[6], (-1), x[7]);
}

proof fn lemma_cp_right_term_3_2(x: Seq<int>)
    requires
        is_coeffs(x),
    ensures
        adjoint_entry(x, 3, 2) * conj_seq(x)[2] == (3) * (x[0] * x[2]) + (-12) * (x[0] * x[7]) + (4) * (x[1] * x[2]) + (-16) * (x[1] * x[7]) + (-6) * (x[2] * x[2]) + (2) * (x[2] * x[5]) + (23) * (x[2] * x[7]) + (-8) * (x[5] * x[7]) + (4) * (x[7] * x[7]),
{
    lemma_trace_is_neg_last(x);
    assert(conj_seq(x)[2] == 4 * x[7] - x[2]);
    lemma_adjoint_entries_eval_3(x);
    lemma_mul_form2(adjoint_entry(x, 3, 2), conj_seq(x)[2], 4, x[7], -1, x[2]);
    lemma_mul_comm(adjoint_entry(x, 3, 2), x[7]);
    lemma_mul_comm(adjoint_entry(x, 3, 2), x[2]);
    lemma_mul_comm(x[7], x[0]);
    lemma_mul_comm(x[2], x[0]);
    lemma_mul_comm(x[7], x[1]);
    lemma_mul_comm(x[2], x[1]);
    lemma_mul_comm(x[7], x[2]);
    lemma_mul_comm(x[2], x[2]);
    lemma_mul_comm(x[7], x[3]);
    lemma_mul_comm(x[2], x[3]);
    lemma_mul_comm(x[7], x[4]);
    lemma_mul_comm(x[2], x[4]);
    lemma_mul_comm(x[7], x[5]);
    lemma_mul_comm(x[2], x[5]);
    lemma_mul_comm(x[7], x[6]);
    lemma_mul_comm(x[2], x[6]);
    lemma_mul_comm(x[7], x[7]);
    lemma_mul_comm(x[2], x[7]);
    lemma_mul_form8(x[7], adjoint_entry(x, 3, 2), (-3), x[0], (-4), x[1], (6), x[2], (0), x[3], (0), x[4], (-2), x[5], (0), x[6], (1), x[7]);
    lemma_mul_form8(x[2], adjoint_entry(x, 3, 2), (-3), x[0], (-4), x[1], (6), x[2], (0), x[3], (0), x[4], (-2), x[5], (0), x[6], (1), x[7]);
}

proof fn lemma_cp_right_term_3_3(x: Seq<int>)
    requires
        is_coeffs(x),
    ensures
        adjoint_entry(x, 3, 3) * conj_seq(x)[3] == (6) * (x[2] * x[3]) + (-36) * (x[2] * x[7]) + (-6) * (x[3] * x[3]) + (2) * (x[3] * x[4]) + (1) * (x[3] * x[6]) + (36) * (x[3] * x[7]) + (-12) * (x[4] * x[7]) + (-6) * (x[6] * x[7]),
{
    lemma_trace_is_neg_last(x);
    assert(conj_seq(x)[3] == 6 * x[7] - x[3]);
    lemma_adjoint_entries_eval_3(x);
    lemma_mul_form2(adjoint_entry(x, 3, 3), conj_seq(x)[3], 6, x[7], -1, x[3]);
    lemma_mul_comm(adjoint_entry(x, 3, 3), x[7]);
    lemma_mul_comm(adjoint_entry(x, 3, 3), x[3]);
    lemma_mul_comm(x[7], x[0]);
    lemma_mul_comm(x[3], x[0]);
    lemma_mul_comm(x[7], x[1]);
    lemma_mul_comm(x[3], x[1]);
    lemma_mul_comm(x[7], x[2]);
    lemma_mul_comm(x[3], x[2]);
    lemma_mul_comm(x[7], x[3]);
    lemma_mul_comm(x[3], x[3]);
    lemma_mul_comm(x[7], x[4]);
    lemma_mul_comm(x[3], x[4]);
    lemma_mul_comm(x[7], x[5]);
    lemma_mul_comm(x[3], x[5]);
    lemma_mul_comm(x[7], x[6]);
    lemma_mul_comm(x[3], x[6]);
    lemma_mul_comm(x[7], x[7]);
    lemma_mul_comm(x[3], x[7]);
    lemma_mul_form8(x[7], adjoint_entry(x, 3, 3), (0), x[0], (0), x[1], (-6), x[2], (6), x[3], (-2), x[4], (0), x[5], (-1), x[6], (0), x[7]);
    lemma_mul_form8(x[3], adjoint_entry(x, 3, 3), (0), x[0], (0), x[1], (-6), x[2], (6), x[3], (-2), x[4], (0), x[5], (-1), x[6], (0), x[7]);
}

proof fn lemma_cp_right_term_3_4(x: Seq<int>)
    requires
        is_coeffs(x),
    ensures
        adjoint_entry(x, 3, 4) * conj_seq(x)[4] == (-3) * (x[0] * x[4]) + (15) * (x[0] * x[7]) + (2) * (x[1] * x[4]) + (-10) * (x[1] * x[7]) + (4) * (x[3] * x[4]) + (-20) * (x[3] * x[7]) + (-6) * (x[4] * x[4]) + (1) * (x[4] * x[5]) + (31) * (x[4] * x[7]) + (-5) * (x[5] * x[7]) + (-5) * (x[7] * x[7]),
{
    lemma_trace_is_neg_last(x);
    assert(conj_seq(x)[4] == 5 * x[7] - x[4]);
    lemma_adjoint_entries_eval_3(x);
    lemma_mul_form2(adjoint_entry(x, 3, 4), conj_seq(x)[4], 5, x[7], -1, x[4]);
    lemma_mul_comm(adjoint_entry(x, 3, 4), x[7]);
    lemma_mul_comm(adjoint_entry(x, 3, 4), x[4]);
    lemma_mul_comm(x[7], x[0]);
    lemma_mul_comm(x[4], x[0]);
    lemma_mul_comm(x[7], x[1]);
    lemma_mul_comm(x[4], x[1]);
    lemma_mul_comm(x[7], x[2]);
    lemma_mul_comm(x[4], x[2]);
    lemma_mul_comm(x[7], x[3]);
    lemma_mul_comm(x[4], x[3]);
    lemma_mul_comm(x[7], x[4]);
    lemma_mul_comm(x[4], x[4]);
    lemma_mul_comm(x[7], x[5]);
    lemma_mul_comm(x[4], x[5]);
    lemma_mul_comm(x[7], x[6]);
    lemma_mul_comm(x[4], x[6]);
    lemma_mul_comm(x[7], x[7]);
    lemma_mul_comm(x[4], x[7]);
    lemma_mul_form8(x[7], adjoint_entry(x, 3, 4), (3), x[0], (-2), x[1], (0), x[2], (-4), x[3], (6), x[4], (-1), x[5], (0), x[6], (-1), x[7]);
    lemma_mul_form8(x[4], adjoint_entry(x, 3, 4), (3), x[0], (-2), x[1], (0), x[2], (-4), x[3], (6), x[4], (-1), x[5], (0), x[6], (-1), x[7]);
}

proof fn lemma_cp_right_term_3_5(x: Seq<int>)
    requires
        is_coeffs(x),
    ensures
        adjoint_entry(x, 3, 5) * conj_seq(x)[5] == (1) * (x[0] * x[5]) + (-4) * (x[0] * x[7]) + (-2) * (x[1] * x[5]) + (8) * (x[1] * x[7]) + (-2) * (x[2] * x[5]) + (8) * (x[2] * x[7]) + (5) * (x[4] * x[5]) + (-20) * (x[4] * x[7]) + (-6) * (x[5] * x[5]) + (5) * (x[5] * x[6]) + (22) * (x[5] * x[7]) + (-20) * (x[6] * x[7]) + (8) * (x[7] * x[7]),
{
    lemma_trace_is_neg_last(x);
    assert(conj_seq(x)[5] == 4 * x[7] - x[5]);
    lemma_adjoint_entries_eval_3(x);
    lemma_mul_form2(adjoint_entry(x, 3, 5), conj_seq(x)[5], 4, x[7], -1, x[5]);
    lemma_mul_comm(adjoint_entry(x, 3, 5), x[7]);
    lemma_mul_comm(adjoint_entry(x, 3, 5), x[5]);
    lemma_mul_comm(x[7], x[0]);
    lemma_mul_comm(x[5], x[0]);
    lemma_mul_comm(x[7], x[1]);
    lemma_mul_comm(x[5], x[1]);
    lemma_mul_comm(x[7], x[2]);
    lemma_mul_comm(x[5], x[2]);
    lemma_mul_comm(x[7], x[3]);
    lemma_mul_comm(x[5], x[3]);
    lemma_mul_comm(x[7], x[4]);
    lemma_mul_comm(x[5], x[4]);
    lemma_mul_comm(x[7], x[5]);
    lemma_mul_comm(x[5], x[5]);
    lemma_mul_comm(x[7], x[6]);
    lemma_mul_comm(x[5], x[6]);
    lemma_mul_comm(x[7], x[7]);
    lemma_mul_comm(x[5], x[7]);
    lemma_mul_form8(x[7], adjoint_entry(x, 3, 5), (-1), x[0], (2), x[1], (2), x[2], (0), x[3], (-5), x[4], (6), x[5], (-5), x[6], (2), x[7]);
    lemma_mul_form8(x[5], adjoint_entry(x, 3, 5), (-1), x[0], (2), x[1], (2), x[2], (0), x[3], (-5), x[4], (6), x[5], (-5), x[6], (2), x[7]);
}

#[verifier::rlimit(100)]
proof fn lemma_cp_right_term_3_6(x: Seq<int>)
    requires
        is_coeffs(x),
    ensures
        adjoint_entry(x, 3, 6) * conj_seq(x)[6] == (3) * (x[0] * x[6]) + (-9) * (x[0] * x[7]) + (2) * (x[1] * x[6]) + (-6) * (x[1] * x[7]) + (-1) * (x[3] * x[6]) + (3) * (x[3] * x[7]) + (1) * (x[5] * x[6]) + (-3) * (x[5] * x[7]) + (-6) * (x[6] * x[6]) + (22) * (x[6] * x[7]) + (-12) * (x[7] * x[7]),
{
    lemma_trace_is_neg_last(x);
    assert(conj_seq(x)[6] == 3 * x[7] - x[6]);
    lemma_adjoint_entries_eval_3(x);
    assert(adjoint_entry(x, 3, 6) * conj_seq(x)[6] == (3) * (x[0] * x[6]) + (-9) * (x[0] * x[7]) + (2) * (x[1] * x[6]) + (-6) * (x[1] * x[7]) + (-1) * (x[3] * x[6]) + (3) * (x[3] * x[7]) + (1) * (x[5] * x[6]) + (-3) * (x[5] * x[7]) + (-6) * (x[6] * x[6]) + (22) * (x[6] * x[7]) + (-12) * (x[7] * x[7])) by (nonlinear_arith)
        requires
            adjoint_entry(x, 3, 6) == (-3) * x[0] + (-2) * x[1] + (0) * x[2] + (1) * x[3] + (0) * x[4] + (-1) * x[5] + (6) * x[6] + (-4) * x[7],
            conj_seq(x)[6] == 3 * x[7] - x[6];
}

proof fn lemma_cp_right_term_3_7(x: Seq<int>)
    requires
        is_coeffs(x),
    ensures
        adjoint_entry(x, 3, 7) * conj_seq(x)[7] == (2) * (x[0] * x[7]) + (1) * (x[1] * x[7]) + (-1) * (x[2] * x[7]) + (-1) * (x[3] * x[7]) + (1) * (x[4] * x[7]) + (-2) * (x[5] * x[7]) + (-2) * (x[6] * x[7]) + (6) * (x[7] * x[7]),
{
    lemma_trace_is_neg_last(x);
    assert(conj_seq(x)[7] == 2 * x[7] - x[7]);
    lemma_adjoint_entries_eval_3(x);
    lemma_mul_form2(adjoint_entry(x, 3, 7), conj_seq(x)[7], 2, x[7], -1, x[7]);
    lemma_mul_comm(adjoint_entry(x, 3, 7), x[7]);
    lemma_mul_comm(x[7], x[0]);
    lemma_mul_comm(x[7], x[1]);
    lemma_mul_comm(x[7], x[2]);
    lemma_mul_comm(x[7], x[3]);
    lemma_mul_comm(x[7], x[4]);
    lemma_mul_comm(x[7], x[5]);
    lemma_mul_comm(x[7], x[6]);
    lemma_mul_comm(x[7], x[7]);
    lemma_mul_comm(adjoint_entry(x, 3, 7), x[7]);
    lemma_mul_form8(x[7], adjoint_entry(x, 3, 7), (2), x[0], (1), x[1], (-1), x[2], (-1), x[3], (1), x[4], (-2), x[5], (-2), x[6], (6), x[7]);
    lemma_mul_form8(x[7], adjoint_entry(x, 3, 7), (2), x[0], (1), x[1], (-1), x[2], (-1), x[3], (1), x[4], (-2), x[5], (-2), x[6], (6), x[7]);
}

proof fn lemma_cp_right_term_4_0(x: Seq<int>)
    requires
        is_coeffs(x),
    ensures
        adjoint_entry(x, 4, 0) * conj_seq(x)[0] == (-5) * (x[0] * x[0]) + (-1) * (x[0] * x[1]) + (2) * (x[0] * x[2]) + (2) * (x[0] * x[4]) + (-3) * (x[0] * x[6]) + (12) * (x[0] * x[7]) + (2) * (x[1] * x[7]) + (-4) * (x[2] * x[7]) + (-4) * (x[4] * x[7]) + (6) * (x[6] * x[7]) + (-4) * (x[7] * x[7]),
{
    lemma_trace_is_neg_last(x);
    assert(conj_seq(x)[0] == 2 * x[7] - x[0]);
    lemma_adjoint_entries_eval_4(x);
    lemma_mul_form2(adjoint_entry(x, 4, 0), conj_seq(x)[0], 2, x[7], -1, x[0]);
    lemma_mul_comm(adjoint_entry(x, 4, 0), x[7]);
    lemma_mul_comm(adjoint_entry(x, 4, 0), x[0]);
    lemma_mul_comm(x[7], x[0]);
    lemma_mul_comm(x[0], x[0]);
    lemma_mul_comm(x[7], x[1]);
    lemma_mul_comm(x[0], x[1]);
    lemma_mul_comm(x[7], x[2]);
    lemma_mul_comm(x[0], x[2]);
    lemma_mul_comm(x[7], x[3]);
    lemma_mul_comm(x[0], x[3]);
    lemma_mul_comm(x[7], x[4]);
    lemma_mul_comm(x[0], x[4]);
    lemma_mul_comm(x[7], x[5]);
    lemma_mul_comm(x[0], x[5]);
    lemma_mul_comm(x[7], x[6]);
    lemma_mul_comm(x[0], x[6]);
    lemma_mul_comm(x[7], x[7]);
    lemma_mul_comm(x[0], x[7]);
    lemma_mul_form8(x[7], adjoint_entry(x, 4, 0), (5), x[0], (1), x[1], (-2), x[2], (0), x[3], (-2), x[4], (0), x[5], (3), x[6], (-2), x[7]);
    lemma_mul_form8(x[0], adjoint_entry(x, 4, 0), (5), x[0], (1), x[1], (-2), x[2], (0), x[3], (-2), x[4], (0), x[5], (3), x[6], (-2), x[7]);
}

proof fn lemma_cp_right_term_4_1(x: Seq<int>)
    requires
        is_coeffs(x),
    ensures
        adjoint_entry(x, 4, 1) * conj_seq(x)[1] == (1) * (x[0] * x[1]) + (-3) * (x[0] * x[7]) + (-5) * (x[1] * x[1]) + (-3) * (x[1] * x[2]) + (5) * (x[1] * x[3]) + (-2) * (x[1] * x[4]) + (2) * (x[1] * x[5]) + (-1) * (x[1] * x[6]) + (15) * (x[1] * x[7]) + (9) * (x[2] * x[7]) + (-15) * (x[3] * x[7]) + (6) * (x[4] * x[7]) + (-6) * (x[5] * x[7]) + (3) * (x[6] * x[7]),
{
    lemma_trace_is_neg_last(x);
    assert(conj_seq(x)[1] == 3 * x[7] - x[1]);
    lemma_adjoint_entries_eval_4(x);
    lemma_mul_form2(adjoint_entry(x, 4, 1), conj_seq(x)[1], 3, x[7], -1, x[1]);
    lemma_mul_comm(adjoint_entry(x, 4, 1), x[7]);
    lemma_mul_comm(adjoint_entry(x, 4, 1), x[1]);
    lemma_mul_comm(x[7], x[0]);
    lemma_mul_comm(x[1], x[0]);
    lemma_mul_comm(x[7], x[1]);
    lemma_mul_comm(x[1], x[1]);
    lemma_mul_comm(x[7], x[2]);
    lemma_mul_comm(x[1], x[2]);
    lemma_mul_comm(x[7], x[3]);
    lemma_mul_comm(x[1], x[3]);
    lemma_mul_comm(x[7], x[4]);
    lemma_mul_comm(x[1], x[4]);
    lemma_mul_comm(x[7], x[5]);
    lemma_mul_comm(x[1], x[5]);
    lemma_mul_comm(x[7], x[6]);
    lemma_mul_comm(x[1], x[6]);
    lemma_mul_comm(x[7], x[7]);
    lemma_mul_comm(x[1], x[7]);
    lemma_mul_form8(x[7], adjoint_entry(x, 4, 1), (-1), x[0], (5), x[1], (3), x[2], (-5), x[3], (2), x[4], (-2), x[5], (1), x[6], (0), x[7]);
    lemma_mul_form8(x[1], adjoint_entry(x, 4, 1), (-1), x[0], (5), x[1], (3), x[2], (-5), x[3], (2), x[4], (-2), x[5], (1), x[6], (0), x[7]);
}

proof fn lemma_cp_right_term_4_2(x: Seq<int>)
    requires
        is_coeffs(x),
    ensures
        adjoint_entry(x, 4, 2) * conj_seq(x)[2] == (3) * (x[0] * x[2]) + (-12) * (x[0] * x[7]) + (3) * (x[1] * x[2]) + (-12) * (x[1] * x[7]) + (-5) * (x[2] * x[2]) + (1) * (x[2] * x[5]) + (1) * (x[2] * x[6]) + (19) * (x[2] * x[7]) + (-4) * (x[5] * x[7]) + (-4) * (x[6] * x[7]) + (4) * (x[7] * x[7]),
{
    lemma_trace_is_neg_last(x);
    assert(conj_seq(x)[2] == 4 * x[7] - x[2]);
    lemma_adjoint_entries_eval_4(x);
    lemma_mul_form2(adjoint_entry(x, 4, 2), conj_seq(x)[2], 4, x[7], -1, x[2]);
    lemma_mul_comm(adjoint_entry(x, 4, 2), x[7]);
    lemma_mul_comm(adjoint_entry(x, 4, 2), x[2]);
    lemma_mul_comm(x[7], x[0]);
    lemma_mul_comm(x[2], x[0]);
    lemma_mul_comm(x[7], x[1]);
    lemma_mul_comm(x[2], x[1]);
    lemma_mul_comm(x[7], x[2]);
    lemma_mul_comm(x[2], x[2]);
    lemma_mul_comm(x[7], x[3]);
    lemma_mul_comm(x[2], x[3]);
    lemma_mul_comm(x[7], x[4]);
    lemma_mul_comm(x[2], x[4]);
    lemma_mul_comm(x[7], x[5]);
    lemma_mul_comm(x[2], x[5]);
    lemma_mul_comm(x[7], x[6]);
    lemma_mul_comm(x[2], x[6]);
    lemma_mul_comm(x[7], x[7]);
    lemma_mul_comm(x[2], x[7]);
    lemma_mul_form8(x[7], adjoint_entry(x, 4, 2), (-3), x[0], (-3), x[1], (5), x[2], (0), x[3], (0), x[4], (-1), x[5], (-1), x[6], (1), x[7]);
    lemma_mul_form8(x[2], adjoint_entry(x, 4, 2), (-3), x[0], (-3), x[1], (5), x[2], (0), x[3], (0), x[4], (-1), x[5], (-1), x[6], (1), x[7]);
}

proof fn lemma_cp_right_term_4_3(x: Seq<int>)
    requires
        is_coeffs(x),
    ensures
        adjoint_entry(x, 4, 3) * conj_seq(x)[3] == (5) * (x[2] * x[3]) + (-30) * (x[2] * x[7]) + (-5) * (x[3] * x[3]) + (2) * (x[3] * x[4]) + (30) * (x[3] * x[7]) + (-12) * (x[4] * x[7]),
{
    lemma_trace_is_neg_last(x);
    assert(conj_seq(x)[3] == 6 * x[7] - x[3]);
    lemma_adjoint_entries_eval_4(x);
    lemma_mul_form2(adjoint_entry(x, 4, 3), conj_seq(x)[3], 6, x[7], -1, x[3]);
    lemma_mul_comm(adjoint_entry(x, 4, 3), x[7]);
    lemma_mul_comm(adjoint_entry(x, 4, 3), x[3]);
    lemma_mul_comm(x[7], x[0]);
    lemma_mul_comm(x[3], x[0]);
    lemma_mul_comm(x[7], x[1]);
    lemma_mul_comm(x[3], x[1]);
    lemma_mul_comm(x[7], x[2]);
    lemma_mul_comm(x[3], x[2]);
    lemma_mul_comm(x[7], x[3]);
    lemma_mul_comm(x[3], x[3]);
    lemma_mul_comm(x[7], x[4]);
    lemma_mul_comm(x[3], x[4]);
    lemma_mul_comm(x[7], x[5]);
    lemma_mul_comm(x[3], x[5]);
    lemma_mul_comm(x[7], x[6]);
    lemma_mul_comm(x[3], x[6]);
    lemma_mul_comm(x[7], x[7]);
    lemma_mul_comm(x[3], x[7]);
    lemma_mul_form8(x[7], adjoint_entry(x, 4, 3), (0), x[0], (0), x[1], (-5), x[2], (5), x[3], (-2), x[4], (0), x[5], (0), x[6], (0), x[7]);
    lemma_mul_form8(x[3], adjoint_entry(x, 4, 3), (0), x[0], (0), x[1], (-5), x[2], (5), x[3], (-2), x[4], (0), x[5], (0), x[6], (0), x[7]);
}

proof fn lemma_cp_right_term_4_4(x: Seq<int>)
    requires
        is_coeffs(x),
    ensures
        adjoint_entry(x, 4, 4) * conj_seq(x)[4] == (-2) * (x[0] * x[4]) + (10) * (x[0] * x[7]) + (2) * (x[1] * x[4]) + (-10) * (x[1] * x[7]) + (3) * (x[3] * x[4]) + (-15) * (x[3] * x[7]) + (-5) * (x[4] * x[4]) + (1) * (x[4] * x[5]) + (26) * (x[4] * x[7]) + (-5) * (x[5] * x[7]) + (-5) * (x[7] * x[7]),
{
    lemma_trace_is_neg_last(x);
    assert(conj_seq(x)[4] == 5 * x[7] - x[4]);
    lemma_adjoint_entries_eval_4(x);
    lemma_mul_form2(adjoint_entry(x, 4, 4), conj_seq(x)[4], 5, x[7], -1, x[4]);
    lemma_mul_comm(adjoint_entry(x, 4, 4), x[7]);
    lemma_mul_comm(adjoint_entry(x, 4, 4), x[4]);
    lemma_mul_comm(x[7], x[0]);
    lemma_mul_comm(x[4], x[0]);
    lemma_mul_comm(x[7], x[1]);
    lemma_mul_comm(x[4], x[1]);
    lemma_mul_comm(x[7], x[2]);
    lemma_mul_comm(x[4], x[2]);
    lemma_mul_comm(x[7], x[3]);
    lemma_mul_comm(x[4], x[3]);
    lemma_mul_comm(x[7], x[4]);
    lemma_mul_comm(x[4], x[4]);
    lemma_mul_comm(x[7], x[5]);
    lemma_mul_comm(x[4], x[5]);
    lemma_mul_comm(x[7], x[6]);
    lemma_mul_comm(x[4], x[6]);
    lemma_mul_comm(x[7], x[7]);
    lemma_mul_comm(x[4], x[7]);
    lemma_mul_form8(x[7], adjoint_entry(x, 4, 4), (2), x[0], (-2), x[1], (0), x[2], (-3), x[3], (5), x[4], (-1), x[5], (0), x[6], (-1), x[7]);
    lemma_mul_form8(x[4], adjoint_entry(x, 4, 4), (2), x[0], (-2), x[1], (0), x[2], (-3), x[3], (5), x[4], (-1), x[5], (0), x[6], (-1), x[7]);
}

proof fn lemma_cp_right_term_4_5(x: Seq<int>)
    requires
        is_coeffs(x),
    ensures
        adjoint_entry(x, 4, 5) * conj_seq(x)[5] == (-2) * (x[1] * x[5]) + (8) * (x[1] * x[7]) + (-1) * (x[2] * x[5]) + (4) * (x[2] * x[7]) + (4) * (x[4] * x[5]) + (-16) * (x[4] * x[7]) + (-5) * (x[5] * x[5]) + (4) * (x[5] * x[6]) + (19) * (x[5] * x[7]) + (-16) * (x[6] * x[7]) + (4) * (x[7] * x[7]),
{
    lemma_trace_is_neg_last(x);
    assert(conj_seq(x)[5] == 4 * x[7] - x[5]);
    lemma_adjoint_entries_eval_4(x);
    lemma_mul_form2(adjoint_entry(x, 4, 5), conj_seq(x)[5], 4, x[7], -1, x[5]);
    lemma_mul_comm(adjoint_entry(x, 4, 5), x[7]);
    lemma_mul_comm(adjoint_entry(x, 4, 5), x[5]);
    lemma_mul_comm(x[7], x[0]);
    lemma_mul_comm(x[5], x[0]);
    lemma_mul_comm(x[7], x[1]);
    lemma_mul_comm(x[5], x[1]);
    lemma_mul_comm(x[7], x[2]);
    lemma_mul_comm(x[5], x[2]);
    lemma_mul_comm(x[7], x[3]);
    lemma_mul_comm(x[5], x[3]);
    lemma_mul_comm(x[7], x[4]);
    lemma_mul_comm(x[5], x[4]);
    lemma_mul_comm(x[7], x[5]);
    lemma_mul_comm(x[5], x[5]);
    lemma_mul_comm(x[7], x[6]);
    lemma_mul_comm(x[5], x[6]);
    lemma_mul_comm(x[7], x[7]);
    lemma_mul_comm(x[5], x[7]);
    lemma_mul_form8(x[7], adjoint_entry(x, 4, 5), (0), x[0], (2), x[1], (1), x[2], (0), x[3], (-4), x[4], (5), x[5], (-4), x[6], (1), x[7]);
    lemma_mul_form8(x[5], adjoint_entry(x, 4, 5), (0), x[0], (2), x[1], (1), x[2], (0), x[3], (-4), x[4], (5), x[5], (-4), x[6], (1), x[7]);
}

#[verifier::rlimit(100)]
proof fn lemma_cp_right_term_4_6(x: Seq<int>)
    requires
        is_coeffs(x),
    ensures
        adjoint_entry(x, 4, 6) * conj_seq(x)[6] == (3) * (x[0] * x[6]) + (-9) * (x[0] * x[7]) + (1) * (x[1] * x[6]) + (-3) * (x[1] * x[7]) + (-1) * (x[2] * x[6]) + (3) * (x[2] * x[7]) + (1) * (x[5] * x[6]) + (-3) * (x[5] * x[7]) + (-5) * (x[6] * x[6]) + (18) * (x[6] * x[7]) + (-9) * (x[7] * x[7]),
{
    lemma_trace_is_neg_last(x);
    assert(conj_seq(x)[6] == 3 * x[7] - x[6]);
    lemma_adjoint_entries_eval_4(x);
    assert(adjoint_entry(x, 4, 6) * conj_seq(x)[6] == (3) * (x[0] * x[6]) + (-9) * (x[0] * x[7]) + (1) * (x[1] * x[6]) + (-3) * (x[1] * x[7]) + (-1) * (x[2] * x[6]) + (3) * (x[2] * x[7]) + (1) * (x[5] * x[6]) + (-3) * (x[5] * x[7]) + (-5) * (x[6] * x[6]) + (18) * (x[6] * x[7]) + (-9) * (x[7] * x[7])) by (nonlinear_arith)
        requires
            adjoint_entry(x, 4, 6) == (-3) * x[0] + (-1) * x[1] + (1) * x[2] + (0) * x[3] + (0) * x[4] + (-1) * x[5] + (5) * x[6] + (-3) * x[7],
            conj_seq(x)[6] == 3 * x[7] - x[6];
}

proof fn lemma_cp_right_term_4_7(x: Seq<int>)
    requires
        is_coeffs(x),
    ensures
        adjoint_entry(x, 4, 7) * conj_seq(x)[7] == (2) * (x[0] * x[7]) + (-1) * (x[2] * x[7]) + (-1) * (x[5] * x[7]) + (-2) * (x[6] * x[7]) + (5) * (x[7] * x[7]),
{
    lemma_trace_is_neg_last(x);
    assert(conj_seq(x)[7] == 2 * x[7] - x[7]);
    lemma_adjoint_entries_eval_4(x);
    lemma_mul_form2(adjoint_entry(x, 4, 7), conj_seq(x)[7], 2, x[7], -1, x[7]);
    lemma_mul_comm(adjoint_entry(x, 4, 7), x[7]);
    lemma_mul_comm(x[7], x[0]);
    lemma_mul_comm(x[7], x[1]);
    lemma_mul_comm(x[7], x[2]);
    lemma_mul_comm(x[7], x[3]);
    lemma_mul_comm(x[7], x[4]);
    lemma_mul_comm(x[7], x[5]);
    lemma_mul_comm(x[7], x[6]);
    lemma_mul_comm(x[7], x[7]);
    lemma_mul_comm(adjoint_entry(x, 4, 7), x[7]);
    lemma_mul_form8(x[7], adjoint_entry(x, 4, 7), (2), x[0], (0), x[1], (-1), x[2], (0), x[3], (0), x[4], (-1), x[5], (-2), x[6], (5), x[7]);
    lemma_mul_form8(x[7], adjoint_entry(x, 4, 7), (2), x[0], (0), x[1], (-1), x[2], (0), x[3], (0), x[4], (-1), x[5], (-2), x[6], (5), x[7]);
}

proof fn lemma_cp_right_term_5_0(x: Seq<int>)
    requires
        is_coeffs(x),
    ensures
        adjoint_entry(x, 5, 0) * conj_seq(x)[0] == (-4) * (x[0] * x[0]) + (-1) * (x[0] * x[1]) + (1) * (x[0] * x[2]) + (1) * (x[0] * x[3]) + (1) * (x[0] * x[4]) + (-2) * (x[0] * x[6]) + (9) * (x[0] * x[7]) + (2) * (x[1] * x[7]) + (-2) * (x[2] * x[7]) + (-2) * (x[3] * x[7]) + (-2) * (x[4] * x[7]) + (4) * (x[6] * x[7]) + (-2) * (x[7] * x[7]),
{
    lemma_trace_is_neg_last(x);
    assert(conj_seq(x)[0] == 2 * x[7] - x[0]);
    lemma_adjoint_entries_eval_5(x);
    lemma_mul_form2(adjoint_entry(x, 5, 0), conj_seq(x)[0], 2, x[7], -1, x[0]);
    lemma_mul_comm(adjoint_entry(x, 5, 0), x[7]);
    lemma_mul_comm(adjoint_entry(x, 5, 0), x[0]);
    lemma_mul_comm(x[7], x[0]);
    lemma_mul_comm(x[0], x[0]);
    lemma_mul_comm(x[7], x[1]);
    lemma_mul_comm(x[0], x[1]);
    lemma_mul_comm(x[7], x[2]);
    lemma_mul_comm(x[0], x[2]);
    lemma_mul_comm(x[7], x[3]);
    lemma_mul_comm(x[0], x[3]);
    lemma_mul_comm(x[7], x[4]);
    lemma_mul_comm(x[0], x[4]);
    lemma_mul_comm(x[7], x[5]);
    lemma_mul_comm(x[0], x[5]);
    lemma_mul_comm(x[7], x[6]);
    lemma_mul_comm(x[0], x[6]);
    lemma_mul_comm(x[7], x[7]);
    lemma_mul_comm(x[0], x[7]);
    lemma_mul_form8(x[7], adjoint_entry(x, 5, 0), (4), x[0], (1), x[1], (-1), x[2], (-1), x[3], (-1), x[4], (0), x[5], (2), x[6], (-1), x[7]);
    lemma_mul_form8(x[0], adjoint_entry(x, 5, 0), (4), x[0], (1), x[1], (-1), x[2], (-1), x[3], (-1), x[4], (0), x[5], (2), x[6], (-1), x[7]);
}

proof fn lemma_cp_right_term_5_1(x: Seq<int>)
    requires
        is_coeffs(x),
    ensures
        adjoint_entry(x, 5, 1) * conj_seq(x)[1] == (1) * (x[0] * x[1]) + (-3) * (x[0] * x[7]) + (-4) * (x[1] * x[1]) + (-2) * (x[1] * x[2]) + (4) * (x[1] * x[3]) + (-2) * (x[1] * x[4]) + (1) * (x[1] * x[5]) + (12) * (x[1] * x[7]) + (6) * (x[2] * x[7]) + (-12) * (x[3] * x[7]) + (6) * (x[4] * x[7]) + (-3) * (x[5] * x[7]),
{
    lemma_trace_is_neg_last(x);
    assert(conj_seq(x)[1] == 3 * x[7] - x[1]);
    lemma_adjoint_entries_eval_5(x);
    lemma_mul_form2(adjoint_entry(x, 5, 1), conj_seq(x)[1], 3, x[7], -1, x[1]);
    lemma_mul_comm(adjoint_entry(x, 5, 1), x[7]);
    lemma_mul_comm(adjoint_entry(x, 5, 1), x[1]);
    lemma_mul_comm(x[7], x[0]);
    lemma_mul_comm(x[1], x[0]);
    lemma_mul_comm(x[7], x[1]);
    lemma_mul_comm(x[1], x[1]);
    lemma_mul_comm(x[7], x[2]);
    lemma_mul_comm(x[1], x[2]);
    lemma_mul_comm(x[7], x[3]);
    lemma_mul_comm(x[1], x[3]);
    lemma_mul_comm(x[7], x[4]);
    lemma_mul_comm(x[1], x[4]);
    lemma_mul_comm(x[7], x[5]);
    lemma_mul_comm(x[1], x[5]);
    lemma_mul_comm(x[7], x[6]);
    lemma_mul_comm(x[1], x[6]);
    lemma_mul_comm(x[7], x[7]);
    lemma_mul_comm(x[1], x[7]);
    lemma_mul_form8(x[7], adjoint_entry(x, 5, 1), (-1), x[0], (4), x[1], (2), x[2], (-4), x[3], (2), x[4], (-1), x[5], (0), x[6], (0), x[7]);
    lemma_mul_form8(x[1], adjoint_entry(x, 5, 1), (-1), x[0], (4), x[1], (2), x[2], (-4), x[3], (2), x[4], (-1), x[5], (0), x[6], (0), x[7]);
}

proof fn lemma_cp_right_term_5_2(x: Seq<int>)
    requires
        is_coeffs(x),
    ensures
        adjoint_entry(x, 5, 2) * conj_seq(x)[2] == (3) * (x[0] * x[2]) + (-12) * (x[0] * x[7]) + (2) * (x[1] * x[2]) + (-8) * (x[1] * x[7]) + (-4) * (x[2] * x[2]) + (1) * (x[2] * x[5]) + (16) * (x[2] * x[7]) + (-4) * (x[5] * x[7]),
{
    lemma_trace_is_neg_last(x);
    assert(conj_seq(x)[2] == 4 * x[7] - x[2]);
    lemma_adjoint_entries_eval_5(x);
    lemma_mul_form2(adjoint_entry(x, 5, 2), conj_seq(x)[2], 4, x[7], -1, x[2]);
    lemma_mul_comm(adjoint_entry(x, 5, 2), x[7]);
    lemma_mul_comm(adjoint_entry(x, 5, 2), x[2]);
    lemma_mul_comm(x[7], x[0]);
    lemma_mul_comm(x[2], x[0]);
    lemma_mul_comm(x[7], x[1]);
    lemma_mul_comm(x[2], x[1]);
    lemma_mul_comm(x[7], x[2]);
    lemma_mul_comm(x[2], x[2]);
    lemma_mul_comm(x[7], x[3]);
    lemma_mul_comm(x[2], x[3]);
    lemma_mul_comm(x[7], x[4]);
    lemma_mul_comm(x[2], x[4]);
    lemma_mul_comm(x[7], x[5]);
    lemma_mul_comm(x[2], x[5]);
    lemma_mul_comm(x[7], x[6]);
    lemma_mul_comm(x[2], x[6]);
    lemma_mul_comm(x[7], x[7]);
    lemma_mul_comm(x[2], x[7]);
    lemma_mul_form8(x[7], adjoint_entry(x, 5, 2), (-3), x[0], (-2), x[1], (4), x[2], (0), x[3], (0), x[4], (-1), x[5], (0), x[6], (0), x[7]);
    lemma_mul_form8(x[2], adjoint_entry(x, 5, 2), (-3), x[0], (-2), x[1], (4), x[2], (0), x[3], (0), x[4], (-1), x[5], (0), x[6], (0), x[7]);
}

proof fn lemma_cp_right_term_5_3(x: Seq<int>)
    requires
        is_coeffs(x),
    ensures
        adjoint_entry(x, 5, 3) * conj_seq(x)[3] == (-1) * (x[0] * x[3]) + (6) * (x[0] * x[7]) + (4) * (x[2] * x[3]) + (-24) * (x[2] * x[7]) + (-4) * (x[3] * x[3]) + (2) * (x[3] * x[4]) + (24) * (x[3] * x[7]) + (-12) * (x[4] * x[7]),
{
    lemma_trace_is_neg_last(x);
    assert(conj_seq(x)[3] == 6 * x[7] - x[3]);
    lemma_adjoint_entries_eval_5(x);
    lemma_mul_form2(adjoint_entry(x, 5, 3), conj_seq(x)[3], 6, x[7], -1, x[3]);
    lemma_mul_comm(adjoint_entry(x, 5, 3), x[7]);
    lemma_mul_comm(adjoint_entry(x, 5, 3), x[3]);
    lemma_mul_comm(x[7], x[0]);
    lemma_mul_comm(x[3], x[0]);
    lemma_mul_comm(x[7], x[1]);
    lemma_mul_comm(x[3], x[1]);
    lemma_mul_comm(x[7], x[2]);
    lemma_mul_comm(x[3], x[2]);
    lemma_mul_comm(x[7], x[3]);
    lemma_mul_comm(x[3], x[3]);
    lemma_mul_comm(x[7], x[4]);
    lemma_mul_comm(x[3], x[4]);
    lemma_mul_comm(x[7], x[5]);
    lemma_mul_comm(x[3], x[5]);
    lemma_mul_comm(x[7], x[6]);
    lemma_mul_comm(x[3], x[6]);
    lemma_mul_comm(x[7], x[7]);
    lemma_mul_comm(x[3], x[7]);
    lemma_mul_form8(x[7], adjoint_entry(x, 5, 3), (1), x[0], (0), x[1], (-4), x[2], (4), x[3], (-2), x[4], (0), x[5], (0), x[6], (0), x[7]);
    lemma_mul_form8(x[3], adjoint_entry(x, 5, 3), (1), x[0], (0), x[1], (-4), x[2], (4), x[3], (-2), x[4], (0), x[5], (0), x[6], (0), x[7]);
}

proof fn lemma_cp_right_term_5_4(x: Seq<int>)
    requires
        is_coeffs(x),
    ensures
        adjoint_entry(x, 5, 4) * conj_seq(x)[4] == (-1) * (x[0] * x[4]) + (5) * (x[0] * x[7]) + (2) * (x[1] * x[4]) + (-10) * (x[1] * x[7]) + (2) * (x[3] * x[4]) + (-10) * (x[3] * x[7]) + (-4) * (x[4] * x[4]) + (1) * (x[4] * x[5]) + (20) * (x[4] * x[7]) + (-5) * (x[5] * x[7]),
{
    lemma_trace_is_neg_last(x);
    assert(conj_seq(x)[4] == 5 * x[7] - x[4]);
    lemma_adjoint_entries_eval_5(x);
    lemma_mul_form2(adjoint_entry(x, 5, 4), conj_seq(x)[4], 5, x[7], -1, x[4]);
    lemma_mul_comm(adjoint_entry(x, 5, 4), x[7]);
    lemma_mul_comm(adjoint_entry(x, 5, 4), x[4]);
    lemma_mul_comm(x[7], x[0]);
    lemma_mul_comm(x[4], x[0]);
    lemma_mul_comm(x[7], x[1]);
    lemma_mul_comm(x[4], x[1]);
    lemma_mul_comm(x[7], x[2]);
    lemma_mul_comm(x[4], x[2]);
    lemma_mul_comm(x[7], x[3]);
    lemma_mul_comm(x[4], x[3]);
    lemma_mul_comm(x[7], x[4]);
    lemma_mul_comm(x[4], x[4]);
    lemma_mul_comm(x[7], x[5]);
    lemma_mul_comm(x[4], x[5]);
    lemma_mul_comm(x[7], x[6]);
    lemma_mul_comm(x[4], x[6]);
    lemma_mul_comm(x[7], x[7]);
    lemma_mul_comm(x[4], x[7]);
    lemma_mul_form8(x[7], adjoint_entry(x, 5, 4), (1), x[0], (-2), x[1], (0), x[2], (-2), x[3], (4), x[4], (-1), x[5], (0), x[6], (0), x[7]);
    lemma_mul_form8(x[4], adjoint_entry(x, 5, 4), (1), x[0], (-2), x[1], (0), x[2], (-2), x[3], (4), x[4], (-1), x[5], (0), x[6], (0), x[7]);
}

proof fn lemma_cp_right_term_5_5(x: Seq<int>)
    requires
        is_coeffs(x),
    ensures
        adjoint_entry(x, 5, 5) * conj_seq(x)[5] == (-1) * (x[1] * x[5]) + (4) * (x[1] * x[7]) + (-1) * (x[2] * x[5]) + (4) * (x[2] * x[7]) + (3) * (x[4] * x[5]) + (-12) * (x[4] * x[7]) + (-4) * (x[5] * x[5]) + (3) * (x[5] * x[6]) + (16) * (x[5] * x[7]) + (-12) * (x[6] * x[7]),
{
    lemma_trace_is_neg_last(x);
    assert(conj_seq(x)[5] == 4 * x[7] - x[5]);
    lemma_adjoint_entries_eval_5(x);
    lemma_mul_form2(adjoint_entry(x, 5, 5), conj_seq(x)[5], 4, x[7], -1, x[5]);
    lemma_mul_comm(adjoint_entry(x, 5, 5), x[7]);
    lemma_mul_comm(adjoint_entry(x, 5, 5), x[5]);
    lemma_mul_comm(x[7], x[0]);
    lemma_mul_comm(x[5], x[0]);
    lemma_mul_comm(x[7], x[1]);
    lemma_mul_comm(x[5], x[1]);
    lemma_mul_comm(x[7], x[2]);
    lemma_mul_comm(x[5], x[2]);
    lemma_mul_comm(x[7], x[3]);
    lemma_mul_comm(x[5], x[3]);
    lemma_mul_comm(x[7], x[4]);
    lemma_mul_comm(x[5], x[4]);
    lemma_mul_comm(x[7], x[5]);
    lemma_mul_comm(x[5], x[5]);
    lemma_mul_comm(x[7], x[6]);
    lemma_mul_comm(x[5], x[6]);
    lemma_mul_comm(x[7], x[7]);
    lemma_mul_comm(x[5], x[7]);
    lemma_mul_form8(x[7], adjoint_entry(x, 5, 5), (0), x[0], (1), x[1], (1), x[2], (0), x[3], (-3), x[4], (4), x[5], (-3), x[6], (0), x[7]);
    lemma_mul_form8(x[5], adjoint_entry(x, 5, 5), (0), x[0], (1), x[1], (1), x[2], (0), x[3], (-3), x[4], (4), x[5], (-3), x[6], (0), x[7]);
}

proof fn lemma_cp_right_term_5_6(x: Seq<int>)
    requires
        is_coeffs(x),
    ensures
        adjoint_entry(x, 5, 6) * conj_seq(x)[6] == (2) * (x[0] * x[6]) + (-6) * (x[0] * x[7]) + (1) * (x[5] * x[6]) + (-3) * (x[5] * x[7]) + (-4) * (x[6] * x[6]) + (14) * (x[6] * x[7]) + (-6) * (x[7] * x[7]),
{
    lemma_trace_is_neg_last(x);
    assert(conj_seq(x)[6] == 3 * x[7] - x[6]);
    lemma_adjoint_entries_eval_5(x);
    lemma_mul_form2(adjoint_entry(x, 5, 6), conj_seq(x)[6], 3, x[7], -1, x[6]);
    lemma_mul_comm(adjoint_entry(x, 5, 6), x[7]);
    lemma_mul_comm(adjoint_entry(x, 5, 6), x[6]);
    lemma_mul_comm(x[7], x[0]);
    lemma_mul_comm(x[6], x[0]);
    lemma_mul_comm(x[7], x[1]);
    lemma_mul_comm(x[6], x[1]);
    lemma_mul_comm(x[7], x[2]);
    lemma_mul_comm(x[6], x[2]);
    lemma_mul_comm(x[7], x[3]);
    lemma_mul_comm(x[6], x[3]);
    lemma_mul_comm(x[7], x[4]);
    lemma_mul_comm(x[6], x[4]);
    lemma_mul_comm(x[7], x[5]);
    lemma_mul_comm(x[6], x[5]);
    lemma_mul_comm(x[7], x[6]);
    lemma_mul_comm(x[6], x[6]);
    lemma_mul_comm(x[7], x[7]);
    lemma_mul_comm(x[6], x[7]);
    lemma_mul_form8(x[7], adjoint_entry(x, 5, 6), (-2), x[0], (0), x[1], (0), x[2], (0), x[3], (0), x[4], (-1), x[5], (4), x[6], (-2), x[7]);
    lemma_mul_form8(x[6], adjoint_entry(x, 5, 6), (-2), x[0], (0), x[1], (0), x[2], (0), x[3], (0), x[4], (-1), x[5], (4), x[6], (-2), x[7]);
}

proof fn lemma_cp_right_term_5_7(x: Seq<int>)
    requires
        is_coeffs(x),
    ensures
        adjoint_entry(x, 5, 7) * conj_seq(x)[7] == (1) * (x[0] * x[7]) + (-1) * (x[5] * x[7]) + (-2) * (x[6] * x[7]) + (4) * (x[7] * x[7]),
{
    lemma_trace_is_neg_last(x);
    assert(conj_seq(x)[7] == 2 * x[7] - x[7]);
    lemma_adjoint_entries_eval_5(x);
    lemma_mul_form2(adjoint_entry(x, 5, 7), conj_seq(x)[7], 2, x[7], -1, x[7]);
    lemma_mul_comm(adjoint_entry(x, 5, 7), x[7]);
    lemma_mul_comm(x[7], x[0]);
    lemma_mul_comm(x[7], x[1]);
    lemma_mul_comm(x[7], x[2]);
    lemma_mul_comm(x[7], x[3]);
    lemma_mul_comm(x[7], x[4]);
    lemma_mul_comm(x[7], x[5]);
    lemma_mul_comm(x[7], x[6]);
    lemma_mul_comm(x[7], x[7]);
    lemma_mul_comm(adjoint_entry(x, 5, 7), x[7]);
    lemma_mul_form8(x[7], adjoint_entry(x, 5, 7), (1), x[0], (0), x[1], (0), x[2], (0), x[3], (0), x[4], (-1), x[5], (-2), x[6], (4), x[7]);
    lemma_mul_form8(x[7], adjoint_entry(x, 5, 7), (1), x[0], (0), x[1], (0), x[2], (0), x[3], (0), x[4], (-1), x[5], (-2), x[6], (4), x[7]);
}

proof fn lemma_cp_right_term_6_0(x: Seq<int>)
    requires
        is_coeffs(x),
    ensures
        adjoint_entry(x, 6, 0) * conj_seq(x)[0] == (-3) * (x[0] * x[0]) + (1) * (x[0] * x[2]) + (1) * (x[0] * x[4]) + (-1) * (x[0] * x[6]) + (6) * (x[0] * x[7]) + (-2) * (x[2] * x[7]) + (-2) * (x[4] * x[7]) + (2) * (x[6] * x[7]),
{
    lemma_trace_is_neg_last(x);
    assert(conj_seq(x)[0] == 2 * x[7] - x[0]);
    lemma_adjoint_entries_eval_6(x);
    lemma_mul_form2(adjoint_entry(x, 6, 0), conj_seq(x)[0], 2, x[7], -1, x[0]);
    lemma_mul_comm(adjoint_entry(x, 6, 0), x[7]);
    lemma_mul_comm(adjoint_entry(x, 6, 0), x[0]);
    lemma_mul_comm(x[7], x[0]);
    lemma_mul_comm(x[0], x[0]);
    lemma_mul_comm(x[7], x[1]);
    lemma_mul_comm(x[0], x[1]);
    lemma_mul_comm(x[7], x[2]);
    lemma_mul_comm(x[0], x[2]);
    lemma_mul_comm(x[7], x[3]);
    lemma_mul_comm(x[0], x[3]);
    lemma_mul_comm(x[7], x[4]);
    lemma_mul_comm(x[0], x[4]);
    lemma_mul_comm(x[7], x[5]);
    lemma_mul_comm(x[0], x[5]);
    lemma_mul_comm(x[7], x[6]);
    lemma_mul_comm(x[0], x[6]);
    lemma_mul_comm(x[7], x[7]);
    lemma_mul_comm(x[0], x[7]);
    lemma_mul_form8(x[7], adjoint_entry(x, 6, 0), (3), x[0], (0), x[1], (-1), x[2], (0), x[3], (-1), x[4], (0), x[5], (1), x[6], (0), x[7]);
    lemma_mul_form8(x[0], adjoint_entry(x, 6, 0), (3), x[0], (0), x[1], (-1), x[2], (0), x[3], (-1), x[4], (0), x[5], (1), x[6], (0), x[7]);
}

proof fn lemma_cp_right_term_6_1(x: Seq<int>)
    requires
        is_coeffs(x),
    ensures
        adjoint_entry(x, 6, 1) * conj_seq(x)[1] == (-3) * (x[1] * x[1]) + (-1) * (x[1] * x[2]) + (3) * (x[1] * x[3]) + (-1) * (x[1] * x[4]) + (9) * (x[1] * x[7]) + (3) * (x[2] * x[7]) + (-9) * (x[3] * x[7]) + (3) * (x[4] * x[7]),
{
    lemma_trace_is_neg_last(x);
    assert(conj_seq(x)[1] == 3 * x[7] - x[1]);
    lemma_adjoint_entries_eval_6(x);
    lemma_mul_form2(adjoint_entry(x, 6, 1), conj_seq(x)[1], 3, x[7], -1, x[1]);
    lemma_mul_comm(adjoint_entry(x, 6, 1), x[7]);
    lemma_mul_comm(adjoint_entry(x, 6, 1), x[1]);
    lemma_mul_comm(x[7], x[0]);
    lemma_mul_comm(x[1], x[0]);
    lemma_mul_comm(x[7], x[1]);
    lemma_mul_comm(x[1], x[1]);
    lemma_mul_comm(x[7], x[2]);
    lemma_mul_comm(x[1], x[2]);
    lemma_mul_comm(x[7], x[3]);
    lemma_mul_comm(x[1], x[3]);
    lemma_mul_comm(x[7], x[4]);
    lemma_mul_comm(x[1], x[4]);
    lemma_mul_comm(x[7], x[5]);
    lemma_mul_comm(x[1], x[5]);
    lemma_mul_comm(x[7], x[6]);
    lemma_mul_comm(x[1], x[6]);
    lemma_mul_comm(x[7], x[7]);
    lemma_mul_comm(x[1], x[7]);
    lemma_mul_form8(x[7], adjoint_entry(x, 6, 1), (0), x[0], (3), x[1], (1), x[2], (-3), x[3], (1), x[4], (0), x[5], (0), x[6], (0), x[7]);
    lemma_mul_form8(x[1], adjoint_entry(x, 6, 1), (0), x[0], (3), x[1], (1), x[2], (-3), x[3], (1), x[4], (0), x[5], (0), x[6], (0), x[7]);
}

proof fn lemma_cp_right_term_6_2(x: Seq<int>)
    requires
        is_coeffs(x),
    ensures
        adjoint_entry(x, 6, 2) * conj_seq(x)[2] == (2) * (x[0] * x[2]) + (-8) * (x[0] * x[7]) + (1) * (x[1] * x[2]) + (-4) * (x[1] * x[7]) + (-3) * (x[2] * x[2]) + (1) * (x[2] * x[3]) + (-1) * (x[2] * x[4]) + (1) * (x[2] * x[5]) + (12) * (x[2] * x[7]) + (-4) * (x[3] * x[7]) + (4) * (x[4] * x[7]) + (-4) * (x[5] * x[7]),
{
    lemma_trace_is_neg_last(x);
    assert(conj_seq(x)[2] == 4 * x[7] - x[2]);
    lemma_adjoint_entries_eval_6(x);
    lemma_mul_form2(adjoint_entry(x, 6, 2), conj_seq(x)[2], 4, x[7], -1, x[2]);
    lemma_mul_comm(adjoint_entry(x, 6, 2), x[7]);
    lemma_mul_comm(adjoint_entry(x, 6, 2), x[2]);
    lemma_mul_comm(x[7], x[0]);
    lemma_mul_comm(x[2], x[0]);
    lemma_mul_comm(x[7], x[1]);
    lemma_mul_comm(x[2], x[1]);
    lemma_mul_comm(x[7], x[2]);
    lemma_mul_comm(x[2], x[2]);
    lemma_mul_comm(x[7], x[3]);
    lemma_mul_comm(x[2], x[3]);
    lemma_mul_comm(x[7], x[4]);
    lemma_mul_comm(x[2], x[4]);
    lemma_mul_comm(x[7], x[5]);
    lemma_mul_comm(x[2], x[5]);
    lemma_mul_comm(x[7], x[6]);
    lemma_mul_comm(x[2], x[6]);
    lemma_mul_comm(x[7], x[7]);
    lemma_mul_comm(x[2], x[7]);
    lemma_mul_form8(x[7], adjoint_entry(x, 6, 2), (-2), x[0], (-1), x[1], (3), x[2], (-1), x[3], (1), x[4], (-1), x[5], (0), x[6], (0), x[7]);
    lemma_mul_form8(x[2], adjoint_entry(x, 6, 2), (-2), x[0], (-1), x[1], (3), x[2], (-1), x[3], (1), x[4], (-1), x[5], (0), x[6], (0), x[7]);
}

proof fn lemma_cp_right_term_6_3(x: Seq<int>)
    requires
        is_coeffs(x),
    ensures
        adjoint_entry(x, 6, 3) * conj_seq(x)[3] == (2) * (x[2] * x[3]) + (-12) * (x[2] * x[7]) + (-3) * (x[3] * x[3]) + (2) * (x[3] * x[4]) + (18) * (x[3] * x[7]) + (-12) * (x[4] * x[7]),
{
    lemma_trace_is_neg_last(x);
    assert(conj_seq(x)[3] == 6 * x[7] - x[3]);
    lemma_adjoint_entries_eval_6(x);
    lemma_mul_form2(adjoint_entry(x, 6, 3), conj_seq(x)[3], 6, x[7], -1, x[3]);
    lemma_mul_comm(adjoint_entry(x, 6, 3), x[7]);
    lemma_mul_comm(adjoint_entry(x, 6, 3), x[3]);
    lemma_mul_comm(x[7], x[0]);
    lemma_mul_comm(x[3], x[0]);
    lemma_mul_comm(x[7], x[1]);
    lemma_mul_comm(x[3], x[1]);
    lemma_mul_comm(x[7], x[2]);
    lemma_mul_comm(x[3], x[2]);
    lemma_mul_comm(x[7], x[3]);
    lemma_mul_comm(x[3], x[3]);
    lemma_mul_comm(x[7], x[4]);
    lemma_mul_comm(x[3], x[4]);
    lemma_mul_comm(x[7], x[5]);
    lemma_mul_comm(x[3], x[5]);
    lemma_mul_comm(x[7], x[6]);
    lemma_mul_comm(x[3], x[6]);
    lemma_mul_comm(x[7], x[7]);
    lemma_mul_comm(x[3], x[7]);
    lemma_mul_form8(x[7], adjoint_entry(x, 6, 3), (0), x[0], (0), x[1], (-2), x[2], (3), x[3], (-2), x[4], (0), x[5], (0), x[6], (0), x[7]);
    lemma_mul_form8(x[3], adjoint_entry(x, 6, 3), (0), x[0], (0), x[1], (-2), x[2], (3), x[3], (-2), x[4], (0), x[5], (0), x[6], (0), x[7]);
}

proof fn lemma_cp_right_term_6_4(x: Seq<int>)
    requires
        is_coeffs(x),
    ensures
        adjoint_entry(x, 6, 4) * conj_seq(x)[4] == (-1) * (x[0] * x[4]) + (5) * (x[0] * x[7]) + (1) * (x[1] * x[4]) + (-5) * (x[1] * x[7]) + (1) * (x[2] * x[4]) + (-5) * (x[2] * x[7]) + (1) * (x[3] * x[4]) + (-5) * (x[3] * x[7]) + (-3) * (x[4] * x[4]) + (1) * (x[4] * x[5]) + (15) * (x[4] * x[7]) + (-5) * (x[5] * x[7]),
{
    lemma_trace_is_neg_last(x);
    assert(conj_seq(x)[4] == 5 * x[7] - x[4]);
    lemma_adjoint_entries_eval_6(x);
    lemma_mul_form2(adjoint_entry(x, 6, 4), conj_seq(x)[4], 5, x[7], -1, x[4]);
    lemma_mul_comm(adjoint_entry(x, 6, 4), x[7]);
    lemma_mul_comm(adjoint_entry(x, 6, 4), x[4]);
    lemma_mul_comm(x[7], x[0]);
    lemma_mul_comm(x[4], x[0]);
    lemma_mul_comm(x[7], x[1]);
    lemma_mul_comm(x[4], x[1]);
    lemma_mul_comm(x[7], x[2]);
    lemma_mul_comm(x[4], x[2]);
    lemma_mul_comm(x[7], x[3]);
    lemma_mul_comm(x[4], x[3]);
    lemma_mul_comm(x[7], x[4]);
    lemma_mul_comm(x[4], x[4]);
    lemma_mul_comm(x[7], x[5]);
    lemma_mul_comm(x[4], x[5]);
    lemma_mul_comm(x[7], x[6]);
    lemma_mul_comm(x[4], x[6]);
    lemma_mul_comm(x[7], x[7]);
    lemma_mul_comm(x[4], x[7]);
    lemma_mul_form8(x[7], adjoint_entry(x, 6, 4), (1), x[0], (-1), x[1], (-1), x[2], (-1), x[3], (3), x[4], (-1), x[5], (0), x[6], (0), x[7]);
    lemma_mul_form8(x[4], adjoint_entry(x, 6, 4), (1), x[0], (-1), x[1], (-1), x[2], (-1), x[3], (3), x[4], (-1), x[5], (0), x[6], (0), x[7]);
}

proof fn lemma_cp_right_term_6_5(x: Seq<int>)
    requires
        is_coeffs(x),
    ensures
        adjoint_entry(x, 6, 5) * conj_seq(x)[5] == (-1) * (x[2] * x[5]) + (4) * (x[2] * x[7]) + (2) * (x[4] * x[5]) + (-8) * (x[4] * x[7]) + (-3) * (x[5] * x[5]) + (2) * (x[5] * x[6]) + (12) * (x[5] * x[7]) + (-8) * (x[6] * x[7]),
{
    lemma_trace_is_neg_last(x);
    assert(conj_seq(x)[5] == 4 * x[7] - x[5]);
    lemma_adjoint_entries_eval_6(x);
    lemma_mul_form2(adjoint_entry(x, 6, 5), conj_seq(x)[5], 4, x[7], -1, x[5]);
    lemma_mul_comm(adjoint_entry(x, 6, 5), x[7]);
    lemma_mul_comm(adjoint_entry(x, 6, 5), x[5]);
    lemma_mul_comm(x[7], x[0]);
    lemma_mul_comm(x[5], x[0]);
    lemma_mul_comm(x[7], x[1]);
    lemma_mul_comm(x[5], x[1]);
    lemma_mul_comm(x[7], x[2]);
    lemma_mul_comm(x[5], x[2]);
    lemma_mul_comm(x[7], x[3]);
    lemma_mul_comm(x[5], x[3]);
    lemma_mul_comm(x[7], x[4]);
    lemma_mul_comm(x[5], x[4]);
    lemma_mul_comm(x[7], x[5]);
    lemma_mul_comm(x[5], x[5]);
    lemma_mul_comm(x[7], x[6]);
    lemma_mul_comm(x[5], x[6]);
    lemma_mul_comm(x[7], x[7]);
    lemma_mul_comm(x[5], x[7]);
    lemma_mul_form8(x[7], adjoint_entry(x, 6, 5), (0), x[0], (0), x[1], (1), x[2], (0), x[3], (-2), x[4], (3), x[5], (-2), x[6], (0), x[7]);
    lemma_mul_form8(x[5], adjoint_entry(x, 6, 5), (0), x[0], (0), x[1], (1), x[2], (0), x[3], (-2), x[4], (3), x[5], (-2), x[6], (0), x[7]);
}

proof fn lemma_cp_right_term_6_6(x: Seq<int>)
    requires
        is_coeffs(x),
    ensures
        adjoint_entry(x, 6, 6) * conj_seq(x)[6] == (1) * (x[0] * x[6]) + (-3) * (x[0] * x[7]) + (1) * (x[5] * x[6]) + (-3) * (x[5] * x[7]) + (-3) * (x[6] * x[6]) + (11) * (x[6] * x[7]) + (-6) * (x[7] * x[7]),
{
    lemma_trace_is_neg_last(x);
    assert(conj_seq(x)[6] == 3 * x[7] - x[6]);
    lemma_adjoint_entries_eval_6(x);
    lemma_mul_form2(adjoint_entry(x, 6, 6), conj_seq(x)[6], 3, x[7], -1, x[6]);
    lemma_mul_comm(adjoint_entry(x, 6, 6), x[7]);
    lemma_mul_comm(adjoint_entry(x, 6, 6), x[6]);
    lemma_mul_comm(x[7], x[0]);
    lemma_mul_comm(x[6], x[0]);
    lemma_mul_comm(x[7], x[1]);
    lemma_mul_comm(x[6], x[1]);
    lemma_mul_comm(x[7], x[2]);
    lemma_mul_comm(x[6], x[2]);
    lemma_mul_comm(x[7], x[3]);
    lemma_mul_comm(x[6], x[3]);
    lemma_mul_comm(x[7], x[4]);
    lemma_mul_comm(x[6], x[4]);
    lemma_mul_comm(x[7], x[5]);
    lemma_mul_comm(x[6], x[5]);
    lemma_mul_comm(x[7], x[6]);
    lemma_mul_comm(x[6], x[6]);
    lemma_mul_comm(x[7], x[7]);
    lemma_mul_comm(x[6], x[7]);
    lemma_mul_form8(x[7], adjoint_entry(x, 6, 6), (-1), x[0], (0), x[1], (0), x[2], (0), x[3], (0), x[4], (-1), x[5], (3), x[6], (-2), x[7]);
    lemma_mul_form8(x[6], adjoint_entry(x, 6, 6), (-1), x[0], (0), x[1], (0), x[2], (0), x[3], (0), x[4], (-1), x[5], (3), x[6], (-2), x[7]);
}

proof fn lemma_cp_right_term_6_7(x: Seq<int>)
    requires
        is_coeffs(x),
    ensures
        adjoint_entry(x, 6, 7) * conj_seq(x)[7] == (-2) * (x[6] * x[7]) + (3) * (x[7] * x[7]),
{
    lemma_trace_is_neg_last(x);
    assert(conj_seq(x)[7] == 2 * x[7] - x[7]);
    lemma_adjoint_entries_eval_6(x);
    lemma_mul_form2(adjoint_entry(x, 6, 7), conj_seq(x)[7], 2, x[7], -1, x[7]);
    lemma_mul_comm(adjoint_entry(x, 6, 7), x[7]);
    lemma_mul_comm(x[7], x[0]);
    lemma_mul_comm(x[7], x[1]);
    lemma_mul_comm(x[7], x[2]);
    lemma_mul_comm(x[7], x[3]);
    lemma_mul_comm(x[7], x[4]);
    lemma_mul_comm(x[7], x[5]);
    lemma_mul_comm(x[7], x[6]);
    lemma_mul_comm(x[7], x[7]);
    lemma_mul_comm(adjoint_entry(x, 6, 7), x[7]);
    lemma_mul_form8(x[7], adjoint_entry(x, 6, 7), (0), x[0], (0), x[1], (0), x[2], (0), x[3], (0), x[4], (0), x[5], (-2), x[6], (3), x[7]);
    lemma_mul_form8(x[7], adjoint_entry(x, 6, 7), (0), x[0], (0), x[1], (0), x[2], (0), x[3], (0), x[4], (0), x[5], (-2), x[6], (3), x[7]);
}

proof fn lemma_cp_right_term_7_0(x: Seq<int>)
    requires
        is_coeffs(x),
    ensures
        adjoint_entry(x, 7, 0) * conj_seq(x)[0] == (-2) * (x[0] * x[0]) + (1) * (x[0] * x[2]) + (4) * (x[0] * x[7]) + (-2) * (x[2] * x[7]),
{
    lemma_trace_is_neg_last(x);
    assert(conj_seq(x)[0] == 2 * x[7] - x[0]);
    lemma_adjoint_entries_eval_7(x);
    lemma_mul_form2(adjoint_entry(x, 7, 0), conj_seq(x)[0], 2, x[7], -1, x[0]);
    lemma_mul_comm(adjoint_entry(x, 7, 0), x[7]);
    lemma_mul_comm(adjoint_entry(x, 7, 0), x[0]);
    lemma_mul_comm(x[7], x[0]);
    lemma_mul_comm(x[0], x[0]);
    lemma_mul_comm(x[7], x[1]);
    lemma_mul_comm(x[0], x[1]);
    lemma_mul_comm(x[7], x[2]);
    lemma_mul_comm(x[0], x[2]);
    lemma_mul_comm(x[7], x[3]);
    lemma_mul_comm(x[0], x[3]);
    lemma_mul_comm(x[7], x[4]);
    lemma_mul_comm(x[0], x[4]);
    lemma_mul_comm(x[7], x[5]);
    lemma_mul_comm(x[0], x[5]);
    lemma_mul_comm(x[7], x[6]);
    lemma_mul_comm(x[0], x[6]);
    lemma_mul_comm(x[7], x[7]);
    lemma_mul_comm(x[0], x[7]);
    lemma_mul_form8(x[7], adjoint_entry(x, 7, 0), (2), x[0], (0), x[1], (-1), x[2], (0), x[3], (0), x[4], (0), x[5], (0), x[6], (0), x[7]);
    lemma_mul_form8(x[0], adjoint_entry(x, 7, 0), (2), x[0], (0), x[1], (-1), x[2], (0), x[3], (0), x[4], (0), x[5], (0), x[6], (0), x[7]);
}

proof fn lemma_cp_right_term_7_1(x: Seq<int>)
    requires
        is_coeffs(x),
    ensures
        adjoint_entry(x, 7, 1) * conj_seq(x)[1] == (-2) * (x[1] * x[1]) + (1) * (x[1] * x[3]) + (6) * (x[1] * x[7]) + (-3) * (x[3] * x[7]),
{
    lemma_trace_is_neg_last(x);
    assert(conj_seq(x)[1] == 3 * x[7] - x[1]);
    lemma_adjoint_entries_eval_7(x);
    lemma_mul_form2(adjoint_entry(x, 7, 1), conj_seq(x)[1], 3, x[7], -1, x[1]);
    lemma_mul_comm(adjoint_entry(x, 7, 1), x[7]);
    lemma_mul_comm(adjoint_entry(x, 7, 1), x[1]);
    lemma_mul_comm(x[7], x[0]);
    lemma_mul_comm(x[1], x[0]);
    lemma_mul_comm(x[7], x[1]);
    lemma_mul_comm(x[1], x[1]);
    lemma_mul_comm(x[7], x[2]);
    lemma_mul_comm(x[1], x[2]);
    lemma_mul_comm(x[7], x[3]);
    lemma_mul_comm(x[1], x[3]);
    lemma_mul_comm(x[7], x[4]);
    lemma_mul_comm(x[1], x[4]);
    lemma_mul_comm(x[7], x[5]);
    lemma_mul_comm(x[1], x[5]);
    lemma_mul_comm(x[7], x[6]);
    lemma_mul_comm(x[1], x[6]);
    lemma_mul_comm(x[7], x[7]);
    lemma_mul_comm(x[1], x[7]);
    lemma_mul_form8(x[7], adjoint_entry(x, 7, 1), (0), x[0], (2), x[1], (0), x[2], (-1), x[3], (0), x[4], (0), x[5], (0), x[6], (0), x[7]);
    lemma_mul_form8(x[1], adjoint_entry(x, 7, 1), (0), x[0], (2), x[1], (0), x[2], (-1), x[3], (0), x[4], (0), x[5], (0), x[6], (0), x[7]);
}

proof fn lemma_cp_right_term_7_2(x: Seq<int>)
    requires
        is_coeffs(x),
    ensures
        adjoint_entry(x, 7, 2) * conj_seq(x)[2] == (1) * (x[0] * x[2]) + (-4) * (x[0] * x[7]) + (-2) * (x[2] * x[2]) + (1) * (x[2] * x[3]) + (8) * (x[2] * x[7]) + (-4) * (x[3] * x[7]),
{
    lemma_trace_is_neg_last(x);
    assert(conj_seq(x)[2] == 4 * x[7] - x[2]);
    lemma_adjoint_entries_eval_7(x);
    lemma_mul_form2(adjoint_entry(x, 7, 2), conj_seq(x)[2], 4, x[7], -1, x[2]);
    lemma_mul_comm(adjoint_entry(x, 7, 2), x[7]);
    lemma_mul_comm(adjoint_entry(x, 7, 2), x[2]);
    lemma_mul_comm(x[7], x[0]);
    lemma_mul_comm(x[2], x[0]);
    lemma_mul_comm(x[7], x[1]);
    lemma_mul_comm(x[2], x[1]);
    lemma_mul_comm(x[7], x[2]);
    lemma_mul_comm(x[2], x[2]);
    lemma_mul_comm(x[7], x[3]);
    lemma_mul_comm(x[2], x[3]);
    lemma_mul_comm(x[7], x[4]);
    lemma_mul_comm(x[2], x[4]);
    lemma_mul_comm(x[7], x[5]);
    lemma_mul_comm(x[2], x[5]);
    lemma_mul_comm(x[7], x[6]);
    lemma_mul_comm(x[2], x[6]);
    lemma_mul_comm(x[7], x[7]);
    lemma_mul_comm(x[2], x[7]);
    lemma_mul_form8(x[7], adjoint_entry(x, 7, 2), (-1), x[0], (0), x[1], (2), x[2], (-1), x[3], (0), x[4], (0), x[5], (0), x[6], (0), x[7]);
    lemma_mul_form8(x[2], adjoint_entry(x, 7, 2), (-1), x[0], (0), x[1], (2), x[2], (-1), x[3], (0), x[4], (0), x[5], (0), x[6], (0), x[7]);
}

proof fn lemma_cp_right_term_7_3(x: Seq<int>)
    requires
        is_coeffs(x),
    ensures
        adjoint_entry(x, 7, 3) * conj_seq(x)[3] == (1) * (x[1] * x[3]) + (-6) * (x[1] * x[7]) + (1) * (x[2] * x[3]) + (-6) * (x[2] * x[7]) + (-2) * (x[3] * x[3]) + (1) * (x[3] * x[4]) + (12) * (x[3] * x[7]) + (-6) * (x[4] * x[7]),
{
    lemma_trace_is_neg_last(x);
    assert(conj_seq(x)[3] == 6 * x[7] - x[3]);
    lemma_adjoint_entries_eval_7(x);
    lemma_mul_form2(adjoint_entry(x, 7, 3), conj_seq(x)[3], 6, x[7], -1, x[3]);
    lemma_mul_comm(adjoint_entry(x, 7, 3), x[7]);
    lemma_mul_comm(adjoint_entry(x, 7, 3), x[3]);
    lemma_mul_comm(x[7], x[0]);
    lemma_mul_comm(x[3], x[0]);
    lemma_mul_comm(x[7], x[1]);
    lemma_mul_comm(x[3], x[1]);
    lemma_mul_comm(x[7], x[2]);
    lemma_mul_comm(x[3], x[2]);
    lemma_mul_comm(x[7], x[3]);
    lemma_mul_comm(x[3], x[3]);
    lemma_mul_comm(x[7], x[4]);
    lemma_mul_comm(x[3], x[4]);
    lemma_mul_comm(x[7], x[5]);
    lemma_mul_comm(x[3], x[5]);
    lemma_mul_comm(x[7], x[6]);
    lemma_mul_comm(x[3], x[6]);
    lemma_mul_comm(x[7], x[7]);
    lemma_mul_comm(x[3], x[7]);
    lemma_mul_form8(x[7], adjoint_entry(x, 7, 3), (0), x[0], (-1), x[1], (-1), x[2], (2), x[3], (-1), x[4], (0), x[5], (0), x[6], (0), x[7]);
    lemma_mul_form8(x[3], adjoint_entry(x, 7, 3), (0), x[0], (-1), x[1], (-1), x[2], (2), x[3], (-1), x[4], (0), x[5], (0), x[6], (0), x[7]);
}

proof fn lemma_cp_right_term_7_4(x: Seq<int>)
    requires
        is_coeffs(x),
    ensures
        adjoint_entry(x, 7, 4) * conj_seq(x)[4] == (1) * (x[3] * x[4]) + (-5) * (x[3] * x[7]) + (-2) * (x[4] * x[4]) + (1) * (x[4] * x[5]) + (10) * (x[4] * x[7]) + (-5) * (x[5] * x[7]),
{
    lemma_trace_is_neg_last(x);
    assert(conj_seq(x)[4] == 5 * x[7] - x[4]);
    lemma_adjoint_entries_eval_7(x);
    lemma_mul_form2(adjoint_entry(x, 7, 4), conj_seq(x)[4], 5, x[7], -1, x[4]);
    lemma_mul_comm(adjoint_entry(x, 7, 4), x[7]);
    lemma_mul_comm(adjoint_entry(x, 7, 4), x[4]);
    lemma_mul_comm(x[7], x[0]);
    lemma_mul_comm(x[4], x[0]);
    lemma_mul_comm(x[7], x[1]);
    lemma_mul_comm(x[4], x[1]);
    lemma_mul_comm(x[7], x[2]);
    lemma_mul_comm(x[4], x[2]);
    lemma_mul_comm(x[7], x[3]);
    lemma_mul_comm(x[4], x[3]);
    lemma_mul_comm(x[7], x[4]);
    lemma_mul_comm(x[4], x[4]);
    lemma_mul_comm(x[7], x[5]);
    lemma_mul_comm(x[4], x[5]);
    lemma_mul_comm(x[7], x[6]);
    lemma_mul_comm(x[4], x[6]);
    lemma_mul_comm(x[7], x[7]);
    lemma_mul_comm(x[4], x[7]);
    lemma_mul_form8(x[7], adjoint_entry(x, 7, 4), (0), x[0], (0), x[1], (0), x[2], (-1), x[3], (2), x[4], (-1), x[5], (0), x[6], (0), x[7]);
    lemma_mul_form8(x[4], adjoint_entry(x, 7, 4), (0), x[0], (0), x[1], (0), x[2], (-1), x[3], (2), x[4], (-1), x[5], (0), x[6], (0), x[7]);
}

proof fn lemma_cp_right_term_7_5(x: Seq<int>)
    requires
        is_coeffs(x),
    ensures
        adjoint_entry(x, 7, 5) * conj_seq(x)[5] == (1) * (x[4] * x[5]) + (-4) * (x[4] * x[7]) + (-2) * (x[5] * x[5]) + (1) * (x[5] * x[6]) + (8) * (x[5] * x[7]) + (-4) * (x[6] * x[7]),
{
    lemma_trace_is_neg_last(x);
    assert(conj_seq(x)[5] == 4 * x[7] - x[5]);
    lemma_adjoint_entries_eval_7(x);
    lemma_mul_form2(adjoint_entry(x, 7, 5), conj_seq(x)[5], 4, x[7], -1, x[5]);
    lemma_mul_comm(adjoint_entry(x, 7, 5), x[7]);
    lemma_mul_comm(adjoint_entry(x, 7, 5), x[5]);
    lemma_mul_comm(x[7], x[0]);
    lemma_mul_comm(x[5], x[0]);
    lemma_mul_comm(x[7], x[1]);
    lemma_mul_comm(x[5], x[1]);
    lemma_mul_comm(x[7], x[2]);
    lemma_mul_comm(x[5], x[2]);
    lemma_mul_comm(x[7], x[3]);
    lemma_mul_comm(x[5], x[3]);
    lemma_mul_comm(x[7], x[4]);
    lemma_mul_comm(x[5], x[4]);
    lemma_mul_comm(x[7], x[5]);
    lemma_mul_comm(x[5], x[5]);
    lemma_mul_comm(x[7], x[6]);
    lemma_mul_comm(x[5], x[6]);
    lemma_mul_comm(x[7], x[7]);
    lemma_mul_comm(x[5], x[7]);
    lemma_mul_form8(x[7], adjoint_entry(x, 7, 5), (0), x[0], (0), x[1], (0), x[2], (0), x[3], (-1), x[4], (2), x[5], (-1), x[6], (0), x[7]);
    lemma_mul_form8(x[5], adjoint_entry(x, 7, 5), (0), x[0], (0), x[1], (0), x[2], (0), x[3], (-1), x[4], (2), x[5], (-1), x[6], (0), x[7]);
}

proof fn lemma_cp_right_term_7_6(x: Seq<int>)
    requires
        is_coeffs(x),
    ensures
        adjoint_entry(x, 7, 6) * conj_seq(x)[6] == (1) * (x[5] * x[6]) + (-3) * (x[5] * x[7]) + (-2) * (x[6] * x[6]) + (7) * (x[6] * x[7]) + (-3) * (x[7] * x[7]),
{
    lemma_trace_is_neg_last(x);
    assert(conj_seq(x)[6] == 3 * x[7] - x[6]);
    lemma_adjoint_entries_eval_7(x);
    lemma_mul_form2(adjoint_entry(x, 7, 6), conj_seq(x)[6], 3, x[7], -1, x[6]);
    lemma_mul_comm(adjoint_entry(x, 7, 6), x[7]);
    lemma_mul_comm(adjoint_entry(x, 7, 6), x[6]);
    lemma_mul_comm(x[7], x[0]);
    lemma_mul_comm(x[6], x[0]);
    lemma_mul_comm(x[7], x[1]);
    lemma_mul_comm(x[6], x[1]);
    lemma_mul_comm(x[7], x[2]);
    lemma_mul_comm(x[6], x[2]);
    lemma_mul_comm(x[7], x[3]);
    lemma_mul_comm(x[6], x[3]);
    lemma_mul_comm(x[7], x[4]);
    lemma_mul_comm(x[6], x[4]);
    lemma_mul_comm(x[7], x[5]);
    lemma_mul_comm(x[6], x[5]);
    lemma_mul_comm(x[7], x[6]);
    lemma_mul_comm(x[6], x[6]);
    lemma_mul_comm(x[7], x[7]);
    lemma_mul_comm(x[6], x[7]);
    lemma_mul_form8(x[7], adjoint_entry(x, 7, 6), (0), x[0], (0), x[1], (0), x[2], (0), x[3], (0), x[4], (-1), x[5], (2), x[6], (-1), x[7]);
    lemma_mul_form8(x[6], adjoint_entry(x, 7, 6), (0), x[0], (0), x[1], (0), x[2], (0), x[3], (0), x[4], (-1), x[5], (2), x[6], (-1), x[7]);
}

proof fn lemma_cp_right_term_7_7(x: Seq<int>)
    requires
        is_coeffs(x),
    ensures
        adjoint_entry(x, 7, 7) * conj_seq(x)[7] == (-1) * (x[6] * x[7]) + (1) * (x[7] * x[7]),
{
    lemma_trace_is_neg_last(x);
    assert(conj_seq(x)[7] == 2 * x[7] - x[7]);
    lemma_adjoint_entries_eval_7(x);
    lemma_mul_form2(adjoint_entry(x, 7, 7), conj_seq(x)[7], 2, x[7], -1, x[7]);
    lemma_mul_comm(adjoint_entry(x, 7, 7), x[7]);
    lemma_mul_comm(x[7], x[0]);
    lemma_mul_comm(x[7], x[1]);
    lemma_mul_comm(x[7], x[2]);
    lemma_mul_comm(x[7], x[3]);
    lemma_mul_comm(x[7], x[4]);
    lemma_mul_comm(x[7], x[5]);
    lemma_mul_comm(x[7], x[6]);
    lemma_mul_comm(x[7], x[7]);
    lemma_mul_comm(adjoint_entry(x, 7, 7), x[7]);
    lemma_mul_form8(x[7], adjoint_entry(x, 7, 7), (0), x[0], (0), x[1], (0), x[2], (0), x[3], (0), x[4], (0), x[5], (-1), x[6], (1), x[7]);
    lemma_mul_form8(x[7], adjoint_entry(x, 7, 7), (0), x[0], (0), x[1], (0), x[2], (0), x[3], (0), x[4], (0), x[5], (-1), x[6], (1), x[7]);
}

/// Coefficient `0` of `x * conj(x)` equals the matching coefficient of
/// the identity scaled by the norm of `x`.
proof fn lemma_conjugate_product_entry_0(x: Seq<int>)
    requires
        is_coeffs(x),
    ensures
        mul_entry(x, conj_seq(x), 0) == identity_seq()[0] * norm_spec(x),
{
    let c = conj_seq(x);
    lemma_inner_self_even(x);
    lemma_mul_entry_unroll(x, c, 0);
    lemma_cp_right_term_0_0(x);
    lemma_cp_right_term_0_1(x);
    lemma_cp_right_term_0_2(x);
    lemma_cp_right_term_0_3(x);
    lemma_cp_right_term_0_4(x);
    lemma_cp_right_term_0_5(x);
    lemma_cp_right_term_0_6(x);
    lemma_cp_right_term_0_7(x);
    assert(mul_entry(x, c, 0) == (-2) * (x[0] * x[0]) + (2) * (x[0] * x[2]) + (-2) * (x[1] * x[1]) + (2) * (x[1] * x[3]) + (-2) * (x[2] * x[2]) + (2) * (x[2] * x[3]) + (-2) * (x[3] * x[3]) + (2) * (x[3] * x[4]) + (-2) * (x[4] * x[4]) + (2) * (x[4] * x[5]) + (-2) * (x[5] * x[5]) + (2) * (x[5] * x[6]) + (-2) * (x[6] * x[6]) + (2) * (x[6] * x[7]) + (-2) * (x[7] * x[7]));
}

/// Coefficient `1` of `x * conj(x)` equals the matching coefficient of
/// the identity scaled by the norm of `x`.
proof fn lemma_conjugate_product_entry_1(x: Seq<int>)
    requires
        is_coeffs(x),
    ensures
        mul_entry(x, conj_seq(x), 1) == identity_seq()[1] * norm_spec(x),
{
    let c = conj_seq(x);
    lemma_inner_self_even(x);
    lemma_mul_entry_unroll(x, c, 1);
    lemma_cp_right_term_1_0(x);
    lemma_cp_right_term_1_1(x);
    lemma_cp_right_term_1_2(x);
    lemma_cp_right_term_1_3(x);
    lemma_cp_right_term_1_4(x);
    lemma_cp_right_term_1_5(x);
    lemma_cp_right_term_1_6(x);
    lemma_cp_right_term_1_7(x);
    assert(mul_entry(x, c, 1) == (-3) * (x[0] * x[0]) + (3) * (x[0] * x[2]) + (-3) * (x[1] * x[1]) + (3) * (x[1] * x[3]) + (-3) * (x[2] * x[2]) + (3) * (x[2] * x[3]) + (-3) * (x[3] * x[3]) + (3) * (x[3] * x[4]) + (-3) * (x[4] * x[4]) + (3) * (x[4] * x[5]) + (-3) * (x[5] * x[5]) + (3) * (x[5] * x[6]) + (-3) * (x[6] * x[6]) + (3) * (x[6] * x[7]) + (-3) * (x[7] * x[7]));
}

/// Coefficient `2` of `x * conj(x)` equals the matching coefficient of
/// the identity scaled by the norm of `x`.
proof fn lemma_conjugate_product_entry_2(x: Seq<int>)
    requires
        is_coeffs(x),
    ensures
        mul_entry(x, conj_seq(x), 2) == identity_seq()[2] * norm_spec(x),
{
    let c = conj_seq(x);
    lemma_inner_self_even(x);
    lemma_mul_entry_unroll(x, c, 2);
    lemma_cp_right_term_2_0(x);
    lemma_cp_right_term_2_1(x);
    lemma_cp_right_term_2_2(x);
    lemma_cp_right_term_2_3(x);
    lemma_cp_right_term_2_4(x);
    lemma_cp_right_term_2_5(x);
    lemma_cp_right_term_2_6(x);
    lemma_cp_right_term_2_7(x);
    assert(mul_entry(x, c, 2) == (-4) * (x[0] * x[0]) + (4) * (x[0] * x[2]) + (-4) * (x[1] * x[1]) + (4) * (x[1] * x[3]) + (-4) * (x[2] * x[2]) + (4) * (x[2] * x[3]) + (-4) * (x[3] * x[3]) + (4) * (x[3] * x[4]) + (-4) * (x[4] * x[4]) + (4) * (x[4] * x[5]) + (-4) * (x[5] * x[5]) + (4) * (x[5] * x[6]) + (-4) * (x[6] * x[6]) + (4) * (x[6] * x[7]) + (-4) * (x[7] * x[7]));
}

/// Coefficient `3` of `x * conj(x)` equals the matching coefficient of
/// the identity scaled by the norm of `x`.
proof fn lemma_conjugate_product_entry_3(x: Seq<int>)
    requires
        is_coeffs(x),
    ensures
        mul_entry(x, conj_seq(x), 3) == identity_seq()[3] * norm_spec(x),
{
    let c = conj_seq(x);
    lemma_inner_self_even(x);
    lemma_mul_entry_unroll(x, c, 3);
    lemma_cp_right_term_3_0(x);
    lemma_cp_right_term_3_1(x);
    lemma_cp_right_term_3_2(x);
    lemma_cp_right_term_3_3(x);
    lemma_cp_right_term_3_4(x);
    lemma_cp_right_term_3_5(x);
    lemma_cp_right_term_3_6(x);
    lemma_cp_right_term_3_7(x);
    assert(mul_entry(x, c, 3) == (-6) * (x[0] * x[0]) + (6) * (x[0] * x[2]) + (-6) * (x[1] * x[1]) + (6) * (x[1] * x[3]) + (-6) * (x[2] * x[2]) + (6) * (x[2] * x[3]) + (-6) * (x[3] * x[3]) + (6) * (x[3] * x[4]) + (-6) * (x[4] * x[4]) + (6) * (x[4] * x[5]) + (-6) * (x[5] * x[5]) + (6) * (x[5] * x[6]) + (-6) * (x[6] * x[6]) + (6) * (x[6] * x[7]) + (-6) * (x[7] * x[7]));
}

/// Coefficient `4` of `x * conj(x)` equals the matching coefficient of
/// the identity scaled by the norm of `x`.
proof fn lemma_conjugate_product_entry_4(x: Seq<int>)
    requires
        is_coeffs(x),
    ensures
        mul_entry(x, conj_seq(x), 4) == identity_seq()[4] * norm_spec(x),
{
    let c = conj_seq(x);
    lemma_inner_self_even(x);
    lemma_mul_entry_unroll(x, c, 4);
    lemma_cp_right_term_4_0(x);
    lemma_cp_right_term_4_1(x);
    lemma_cp_right_term_4_2(x);
    lemma_cp_right_term_4_3(x);
    lemma_cp_right_term_4_4(x);
    lemma_cp_right_term_4_5(x);
    lemma_cp_right_term_4_6(x);
    lemma_cp_right_term_4_7(x);
    assert(mul_entry(x, c, 4) == (-5) * (x[0] * x[0]) + (5) * (x[0] * x[2]) + (-5) * (x[1] * x[1]) + (5) * (x[1] * x[3]) + (-5) * (x[2] * x[2]) + (5) * (x[2] * x[3]) + (-5) * (x[3] * x[3]) + (5) * (x[3] * x[4]) + (-5) * (x[4] * x[4]) + (5) * (x[4] * x[5]) + (-5) * (x[5] * x[5]) + (5) * (x[5] * x[6]) + (-5) * (x[6] * x[6]) + (5) * (x[6] * x[7]) + (-5) * (x[7] * x[7]));
}

/// Coefficient `5` of `x * conj(x)` equals the matching coefficient of
/// the identity scaled by the norm of `x`.
proof fn lemma_conjugate_product_entry_5(x: Seq<int>)
    requires
        is_coeffs(x),
    ensures
        mul_entry(x, conj_seq(x), 5) == identity_seq()[5] * norm_spec(x),
{
    let c = conj_seq(x);
    lemma_inner_self_even(x);
    lemma_mul_entry_unroll(x, c, 5);
    lemma_cp_right_term_5_0(x);
    lemma_cp_right_term_5_1(x);
    lemma_cp_right_term_5_2(x);
    lemma_cp_right_term_5_3(x);
    lemma_cp_right_term_5_4(x);
    lemma_cp_right_term_5_5(x);
    lemma_cp_right_term_5_6(x);
    lemma_cp_right_term_5_7(x);
    assert(mul_entry(x, c, 5) == (-4) * (x[0] * x[0]) + (4) * (x[0] * x[2]) + (-4) * (x[1] * x[1]) + (4) * (x[1] * x[3]) + (-4) * (x[2] * x[2]) + (4) * (x[2] * x[3]) + (-4) * (x[3] * x[3]) + (4) * (x[3] * x[4]) + (-4) * (x[4] * x[4]) + (4) * (x[4] * x[5]) + (-4) * (x[5] * x[5]) + (4) * (x[5] * x[6]) + (-4) * (x[6] * x[6]) + (4) * (x[6] * x[7]) + (-4) * (x[7] * x[7]));
}

/// Coefficient `6` of `x * conj(x)` equals the matching coefficient of
/// the identity scaled by the norm of `x`.
proof fn lemma_conjugate_product_entry_6(x: Seq<int>)
    requires
        is_coeffs(x),
    ensures
        mul_entry(x, conj_seq(x), 6) == identity_seq()[6] * norm_spec(x),
{
    let c = conj_seq(x);
    lemma_inner_self_even(x);
    lemma_mul_entry_unroll(x, c, 6);
    lemma_cp_right_term_6_0(x);
    lemma_cp_right_term_6_1(x);
    lemma_cp_right_term_6_2(x);
    lemma_cp_right_term_6_3(x);
    lemma_cp_right_term_6_4(x);
    lemma_cp_right_term_6_5(x);
    lemma_cp_right_term_6_6(x);
    lemma_cp_right_term_6_7(x);
    assert(mul_entry(x, c, 6) == (-3) * (x[0] * x[0]) + (3) * (x[0] * x[2]) + (-3) * (x[1] * x[1]) + (3) * (x[1] * x[3]) + (-3) * (x[2] * x[2]) + (3) * (x[2] * x[3]) + (-3) * (x[3] * x[3]) + (3) * (x[3] * x[4]) + (-3) * (x[4] * x[4]) + (3) * (x[4] * x[5]) + (-3) * (x[5] * x[5]) + (3) * (x[5] * x[6]) + (-3) * (x[6] * x[6]) + (3) * (x[6] * x[7]) + (-3) * (x[7] * x[7]));
}

/// Coefficient `7` of `x * conj(x)` equals the matching coefficient of
/// the identity scaled by the norm of `x`.
proof fn lemma_conjugate_product_entry_7(x: Seq<int>)
    requires
        is_coeffs(x),
    ensures
        mul_entry(x, conj_seq(x), 7) == identity_seq()[7] * norm_spec(x),
{
    let c = conj_seq(x);
    lemma_inner_self_even(x);
    lemma_mul_entry_unroll(x, c, 7);
    lemma_cp_right_term_7_0(x);
    lemma_cp_right_term_7_1(x);
    lemma_cp_right_term_7_2(x);
    lemma_cp_right_term_7_3(x);
    lemma_cp_right_term_7_4(x);
    lemma_cp_right_term_7_5(x);
    lemma_cp_right_term_7_6(x);
    lemma_cp_right_term_7_7(x);
    assert(mul_entry(x, c, 7) == (-2) * (x[0] * x[0]) + (2) * (x[0] * x[2]) + (-2) * (x[1] * x[1]) + (2) * (x[1] * x[3]) + (-2) * (x[2] * x[2]) + (2) * (x[2] * x[3]) + (-2) * (x[3] * x[3]) + (2) * (x[3] * x[4]) + (-2) * (x[4] * x[4]) + (2) * (x[4] * x[5]) + (-2) * (x[5] * x[5]) + (2) * (x[5] * x[6]) + (-2) * (x[6] * x[6]) + (2) * (x[6] * x[7]) + (-2) * (x[7] * x[7]));
}

proof fn lemma_cp_left_term_0_0(x: Seq<int>)
    requires
        is_coeffs(x),
    ensures
        adjoint_entry(conj_seq(x), 0, 0) * x[0] == (-2) * (x[0] * x[0]) + (-1) * (x[0] * x[1]) + (1) * (x[0] * x[2]) + (1) * (x[0] * x[4]) + (-1) * (x[0] * x[6]),
{
    lemma_trace_is_neg_last(x);
    assert(conj_seq(x)[0] == 2 * x[7] - x[0]);
    assert(conj_seq(x)[1] == 3 * x[7] - x[1]);
    assert(conj_seq(x)[2] == 4 * x[7] - x[2]);
    assert(conj_seq(x)[3] == 6 * x[7] - x[3]);
    assert(conj_seq(x)[4] == 5 * x[7] - x[4]);
    assert(conj_seq(x)[5] == 4 * x[7] - x[5]);
    assert(conj_seq(x)[6] == 3 * x[7] - x[6]);
    assert(conj_seq(x)[7] == 2 * x[7] - x[7]);
    lemma_adjoint_entries_eval_0(conj_seq(x));
    assert(adjoint_entry(conj_seq(x), 0, 0) == (2) * conj_seq(x)[0] + (1) * conj_seq(x)[1] + (-1) * conj_seq(x)[2] + (0) * conj_seq(x)[3] + (-1) * conj_seq(x)[4] + (0) * conj_seq(x)[5] + (1) * conj_seq(x)[6] + (-1) * conj_seq(x)[7]);
    assert(adjoint_entry(conj_seq(x), 0, 0) == (-2) * x[0] + (-1) * x[1] + (1) * x[2] + (0) * x[3] + (1) * x[4] + (0) * x[5] + (-1) * x[6] + (0) * x[7]);
    lemma_mul_comm(adjoint_entry(conj_seq(x), 0, 0), x[0]);
    lemma_mul_comm(x[0], x[0]);
    lemma_mul_comm(x[0], x[1]);
    lemma_mul_comm(x[0], x[2]);
    lemma_mul_comm(x[0], x[3]);
    lemma_mul_comm(x[0], x[4]);
    lemma_mul_comm(x[0], x[5]);
    lemma_mul_comm(x[0], x[6]);
    lemma_mul_comm(x[0], x[7]);
    lemma_mul_form8(x[0], adjoint_entry(conj_seq(x), 0, 0), (-2), x[0], (-1), x[1], (1), x[2], (0), x[3], (1), x[4], (0), x[5], (-1), x[6], (0), x[7]);
}

proof fn lemma_cp_left_term_0_1(x: Seq<int>)
    requires
        is_coeffs(x),
    ensures
        adjoint_entry(conj_seq(x), 0, 1) * x[1] == (1) * (x[0] * x[1]) + (-2) * (x[1] * x[1]) + (-2) * (x[1] * x[2]) + (2) * (x[1] * x[3]),
{
    lemma_trace_is_neg_last(x);
    assert(conj_seq(x)[0] == 2 * x[7] - x[0]);
    assert(conj_seq(x)[1] == 3 * x[7] - x[1]);
    assert(conj_seq(x)[2] == 4 * x[7] - x[2]);
    assert(conj_seq(x)[3] == 6 * x[7] - x[3]);
    assert(conj_seq(x)[4] == 5 * x[7] - x[4]);
    assert(conj_seq(x)[5] == 4 * x[7] - x[5]);
    assert(conj_seq(x)[6] == 3 * x[7] - x[6]);
    assert(conj_seq(x)[7] == 2 * x[7] - x[7]);
    lemma_adjoint_entries_eval_0(conj_seq(x));
    assert(adjoint_entry(conj_seq(x), 0, 1) == (-1) * conj_seq(x)[0] + (2) * conj_seq(x)[1] + (2) * conj_seq(x)[2] + (-2) * conj_seq(x)[3] + (0) * conj_seq(x)[4] + (0) * conj_seq(x)[5] + (0) * conj_seq(x)[6] + (0) * conj_seq(x)[7]);
    assert(adjoint_entry(conj_seq(x), 0, 1) == (1) * x[0] + (-2) * x[1] + (-2) * x[2] + (2) * x[3] + (0) * x[4] + (0) * x[5] + (0) * x[6] + (0) * x[7]);
    lemma_mul_comm(adjoint_entry(conj_seq(x), 0, 1), x[1]);
    lemma_mul_comm(x[1], x[0]);
    lemma_mul_comm(x[1], x[1]);
    lemma_mul_comm(x[1], x[2]);
    lemma_mul_comm(x[1], x[3]);
    lemma_mul_comm(x[1], x[4]);
    lemma_mul_comm(x[1], x[5]);
    lemma_mul_comm(x[1], x[6]);
    lemma_mul_comm(x[1], x[7]);
    lemma_mul_form8(x[1], adjoint_entry(conj_seq(x), 0, 1), (1), x[0], (-2), x[1], (-2), x[2], (2), x[3], (0), x[4], (0), x[5], (0), x[6], (0), x[7]);
}

proof fn lemma_cp_left_term_0_2(x: Seq<int>)
    requires
        is_coeffs(x),
    ensures
        adjoint_entry(conj_seq(x), 0, 2) * x[2] == (1) * (x[0] * x[2]) + (2) * (x[1] * x[2]) + (-2) * (x[2] * x[2]),
{
    lemma_trace_is_neg_last(x);
    assert(conj_seq(x)[0] == 2 * x[7] - x[0]);
    assert(conj_seq(x)[1] == 3 * x[7] - x[1]);
    assert(conj_seq(x)[2] == 4 * x[7] - x[2]);
    assert(conj_seq(x)[3] == 6 * x[7] - x[3]);
    assert(conj_seq(x)[4] == 5 * x[7] - x[4]);
    assert(conj_seq(x)[5] == 4 * x[7] - x[5]);
    assert(conj_seq(x)[6] == 3 * x[7] - x[6]);
    assert(conj_seq(x)[7] == 2 * x[7] - x[7]);
    lemma_adjoint_entries_eval_0(conj_seq(x));
    assert(adjoint_entry(conj_seq(x), 0, 2) == (-1) * conj_seq(x)[0] + (-2) * conj_seq(x)[1] + (2) * conj_seq(x)[2] + (0) * conj_seq(x)[3] + (0) * conj_seq(x)[4] + (0) * conj_seq(x)[5] + (0) * conj_seq(x)[6] + (0) * conj_seq(x)[7]);
    assert(adjoint_entry(conj_seq(x), 0, 2) == (1) * x[0] + (2) * x[1] + (-2) * x[2] + (0) * x[3] + (0) * x[4] + (0) * x[5] + (0) * x[6] + (0) * x[7]);
    lemma_mul_comm(adjoint_entry(conj_seq(x), 0, 2), x[2]);
    lemma_mul_comm(x[2], x[0]);
    lemma_mul_comm(x[2], x[1]);
    lemma_mul_comm(x[2], x[2]);
    lemma_mul_comm(x[2], x[3]);
    lemma_mul_comm(x[2], x[4]);
    lemma_mul_comm(x[2], x[5]);
    lemma_mul_comm(x[2], x[6]);
    lemma_mul_comm(x[2], x[7]);
    lemma_mul_form8(x[2], adjoint_entry(conj_seq(x), 0, 2), (1), x[0], (2), x[1], (-2), x[2], (0), x[3], (0), x[4], (0), x[5], (0), x[6], (0), x[7]);
}

proof fn lemma_cp_left_term_0_3(x: Seq<int>)
    requires
        is_coeffs(x),
    ensures
        adjoint_entry(conj_seq(x), 0, 3) * x[3] == (2) * (x[2] * x[3]) + (-2) * (x[3] * x[3]) + (1) * (x[3] * x[5]),
{
    lemma_trace_is_neg_last(x);
    assert(conj_seq(x)[0] == 2 * x[7] - x[0]);
    assert(conj_seq(x)[1] == 3 * x[7] - x[1]);
    assert(conj_seq(x)[2] == 4 * x[7] - x[2]);
    assert(conj_seq(x)[3] == 6 * x[7] - x[3]);
    assert(conj_seq(x)[4] == 5 * x[7] - x[4]);
    assert(conj_seq(x)[5] == 4 * x[7] - x[5]);
    assert(conj_seq(x)[6] == 3 * x[7] - x[6]);
    assert(conj_seq(x)[7] == 2 * x[7] - x[7]);
    lemma_adjoint_entries_eval_0(conj_seq(x));
    assert(adjoint_entry(conj_seq(x), 0, 3) == (0) * conj_seq(x)[0] + (0) * conj_seq(x)[1] + (-2) * conj_seq(x)[2] + (2) * conj_seq(x)[3] + (0) * conj_seq(x)[4] + (-1) * conj_seq(x)[5] + (0) * conj_seq(x)[6] + (0) * conj_seq(x)[7]);
    assert(adjoint_entry(conj_seq(x), 0, 3) == (0) * x[0] + (0) * x[1] + (2) * x[2] + (-2) * x[3] + (0) * x[4] + (1) * x[5] + (0) * x[6] + (0) * x[7]);
    lemma_mul_comm(adjoint_entry(conj_seq(x), 0, 3), x[3]);
    lemma_mul_comm(x[3], x[0]);
    lemma_mul_comm(x[3], x[1]);
    lemma_mul_comm(x[3], x[2]);
    lemma_mul_comm(x[3], x[3]);
    lemma_mul_comm(x[3], x[4]);
    lemma_mul_comm(x[3], x[5]);
    lemma_mul_comm(x[3], x[6]);
    lemma_mul_comm(x[3], x[7]);
    lemma_mul_form8(x[3], adjoint_entry(conj_seq(x), 0, 3), (0), x[0], (0), x[1], (2), x[2], (-2), x[3], (0), x[4], (1), x[5], (0), x[6], (0), x[7]);
}

proof fn lemma_cp_left_term_0_4(x: Seq<int>)
    requires
        is_coeffs(x),
    ensures
        adjoint_entry(conj_seq(x), 0, 4) * x[4] == (-1) * (x[0] * x[4]) + (2) * (x[3] * x[4]) + (-2) * (x[4] * x[4]),
{
    lemma_trace_is_neg_last(x);
    assert(conj_seq(x)[0] == 2 * x[7] - x[0]);
    assert(conj_seq(x)[1] == 3 * x[7] - x[1]);
    assert(conj_seq(x)[2] == 4 * x[7] - x[2]);
    assert(conj_seq(x)[3] == 6 * x[7] - x[3]);
    assert(conj_seq(x)[4] == 5 * x[7] - x[4]);
    assert(conj_seq(x)[5] == 4 * x[7] - x[5]);
    assert(conj_seq(x)[6] == 3 * x[7] - x[6]);
    assert(conj_seq(x)[7] == 2 * x[7] - x[7]);
    lemma_adjoint_entries_eval_0(conj_seq(x));
    assert(adjoint_entry(conj_seq(x), 0, 4) == (1) * conj_seq(x)[0] + (0) * conj_seq(x)[1] + (0) * conj_seq(x)[2] + (-2) * conj_seq(x)[3] + (2) * conj_seq(x)[4] + (0) * conj_seq(x)[5] + (0) * conj_seq(x)[6] + (0) * conj_seq(x)[7]);
    assert(adjoint_entry(conj_seq(x), 0, 4) == (-1) * x[0] + (0) * x[1] + (0) * x[2] + (2) * x[3] + (-2) * x[4] + (0) * x[5] + (0) * x[6] + (0) * x[7]);
    lemma_mul_comm(adjoint_entry(conj_seq(x), 0, 4), x[4]);
    lemma_mul_comm(x[4], x[0]);
    lemma_mul_comm(x[4], x[1]);
    lemma_mul_comm(x[4], x[2]);
    lemma_mul_comm(x[4], x[3]);
    lemma_mul_comm(x[4], x[4]);
    lemma_mul_comm(x[4], x[5]);
    lemma_mul_comm(x[4], x[6]);
    lemma_mul_comm(x[4], x[7]);
    lemma_mul_form8(x[4], adjoint_entry(conj_seq(x), 0, 4), (-1), x[0], (0), x[1], (0), x[2], (2), x[3], (-2), x[4], (0), x[5], (0), x[6], (0), x[7]);
}

proof fn lemma_cp_left_term_0_5(x: Seq<int>)
    requires
        is_coeffs(x),
    ensures
        adjoint_entry(conj_seq(x), 0, 5) * x[5] == (-1) * (x[3] * x[5]) + (2) * (x[4] * x[5]) + (-2) * (x[5] * x[5]) + (2) * (x[5] * x[6]) + (-1) * (x[5] * x[7]),
{
    lemma_trace_is_neg_last(x);
    assert(conj_seq(x)[0] == 2 * x[7] - x[0]);
    assert(conj_seq(x)[1] == 3 * x[7] - x[1]);
    assert(conj_seq(x)[2] == 4 * x[7] - x[2]);
    assert(conj_seq(x)[3] == 6 * x[7] - x[3]);
    assert(conj_seq(x)[4] == 5 * x[7] - x[4]);
    assert(conj_seq(x)[5] == 4 * x[7] - x[5]);
    assert(conj_seq(x)[6] == 3 * x[7] - x[6]);
    assert(conj_seq(x)[7] == 2 * x[7] - x[7]);
    lemma_adjoint_entries_eval_0(conj_seq(x));
    assert(adjoint_entry(conj_seq(x), 0, 5) == (0) * conj_seq(x)[0] + (0) * conj_seq(x)[1] + (0) * conj_seq(x)[2] + (1) * conj_seq(x)[3] + (-2) * conj_seq(x)[4] + (2) * conj_seq(x)[5] + (-2) * conj_seq(x)[6] + (1) * conj_seq(x)[7]);
    assert(adjoint_entry(conj_seq(x), 0, 5) == (0) * x[0] + (0) * x[1] + (0) * x[2] + (-1) * x[3] + (2) * x[4] + (-2) * x[5] + (2) * x[6] + (-1) * x[7]);
    lemma_mul_comm(adjoint_entry(conj_seq(x), 0, 5), x[5]);
    lemma_mul_comm(x[5], x[0]);
    lemma_mul_comm(x[5], x[1]);
    lemma_mul_comm(x[5], x[2]);
    lemma_mul_comm(x[5], x[3]);
    lemma_mul_comm(x[5], x[4]);
    lemma_mul_comm(x[5], x[5]);
    lemma_mul_comm(x[5], x[6]);
    lemma_mul_comm(x[5], x[7]);
    lemma_mul_form8(x[5], adjoint_entry(conj_seq(x), 0, 5), (0), x[0], (0), x[1], (0), x[2], (-1), x[3], (2), x[4], (-2), x[5], (2), x[6], (-1), x[7]);
}

proof fn lemma_cp_left_term_0_6(x: Seq<int>)
    requires
        is_coeffs(x),
    ensures
        adjoint_entry(conj_seq(x), 0, 6) * x[6] == (1) * (x[0] * x[6]) + (-2) * (x[6] * x[6]) + (2) * (x[6] * x[7]),
{
    lemma_trace_is_neg_last(x);
    assert(conj_seq(x)[0] == 2 * x[7] - x[0]);
    assert(conj_seq(x)[1] == 3 * x[7] - x[1]);
    assert(conj_seq(x)[2] == 4 * x[7] - x[2]);
    assert(conj_seq(x)[3] == 6 * x[7] - x[3]);
    assert(conj_seq(x)[4] == 5 * x[7] - x[4]);
    assert(conj_seq(x)[5] == 4 * x[7] - x[5]);
    assert(conj_seq(x)[6] == 3 * x[7] - x[6]);
    assert(conj_seq(x)[7] == 2 * x[7] - x[7]);
    lemma_adjoint_entries_eval_0(conj_seq(x));
    assert(adjoint_entry(conj_seq(x), 0, 6) == (-1) * conj_seq(x)[0] + (0) * conj_seq(x)[1] + (0) * conj_seq(x)[2] + (0) * conj_seq(x)[3] + (0) * conj_seq(x)[4] + (0) * conj_seq(x)[5] + (2) * conj_seq(x)[6] + (-2) * conj_seq(x)[7]);
    assert(adjoint_entry(conj_seq(x), 0, 6) == (1) * x[0] + (0) * x[1] + (0) * x[2] + (0) * x[3] + (0) * x[4] + (0) * x[5] + (-2) * x[6] + (2) * x[7]);
    lemma_mul_comm(adjoint_entry(conj_seq(x), 0, 6), x[6]);
    lemma_mul_comm(x[6], x[0]);
    lemma_mul_comm(x[6], x[1]);
    lemma_mul_comm(x[6], x[2]);
    lemma_mul_comm(x[6], x[3]);
    lemma_mul_comm(x[6], x[4]);
    lemma_mul_comm(x[6], x[5]);
    lemma_mul_comm(x[6], x[6]);
    lemma_mul_comm(x[6], x[7]);
    lemma_mul_form8(x[6], adjoint_entry(conj_seq(x), 0, 6), (1), x[0], (0), x[1], (0), x[2], (0), x[3], (0), x[4], (0), x[5], (-2), x[6], (2), x[7]);
}

proof fn lemma_cp_left_term_0_7(x: Seq<int>)
    requires
        is_coeffs(x),
    ensures
        adjoint_entry(conj_seq(x), 0, 7) * x[7] == (1) * (x[5] * x[7]) + (-2) * (x[7] * x[7]),
{
    lemma_trace_is_neg_last(x);
    assert(conj_seq(x)[0] == 2 * x[7] - x[0]);
    assert(conj_seq(x)[1] == 3 * x[7] - x[1]);
    assert(conj_seq(x)[2] == 4 * x[7] - x[2]);
    assert(conj_seq(x)[3] == 6 * x[7] - x[3]);
    assert(conj_seq(x)[4] == 5 * x[7] - x[4]);
    assert(conj_seq(x)[5] == 4 * x[7] - x[5]);
    assert(conj_seq(x)[6] == 3 * x[7] - x[6]);
    assert(conj_seq(x)[7] == 2 * x[7] - x[7]);
    lemma_adjoint_entries_eval_0(conj_seq(x));
    assert(adjoint_entry(conj_seq(x), 0, 7) == (0) * conj_seq(x)[0] + (0) * conj_seq(x)[1] + (0) * conj_seq(x)[2] + (0) * conj_seq(x)[3] + (0) * conj_seq(x)[4] + (-1) * conj_seq(x)[5] + (0) * conj_seq(x)[6] + (2) * conj_seq(x)[7]);
    assert(adjoint_entry(conj_seq(x), 0, 7) == (0) * x[0] + (0) * x[1] + (0) * x[2] + (0) * x[3] + (0) * x[4] + (1) * x[5] + (0) * x[6] + (-2) * x[7]);
    lemma_mul_comm(adjoint_entry(conj_seq(x), 0, 7), x[7]);
    lemma_mul_comm(x[7], x[0]);
    lemma_mul_comm(x[7], x[1]);
    lemma_mul_comm(x[7], x[2]);
    lemma_mul_comm(x[7], x[3]);
    lemma_mul_comm(x[7], x[4]);
    lemma_mul_comm(x[7], x[5]);
    lemma_mul_comm(x[7], x[6]);
    lemma_mul_comm(x[7], x[7]);
    lemma_mul_form8(x[7], adjoint_entry(conj_seq(x), 0, 7), (0), x[0], (0), x[1], (0), x[2], (0), x[3], (0), x[4], (1), x[5], (0), x[6], (-2), x[7]);
}

proof fn lemma_cp_left_term_1_0(x: Seq<int>)
    requires
        is_coeffs(x),
    ensures
        adjoint_entry(conj_seq(x), 1, 0) * x[0] == (-3) * (x[0] * x[0]) + (-1) * (x[0] * x[1]) + (2) * (x[0] * x[2]) + (1) * (x[0] * x[4]) + (-2) * (x[0] * x[6]) + (1) * (x[0] * x[7]),
{
    lemma_trace_is_neg_last(x);
    assert(conj_seq(x)[0] == 2 * x[7] - x[0]);
    assert(conj_seq(x)[1] == 3 * x[7] - x[1]);
    assert(conj_seq(x)[2] == 4 * x[7] - x[2]);
    assert(conj_seq(x)[3] == 6 * x[7] - x[3]);
    assert(conj_seq(x)[4] == 5 * x[7] - x[4]);
    assert(conj_seq(x)[5] == 4 * x[7] - x[5]);
    assert(conj_seq(x)[6] == 3 * x[7] - x[6]);
    assert(conj_seq(x)[7] == 2 * x[7] - x[7]);
    lemma_adjoint_entries_eval_1(conj_seq(x));
    assert(adjoint_entry(conj_seq(x), 1, 0) == (3) * conj_seq(x)[0] + (1) * conj_seq(x)[1] + (-2) * conj_seq(x)[2] + (0) * conj_seq(x)[3] + (-1) * conj_seq(x)[4] + (0) * conj_seq(x)[5] + (2) * conj_seq(x)[6] + (-1) * conj_seq(x)[7]);
    assert(adjoint_entry(conj_seq(x), 1, 0) == (-3) * x[0] + (-1) * x[1] + (2) * x[2] + (0) * x[3] + (1) * x[4] + (0) * x[5] + (-2) * x[6] + (1) * x[7]);
    lemma_mul_comm(adjoint_entry(conj_seq(x), 1, 0), x[0]);
    lemma_mul_comm(x[0], x[0]);
    lemma_mul_comm(x[0], x[1]);
    lemma_mul_comm(x[0], x[2]);
    lemma_mul_comm(x[0], x[3]);
    lemma_mul_comm(x[0], x[4]);
    lemma_mul_comm(x[0], x[5]);
    lemma_mul_comm(x[0], x[6]);
    lemma_mul_comm(x[0], x[7]);
    lemma_mul_form8(x[0], adjoint_entry(conj_seq(x), 1, 0), (-3), x[0], (-1), x[1], (2), x[2], (0), x[3], (1), x[4], (0), x[5], (-2), x[6], (1), x[7]);
}

proof fn lemma_cp_left_term_1_1(x: Seq<int>)
    requires
        is_coeffs(x),
    ensures
        adjoint_entry(conj_seq(x), 1, 1) * x[1] == (1) * (x[0] * x[1]) + (-3) * (x[1] * x[1]) + (-2) * (x[1] * x[2]) + (3) * (x[1] * x[3]) + (-1) * (x[1] * x[4]) + (1) * (x[1] * x[5]) + (-1) * (x[1] * x[6]),
{
    lemma_trace_is_neg_last(x);
    assert(conj_seq(x)[0] == 2 * x[7] - x[0]);
    assert(conj_seq(x)[1] == 3 * x[7] - x[1]);
    assert(conj_seq(x)[2] == 4 * x[7] - x[2]);
    assert(conj_seq(x)[3] == 6 * x[7] - x[3]);
    assert(conj_seq(x)[4] == 5 * x[7] - x[4]);
    assert(conj_seq(x)[5] == 4 * x[7] - x[5]);
    assert(conj_seq(x)[6] == 3 * x[7] - x[6]);
    assert(conj_seq(x)[7] == 2 * x[7] - x[7]);
    lemma_adjoint_entries_eval_1(conj_seq(x));
    assert(adjoint_entry(conj_seq(x), 1, 1) == (-1) * conj_seq(x)[0] + (3) * conj_seq(x)[1] + (2) * conj_seq(x)[2] + (-3) * conj_seq(x)[3] + (1) * conj_seq(x)[4] + (-1) * conj_seq(x)[5] + (1) * conj_seq(x)[6] + (-1) * conj_seq(x)[7]);
    assert(adjoint_entry(conj_seq(x), 1, 1) == (1) * x[0] + (-3) * x[1] + (-2) * x[2] + (3) * x[3] + (-1) * x[4] + (1) * x[5] + (-1) * x[6] + (0) * x[7]);
    lemma_mul_comm(adjoint_entry(conj_seq(x), 1, 1), x[1]);
    lemma_mul_comm(x[1], x[0]);
    lemma_mul_comm(x[1], x[1]);
    lemma_mul_comm(x[1], x[2]);
    lemma_mul_comm(x[1], x[3]);
    lemma_mul_comm(x[1], x[4]);
    lemma_mul_comm(x[1], x[5]);
    lemma_mul_comm(x[1], x[6]);
    lemma_mul_comm(x[1], x[7]);
    lemma_mul_form8(x[1], adjoint_entry(conj_seq(x), 1, 1), (1), x[0], (-3), x[1], (-2), x[2], (3), x[3], (-1), x[4], (1), x[5], (-1), x[6], (0), x[7]);
}

proof fn lemma_cp_left_term_1_2(x: Seq<int>)
    requires
        is_coeffs(x),
    ensures
        adjoint_entry(conj_seq(x), 1, 2) * x[2] == (1) * (x[0] * x[2]) + (2) * (x[1] * x[2]) + (-3) * (x[2] * x[2]) + (1) * (x[2] * x[5]),
{
    lemma_trace_is_neg_last(x);
    assert(conj_seq(x)[0] == 2 * x[7] - x[0]);
    assert(conj_seq(x)[1] == 3 * x[7] - x[1]);
    assert(conj_seq(x)[2] == 4 * x[7] - x[2]);
    assert(conj_seq(x)[3] == 6 * x[7] - x[3]);
    assert(conj_seq(x)[4] == 5 * x[7] - x[4]);
    assert(conj_seq(x)[5] == 4 * x[7] - x[5]);
    assert(conj_seq(x)[6] == 3 * x[7] - x[6]);
    assert(conj_seq(x)[7] == 2 * x[7] - x[7]);
    lemma_adjoint_entries_eval_1(conj_seq(x));
    assert(adjoint_entry(conj_seq(x), 1, 2) == (-1) * conj_seq(x)[0] + (-2) * conj_seq(x)[1] + (3) * conj_seq(x)[2] + (0) * conj_seq(x)[3] + (0) * conj_seq(x)[4] + (-1) * conj_seq(x)[5] + (0) * conj_seq(x)[6] + (0) * conj_seq(x)[7]);
    assert(adjoint_entry(conj_seq(x), 1, 2) == (1) * x[0] + (2) * x[1] + (-3) * x[2] + (0) * x[3] + (0) * x[4] + (1) * x[5] + (0) * x[6] + (0) * x[7]);
    lemma_mul_comm(adjoint_entry(conj_seq(x), 1, 2), x[2]);
    lemma_mul_comm(x[2], x[0]);
    lemma_mul_comm(x[2], x[1]);
    lemma_mul_comm(x[2], x[2]);
    lemma_mul_comm(x[2], x[3]);
    lemma_mul_comm(x[2], x[4]);
    lemma_mul_comm(x[2], x[5]);
    lemma_mul_comm(x[2], x[6]);
    lemma_mul_comm(x[2], x[7]);
    lemma_mul_form8(x[2], adjoint_entry(conj_seq(x), 1, 2), (1), x[0], (2), x[1], (-3), x[2], (0), x[3], (0), x[4], (1), x[5], (0), x[6], (0), x[7]);
}

proof fn lemma_cp_left_term_1_3(x: Seq<int>)
    requires
        is_coeffs(x),
    ensures
        adjoint_entry(conj_seq(x), 1, 3) * x[3] == (3) * (x[2] * x[3]) + (-3) * (x[3] * x[3]) + (1) * (x[3] * x[4]) + (1) * (x[3] * x[6]) + (-1) * (x[3] * x[7]),
{
    lemma_trace_is_neg_last(x);
    assert(conj_seq(x)[0] == 2 * x[7] - x[0]);
    assert(conj_seq(x)[1] == 3 * x[7] - x[1]);
    assert(conj_seq(x)[2] == 4 * x[7] - x[2]);
    assert(conj_seq(x)[3] == 6 * x[7] - x[3]);
    assert(conj_seq(x)[4] == 5 * x[7] - x[4]);
    assert(conj_seq(x)[5] == 4 * x[7] - x[5]);
    assert(conj_seq(x)[6] == 3 * x[7] - x[6]);
    assert(conj_seq(x)[7] == 2 * x[7] - x[7]);
    lemma_adjoint_entries_eval_1(conj_seq(x));
    assert(adjoint_entry(conj_seq(x), 1, 3) == (0) * conj_seq(x)[0] + (0) * conj_seq(x)[1] + (-3) * conj_seq(x)[2] + (3) * conj_seq(x)[3] + (-1) * conj_seq(x)[4] + (0) * conj_seq(x)[5] + (-1) * conj_seq(x)[6] + (1) * conj_seq(x)[7]);
    assert(adjoint_entry(conj_seq(x), 1, 3) == (0) * x[0] + (0) * x[1] + (3) * x[2] + (-3) * x[3] + (1) * x[4] + (0) * x[5] + (1) * x[6] + (-1) * x[7]);
    lemma_mul_comm(adjoint_entry(conj_seq(x), 1, 3), x[3]);
    lemma_mul_comm(x[3], x[0]);
    lemma_mul_comm(x[3], x[1]);
    lemma_mul_comm(x[3], x[2]);
    lemma_mul_comm(x[3], x[3]);
    lemma_mul_comm(x[3], x[4]);
    lemma_mul_comm(x[3], x[5]);
    lemma_mul_comm(x[3], x[6]);
    lemma_mul_comm(x[3], x[7]);
    lemma_mul_form8(x[3], adjoint_entry(conj_seq(x), 1, 3), (0), x[0], (0), x[1], (3), x[2], (-3), x[3], (1), x[4], (0), x[5], (1), x[6], (-1), x[7]);
}

proof fn lemma_cp_left_term_1_4(x: Seq<int>)
    requires
        is_coeffs(x),
    ensures
        adjoint_entry(conj_seq(x), 1, 4) * x[4] == (-1) * (x[0] * x[4]) + (1) * (x[1] * x[4]) + (2) * (x[3] * x[4]) + (-3) * (x[4] * x[4]) + (1) * (x[4] * x[7]),
{
    lemma_trace_is_neg_last(x);
    assert(conj_seq(x)[0] == 2 * x[7] - x[0]);
    assert(conj_seq(x)[1] == 3 * x[7] - x[1]);
    assert(conj_seq(x)[2] == 4 * x[7] - x[2]);
    assert(conj_seq(x)[3] == 6 * x[7] - x[3]);
    assert(conj_seq(x)[4] == 5 * x[7] - x[4]);
    assert(conj_seq(x)[5] == 4 * x[7] - x[5]);
    assert(conj_seq(x)[6] == 3 * x[7] - x[6]);
    assert(conj_seq(x)[7] == 2 * x[7] - x[7]);
    lemma_adjoint_entries_eval_1(conj_seq(x));
    assert(adjoint_entry(conj_seq(x), 1, 4) == (1) * conj_seq(x)[0] + (-1) * conj_seq(x)[1] + (0) * conj_seq(x)[2] + (-2) * conj_seq(x)[3] + (3) * conj_seq(x)[4] + (0) * conj_seq(x)[5] + (0) * conj_seq(x)[6] + (-1) * conj_seq(x)[7]);
    assert(adjoint_entry(conj_seq(x), 1, 4) == (-1) * x[0] + (1) * x[1] + (0) * x[2] + (2) * x[3] + (-3) * x[4] + (0) * x[5] + (0) * x[6] + (1) * x[7]);
    lemma_mul_comm(adjoint_entry(conj_seq(x), 1, 4), x[4]);
    lemma_mul_comm(x[4], x[0]);
    lemma_mul_comm(x[4], x[1]);
    lemma_mul_comm(x[4], x[2]);
    lemma_mul_comm(x[4], x[3]);
    lemma_mul_comm(x[4], x[4]);
    lemma_mul_comm(x[4], x[5]);
    lemma_mul_comm(x[4], x[6]);
    lemma_mul_comm(x[4], x[7]);
    lemma_mul_form8(x[4], adjoint_entry(conj_seq(x), 1, 4), (-1), x[0], (1), x[1], (0), x[2], (2), x[3], (-3), x[4], (0), x[5], (0), x[6], (1), x[7]);
}

proof fn lemma_cp_left_term_1_5(x: Seq<int>)
    requires
        is_coeffs(x),
    ensures
        adjoint_entry(conj_seq(x), 1, 5) * x[5] == (-1) * (x[1] * x[5]) + (-1) * (x[2] * x[5]) + (3) * (x[4] * x[5]) + (-3) * (x[5] * x[5]) + (2) * (x[5] * x[6]) + (-1) * (x[5] * x[7]),
{
    lemma_trace_is_neg_last(x);
    assert(conj_seq(x)[0] == 2 * x[7] - x[0]);
    assert(conj_seq(x)[1] == 3 * x[7] - x[1]);
    assert(conj_seq(x)[2] == 4 * x[7] - x[2]);
    assert(conj_seq(x)[3] == 6 * x[7] - x[3]);
    assert(conj_seq(x)[4] == 5 * x[7] - x[4]);
    assert(conj_seq(x)[5] == 4 * x[7] - x[5]);
    assert(conj_seq(x)[6] == 3 * x[7] - x[6]);
    assert(conj_seq(x)[7] == 2 * x[7] - x[7]);
    lemma_adjoint_entries_eval_1(conj_seq(x));
    assert(adjoint_entry(conj_seq(x), 1, 5) == (0) * conj_seq(x)[0] + (1) * conj_seq(x)[1] + (1) * conj_seq(x)[2] + (0) * conj_seq(x)[3] + (-3) * conj_seq(x)[4] + (3) * conj_seq(x)[5] + (-2) * conj_seq(x)[6] + (1) * conj_seq(x)[7]);
    assert(adjoint_entry(conj_seq(x), 1, 5) == (0) * x[0] + (-1) * x[1] + (-1) * x[2] + (0) * x[3] + (3) * x[4] + (-3) * x[5] + (2) * x[6] + (-1) * x[7]);
    lemma_mul_comm(adjoint_entry(conj_seq(x), 1, 5), x[5]);
    lemma_mul_comm(x[5], x[0]);
    lemma_mul_comm(x[5], x[1]);
    lemma_mul_comm(x[5], x[2]);
    lemma_mul_comm(x[5], x[3]);
    lemma_mul_comm(x[5], x[4]);
    lemma_mul_comm(x[5], x[5]);
    lemma_mul_comm(x[5], x[6]);
    lemma_mul_comm(x[5], x[7]);
    lemma_mul_form8(x[5], adjoint_entry(conj_seq(x), 1, 5), (0), x[0], (-1), x[1], (-1), x[2], (0), x[3], (3), x[4], (-3), x[5], (2), x[6], (-1), x[7]);
}

proof fn lemma_cp_left_term_1_6(x: Seq<int>)
    requires
        is_coeffs(x),
    ensures
        adjoint_entry(conj_seq(x), 1, 6) * x[6] == (2) * (x[0] * x[6]) + (1) * (x[1] * x[6]) + (-1) * (x[3] * x[6]) + (1) * (x[5] * x[6]) + (-3) * (x[6] * x[6]) + (2) * (x[6] * x[7]),
{
    lemma_trace_is_neg_last(x);
    assert(conj_seq(x)[0] == 2 * x[7] - x[0]);
    assert(conj_seq(x)[1] == 3 * x[7] - x[1]);
    assert(conj_seq(x)[2] == 4 * x[7] - x[2]);
    assert(conj_seq(x)[3] == 6 * x[7] - x[3]);
    assert(conj_seq(x)[4] == 5 * x[7] - x[4]);
    assert(conj_seq(x)[5] == 4 * x[7] - x[5]);
    assert(conj_seq(x)[6] == 3 * x[7] - x[6]);
    assert(conj_seq(x)[7] == 2 * x[7] - x[7]);
    lemma_adjoint_entries_eval_1(conj_seq(x));
    assert(adjoint_entry(conj_seq(x), 1, 6) == (-2) * conj_seq(x)[0] + (-1) * conj_seq(x)[1] + (0) * conj_seq(x)[2] + (1) * conj_seq(x)[3] + (0) * conj_seq(x)[4] + (-1) * conj_seq(x)[5] + (3) * conj_seq(x)[6] + (-2) * conj_seq(x)[7]);
    assert(adjoint_entry(conj_seq(x), 1, 6) == (2) * x[0] + (1) * x[1] + (0) * x[2] + (-1) * x[3] + (0) * x[4] + (1) * x[5] + (-3) * x[6] + (2) * x[7]);
    lemma_mul_comm(adjoint_entry(conj_seq(x), 1, 6), x[6]);
    lemma_mul_comm(x[6], x[0]);
    lemma_mul_comm(x[6], x[1]);
    lemma_mul_comm(x[6], x[2]);
    lemma_mul_comm(x[6], x[3]);
    lemma_mul_comm(x[6], x[4]);
    lemma_mul_comm(x[6], x[5]);
    lemma_mul_comm(x[6], x[6]);
    lemma_mul_comm(x[6], x[7]);
    lemma_mul_form8(x[6], adjoint_entry(conj_seq(x), 1, 6), (2), x[0], (1), x[1], (0), x[2], (-1), x[3], (0), x[4], (1), x[5], (-3), x[6], (2), x[7]);
}

proof fn lemma_cp_left_term_1_7(x: Seq<int>)
    requires
        is_coeffs(x),
    ensures
        adjoint_entry(conj_seq(x), 1, 7) * x[7] == (-1) * (x[0] * x[7]) + (1) * (x[3] * x[7]) + (-1) * (x[4] * x[7]) + (1) * (x[5] * x[7]) + (1) * (x[6] * x[7]) + (-3) * (x[7] * x[7]),
{
    lemma_trace_is_neg_last(x);
    assert(conj_seq(x)[0] == 2 * x[7] - x[0]);
    assert(conj_seq(x)[1] == 3 * x[7] - x[1]);
    assert(conj_seq(x)[2] == 4 * x[7] - x[2]);
    assert(conj_seq(x)[3] == 6 * x[7] - x[3]);
    assert(conj_seq(x)[4] == 5 * x[7] - x[4]);
    assert(conj_seq(x)[5] == 4 * x[7] - x[5]);
    assert(conj_seq(x)[6] == 3 * x[7] - x[6]);
    assert(conj_seq(x)[7] == 2 * x[7] - x[7]);
    lemma_adjoint_entries_eval_1(conj_seq(x));
    assert(adjoint_entry(conj_seq(x), 1, 7) == (1) * conj_seq(x)[0] + (0) * conj_seq(x)[1] + (0) * conj_seq(x)[2] + (-1) * conj_seq(x)[3] + (1) * conj_seq(x)[4] + (-1) * conj_seq(x)[5] + (-1) * conj_seq(x)[6] + (3) * conj_seq(x)[7]);
    assert(adjoint_entry(conj_seq(x), 1, 7) == (-1) * x[0] + (0) * x[1] + (0) * x[2] + (1) * x[3] + (-1) * x[4] + (1) * x[5] + (1) * x[6] + (-3) * x[7]);
    lemma_mul_comm(adjoint_entry(conj_seq(x), 1, 7), x[7]);
    lemma_mul_comm(x[7], x[0]);
    lemma_mul_comm(x[7], x[1]);
    lemma_mul_comm(x[7], x[2]);
    lemma_mul_comm(x[7], x[3]);
    lemma_mul_comm(x[7], x[4]);
    lemma_mul_comm(x[7], x[5]);
    lemma_mul_comm(x[7], x[6]);
    lemma_mul_comm(x[7], x[7]);
    lemma_mul_form8(x[7], adjoint_entry(conj_seq(x), 1, 7), (-1), x[0], (0), x[1], (0), x[2], (1), x[3], (-1), x[4], (1), x[5], (1), x[6], (-3), x[7]);
}

proof fn lemma_cp_left_term_2_0(x: Seq<int>)
    requires
        is_coeffs(x),
    ensures
        adjoint_entry(conj_seq(x), 2, 0) * x[0] == (-4) * (x[0] * x[0]) + (-2) * (x[0] * x[1]) + (2) * (x[0] * x[2]) + (2) * (x[0] * x[4]) + (-2) * (x[0] * x[6]) + (1) * (x[0] * x[7]),
{
    lemma_trace_is_neg_last(x);
    assert(conj_seq(x)[0] == 2 * x[7] - x[0]);
    assert(conj_seq(x)[1] == 3 * x[7] - x[1]);
    assert(conj_seq(x)[2] == 4 * x[7] - x[2]);
    assert(conj_seq(x)[3] == 6 * x[7] - x[3]);
    assert(conj_seq(x)[4] == 5 * x[7] - x[4]);
    assert(conj_seq(x)[5] == 4 * x[7] - x[5]);
    assert(conj_seq(x)[6] == 3 * x[7] - x[6]);
    assert(conj_seq(x)[7] == 2 * x[7] - x[7]);
    lemma_adjoint_entries_eval_2(conj_seq(x));
    assert(adjoint_entry(conj_seq(x), 2, 0) == (4) * conj_seq(x)[0] + (2) * conj_seq(x)[1] + (-2) * conj_seq(x)[2] + (0) * conj_seq(x)[3] + (-2) * conj_seq(x)[4] + (0) * conj_seq(x)[5] + (2) * conj_seq(x)[6] + (-1) * conj_seq(x)[7]);
    assert(adjoint_entry(conj_seq(x), 2, 0) == (-4) * x[0] + (-2) * x[1] + (2) * x[2] + (0) * x[3] + (2) * x[4] + (0) * x[5] + (-2) * x[6] + (1) * x[7]);
    lemma_mul_comm(adjoint_entry(conj_seq(x), 2, 0), x[0]);
    lemma_mul_comm(x[0], x[0]);
    lemma_mul_comm(x[0], x[1]);
    lemma_mul_comm(x[0], x[2]);
    lemma_mul_comm(x[0], x[3]);
    lemma_mul_comm(x[0], x[4]);
    lemma_mul_comm(x[0], x[5]);
    lemma_mul_comm(x[0], x[6]);
    lemma_mul_comm(x[0], x[7]);
    lemma_mul_form8(x[0], adjoint_entry(conj_seq(x), 2, 0), (-4), x[0], (-2), x[1], (2), x[2], (0), x[3], (2), x[4], (0), x[5], (-2), x[6], (1), x[7]);
}

proof fn lemma_cp_left_term_2_1(x: Seq<int>)
    requires
        is_coeffs(x),
    ensures
        adjoint_entry(conj_seq(x), 2, 1) * x[1] == (2) * (x[0] * x[1]) + (-4) * (x[1] * x[1]) + (-3) * (x[1] * x[2]) + (4) * (x[1] * x[3]) + (-1) * (x[1] * x[4]) + (1) * (x[1] * x[5]) + (-1) * (x[1] * x[6]),
{
    lemma_trace_is_neg_last(x);
    assert(conj_seq(x)[0] == 2 * x[7] - x[0]);
    assert(conj_seq(x)[1] == 3 * x[7] - x[1]);
    assert(conj_seq(x)[2] == 4 * x[7] - x[2]);
    assert(conj_seq(x)[3] == 6 * x[7] - x[3]);
    assert(conj_seq(x)[4] == 5 * x[7] - x[4]);
    assert(conj_seq(x)[5] == 4 * x[7] - x[5]);
    assert(conj_seq(x)[6] == 3 * x[7] - x[6]);
    assert(conj_seq(x)[7] == 2 * x[7] - x[7]);
    lemma_adjoint_entries_eval_2(conj_seq(x));
    assert(adjoint_entry(conj_seq(x), 2, 1) == (-2) * conj_seq(x)[0] + (4) * conj_seq(x)[1] + (3) * conj_seq(x)[2] + (-4) * conj_seq(x)[3] + (1) * conj_seq(x)[4] + (-1) * conj_seq(x)[5] + (1) * conj_seq(x)[6] + (0) * conj_seq(x)[7]);
    assert(adjoint_entry(conj_seq(x), 2, 1) == (2) * x[0] + (-4) * x[1] + (-3) * x[2] + (4) * x[3] + (-1) * x[4] + (1) * x[5] + (-1) * x[6] + (0) * x[7]);
    lemma_mul_comm(adjoint_entry(conj_seq(x), 2, 1), x[1]);
    lemma_mul_comm(x[1], x[0]);
    lemma_mul_comm(x[1], x[1]);
    lemma_mul_comm(x[1], x[2]);
    lemma_mul_comm(x[1], x[3]);
    lemma_mul_comm(x[1], x[4]);
    lemma_mul_comm(x[1], x[5]);
    lemma_mul_comm(x[1], x[6]);
    lemma_mul_comm(x[1], x[7]);
    lemma_mul_form8(x[1], adjoint_entry(conj_seq(x), 2, 1), (2), x[0], (-4), x[1], (-3), x[2], (4), x[3], (-1), x[4], (1), x[5], (-1), x[6], (0), x[7]);
}

proof fn lemma_cp_left_term_2_2(x: Seq<int>)
    requires
        is_coeffs(x),
    ensures
        adjoint_entry(conj_seq(x), 2, 2) * x[2] == (2) * (x[0] * x[2]) + (3) * (x[1] * x[2]) + (-4) * (x[2] * x[2]) + (1) * (x[2] * x[5]) + (-1) * (x[2] * x[7]),
{
    lemma_trace_is_neg_last(x);
    assert(conj_seq(x)[0] == 2 * x[7] - x[0]);
    assert(conj_seq(x)[1] == 3 * x[7] - x[1]);
    assert(conj_seq(x)[2] == 4 * x[7] - x[2]);
    assert(conj_seq(x)[3] == 6 * x[7] - x[3]);
    assert(conj_seq(x)[4] == 5 * x[7] - x[4]);
    assert(conj_seq(x)[5] == 4 * x[7] - x[5]);
    assert(conj_seq(x)[6] == 3 * x[7] - x[6]);
    assert(conj_seq(x)[7] == 2 * x[7] - x[7]);
    lemma_adjoint_entries_eval_2(conj_seq(x));
    assert(adjoint_entry(conj_seq(x), 2, 2) == (-2) * conj_seq(x)[0] + (-3) * conj_seq(x)[1] + (4) * conj_seq(x)[2] + (0) * conj_seq(x)[3] + (0) * conj_seq(x)[4] + (-1) * conj_seq(x)[5] + (0) * conj_seq(x)[6] + (0) * conj_seq(x)[7]);
    assert(adjoint_entry(conj_seq(x), 2, 2) == (2) * x[0] + (3) * x[1] + (-4) * x[2] + (0) * x[3] + (0) * x[4] + (1) * x[5] + (0) * x[6] + (-1) * x[7]);
    lemma_mul_comm(adjoint_entry(conj_seq(x), 2, 2), x[2]);
    lemma_mul_comm(x[2], x[0]);
    lemma_mul_comm(x[2], x[1]);
    lemma_mul_comm(x[2], x[2]);
    lemma_mul_comm(x[2], x[3]);
    lemma_mul_comm(x[2], x[4]);
    lemma_mul_comm(x[2], x[5]);
    lemma_mul_comm(x[2], x[6]);
    lemma_mul_comm(x[2], x[7]);
    lemma_mul_form8(x[2], adjoint_entry(conj_seq(x), 2, 2), (2), x[0], (3), x[1], (-4), x[2], (0), x[3], (0), x[4], (1), x[5], (0), x[6], (-1), x[7]);
}

proof fn lemma_cp_left_term_2_3(x: Seq<int>)
    requires
        is_coeffs(x),
    ensures
        adjoint_entry(conj_seq(x), 2, 3) * x[3] == (4) * (x[2] * x[3]) + (-4) * (x[3] * x[3]) + (1) * (x[3] * x[4]) + (1) * (x[3] * x[6]),
{
    lemma_trace_is_neg_last(x);
    assert(conj_seq(x)[0] == 2 * x[7] - x[0]);
    assert(conj_seq(x)[1] == 3 * x[7] - x[1]);
    assert(conj_seq(x)[2] == 4 * x[7] - x[2]);
    assert(conj_seq(x)[3] == 6 * x[7] - x[3]);
    assert(conj_seq(x)[4] == 5 * x[7] - x[4]);
    assert(conj_seq(x)[5] == 4 * x[7] - x[5]);
    assert(conj_seq(x)[6] == 3 * x[7] - x[6]);
    assert(conj_seq(x)[7] == 2 * x[7] - x[7]);
    lemma_adjoint_entries_eval_2(conj_seq(x));
    assert(adjoint_entry(conj_seq(x), 2, 3) == (0) * conj_seq(x)[0] + (0) * conj_seq(x)[1] + (-4) * conj_seq(x)[2] + (4) * conj_seq(x)[3] + (-1) * conj_seq(x)[4] + (0) * conj_seq(x)[5] + (-1) * conj_seq(x)[6] + (0) * conj_seq(x)[7]);
    assert(adjoint_entry(conj_seq(x), 2, 3) == (0) * x[0] + (0) * x[1] + (4) * x[2] + (-4) * x[3] + (1) * x[4] + (0) * x[5] + (1) * x[6] + (0) * x[7]);
    lemma_mul_comm(adjoint_entry(conj_seq(x), 2, 3), x[3]);
    lemma_mul_comm(x[3], x[0]);
    lemma_mul_comm(x[3], x[1]);
    lemma_mul_comm(x[3], x[2]);
    lemma_mul_comm(x[3], x[3]);
    lemma_mul_comm(x[3], x[4]);
    lemma_mul_comm(x[3], x[5]);
    lemma_mul_comm(x[3], x[6]);
    lemma_mul_comm(x[3], x[7]);
    lemma_mul_form8(x[3], adjoint_entry(conj_seq(x), 2, 3), (0), x[0], (0), x[1], (4), x[2], (-4), x[3], (1), x[4], (0), x[5], (1), x[6], (0), x[7]);
}

proof fn lemma_cp_left_term_2_4(x: Seq<int>)
    requires
        is_coeffs(x),
    ensures
        adjoint_entry(conj_seq(x), 2, 4) * x[4] == (-2) * (x[0] * x[4]) + (1) * (x[1] * x[4]) + (3) * (x[3] * x[4]) + (-4) * (x[4] * x[4]) + (1) * (x[4] * x[5]) + (-1) * (x[4] * x[6]) + (1) * (x[4] * x[7]),
{
    lemma_trace_is_neg_last(x);
    assert(conj_seq(x)[0] == 2 * x[7] - x[0]);
    assert(conj_seq(x)[1] == 3 * x[7] - x[1]);
    assert(conj_seq(x)[2] == 4 * x[7] - x[2]);
    assert(conj_seq(x)[3] == 6 * x[7] - x[3]);
    assert(conj_seq(x)[4] == 5 * x[7] - x[4]);
    assert(conj_seq(x)[5] == 4 * x[7] - x[5]);
    assert(conj_seq(x)[6] == 3 * x[7] - x[6]);
    assert(conj_seq(x)[7] == 2 * x[7] - x[7]);
    lemma_adjoint_entries_eval_2(conj_seq(x));
    assert(adjoint_entry(conj_seq(x), 2, 4) == (2) * conj_seq(x)[0] + (-1) * conj_seq(x)[1] + (0) * conj_seq(x)[2] + (-3) * conj_seq(x)[3] + (4) * conj_seq(x)[4] + (-1) * conj_seq(x)[5] + (1) * conj_seq(x)[6] + (-1) * conj_seq(x)[7]);
    assert(adjoint_entry(conj_seq(x), 2, 4) == (-2) * x[0] + (1) * x[1] + (0) * x[2] + (3) * x[3] + (-4) * x[4] + (1) * x[5] + (-1) * x[6] + (1) * x[7]);
    lemma_mul_comm(adjoint_entry(conj_seq(x), 2, 4), x[4]);
    lemma_mul_comm(x[4], x[0]);
    lemma_mul_comm(x[4], x[1]);
    lemma_mul_comm(x[4], x[2]);
    lemma_mul_comm(x[4], x[3]);
    lemma_mul_comm(x[4], x[4]);
    lemma_mul_comm(x[4], x[5]);
    lemma_mul_comm(x[4], x[6]);
    lemma_mul_comm(x[4], x[7]);
    lemma_mul_form8(x[4], adjoint_entry(conj_seq(x), 2, 4), (-2), x[0], (1), x[1], (0), x[2], (3), x[3], (-4), x[4], (1), x[5], (-1), x[6], (1), x[7]);
}

proof fn lemma_cp_left_term_2_5(x: Seq<int>)
    requires
        is_coeffs(x),
    ensures
        adjoint_entry(conj_seq(x), 2, 5) * x[5] == (-1) * (x[1] * x[5]) + (-1) * (x[2] * x[5]) + (3) * (x[4] * x[5]) + (-4) * (x[5] * x[5]) + (4) * (x[5] * x[6]) + (-2) * (x[5] * x[7]),
{
    lemma_trace_is_neg_last(x);
    assert(conj_seq(x)[0] == 2 * x[7] - x[0]);
    assert(conj_seq(x)[1] == 3 * x[7] - x[1]);
    assert(conj_seq(x)[2] == 4 * x[7] - x[2]);
    assert(conj_seq(x)[3] == 6 * x[7] - x[3]);
    assert(conj_seq(x)[4] == 5 * x[7] - x[4]);
    assert(conj_seq(x)[5] == 4 * x[7] - x[5]);
    assert(conj_seq(x)[6] == 3 * x[7] - x[6]);
    assert(conj_seq(x)[7] == 2 * x[7] - x[7]);
    lemma_adjoint_entries_eval_2(conj_seq(x));
    assert(adjoint_entry(conj_seq(x), 2, 5) == (0) * conj_seq(x)[0] + (1) * conj_seq(x)[1] + (1) * conj_seq(x)[2] + (0) * conj_seq(x)[3] + (-3) * conj_seq(x)[4] + (4) * conj_seq(x)[5] + (-4) * conj_seq(x)[6] + (2) * conj_seq(x)[7]);
    assert(adjoint_entry(conj_seq(x), 2, 5) == (0) * x[0] + (-1) * x[1] + (-1) * x[2] + (0) * x[3] + (3) * x[4] + (-4) * x[5] + (4) * x[6] + (-2) * x[7]);
    lemma_mul_comm(adjoint_entry(conj_seq(x), 2, 5), x[5]);
    lemma_mul_comm(x[5], x[0]);
    lemma_mul_comm(x[5], x[1]);
    lemma_mul_comm(x[5], x[2]);
    lemma_mul_comm(x[5], x[3]);
    lemma_mul_comm(x[5], x[4]);
    lemma_mul_comm(x[5], x[5]);
    lemma_mul_comm(x[5], x[6]);
    lemma_mul_comm(x[5], x[7]);
    lemma_mul_form8(x[5], adjoint_entry(conj_seq(x), 2, 5), (0), x[0], (-1), x[1], (-1), x[2], (0), x[3], (3), x[4], (-4), x[5], (4), x[6], (-2), x[7]);
}

proof fn lemma_cp_left_term_2_6(x: Seq<int>)
    requires
        is_coeffs(x),
    ensures
        adjoint_entry(conj_seq(x), 2, 6) * x[6] == (2) * (x[0] * x[6]) + (1) * (x[1] * x[6]) + (-1) * (x[3] * x[6]) + (1) * (x[4] * x[6]) + (-4) * (x[6] * x[6]) + (3) * (x[6] * x[7]),
{
    lemma_trace_is_neg_last(x);
    assert(conj_seq(x)[0] == 2 * x[7] - x[0]);
    assert(conj_seq(x)[1] == 3 * x[7] - x[1]);
    assert(conj_seq(x)[2] == 4 * x[7] - x[2]);
    assert(conj_seq(x)[3] == 6 * x[7] - x[3]);
    assert(conj_seq(x)[4] == 5 * x[7] - x[4]);
    assert(conj_seq(x)[5] == 4 * x[7] - x[5]);
    assert(conj_seq(x)[6] == 3 * x[7] - x[6]);
    assert(conj_seq(x)[7] == 2 * x[7] - x[7]);
    lemma_adjoint_entries_eval_2(conj_seq(x));
    assert(adjoint_entry(conj_seq(x), 2, 6) == (-2) * conj_seq(x)[0] + (-1) * conj_seq(x)[1] + (0) * conj_seq(x)[2] + (1) * conj_seq(x)[3] + (-1) * conj_seq(x)[4] + (0) * conj_seq(x)[5] + (4) * conj_seq(x)[6] + (-3) * conj_seq(x)[7]);
    assert(adjoint_entry(conj_seq(x), 2, 6) == (2) * x[0] + (1) * x[1] + (0) * x[2] + (-1) * x[3] + (1) * x[4] + (0) * x[5] + (-4) * x[6] + (3) * x[7]);
    lemma_mul_comm(adjoint_entry(conj_seq(x), 2, 6), x[6]);
    lemma_mul_comm(x[6], x[0]);
    lemma_mul_comm(x[6], x[1]);
    lemma_mul_comm(x[6], x[2]);
    lemma_mul_comm(x[6], x[3]);
    lemma_mul_comm(x[6], x[4]);
    lemma_mul_comm(x[6], x[5]);
    lemma_mul_comm(x[6], x[6]);
    lemma_mul_comm(x[6], x[7]);
    lemma_mul_form8(x[6], adjoint_entry(conj_seq(x), 2, 6), (2), x[0], (1), x[1], (0), x[2], (-1), x[3], (1), x[4], (0), x[5], (-4), x[6], (3), x[7]);
}

proof fn lemma_cp_left_term_2_7(x: Seq<int>)
    requires
        is_coeffs(x),
    ensures
        adjoint_entry(conj_seq(x), 2, 7) * x[7] == (-1) * (x[0] * x[7]) + (1) * (x[2] * x[7]) + (-1) * (x[4] * x[7]) + (2) * (x[5] * x[7]) + (1) * (x[6] * x[7]) + (-4) * (x[7] * x[7]),
{
    lemma_trace_is_neg_last(x);
    assert(conj_seq(x)[0] == 2 * x[7] - x[0]);
    assert(conj_seq(x)[1] == 3 * x[7] - x[1]);
    assert(conj_seq(x)[2] == 4 * x[7] - x[2]);
    assert(conj_seq(x)[3] == 6 * x[7] - x[3]);
    assert(conj_seq(x)[4] == 5 * x[7] - x[4]);
    assert(conj_seq(x)[5] == 4 * x[7] - x[5]);
    assert(conj_seq(x)[6] == 3 * x[7] - x[6]);
    assert(conj_seq(x)[7] == 2 * x[7] - x[7]);
    lemma_adjoint_entries_eval_2(conj_seq(x));
    assert(adjoint_entry(conj_seq(x), 2, 7) == (1) * conj_seq(x)[0] + (0) * conj_seq(x)[1] + (-1) * conj_seq(x)[2] + (0) * conj_seq(x)[3] + (1) * conj_seq(x)[4] + (-2) * conj_seq(x)[5] + (-1) * conj_seq(x)[6] + (4) * conj_seq(x)[7]);
    assert(adjoint_entry(conj_seq(x), 2, 7) == (-1) * x[0] + (0) * x[1] + (1) * x[2] + (0) * x[3] + (-1) * x[4] + (2) * x[5] + (1) * x[6] + (-4) * x[7]);
    lemma_mul_comm(adjoint_entry(conj_seq(x), 2, 7), x[7]);
    lemma_mul_comm(x[7], x[0]);
    lemma_mul_comm(x[7], x[1]);
    lemma_mul_comm(x[7], x[2]);
    lemma_mul_comm(x[7], x[3]);
    lemma_mul_comm(x[7], x[4]);
    lemma_mul_comm(x[7], x[5]);
    lemma_mul_comm(x[7], x[6]);
    lemma_mul_comm(x[7], x[7]);
    lemma_mul_form8(x[7], adjoint_entry(conj_seq(x), 2, 7), (-1), x[0], (0), x[1], (1), x[2], (0), x[3], (-1), x[4], (2), x[5], (1), x[6], (-4), x[7]);
}

proof fn lemma_cp_left_term_3_0(x: Seq<int>)
    requires
        is_coeffs(x),
    ensures
        adjoint_entry(conj_seq(x), 3, 0) * x[0] == (-6) * (x[0] * x[0]) + (-2) * (x[0] * x[1]) + (3) * (x[0] * x[2]) + (3) * (x[0] * x[4]) + (-1) * (x[0] * x[5]) + (-3) * (x[0] * x[6]) + (2) * (x[0] * x[7]),
{
    lemma_trace_is_neg_last(x);
    assert(conj_seq(x)[0] == 2 * x[7] - x[0]);
    assert(conj_seq(x)[1] == 3 * x[7] - x[1]);
    assert(conj_seq(x)[2] == 4 * x[7] - x[2]);
    assert(conj_seq(x)[3] == 6 * x[7] - x[3]);
    assert(conj_seq(x)[4] == 5 * x[7] - x[4]);
    assert(conj_seq(x)[5] == 4 * x[7] - x[5]);
    assert(conj_seq(x)[6] == 3 * x[7] - x[6]);
    assert(conj_seq(x)[7] == 2 * x[7] - x[7]);
    lemma_adjoint_entries_eval_3(conj_seq(x));
    assert(adjoint_entry(conj_seq(x), 3, 0) == (6) * conj_seq(x)[0] + (2) * conj_seq(x)[1] + (-3) * conj_seq(x)[2] + (0) * conj_seq(x)[3] + (-3) * conj_seq(x)[4] + (1) * conj_seq(x)[5] + (3) * conj_seq(x)[6] + (-2) * conj_seq(x)[7]);
    assert(adjoint_entry(conj_seq(x), 3, 0) == (-6) * x[0] + (-2) * x[1] + (3) * x[2] + (0) * x[3] + (3) * x[4] + (-1) * x[5] + (-3) * x[6] + (2) * x[7]);
    lemma_mul_comm(adjoint_entry(conj_seq(x), 3, 0), x[0]);
    lemma_mul_comm(x[0], x[0]);
    lemma_mul_comm(x[0], x[1]);
    lemma_mul_comm(x[0], x[2]);
    lemma_mul_comm(x[0], x[3]);
    lemma_mul_comm(x[0], x[4]);
    lemma_mul_comm(x[0], x[5]);
    lemma_mul_comm(x[0], x[6]);
    lemma_mul_comm(x[0], x[7]);
    lemma_mul_form8(x[0], adjoint_entry(conj_seq(x), 3, 0), (-6), x[0], (-2), x[1], (3), x[2], (0), x[3], (3), x[4], (-1), x[5], (-3), x[6], (2), x[7]);
}

proof fn lemma_cp_left_term_3_1(x: Seq<int>)
    requires
        is_coeffs(x),
    ensures
        adjoint_entry(conj_seq(x), 3, 1) * x[1] == (2) * (x[0] * x[1]) + (-6) * (x[1] * x[1]) + (-4) * (x[1] * x[2]) + (6) * (x[1] * x[3]) + (-2) * (x[1] * x[4]) + (2) * (x[1] * x[5]) + (-2) * (x[1] * x[6]) + (1) * (x[1] * x[7]),
{
    lemma_trace_is_neg_last(x);
    assert(conj_seq(x)[0] == 2 * x[7] - x[0]);
    assert(conj_seq(x)[1] == 3 * x[7] - x[1]);
    assert(conj_seq(x)[2] == 4 * x[7] - x[2]);
    assert(conj_seq(x)[3] == 6 * x[7] - x[3]);
    assert(conj_seq(x)[4] == 5 * x[7] - x[4]);
    assert(conj_seq(x)[5] == 4 * x[7] - x[5]);
    assert(conj_seq(x)[6] == 3 * x[7] - x[6]);
    assert(conj_seq(x)[7] == 2 * x[7] - x[7]);
    lemma_adjoint_entries_eval_3(conj_seq(x));
    assert(adjoint_entry(conj_seq(x), 3, 1) == (-2) * conj_seq(x)[0] + (6) * conj_seq(x)[1] + (4) * conj_seq(x)[2] + (-6) * conj_seq(x)[3] + (2) * conj_seq(x)[4] + (-2) * conj_seq(x)[5] + (2) * conj_seq(x)[6] + (-1) * conj_seq(x)[7]);
    assert(adjoint_entry(conj_seq(x), 3, 1) == (2) * x[0] + (-6) * x[1] + (-4) * x[2] + (6) * x[3] + (-2) * x[4] + (2) * x[5] + (-2) * x[6] + (1) * x[7]);
    lemma_mul_comm(adjoint_entry(conj_seq(x), 3, 1), x[1]);
    lemma_mul_comm(x[1], x[0]);
    lemma_mul_comm(x[1], x[1]);
    lemma_mul_comm(x[1], x[2]);
    lemma_mul_comm(x[1], x[3]);
    lemma_mul_comm(x[1], x[4]);
    lemma_mul_comm(x[1], x[5]);
    lemma_mul_comm(x[1], x[6]);
    lemma_mul_comm(x[1], x[7]);
    lemma_mul_form8(x[1], adjoint_entry(conj_seq(x), 3, 1), (2), x[0], (-6), x[1], (-4), x[2], (6), x[3], (-2), x[4], (2), x[5], (-2), x[6], (1), x[7]);
}

proof fn lemma_cp_left_term_3_2(x: Seq<int>)
    requires
        is_coeffs(x),
    ensures
        adjoint_entry(conj_seq(x), 3, 2) * x[2] == (3) * (x[0] * x[2]) + (4) * (x[1] * x[2]) + (-6) * (x[2] * x[2]) + (2) * (x[2] * x[5]) + (-1) * (x[2] * x[7]),
{
    lemma_trace_is_neg_last(x);
    assert(conj_seq(x)[0] == 2 * x[7] - x[0]);
    assert(conj_seq(x)[1] == 3 * x[7] - x[1]);
    assert(conj_seq(x)[2] == 4 * x[7] - x[2]);
    assert(conj_seq(x)[3] == 6 * x[7] - x[3]);
    assert(conj_seq(x)[4] == 5 * x[7] - x[4]);
    assert(conj_seq(x)[5] == 4 * x[7] - x[5]);
    assert(conj_seq(x)[6] == 3 * x[7] - x[6]);
    assert(conj_seq(x)[7] == 2 * x[7] - x[7]);
    lemma_adjoint_entries_eval_3(conj_seq(x));
    assert(adjoint_entry(conj_seq(x), 3, 2) == (-3) * conj_seq(x)[0] + (-4) * conj_seq(x)[1] + (6) * conj_seq(x)[2] + (0) * conj_seq(x)[3] + (0) * conj_seq(x)[4] + (-2) * conj_seq(x)[5] + (0) * conj_seq(x)[6] + (1) * conj_seq(x)[7]);
    assert(adjoint_entry(conj_seq(x), 3, 2) == (3) * x[0] + (4) * x[1] + (-6) * x[2] + (0) * x[3] + (0) * x[4] + (2) * x[5] + (0) * x[6] + (-1) * x[7]);
    lemma_mul_comm(adjoint_entry(conj_seq(x), 3, 2), x[2]);
    lemma_mul_comm(x[2], x[0]);
    lemma_mul_comm(x[2], x[1]);
    lemma_mul_comm(x[2], x[2]);
    lemma_mul_comm(x[2], x[3]);
    lemma_mul_comm(x[2], x[4]);
    lemma_mul_comm(x[2], x[5]);
    lemma_mul_comm(x[2], x[6]);
    lemma_mul_comm(x[2], x[7]);
    lemma_mul_form8(x[2], adjoint_entry(conj_seq(x), 3, 2), (3), x[0], (4), x[1], (-6), x[2], (0), x[3], (0), x[4], (2), x[5], (0), x[6], (-1), x[7]);
}

proof fn lemma_cp_left_term_3_3(x: Seq<int>)
    requires
        is_coeffs(x),
    ensures
        adjoint_entry(conj_seq(x), 3, 3) * x[3] == (6) * (x[2] * x[3]) + (-6) * (x[3] * x[3]) + (2) * (x[3] * x[4]) + (1) * (x[3] * x[6]) + (-1) * (x[3] * x[7]),
{
    lemma_trace_is_neg_last(x);
    assert(conj_seq(x)[0] == 2 * x[7] - x[0]);
    assert(conj_seq(x)[1] == 3 * x[7] - x[1]);
    assert(conj_seq(x)[2] == 4 * x[7] - x[2]);
    assert(conj_seq(x)[3] == 6 * x[7] - x[3]);
    assert(conj_seq(x)[4] == 5 * x[7] - x[4]);
    assert(conj_seq(x)[5] == 4 * x[7] - x[5]);
    assert(conj_seq(x)[6] == 3 * x[7] - x[6]);
    assert(conj_seq(x)[7] == 2 * x[7] - x[7]);
    lemma_adjoint_entries_eval_3(conj_seq(x));
    assert(adjoint_entry(conj_seq(x), 3, 3) == (0) * conj_seq(x)[0] + (0) * conj_seq(x)[1] + (-6) * conj_seq(x)[2] + (6) * conj_seq(x)[3] + (-2) * conj_seq(x)[4] + (0) * conj_seq(x)[5] + (-1) * conj_seq(x)[6] + (0) * conj_seq(x)[7]);
    assert(adjoint_entry(conj_seq(x), 3, 3) == (0) * x[0] + (0) * x[1] + (6) * x[2] + (-6) * x[3] + (2) * x[4] + (0) * x[5] + (1) * x[6] + (-1) * x[7]);
    lemma_mul_comm(adjoint_entry(conj_seq(x), 3, 3), x[3]);
    lemma_mul_comm(x[3], x[0]);
    lemma_mul_comm(x[3], x[1]);
    lemma_mul_comm(x[3], x[2]);
    lemma_mul_comm(x[3], x[3]);
    lemma_mul_comm(x[3], x[4]);
    lemma_mul_comm(x[3], x[5]);
    lemma_mul_comm(x[3], x[6]);
    lemma_mul_comm(x[3], x[7]);
    lemma_mul_form8(x[3], adjoint_entry(conj_seq(x), 3, 3), (0), x[0], (0), x[1], (6), x[2], (-6), x[3], (2), x[4], (0), x[5], (1), x[6], (-1), x[7]);
}

proof fn lemma_cp_left_term_3_4(x: Seq<int>)
    requires
        is_coeffs(x),
    ensures
        adjoint_entry(conj_seq(x), 3, 4) * x[4] == (-3) * (x[0] * x[4]) + (2) * (x[1] * x[4]) + (4) * (x[3] * x[4]) + (-6) * (x[4] * x[4]) + (1) * (x[4] * x[5]) + (1) * (x[4] * x[7]),
{
    lemma_trace_is_neg_last(x);
    assert(conj_seq(x)[0] == 2 * x[7] - x[0]);
    assert(conj_seq(x)[1] == 3 * x[7] - x[1]);
    assert(conj_seq(x)[2] == 4 * x[7] - x[2]);
    assert(conj_seq(x)[3] == 6 * x[7] - x[3]);
    assert(conj_seq(x)[4] == 5 * x[7] - x[4]);
    assert(conj_seq(x)[5] == 4 * x[7] - x[5]);
    assert(conj_seq(x)[6] == 3 * x[7] - x[6]);
    assert(conj_seq(x)[7] == 2 * x[7] - x[7]);
    lemma_adjoint_entries_eval_3(conj_seq(x));
    assert(adjoint_entry(conj_seq(x), 3, 4) == (3) * conj_seq(x)[0] + (-2) * conj_seq(x)[1] + (0) * conj_seq(x)[2] + (-4) * conj_seq(x)[3] + (6) * conj_seq(x)[4] + (-1) * conj_seq(x)[5] + (0) * conj_seq(x)[6] + (-1) * conj_seq(x)[7]);
    assert(adjoint_entry(conj_seq(x), 3, 4) == (-3) * x[0] + (2) * x[1] + (0) * x[2] + (4) * x[3] + (-6) * x[4] + (1) * x[5] + (0) * x[6] + (1) * x[7]);
    lemma_mul_comm(adjoint_entry(conj_seq(x), 3, 4), x[4]);
    lemma_mul_comm(x[4], x[0]);
    lemma_mul_comm(x[4], x[1]);
    lemma_mul_comm(x[4], x[2]);
    lemma_mul_comm(x[4], x[3]);
    lemma_mul_comm(x[4], x[4]);
    lemma_mul_comm(x[4], x[5]);
    lemma_mul_comm(x[4], x[6]);
    lemma_mul_comm(x[4], x[7]);
    lemma_mul_form8(x[4], adjoint_entry(conj_seq(x), 3, 4), (-3), x[0], (2), x[1], (0), x[2], (4), x[3], (-6), x[4], (1), x[5], (0), x[6], (1), x[7]);
}

proof fn lemma_cp_left_term_3_5(x: Seq<int>)
    requires
        is_coeffs(x),
    ensures
        adjoint_entry(conj_seq(x), 3, 5) * x[5] == (1) * (x[0] * x[5]) + (-2) * (x[1] * x[5]) + (-2) * (x[2] * x[5]) + (5) * (x[4] * x[5]) + (-6) * (x[5] * x[5]) + (5) * (x[5] * x[6]) + (-2) * (x[5] * x[7]),
{
    lemma_trace_is_neg_last(x);
    assert(conj_seq(x)[0] == 2 * x[7] - x[0]);
    assert(conj_seq(x)[1] == 3 * x[7] - x[1]);
    assert(conj_seq(x)[2] == 4 * x[7] - x[2]);
    assert(conj_seq(x)[3] == 6 * x[7] - x[3]);
    assert(conj_seq(x)[4] == 5 * x[7] - x[4]);
    assert(conj_seq(x)[5] == 4 * x[7] - x[5]);
    assert(conj_seq(x)[6] == 3 * x[7] - x[6]);
    assert(conj_seq(x)[7] == 2 * x[7] - x[7]);
    lemma_adjoint_entries_eval_3(conj_seq(x));
    assert(adjoint_entry(conj_seq(x), 3, 5) == (-1) * conj_seq(x)[0] + (2) * conj_seq(x)[1] + (2) * conj_seq(x)[2] + (0) * conj_seq(x)[3] + (-5) * conj_seq(x)[4] + (6) * conj_seq(x)[5] + (-5) * conj_seq(x)[6] + (2) * conj_seq(x)[7]);
    assert(adjoint_entry(conj_seq(x), 3, 5) == (1) * x[0] + (-2) * x[1] + (-2) * x[2] + (0) * x[3] + (5) * x[4] + (-6) * x[5] + (5) * x[6] + (-2) * x[7]);
    lemma_mul_comm(adjoint_entry(conj_seq(x), 3, 5), x[5]);
    lemma_mul_comm(x[5], x[0]);
    lemma_mul_comm(x[5], x[1]);
    lemma_mul_comm(x[5], x[2]);
    lemma_mul_comm(x[5], x[3]);
    lemma_mul_comm(x[5], x[4]);
    lemma_mul_comm(x[5], x[5]);
    lemma_mul_comm(x[5], x[6]);
    lemma_mul_comm(x[5], x[7]);
    lemma_mul_form8(x[5], adjoint_entry(conj_seq(x), 3, 5), (1), x[0], (-2), x[1], (-2), x[2], (0), x[3], (5), x[4], (-6), x[5], (5), x[6], (-2), x[7]);
}

proof fn lemma_cp_left_term_3_6(x: Seq<int>)
    requires
        is_coeffs(x),
    ensures
        adjoint_entry(conj_seq(x), 3, 6) * x[6] == (3) * (x[0] * x[6]) + (2) * (x[1] * x[6]) + (-1) * (x[3] * x[6]) + (1) * (x[5] * x[6]) + (-6) * (x[6] * x[6]) + (4) * (x[6] * x[7]),
{
    lemma_trace_is_neg_last(x);
    assert(conj_seq(x)[0] == 2 * x[7] - x[0]);
    assert(conj_seq(x)[1] == 3 * x[7] - x[1]);
    assert(conj_seq(x)[2] == 4 * x[7] - x[2]);
    assert(conj_seq(x)[3] == 6 * x[7] - x[3]);
    assert(conj_seq(x)[4] == 5 * x[7] - x[4]);
    assert(conj_seq(x)[5] == 4 * x[7] - x[5]);
    assert(conj_seq(x)[6] == 3 * x[7] - x[6]);
    assert(conj_seq(x)[7] == 2 * x[7] - x[7]);
    lemma_adjoint_entries_eval_3(conj_seq(x));
    assert(adjoint_entry(conj_seq(x), 3, 6) == (-3) * conj_seq(x)[0] + (-2) * conj_seq(x)[1] + (0) * conj_seq(x)[2] + (1) * conj_seq(x)[3] + (0) * conj_seq(x)[4] + (-1) * conj_seq(x)[5] + (6) * conj_seq(x)[6] + (-4) * conj_seq(x)[7]);
    assert(adjoint_entry(conj_seq(x), 3, 6) == (3) * x[0] + (2) * x[1] + (0) * x[2] + (-1) * x[3] + (0) * x[4] + (1) * x[5] + (-6) * x[6] + (4) * x[7]);
    lemma_mul_comm(adjoint_entry(conj_seq(x), 3, 6), x[6]);
    lemma_mul_comm(x[6], x[0]);
    lemma_mul_comm(x[6], x[1]);
    lemma_mul_comm(x[6], x[2]);
    lemma_mul_comm(x[6], x[3]);
    lemma_mul_comm(x[6], x[4]);
    lemma_mul_comm(x[6], x[5]);
    lemma_mul_comm(x[6], x[6]);
    lemma_mul_comm(x[6], x[7]);
    lemma_mul_form8(x[6], adjoint_entry(conj_seq(x), 3, 6), (3), x[0], (2), x[1], (0), x[2], (-1), x[3], (0), x[4], (1), x[5], (-6), x[6], (4), x[7]);
}

proof fn lemma_cp_left_term_3_7(x: Seq<int>)
    requires
        is_coeffs(x),
    ensures
        adjoint_entry(conj_seq(x), 3, 7) * x[7] == (-2) * (x[0] * x[7]) + (-1) * (x[1] * x[7]) + (1) * (x[2] * x[7]) + (1) * (x[3] * x[7]) + (-1) * (x[4] * x[7]) + (2) * (x[5] * x[7]) + (2) * (x[6] * x[7]) + (-6) * (x[7] * x[7]),
{
    lemma_trace_is_neg_last(x);
    assert(conj_seq(x)[0] == 2 * x[7] - x[0]);
    assert(conj_seq(x)[1] == 3 * x[7] - x[1]);
    assert(conj_seq(x)[2] == 4 * x[7] - x[2]);
    assert(conj_seq(x)[3] == 6 * x[7] - x[3]);
    assert(conj_seq(x)[4] == 5 * x[7] - x[4]);
    assert(conj_seq(x)[5] == 4 * x[7] - x[5]);
    assert(conj_seq(x)[6] == 3 * x[7] - x[6]);
    assert(conj_seq(x)[7] == 2 * x[7] - x[7]);
    lemma_adjoint_entries_eval_3(conj_seq(x));
    assert(adjoint_entry(conj_seq(x), 3, 7) == (2) * conj_seq(x)[0] + (1) * conj_seq(x)[1] + (-1) * conj_seq(x)[2] + (-1) * conj_seq(x)[3] + (1) * conj_seq(x)[4] + (-2) * conj_seq(x)[5] + (-2) * conj_seq(x)[6] + (6) * conj_seq(x)[7]);
    assert(adjoint_entry(conj_seq(x), 3, 7) == (-2) * x[0] + (-1) * x[1] + (1) * x[2] + (1) * x[3] + (-1) * x[4] + (2) * x[5] + (2) * x[6] + (-6) * x[7]);
    lemma_mul_comm(adjoint_entry(conj_seq(x), 3, 7), x[7]);
    lemma_mul_comm(x[7], x[0]);
    lemma_mul_comm(x[7], x[1]);
    lemma_mul_comm(x[7], x[2]);
    lemma_mul_comm(x[7], x[3]);
    lemma_mul_comm(x[7], x[4]);
    lemma_mul_comm(x[7], x[5]);
    lemma_mul_comm(x[7], x[6]);
    lemma_mul_comm(x[7], x[7]);
    lemma_mul_form8(x[7], adjoint_entry(conj_seq(x), 3, 7), (-2), x[0], (-1), x[1], (1), x[2], (1), x[3], (-1), x[4], (2), x[5], (2), x[6], (-6), x[7]);
}

proof fn lemma_cp_left_term_4_0(x: Seq<int>)
    requires
        is_coeffs(x),
    ensures
        adjoint_entry(conj_seq(x), 4, 0) * x[0] == (-5) * (x[0] * x[0]) + (-1) * (x[0] * x[1]) + (2) * (x[0] * x[2]) + (2) * (x[0] * x[4]) + (-3) * (x[0] * x[6]) + (2) * (x[0] * x[7]),
{
    lemma_trace_is_neg_last(x);
    assert(conj_seq(x)[0] == 2 * x[7] - x[0]);
    assert(conj_seq(x)[1] == 3 * x[7] - x[1]);
    assert(conj_seq(x)[2] == 4 * x[7] - x[2]);
    assert(conj_seq(x)[3] == 6 * x[7] - x[3]);
    assert(conj_seq(x)[4] == 5 * x[7] - x[4]);
    assert(conj_seq(x)[5] == 4 * x[7] - x[5]);
    assert(conj_seq(x)[6] == 3 * x[7] - x[6]);
    assert(conj_seq(x)[7] == 2 * x[7] - x[7]);
    lemma_adjoint_entries_eval_4(conj_seq(x));
    assert(adjoint_entry(conj_seq(x), 4, 0) == (5) * conj_seq(x)[0] + (1) * conj_seq(x)[1] + (-2) * conj_seq(x)[2] + (0) * conj_seq(x)[3] + (-2) * conj_seq(x)[4] + (0) * conj_seq(x)[5] + (3) * conj_seq(x)[6] + (-2) * conj_seq(x)[7]);
    assert(adjoint_entry(conj_seq(x), 4, 0) == (-5) * x[0] + (-1) * x[1] + (2) * x[2] + (0) * x[3] + (2) * x[4] + (0) * x[5] + (-3) * x[6] + (2) * x[7]);
    lemma_mul_comm(adjoint_entry(conj_seq(x), 4, 0), x[0]);
    lemma_mul_comm(x[0], x[0]);
    lemma_mul_comm(x[0], x[1]);
    lemma_mul_comm(x[0], x[2]);
    lemma_mul_comm(x[0], x[3]);
    lemma_mul_comm(x[0], x[4]);
    lemma_mul_comm(x[0], x[5]);
    lemma_mul_comm(x[0], x[6]);
    lemma_mul_comm(x[0], x[7]);
    lemma_mul_form8(x[0], adjoint_entry(conj_seq(x), 4, 0), (-5), x[0], (-1), x[1], (2), x[2], (0), x[3], (2), x[4], (0), x[5], (-3), x[6], (2), x[7]);
}

proof fn lemma_cp_left_term_4_1(x: Seq<int>)
    requires
        is_coeffs(x),
    ensures
        adjoint_entry(conj_seq(x), 4, 1) * x[1] == (1) * (x[0] * x[1]) + (-5) * (x[1] * x[1]) + (-3) * (x[1] * x[2]) + (5) * (x[1] * x[3]) + (-2) * (x[1] * x[4]) + (2) * (x[1] * x[5]) + (-1) * (x[1] * x[6]),
{
    lemma_trace_is_neg_last(x);
    assert(conj_seq(x)[0] == 2 * x[7] - x[0]);
    assert(conj_seq(x)[1] == 3 * x[7] - x[1]);
    assert(conj_seq(x)[2] == 4 * x[7] - x[2]);
    assert(conj_seq(x)[3] == 6 * x[7] - x[3]);
    assert(conj_seq(x)[4] == 5 * x[7] - x[4]);
    assert(conj_seq(x)[5] == 4 * x[7] - x[5]);
    assert(conj_seq(x)[6] == 3 * x[7] - x[6]);
    assert(conj_seq(x)[7] == 2 * x[7] - x[7]);
    lemma_adjoint_entries_eval_4(conj_seq(x));
    assert(adjoint_entry(conj_seq(x), 4, 1) == (-1) * conj_seq(x)[0] + (5) * conj_seq(x)[1] + (3) * conj_seq(x)[2] + (-5) * conj_seq(x)[3] + (2) * conj_seq(x)[4] + (-2) * conj_seq(x)[5] + (1) * conj_seq(x)[6] + (0) * conj_seq(x)[7]);
    assert(adjoint_entry(conj_seq(x), 4, 1) == (1) * x[0] + (-5) * x[1] + (-3) * x[2] + (5) * x[3] + (-2) * x[4] + (2) * x[5] + (-1) * x[6] + (0) * x[7]);
    lemma_mul_comm(adjoint_entry(conj_seq(x), 4, 1), x[1]);
    lemma_mul_comm(x[1], x[0]);
    lemma_mul_comm(x[1], x[1]);
    lemma_mul_comm(x[1], x[2]);
    lemma_mul_comm(x[1], x[3]);
    lemma_mul_comm(x[1], x[4]);
    lemma_mul_comm(x[1], x[5]);
    lemma_mul_comm(x[1], x[6]);
    lemma_mul_comm(x[1], x[7]);
    lemma_mul_form8(x[1], adjoint_entry(conj_seq(x), 4, 1), (1), x[0], (-5), x[1], (-3), x[2], (5), x[3], (-2), x[4], (2), x[5], (-1), x[6], (0), x[7]);
}

proof fn lemma_cp_left_term_4_2(x: Seq<int>)
    requires
        is_coeffs(x),
    ensures
        adjoint_entry(conj_seq(x), 4, 2) * x[2] == (3) * (x[0] * x[2]) + (3) * (x[1] * x[2]) + (-5) * (x[2] * x[2]) + (1) * (x[2] * x[5]) + (1) * (x[2] * x[6]) + (-1) * (x[2] * x[7]),
{
    lemma_trace_is_neg_last(x);
    assert(conj_seq(x)[0] == 2 * x[7] - x[0]);
    assert(conj_seq(x)[1] == 3 * x[7] - x[1]);
    assert(conj_seq(x)[2] == 4 * x[7] - x[2]);
    assert(conj_seq(x)[3] == 6 * x[7] - x[3]);
    assert(conj_seq(x)[4] == 5 * x[7] - x[4]);
    assert(conj_seq(x)[5] == 4 * x[7] - x[5]);
    assert(conj_seq(x)[6] == 3 * x[7] - x[6]);
    assert(conj_seq(x)[7] == 2 * x[7] - x[7]);
    lemma_adjoint_entries_eval_4(conj_seq(x));
    assert(adjoint_entry(conj_seq(x), 4, 2) == (-3) * conj_seq(x)[0] + (-3) * conj_seq(x)[1] + (5) * conj_seq(x)[2] + (0) * conj_seq(x)[3] + (0) * conj_seq(x)[4] + (-1) * conj_seq(x)[5] + (-1) * conj_seq(x)[6] + (1) * conj_seq(x)[7]);
    assert(adjoint_entry(conj_seq(x), 4, 2) == (3) * x[0] + (3) * x[1] + (-5) * x[2] + (0) * x[3] + (0) * x[4] + (1) * x[5] + (1) * x[6] + (-1) * x[7]);
    lemma_mul_comm(adjoint_entry(conj_seq(x), 4, 2), x[2]);
    lemma_mul_comm(x[2], x[0]);
    lemma_mul_comm(x[2], x[1]);
    lemma_mul_comm(x[2], x[2]);
    lemma_mul_comm(x[2], x[3]);
    lemma_mul_comm(x[2], x[4]);
    lemma_mul_comm(x[2], x[5]);
    lemma_mul_comm(x[2], x[6]);
    lemma_mul_comm(x[2], x[7]);
    lemma_mul_form8(x[2], adjoint_entry(conj_seq(x), 4, 2), (3), x[0], (3), x[1], (-5), x[2], (0), x[3], (0), x[4], (1), x[5], (1), x[6], (-1), x[7]);
}

proof fn lemma_cp_left_term_4_3(x: Seq<int>)
    requires
        is_coeffs(x),
    ensures
        adjoint_entry(conj_seq(x), 4, 3) * x[3] == (5) * (x[2] * x[3]) + (-5) * (x[3] * x[3]) + (2) * (x[3] * x[4]),
{
    lemma_trace_is_neg_last(x);
    assert(conj_seq(x)[0] == 2 * x[7] - x[0]);
    assert(conj_seq(x)[1] == 3 * x[7] - x[1]);
    assert(conj_seq(x)[2] == 4 * x[7] - x[2]);
    assert(conj_seq(x)[3] == 6 * x[7] - x[3]);
    assert(conj_seq(x)[4] == 5 * x[7] - x[4]);
    assert(conj_seq(x)[5] == 4 * x[7] - x[5]);
    assert(conj_seq(x)[6] == 3 * x[7] - x[6]);
    assert(conj_seq(x)[7] == 2 * x[7] - x[7]);
    lemma_adjoint_entries_eval_4(conj_seq(x));
    assert(adjoint_entry(conj_seq(x), 4, 3) == (0) * conj_seq(x)[0] + (0) * conj_seq(x)[1] + (-5) * conj_seq(x)[2] + (5) * conj_seq(x)[3] + (-2) * conj_seq(x)[4] + (0) * conj_seq(x)[5] + (0) * conj_seq(x)[6] + (0) * conj_seq(x)[7]);
    assert(adjoint_entry(conj_seq(x), 4, 3) == (0) * x[0] + (0) * x[1] + (5) * x[2] + (-5) * x[3] + (2) * x[4] + (0) * x[5] + (0) * x[6] + (0) * x[7]);
    lemma_mul_comm(adjoint_entry(conj_seq(x), 4, 3), x[3]);
    lemma_mul_comm(x[3], x[0]);
    lemma_mul_comm(x[3], x[1]);
    lemma_mul_comm(x[3], x[2]);
    lemma_mul_comm(x[3], x[3]);
    lemma_mul_comm(x[3], x[4]);
    lemma_mul_comm(x[3], x[5]);
    lemma_mul_comm(x[3], x[6]);
    lemma_mul_comm(x[3], x[7]);
    lemma_mul_form8(x[3], adjoint_entry(conj_seq(x), 4, 3), (0), x[0], (0), x[1], (5), x[2], (-5), x[3], (2), x[4], (0), x[5], (0), x[6], (0), x[7]);
}

proof fn lemma_cp_left_term_4_4(x: Seq<int>)
    requires
        is_coeffs(x),
    ensures
        adjoint_entry(conj_seq(x), 4, 4) * x[4] == (-2) * (x[0] * x[4]) + (2) * (x[1] * x[4]) + (3) * (x[3] * x[4]) + (-5) * (x[4] * x[4]) + (1) * (x[4] * x[5]),
{
    lemma_trace_is_neg_last(x);
    assert(conj_seq(x)[0] == 2 * x[7] - x[0]);
    assert(conj_seq(x)[1] == 3 * x[7] - x[1]);
    assert(conj_seq(x)[2] == 4 * x[7] - x[2]);
    assert(conj_seq(x)[3] == 6 * x[7] - x[3]);
    assert(conj_seq(x)[4] == 5 * x[7] - x[4]);
    assert(conj_seq(x)[5] == 4 * x[7] - x[5]);
    assert(conj_seq(x)[6] == 3 * x[7] - x[6]);
    assert(conj_seq(x)[7] == 2 * x[7] - x[7]);
    lemma_adjoint_entries_eval_4(conj_seq(x));
    assert(adjoint_entry(conj_seq(x), 4, 4) == (2) * conj_seq(x)[0] + (-2) * conj_seq(x)[1] + (0) * conj_seq(x)[2] + (-3) * conj_seq(x)[3] + (5) * conj_seq(x)[4] + (-1) * conj_seq(x)[5] + (0) * conj_seq(x)[6] + (-1) * conj_seq(x)[7]);
    assert(adjoint_entry(conj_seq(x), 4, 4) == (-2) * x[0] + (2) * x[1] + (0) * x[2] + (3) * x[3] + (-5) * x[4] + (1) * x[5] + (0) * x[6] + (0) * x[7]);
    lemma_mul_comm(adjoint_entry(conj_seq(x), 4, 4), x[4]);
    lemma_mul_comm(x[4], x[0]);
    lemma_mul_comm(x[4], x[1]);
    lemma_mul_comm(x[4], x[2]);
    lemma_mul_comm(x[4], x[3]);
    lemma_mul_comm(x[4], x[4]);
    lemma_mul_comm(x[4], x[5]);
    lemma_mul_comm(x[4], x[6]);
    lemma_mul_comm(x[4], x[7]);
    lemma_mul_form8(x[4], adjoint_entry(conj_seq(x), 4, 4), (-2), x[0], (2), x[1], (0), x[2], (3), x[3], (-5), x[4], (1), x[5], (0), x[6], (0), x[7]);
}

proof fn lemma_cp_left_term_4_5(x: Seq<int>)
    requires
        is_coeffs(x),
    ensures
        adjoint_entry(conj_seq(x), 4, 5) * x[5] == (-2) * (x[1] * x[5]) + (-1) * (x[2] * x[5]) + (4) * (x[4] * x[5]) + (-5) * (x[5] * x[5]) + (4) * (x[5] * x[6]) + (-1) * (x[5] * x[7]),
{
    lemma_trace_is_neg_last(x);
    assert(conj_seq(x)[0] == 2 * x[7] - x[0]);
    assert(conj_seq(x)[1] == 3 * x[7] - x[1]);
    assert(conj_seq(x)[2] == 4 * x[7] - x[2]);
    assert(conj_seq(x)[3] == 6 * x[7] - x[3]);
    assert(conj_seq(x)[4] == 5 * x[7] - x[4]);
    assert(conj_seq(x)[5] == 4 * x[7] - x[5]);
    assert(conj_seq(x)[6] == 3 * x[7] - x[6]);
    assert(conj_seq(x)[7] == 2 * x[7] - x[7]);
    lemma_adjoint_entries_eval_4(conj_seq(x));
    assert(adjoint_entry(conj_seq(x), 4, 5) == (0) * conj_seq(x)[0] + (2) * conj_seq(x)[1] + (1) * conj_seq(x)[2] + (0) * conj_seq(x)[3] + (-4) * conj_seq(x)[4] + (5) * conj_seq(x)[5] + (-4) * conj_seq(x)[6] + (1) * conj_seq(x)[7]);
    assert(adjoint_entry(conj_seq(x), 4, 5) == (0) * x[0] + (-2) * x[1] + (-1) * x[2] + (0) * x[3] + (4) * x[4] + (-5) * x[5] + (4) * x[6] + (-1) * x[7]);
    lemma_mul_comm(adjoint_entry(conj_seq(x), 4, 5), x[5]);
    lemma_mul_comm(x[5], x[0]);
    lemma_mul_comm(x[5], x[1]);
    lemma_mul_comm(x[5], x[2]);
    lemma_mul_comm(x[5], x[3]);
    lemma_mul_comm(x[5], x[4]);
    lemma_mul_comm(x[5], x[5]);
    lemma_mul_comm(x[5], x[6]);
    lemma_mul_comm(x[5], x[7]);
    lemma_mul_form8(x[5], adjoint_entry(conj_seq(x), 4, 5), (0), x[0], (-2), x[1], (-1), x[2], (0), x[3], (4), x[4], (-5), x[5], (4), x[6], (-1), x[7]);
}

proof fn lemma_cp_left_term_4_6(x: Seq<int>)
    requires
        is_coeffs(x),
    ensures
        adjoint_entry(conj_seq(x), 4, 6) * x[6] == (3) * (x[0] * x[6]) + (1) * (x[1] * x[6]) + (-1) * (x[2] * x[6]) + (1) * (x[5] * x[6]) + (-5) * (x[6] * x[6]) + (3) * (x[6] * x[7]),
{
    lemma_trace_is_neg_last(x);
    assert(conj_seq(x)[0] == 2 * x[7] - x[0]);
    assert(conj_seq(x)[1] == 3 * x[7] - x[1]);
    assert(conj_seq(x)[2] == 4 * x[7] - x[2]);
    assert(conj_seq(x)[3] == 6 * x[7] - x[3]);
    assert(conj_seq(x)[4] == 5 * x[7] - x[4]);
    assert(conj_seq(x)[5] == 4 * x[7] - x[5]);
    assert(conj_seq(x)[6] == 3 * x[7] - x[6]);
    assert(conj_seq(x)[7] == 2 * x[7] - x[7]);
    lemma_adjoint_entries_eval_4(conj_seq(x));
    assert(adjoint_entry(conj_seq(x), 4, 6) == (-3) * conj_seq(x)[0] + (-1) * conj_seq(x)[1] + (1) * conj_seq(x)[2] + (0) * conj_seq(x)[3] + (0) * conj_seq(x)[4] + (-1) * conj_seq(x)[5] + (5) * conj_seq(x)[6] + (-3) * conj_seq(x)[7]);
    assert(adjoint_entry(conj_seq(x), 4, 6) == (3) * x[0] + (1) * x[1] + (-1) * x[2] + (0) * x[3] + (0) * x[4] + (1) * x[5] + (-5) * x[6] + (3) * x[7]);
    lemma_mul_comm(adjoint_entry(conj_seq(x), 4, 6), x[6]);
    lemma_mul_comm(x[6], x[0]);
    lemma_mul_comm(x[6], x[1]);
    lemma_mul_comm(x[6], x[2]);
    lemma_mul_comm(x[6], x[3]);
    lemma_mul_comm(x[6], x[4]);
    lemma_mul_comm(x[6], x[5]);
    lemma_mul_comm(x[6], x[6]);
    lemma_mul_comm(x[6], x[7]);
    lemma_mul_form8(x[6], adjoint_entry(conj_seq(x), 4, 6), (3), x[0], (1), x[1], (-1), x[2], (0), x[3], (0), x[4], (1), x[5], (-5), x[6], (3), x[7]);
}

proof fn lemma_cp_left_term_4_7(x: Seq<int>)
    requires
        is_coeffs(x),
    ensures
        adjoint_entry(conj_seq(x), 4, 7) * x[7] == (-2) * (x[0] * x[7]) + (1) * (x[2] * x[7]) + (1) * (x[5] * x[7]) + (2) * (x[6] * x[7]) + (-5) * (x[7] * x[7]),
{
    lemma_trace_is_neg_last(x);
    assert(conj_seq(x)[0] == 2 * x[7] - x[0]);
    assert(conj_seq(x)[1] == 3 * x[7] - x[1]);
    assert(conj_seq(x)[2] == 4 * x[7] - x[2]);
    assert(conj_seq(x)[3] == 6 * x[7] - x[3]);
    assert(conj_seq(x)[4] == 5 * x[7] - x[4]);
    assert(conj_seq(x)[5] == 4 * x[7] - x[5]);
    assert(conj_seq(x)[6] == 3 * x[7] - x[6]);
    assert(conj_seq(x)[7] == 2 * x[7] - x[7]);
    lemma_adjoint_entries_eval_4(conj_seq(x));
    assert(adjoint_entry(conj_seq(x), 4, 7) == (2) * conj_seq(x)[0] + (0) * conj_seq(x)[1] + (-1) * conj_seq(x)[2] + (0) * conj_seq(x)[3] + (0) * conj_seq(x)[4] + (-1) * conj_seq(x)[5] + (-2) * conj_seq(x)[6] + (5) * conj_seq(x)[7]);
    assert(adjoint_entry(conj_seq(x), 4, 7) == (-2) * x[0] + (0) * x[1] + (1) * x[2] + (0) * x[3] + (0) * x[4] + (1) * x[5] + (2) * x[6] + (-5) * x[7]);
    lemma_mul_comm(adjoint_entry(conj_seq(x), 4, 7), x[7]);
    lemma_mul_comm(x[7], x[0]);
    lemma_mul_comm(x[7], x[1]);
    lemma_mul_comm(x[7], x[2]);
    lemma_mul_comm(x[7], x[3]);
    lemma_mul_comm(x[7], x[4]);
    lemma_mul_comm(x[7], x[5]);
    lemma_mul_comm(x[7], x[6]);
    lemma_mul_comm(x[7], x[7]);
    lemma_mul_form8(x[7], adjoint_entry(conj_seq(x), 4, 7), (-2), x[0], (0), x[1], (1), x[2], (0), x[3], (0), x[4], (1), x[5], (2), x[6], (-5), x[7]);
}

proof fn lemma_cp_left_term_5_0(x: Seq<int>)
    requires
        is_coeffs(x),
    ensures
        adjoint_entry(conj_seq(x), 5, 0) * x[0] == (-4) * (x[0] * x[0]) + (-1) * (x[0] * x[1]) + (1) * (x[0] * x[2]) + (1) * (x[0] * x[3]) + (1) * (x[0] * x[4]) + (-2) * (x[0] * x[6]) + (1) * (x[0] * x[7]),
{
    lemma_trace_is_neg_last(x);
    assert(conj_seq(x)[0] == 2 * x[7] - x[0]);
    assert(conj_seq(x)[1] == 3 * x[7] - x[1]);
    assert(conj_seq(x)[2] == 4 * x[7] - x[2]);
    assert(conj_seq(x)[3] == 6 * x[7] - x[3]);
    assert(conj_seq(x)[4] == 5 * x[7] - x[4]);
    assert(conj_seq(x)[5] == 4 * x[7] - x[5]);
    assert(conj_seq(x)[6] == 3 * x[7] - x[6]);
    assert(conj_seq(x)[7] == 2 * x[7] - x[7]);
    lemma_adjoint_entries_eval_5(conj_seq(x));
    assert(adjoint_entry(conj_seq(x), 5, 0) == (4) * conj_seq(x)[0] + (1) * conj_seq(x)[1] + (-1) * conj_seq(x)[2] + (-1) * conj_seq(x)[3] + (-1) * conj_seq(x)[4] + (0) * conj_seq(x)[5] + (2) * conj_seq(x)[6] + (-1) * conj_seq(x)[7]);
    assert(adjoint_entry(conj_seq(x), 5, 0) == (-4) * x[0] + (-1) * x[1] + (1) * x[2] + (1) * x[3] + (1) * x[4] + (0) * x[5] + (-2) * x[6] + (1) * x[7]);
    lemma_mul_comm(adjoint_entry(conj_seq(x), 5, 0), x[0]);
    lemma_mul_comm(x[0], x[0]);
    lemma_mul_comm(x[0], x[1]);
    lemma_mul_comm(x[0], x[2]);
    lemma_mul_comm(x[0], x[3]);
    lemma_mul_comm(x[0], x[4]);
    lemma_mul_comm(x[0], x[5]);
    lemma_mul_comm(x[0], x[6]);
    lemma_mul_comm(x[0], x[7]);
    lemma_mul_form8(x[0], adjoint_entry(conj_seq(x), 5, 0), (-4), x[0], (-1), x[1], (1), x[2], (1), x[3], (1), x[4], (0), x[5], (-2), x[6], (1), x[7]);
}

proof fn lemma_cp_left_term_5_1(x: Seq<int>)
    requires
        is_coeffs(x),
    ensures
        adjoint_entry(conj_seq(x), 5, 1) * x[1] == (1) * (x[0] * x[1]) + (-4) * (x[1] * x[1]) + (-2) * (x[1] * x[2]) + (4) * (x[1] * x[3]) + (-2) * (x[1] * x[4]) + (1) * (x[1] * x[5]),
{
    lemma_trace_is_neg_last(x);
    assert(conj_seq(x)[0] == 2 * x[7] - x[0]);
    assert(conj_seq(x)[1] == 3 * x[7] - x[1]);
    assert(conj_seq(x)[2] == 4 * x[7] - x[2]);
    assert(conj_seq(x)[3] == 6 * x[7] - x[3]);
    assert(conj_seq(x)[4] == 5 * x[7] - x[4]);
    assert(conj_seq(x)[5] == 4 * x[7] - x[5]);
    assert(conj_seq(x)[6] == 3 * x[7] - x[6]);
    assert(conj_seq(x)[7] == 2 * x[7] - x[7]);
    lemma_adjoint_entries_eval_5(conj_seq(x));
    assert(adjoint_entry(conj_seq(x), 5, 1) == (-1) * conj_seq(x)[0] + (4) * conj_seq(x)[1] + (2) * conj_seq(x)[2] + (-4) * conj_seq(x)[3] + (2) * conj_seq(x)[4] + (-1) * conj_seq(x)[5] + (0) * conj_seq(x)[6] + (0) * conj_seq(x)[7]);
    assert(adjoint_entry(conj_seq(x), 5, 1) == (1) * x[0] + (-4) * x[1] + (-2) * x[2] + (4) * x[3] + (-2) * x[4] + (1) * x[5] + (0) * x[6] + (0) * x[7]);
    lemma_mul_comm(adjoint_entry(conj_seq(x), 5, 1), x[1]);
    lemma_mul_comm(x[1], x[0]);
    lemma_mul_comm(x[1], x[1]);
    lemma_mul_comm(x[1], x[2]);
    lemma_mul_comm(x[1], x[3]);
    lemma_mul_comm(x[1], x[4]);
    lemma_mul_comm(x[1], x[5]);
    lemma_mul_comm(x[1], x[6]);
    lemma_mul_comm(x[1], x[7]);
    lemma_mul_form8(x[1], adjoint_entry(conj_seq(x), 5, 1), (1), x[0], (-4), x[1], (-2), x[2], (4), x[3], (-2), x[4], (1), x[5], (0), x[6], (0), x[7]);
}

proof fn lemma_cp_left_term_5_2(x: Seq<int>)
    requires
        is_coeffs(x),
    ensures
        adjoint_entry(conj_seq(x), 5, 2) * x[2] == (3) * (x[0] * x[2]) + (2) * (x[1] * x[2]) + (-4) * (x[2] * x[2]) + (1) * (x[2] * x[5]),
{
    lemma_trace_is_neg_last(x);
    assert(conj_seq(x)[0] == 2 * x[7] - x[0]);
    assert(conj_seq(x)[1] == 3 * x[7] - x[1]);
    assert(conj_seq(x)[2] == 4 * x[7] - x[2]);
    assert(conj_seq(x)[3] == 6 * x[7] - x[3]);
    assert(conj_seq(x)[4] == 5 * x[7] - x[4]);
    assert(conj_seq(x)[5] == 4 * x[7] - x[5]);
    assert(conj_seq(x)[6] == 3 * x[7] - x[6]);
    assert(conj_seq(x)[7] == 2 * x[7] - x[7]);
    lemma_adjoint_entries_eval_5(conj_seq(x));
    assert(adjoint_entry(conj_seq(x), 5, 2) == (-3) * conj_seq(x)[0] + (-2) * conj_seq(x)[1] + (4) * conj_seq(x)[2] + (0) * conj_seq(x)[3] + (0) * conj_seq(x)[4] + (-1) * conj_seq(x)[5] + (0) * conj_seq(x)[6] + (0) * conj_seq(x)[7]);
    assert(adjoint_entry(conj_seq(x), 5, 2) == (3) * x[0] + (2) * x[1] + (-4) * x[2] + (0) * x[3] + (0) * x[4] + (1) * x[5] + (0) * x[6] + (0) * x[7]);
    lemma_mul_comm(adjoint_entry(conj_seq(x), 5, 2), x[2]);
    lemma_mul_comm(x[2], x[0]);
    lemma_mul_comm(x[2], x[1]);
    lemma_mul_comm(x[2], x[2]);
    lemma_mul_comm(x[2], x[3]);
    lemma_mul_comm(x[2], x[4]);
    lemma_mul_comm(x[2], x[5]);
    lemma_mul_comm(x[2], x[6]);
    lemma_mul_comm(x[2], x[7]);
    lemma_mul_form8(x[2], adjoint_entry(conj_seq(x), 5, 2), (3), x[0], (2), x[1], (-4), x[2], (0), x[3], (0), x[4], (1), x[5], (0), x[6], (0), x[7]);
}

proof fn lemma_cp_left_term_5_3(x: Seq<int>)
    requires
        is_coeffs(x),
    ensures
        adjoint_entry(conj_seq(x), 5, 3) * x[3] == (-1) * (x[0] * x[3]) + (4) * (x[2] * x[3]) + (-4) * (x[3] * x[3]) + (2) * (x[3] * x[4]),
{
    lemma_trace_is_neg_last(x);
    assert(conj_seq(x)[0] == 2 * x[7] - x[0]);
    assert(conj_seq(x)[1] == 3 * x[7] - x[1]);
    assert(conj_seq(x)[2] == 4 * x[7] - x[2]);
    assert(conj_seq(x)[3] == 6 * x[7] - x[3]);
    assert(conj_seq(x)[4] == 5 * x[7] - x[4]);
    assert(conj_seq(x)[5] == 4 * x[7] - x[5]);
    assert(conj_seq(x)[6] == 3 * x[7] - x[6]);
    assert(conj_seq(x)[7] == 2 * x[7] - x[7]);
    lemma_adjoint_entries_eval_5(conj_seq(x));
    assert(adjoint_entry(conj_seq(x), 5, 3) == (1) * conj_seq(x)[0] + (0) * conj_seq(x)[1] + (-4) * conj_seq(x)[2] + (4) * conj_seq(x)[3] + (-2) * conj_seq(x)[4] + (0) * conj_seq(x)[5] + (0) * conj_seq(x)[6] + (0) * conj_seq(x)[7]);
    assert(adjoint_entry(conj_seq(x), 5, 3) == (-1) * x[0] + (0) * x[1] + (4) * x[2] + (-4) * x[3] + (2) * x[4] + (0) * x[5] + (0) * x[6] + (0) * x[7]);
    lemma_mul_comm(adjoint_entry(conj_seq(x), 5, 3), x[3]);
    lemma_mul_comm(x[3], x[0]);
    lemma_mul_comm(x[3], x[1]);
    lemma_mul_comm(x[3], x[2]);
    lemma_mul_comm(x[3], x[3]);
    lemma_mul_comm(x[3], x[4]);
    lemma_mul_comm(x[3], x[5]);
    lemma_mul_comm(x[3], x[6]);
    lemma_mul_comm(x[3], x[7]);
    lemma_mul_form8(x[3], adjoint_entry(conj_seq(x), 5, 3), (-1), x[0], (0), x[1], (4), x[2], (-4), x[3], (2), x[4], (0), x[5], (0), x[6], (0), x[7]);
}

proof fn lemma_cp_left_term_5_4(x: Seq<int>)
    requires
        is_coeffs(x),
    ensures
        adjoint_entry(conj_seq(x), 5, 4) * x[4] == (-1) * (x[0] * x[4]) + (2) * (x[1] * x[4]) + (2) * (x[3] * x[4]) + (-4) * (x[4] * x[4]) + (1) * (x[4] * x[5]),
{
    lemma_trace_is_neg_last(x);
    assert(conj_seq(x)[0] == 2 * x[7] - x[0]);
    assert(conj_seq(x)[1] == 3 * x[7] - x[1]);
    assert(conj_seq(x)[2] == 4 * x[7] - x[2]);
    assert(conj_seq(x)[3] == 6 * x[7] - x[3]);
    assert(conj_seq(x)[4] == 5 * x[7] - x[4]);
    assert(conj_seq(x)[5] == 4 * x[7] - x[5]);
    assert(conj_seq(x)[6] == 3 * x[7] - x[6]);
    assert(conj_seq(x)[7] == 2 * x[7] - x[7]);
    lemma_adjoint_entries_eval_5(conj_seq(x));
    assert(adjoint_entry(conj_seq(x), 5, 4) == (1) * conj_seq(x)[0] + (-2) * conj_seq(x)[1] + (0) * conj_seq(x)[2] + (-2) * conj_seq(x)[3] + (4) * conj_seq(x)[4] + (-1) * conj_seq(x)[5] + (0) * conj_seq(x)[6] + (0) * conj_seq(x)[7]);
    assert(adjoint_entry(conj_seq(x), 5, 4) == (-1) * x[0] + (2) * x[1] + (0) * x[2] + (2) * x[3] + (-4) * x[4] + (1) * x[5] + (0) * x[6] + (0) * x[7]);
    lemma_mul_comm(adjoint_entry(conj_seq(x), 5, 4), x[4]);
    lemma_mul_comm(x[4], x[0]);
    lemma_mul_comm(x[4], x[1]);
    lemma_mul_comm(x[4], x[2]);
    lemma_mul_comm(x[4], x[3]);
    lemma_mul_comm(x[4], x[4]);
    lemma_mul_comm(x[4], x[5]);
    lemma_mul_comm(x[4], x[6]);
    lemma_mul_comm(x[4], x[7]);
    lemma_mul_form8(x[4], adjoint_entry(conj_seq(x), 5, 4), (-1), x[0], (2), x[1], (0), x[2], (2), x[3], (-4), x[4], (1), x[5], (0), x[6], (0), x[7]);
}

proof fn lemma_cp_left_term_5_5(x: Seq<int>)
    requires
        is_coeffs(x),
    ensures
        adjoint_entry(conj_seq(x), 5, 5) * x[5] == (-1) * (x[1] * x[5]) + (-1) * (x[2] * x[5]) + (3) * (x[4] * x[5]) + (-4) * (x[5] * x[5]) + (3) * (x[5] * x[6]) + (-1) * (x[5] * x[7]),
{
    lemma_trace_is_neg_last(x);
    assert(conj_seq(x)[0] == 2 * x[7] - x[0]);
    assert(conj_seq(x)[1] == 3 * x[7] - x[1]);
    assert(conj_seq(x)[2] == 4 * x[7] - x[2]);
    assert(conj_seq(x)[3] == 6 * x[7] - x[3]);
    assert(conj_seq(x)[4] == 5 * x[7] - x[4]);
    assert(conj_seq(x)[5] == 4 * x[7] - x[5]);
    assert(conj_seq(x)[6] == 3 * x[7] - x[6]);
    assert(conj_seq(x)[7] == 2 * x[7] - x[7]);
    lemma_adjoint_entries_eval_5(conj_seq(x));
    assert(adjoint_entry(conj_seq(x), 5, 5) == (0) * conj_seq(x)[0] + (1) * conj_seq(x)[1] + (1) * conj_seq(x)[2] + (0) * conj_seq(x)[3] + (-3) * conj_seq(x)[4] + (4) * conj_seq(x)[5] + (-3) * conj_seq(x)[6] + (0) * conj_seq(x)[7]);
    assert(adjoint_entry(conj_seq(x), 5, 5) == (0) * x[0] + (-1) * x[1] + (-1) * x[2] + (0) * x[3] + (3) * x[4] + (-4) * x[5] + (3) * x[6] + (-1) * x[7]);
    lemma_mul_comm(adjoint_entry(conj_seq(x), 5, 5), x[5]);
    lemma_mul_comm(x[5], x[0]);
    lemma_mul_comm(x[5], x[1]);
    lemma_mul_comm(x[5], x[2]);
    lemma_mul_comm(x[5], x[3]);
    lemma_mul_comm(x[5], x[4]);
    lemma_mul_comm(x[5], x[5]);
    lemma_mul_comm(x[5], x[6]);
    lemma_mul_comm(x[5], x[7]);
    lemma_mul_form8(x[5], adjoint_entry(conj_seq(x), 5, 5), (0), x[0], (-1), x[1], (-1), x[2], (0), x[3], (3), x[4], (-4), x[5], (3), x[6], (-1), x[7]);
}

proof fn lemma_cp_left_term_5_6(x: Seq<int>)
    requires
        is_coeffs(x),
    ensures
        adjoint_entry(conj_seq(x), 5, 6) * x[6] == (2) * (x[0] * x[6]) + (1) * (x[5] * x[6]) + (-4) * (x[6] * x[6]) + (2) * (x[6] * x[7]),
{
    lemma_trace_is_neg_last(x);
    assert(conj_seq(x)[0] == 2 * x[7] - x[0]);
    assert(conj_seq(x)[1] == 3 * x[7] - x[1]);
    assert(conj_seq(x)[2] == 4 * x[7] - x[2]);
    assert(conj_seq(x)[3] == 6 * x[7] - x[3]);
    assert(conj_seq(x)[4] == 5 * x[7] - x[4]);
    assert(conj_seq(x)[5] == 4 * x[7] - x[5]);
    assert(conj_seq(x)[6] == 3 * x[7] - x[6]);
    assert(conj_seq(x)[7] == 2 * x[7] - x[7]);
    lemma_adjoint_entries_eval_5(conj_seq(x));
    assert(adjoint_entry(conj_seq(x), 5, 6) == (-2) * conj_seq(x)[0] + (0) * conj_seq(x)[1] + (0) * conj_seq(x)[2] + (0) * conj_seq(x)[3] + (0) * conj_seq(x)[4] + (-1) * conj_seq(x)[5] + (4) * conj_seq(x)[6] + (-2) * conj_seq(x)[7]);
    assert(adjoint_entry(conj_seq(x), 5, 6) == (2) * x[0] + (0) * x[1] + (0) * x[2] + (0) * x[3] + (0) * x[4] + (1) * x[5] + (-4) * x[6] + (2) * x[7]);
    lemma_mul_comm(adjoint_entry(conj_seq(x), 5, 6), x[6]);
    lemma_mul_comm(x[6], x[0]);
    lemma_mul_comm(x[6], x[1]);
    lemma_mul_comm(x[6], x[2]);
    lemma_mul_comm(x[6], x[3]);
    lemma_mul_comm(x[6], x[4]);
    lemma_mul_comm(x[6], x[5]);
    lemma_mul_comm(x[6], x[6]);
    lemma_mul_comm(x[6], x[7]);
    lemma_mul_form8(x[6], adjoint_entry(conj_seq(x), 5, 6), (2), x[0], (0), x[1], (0), x[2], (0), x[3], (0), x[4], (1), x[5], (-4), x[6], (2), x[7]);
}

proof fn lemma_cp_left_term_5_7(x: Seq<int>)
    requires
        is_coeffs(x),
    ensures
        adjoint_entry(conj_seq(x), 5, 7) * x[7] == (-1) * (x[0] * x[7]) + (1) * (x[5] * x[7]) + (2) * (x[6] * x[7]) + (-4) * (x[7] * x[7]),
{
    lemma_trace_is_neg_last(x);
    assert(conj_seq(x)[0] == 2 * x[7] - x[0]);
    assert(conj_seq(x)[1] == 3 * x[7] - x[1]);
    assert(conj_seq(x)[2] == 4 * x[7] - x[2]);
    assert(conj_seq(x)[3] == 6 * x[7] - x[3]);
    assert(conj_seq(x)[4] == 5 * x[7] - x[4]);
    assert(conj_seq(x)[5] == 4 * x[7] - x[5]);
    assert(conj_seq(x)[6] == 3 * x[7] - x[6]);
    assert(conj_seq(x)[7] == 2 * x[7] - x[7]);
    lemma_adjoint_entries_eval_5(conj_seq(x));
    assert(adjoint_entry(conj_seq(x), 5, 7) == (1) * conj_seq(x)[0] + (0) * conj_seq(x)[1] + (0) * conj_seq(x)[2] + (0) * conj_seq(x)[3] + (0) * conj_seq(x)[4] + (-1) * conj_seq(x)[5] + (-2) * conj_seq(x)[6] + (4) * conj_seq(x)[7]);
    assert(adjoint_entry(conj_seq(x), 5, 7) == (-1) * x[0] + (0) * x[1] + (0) * x[2] + (0) * x[3] + (0) * x[4] + (1) * x[5] + (2) * x[6] + (-4) * x[7]);
    lemma_mul_comm(adjoint_entry(conj_seq(x), 5, 7), x[7]);
    lemma_mul_comm(x[7], x[0]);
    lemma_mul_comm(x[7], x[1]);
    lemma_mul_comm(x[7], x[2]);
    lemma_mul_comm(x[7], x[3]);
    lemma_mul_comm(x[7], x[4]);
    lemma_mul_comm(x[7], x[5]);
    lemma_mul_comm(x[7], x[6]);
    lemma_mul_comm(x[7], x[7]);
    lemma_mul_form8(x[7], adjoint_entry(conj_seq(x), 5, 7), (-1), x[0], (0), x[1], (0), x[2], (0), x[3], (0), x[4], (1), x[5], (2), x[6], (-4), x[7]);
}

proof fn lemma_cp_left_term_6_0(x: Seq<int>)
    requires
        is_coeffs(x),
    ensures
        adjoint_entry(conj_seq(x), 6, 0) * x[0] == (-3) * (x[0] * x[0]) + (1) * (x[0] * x[2]) + (1) * (x[0] * x[4]) + (-1) * (x[0] * x[6]),
{
    lemma_trace_is_neg_last(x);
    assert(conj_seq(x)[0] == 2 * x[7] - x[0]);
    assert(conj_seq(x)[1] == 3 * x[7] - x[1]);
    assert(conj_seq(x)[2] == 4 * x[7] - x[2]);
    assert(conj_seq(x)[3] == 6 * x[7] - x[3]);
    assert(conj_seq(x)[4] == 5 * x[7] - x[4]);
    assert(conj_seq(x)[5] == 4 * x[7] - x[5]);
    assert(conj_seq(x)[6] == 3 * x[7] - x[6]);
    assert(conj_seq(x)[7] == 2 * x[7] - x[7]);
    lemma_adjoint_entries_eval_6(conj_seq(x));
    assert(adjoint_entry(conj_seq(x), 6, 0) == (3) * conj_seq(x)[0] + (0) * conj_seq(x)[1] + (-1) * conj_seq(x)[2] + (0) * conj_seq(x)[3] + (-1) * conj_seq(x)[4] + (0) * conj_seq(x)[5] + (1) * conj_seq(x)[6] + (0) * conj_seq(x)[7]);
    assert(adjoint_entry(conj_seq(x), 6, 0) == (-3) * x[0] + (0) * x[1] + (1) * x[2] + (0) * x[3] + (1) * x[4] + (0) * x[5] + (-1) * x[6] + (0) * x[7]);
    lemma_mul_comm(adjoint_entry(conj_seq(x), 6, 0), x[0]);
    lemma_mul_comm(x[0], x[0]);
    lemma_mul_comm(x[0], x[1]);
    lemma_mul_comm(x[0], x[2]);
    lemma_mul_comm(x[0], x[3]);
    lemma_mul_comm(x[0], x[4]);
    lemma_mul_comm(x[0], x[5]);
    lemma_mul_comm(x[0], x[6]);
    lemma_mul_comm(x[0], x[7]);
    lemma_mul_form8(x[0], adjoint_entry(conj_seq(x), 6, 0), (-3), x[0], (0), x[1], (1), x[2], (0), x[3], (1), x[4], (0), x[5], (-1), x[6], (0), x[7]);
}

proof fn lemma_cp_left_term_6_1(x: Seq<int>)
    requires
        is_coeffs(x),
    ensures
        adjoint_entry(conj_seq(x), 6, 1) * x[1] == (-3) * (x[1] * x[1]) + (-1) * (x[1] * x[2]) + (3) * (x[1] * x[3]) + (-1) * (x[1] * x[4]),
{
    lemma_trace_is_neg_last(x);
    assert(conj_seq(x)[0] == 2 * x[7] - x[0]);
    assert(conj_seq(x)[1] == 3 * x[7] - x[1]);
    assert(conj_seq(x)[2] == 4 * x[7] - x[2]);
    assert(conj_seq(x)[3] == 6 * x[7] - x[3]);
    assert(conj_seq(x)[4] == 5 * x[7] - x[4]);
    assert(conj_seq(x)[5] == 4 * x[7] - x[5]);
    assert(conj_seq(x)[6] == 3 * x[7] - x[6]);
    assert(conj_seq(x)[7] == 2 * x[7] - x[7]);
    lemma_adjoint_entries_eval_6(conj_seq(x));
    assert(adjoint_entry(conj_seq(x), 6, 1) == (0) * conj_seq(x)[0] + (3) * conj_seq(x)[1] + (1) * conj_seq(x)[2] + (-3) * conj_seq(x)[3] + (1) * conj_seq(x)[4] + (0) * conj_seq(x)[5] + (0) * conj_seq(x)[6] + (0) * conj_seq(x)[7]);
    assert(adjoint_entry(conj_seq(x), 6, 1) == (0) * x[0] + (-3) * x[1] + (-1) * x[2] + (3) * x[3] + (-1) * x[4] + (0) * x[5] + (0) * x[6] + (0) * x[7]);
    lemma_mul_comm(adjoint_entry(conj_seq(x), 6, 1), x[1]);
    lemma_mul_comm(x[1], x[0]);
    lemma_mul_comm(x[1], x[1]);
    lemma_mul_comm(x[1], x[2]);
    lemma_mul_comm(x[1], x[3]);
    lemma_mul_comm(x[1], x[4]);
    lemma_mul_comm(x[1], x[5]);
    lemma_mul_comm(x[1], x[6]);
    lemma_mul_comm(x[1], x[7]);
    lemma_mul_form8(x[1], adjoint_entry(conj_seq(x), 6, 1), (0), x[0], (-3), x[1], (-1), x[2], (3), x[3], (-1), x[4], (0), x[5], (0), x[6], (0), x[7]);
}

proof fn lemma_cp_left_term_6_2(x: Seq<int>)
    requires
        is_coeffs(x),
    ensures
        adjoint_entry(conj_seq(x), 6, 2) * x[2] == (2) * (x[0] * x[2]) + (1) * (x[1] * x[2]) + (-3) * (x[2] * x[2]) + (1) * (x[2] * x[3]) + (-1) * (x[2] * x[4]) + (1) * (x[2] * x[5]),
{
    lemma_trace_is_neg_last(x);
    assert(conj_seq(x)[0] == 2 * x[7] - x[0]);
    assert(conj_seq(x)[1] == 3 * x[7] - x[1]);
    assert(conj_seq(x)[2] == 4 * x[7] - x[2]);
    assert(conj_seq(x)[3] == 6 * x[7] - x[3]);
    assert(conj_seq(x)[4] == 5 * x[7] - x[4]);
    assert(conj_seq(x)[5] == 4 * x[7] - x[5]);
    assert(conj_seq(x)[6] == 3 * x[7] - x[6]);
    assert(conj_seq(x)[7] == 2 * x[7] - x[7]);
    lemma_adjoint_entries_eval_6(conj_seq(x));
    assert(adjoint_entry(conj_seq(x), 6, 2) == (-2) * conj_seq(x)[0] + (-1) * conj_seq(x)[1] + (3) * conj_seq(x)[2] + (-1) * conj_seq(x)[3] + (1) * conj_seq(x)[4] + (-1) * conj_seq(x)[5] + (0) * conj_seq(x)[6] + (0) * conj_seq(x)[7]);
    assert(adjoint_entry(conj_seq(x), 6, 2) == (2) * x[0] + (1) * x[1] + (-3) * x[2] + (1) * x[3] + (-1) * x[4] + (1) * x[5] + (0) * x[6] + (0) * x[7]);
    lemma_mul_comm(adjoint_entry(conj_seq(x), 6, 2), x[2]);
    lemma_mul_comm(x[2], x[0]);
    lemma_mul_comm(x[2], x[1]);
    lemma_mul_comm(x[2], x[2]);
    lemma_mul_comm(x[2], x[3]);
    lemma_mul_comm(x[2], x[4]);
    lemma_mul_comm(x[2], x[5]);
    lemma_mul_comm(x[2], x[6]);
    lemma_mul_comm(x[2], x[7]);
    lemma_mul_form8(x[2], adjoint_entry(conj_seq(x), 6, 2), (2), x[0], (1), x[1], (-3), x[2], (1), x[3], (-1), x[4], (1), x[5], (0), x[6], (0), x[7]);
}

proof fn lemma_cp_left_term_6_3(x: Seq<int>)
    requires
        is_coeffs(x),
    ensures
        adjoint_entry(conj_seq(x), 6, 3) * x[3] == (2) * (x[2] * x[3]) + (-3) * (x[3] * x[3]) + (2) * (x[3] * x[4]),
{
    lemma_trace_is_neg_last(x);
    assert(conj_seq(x)[0] == 2 * x[7] - x[0]);
    assert(conj_seq(x)[1] == 3 * x[7] - x[1]);
    assert(conj_seq(x)[2] == 4 * x[7] - x[2]);
    assert(conj_seq(x)[3] == 6 * x[7] - x[3]);
    assert(conj_seq(x)[4] == 5 * x[7] - x[4]);
    assert(conj_seq(x)[5] == 4 * x[7] - x[5]);
    assert(conj_seq(x)[6] == 3 * x[7] - x[6]);
    assert(conj_seq(x)[7] == 2 * x[7] - x[7]);
    lemma_adjoint_entries_eval_6(conj_seq(x));
    assert(adjoint_entry(conj_seq(x), 6, 3) == (0) * conj_seq(x)[0] + (0) * conj_seq(x)[1] + (-2) * conj_seq(x)[2] + (3) * conj_seq(x)[3] + (-2) * conj_seq(x)[4] + (0) * conj_seq(x)[5] + (0) * conj_seq(x)[6] + (0) * conj_seq(x)[7]);
    assert(adjoint_entry(conj_seq(x), 6, 3) == (0) * x[0] + (0) * x[1] + (2) * x[2] + (-3) * x[3] + (2) * x[4] + (0) * x[5] + (0) * x[6] + (0) * x[7]);
    lemma_mul_comm(adjoint_entry(conj_seq(x), 6, 3), x[3]);
    lemma_mul_comm(x[3], x[0]);
    lemma_mul_comm(x[3], x[1]);
    lemma_mul_comm(x[3], x[2]);
    lemma_mul_comm(x[3], x[3]);
    lemma_mul_comm(x[3], x[4]);
    lemma_mul_comm(x[3], x[5]);
    lemma_mul_comm(x[3], x[6]);
    lemma_mul_comm(x[3], x[7]);
    lemma_mul_form8(x[3], adjoint_entry(conj_seq(x), 6, 3), (0), x[0], (0), x[1], (2), x[2], (-3), x[3], (2), x[4], (0), x[5], (0), x[6], (0), x[7]);
}

proof fn lemma_cp_left_term_6_4(x: Seq<int>)
    requires
        is_coeffs(x),
    ensures
        adjoint_entry(conj_seq(x), 6, 4) * x[4] == (-1) * (x[0] * x[4]) + (1) * (x[1] * x[4]) + (1) * (x[2] * x[4]) + (1) * (x[3] * x[4]) + (-3) * (x[4] * x[4]) + (1) * (x[4] * x[5]),
{
    lemma_trace_is_neg_last(x);
    assert(conj_seq(x)[0] == 2 * x[7] - x[0]);
    assert(conj_seq(x)[1] == 3 * x[7] - x[1]);
    assert(conj_seq(x)[2] == 4 * x[7] - x[2]);
    assert(conj_seq(x)[3] == 6 * x[7] - x[3]);
    assert(conj_seq(x)[4] == 5 * x[7] - x[4]);
    assert(conj_seq(x)[5] == 4 * x[7] - x[5]);
    assert(conj_seq(x)[6] == 3 * x[7] - x[6]);
    assert(conj_seq(x)[7] == 2 * x[7] - x[7]);
    lemma_adjoint_entries_eval_6(conj_seq(x));
    assert(adjoint_entry(conj_seq(x), 6, 4) == (1) * conj_seq(x)[0] + (-1) * conj_seq(x)[1] + (-1) * conj_seq(x)[2] + (-1) * conj_seq(x)[3] + (3) * conj_seq(x)[4] + (-1) * conj_seq(x)[5] + (0) * conj_seq(x)[6] + (0) * conj_seq(x)[7]);
    assert(adjoint_entry(conj_seq(x), 6, 4) == (-1) * x[0] + (1) * x[1] + (1) * x[2] + (1) * x[3] + (-3) * x[4] + (1) * x[5] + (0) * x[6] + (0) * x[7]);
    lemma_mul_comm(adjoint_entry(conj_seq(x), 6, 4), x[4]);
    lemma_mul_comm(x[4], x[0]);
    lemma_mul_comm(x[4], x[1]);
    lemma_mul_comm(x[4], x[2]);
    lemma_mul_comm(x[4], x[3]);
    lemma_mul_comm(x[4], x[4]);
    lemma_mul_comm(x[4], x[5]);
    lemma_mul_comm(x[4], x[6]);
    lemma_mul_comm(x[4], x[7]);
    lemma_mul_form8(x[4], adjoint_entry(conj_seq(x), 6, 4), (-1), x[0], (1), x[1], (1), x[2], (1), x[3], (-3), x[4], (1), x[5], (0), x[6], (0), x[7]);
}

proof fn lemma_cp_left_term_6_5(x: Seq<int>)
    requires
        is_coeffs(x),
    ensures
        adjoint_entry(conj_seq(x), 6, 5) * x[5] == (-1) * (x[2] * x[5]) + (2) * (x[4] * x[5]) + (-3) * (x[5] * x[5]) + (2) * (x[5] * x[6]),
{
    lemma_trace_is_neg_last(x);
    assert(conj_seq(x)[0] == 2 * x[7] - x[0]);
    assert(conj_seq(x)[1] == 3 * x[7] - x[1]);
    assert(conj_seq(x)[2] == 4 * x[7] - x[2]);
    assert(conj_seq(x)[3] == 6 * x[7] - x[3]);
    assert(conj_seq(x)[4] == 5 * x[7] - x[4]);
    assert(conj_seq(x)[5] == 4 * x[7] - x[5]);
    assert(conj_seq(x)[6] == 3 * x[7] - x[6]);
    assert(conj_seq(x)[7] == 2 * x[7] - x[7]);
    lemma_adjoint_entries_eval_6(conj_seq(x));
    assert(adjoint_entry(conj_seq(x), 6, 5) == (0) * conj_seq(x)[0] + (0) * conj_seq(x)[1] + (1) * conj_seq(x)[2] + (0) * conj_seq(x)[3] + (-2) * conj_seq(x)[4] + (3) * conj_seq(x)[5] + (-2) * conj_seq(x)[6] + (0) * conj_seq(x)[7]);
    assert(adjoint_entry(conj_seq(x), 6, 5) == (0) * x[0] + (0) * x[1] + (-1) * x[2] + (0) * x[3] + (2) * x[4] + (-3) * x[5] + (2) * x[6] + (0) * x[7]);
    lemma_mul_comm(adjoint_entry(conj_seq(x), 6, 5), x[5]);
    lemma_mul_comm(x[5], x[0]);
    lemma_mul_comm(x[5], x[1]);
    lemma_mul_comm(x[5], x[2]);
    lemma_mul_comm(x[5], x[3]);
    lemma_mul_comm(x[5], x[4]);
    lemma_mul_comm(x[5], x[5]);
    lemma_mul_comm(x[5], x[6]);
    lemma_mul_comm(x[5], x[7]);
    lemma_mul_form8(x[5], adjoint_entry(conj_seq(x), 6, 5), (0), x[0], (0), x[1], (-1), x[2], (0), x[3], (2), x[4], (-3), x[5], (2), x[6], (0), x[7]);
}

proof fn lemma_cp_left_term_6_6(x: Seq<int>)
    requires
        is_coeffs(x),
    ensures
        adjoint_entry(conj_seq(x), 6, 6) * x[6] == (1) * (x[0] * x[6]) + (1) * (x[5] * x[6]) + (-3) * (x[6] * x[6]) + (1) * (x[6] * x[7]),
{
    lemma_trace_is_neg_last(x);
    assert(conj_seq(x)[0] == 2 * x[7] - x[0]);
    assert(conj_seq(x)[1] == 3 * x[7] - x[1]);
    assert(conj_seq(x)[2] == 4 * x[7] - x[2]);
    assert(conj_seq(x)[3] == 6 * x[7] - x[3]);
    assert(conj_seq(x)[4] == 5 * x[7] - x[4]);
    assert(conj_seq(x)[5] == 4 * x[7] - x[5]);
    assert(conj_seq(x)[6] == 3 * x[7] - x[6]);
    assert(conj_seq(x)[7] == 2 * x[7] - x[7]);
    lemma_adjoint_entries_eval_6(conj_seq(x));
    assert(adjoint_entry(conj_seq(x), 6, 6) == (-1) * conj_seq(x)[0] + (0) * conj_seq(x)[1] + (0) * conj_seq(x)[2] + (0) * conj_seq(x)[3] + (0) * conj_seq(x)[4] + (-1) * conj_seq(x)[5] + (3) * conj_seq(x)[6] + (-2) * conj_seq(x)[7]);
    assert(adjoint_entry(conj_seq(x), 6, 6) == (1) * x[0] + (0) * x[1] + (0) * x[2] + (0) * x[3] + (0) * x[4] + (1) * x[5] + (-3) * x[6] + (1) * x[7]);
    lemma_mul_comm(adjoint_entry(conj_seq(x), 6, 6), x[6]);
    lemma_mul_comm(x[6], x[0]);
    lemma_mul_comm(x[6], x[1]);
    lemma_mul_comm(x[6], x[2]);
    lemma_mul_comm(x[6], x[3]);
    lemma_mul_comm(x[6], x[4]);
    lemma_mul_comm(x[6], x[5]);
    lemma_mul_comm(x[6], x[6]);
    lemma_mul_comm(x[6], x[7]);
    lemma_mul_form8(x[6], adjoint_entry(conj_seq(x), 6, 6), (1), x[0], (0), x[1], (0), x[2], (0), x[3], (0), x[4], (1), x[5], (-3), x[6], (1), x[7]);
}

proof fn lemma_cp_left_term_6_7(x: Seq<int>)
    requires
        is_coeffs(x),
    ensures
        adjoint_entry(conj_seq(x), 6, 7) * x[7] == (2) * (x[6] * x[7]) + (-3) * (x[7] * x[7]),
{
    lemma_trace_is_neg_last(x);
    assert(conj_seq(x)[0] == 2 * x[7] - x[0]);
    assert(conj_seq(x)[1] == 3 * x[7] - x[1]);
    assert(conj_seq(x)[2] == 4 * x[7] - x[2]);
    assert(conj_seq(x)[3] == 6 * x[7] - x[3]);
    assert(conj_seq(x)[4] == 5 * x[7] - x[4]);
    assert(conj_seq(x)[5] == 4 * x[7] - x[5]);
    assert(conj_seq(x)[6] == 3 * x[7] - x[6]);
    assert(conj_seq(x)[7] == 2 * x[7] - x[7]);
    lemma_adjoint_entries_eval_6(conj_seq(x));
    assert(adjoint_entry(conj_seq(x), 6, 7) == (0) * conj_seq(x)[0] + (0) * conj_seq(x)[1] + (0) * conj_seq(x)[2] + (0) * conj_seq(x)[3] + (0) * conj_seq(x)[4] + (0) * conj_seq(x)[5] + (-2) * conj_seq(x)[6] + (3) * conj_seq(x)[7]);
    assert(adjoint_entry(conj_seq(x), 6, 7) == (0) * x[0] + (0) * x[1] + (0) * x[2] + (0) * x[3] + (0) * x[4] + (0) * x[5] + (2) * x[6] + (-3) * x[7]);
    lemma_mul_comm(adjoint_entry(conj_seq(x), 6, 7), x[7]);
    lemma_mul_comm(x[7], x[0]);
    lemma_mul_comm(x[7], x[1]);
    lemma_mul_comm(x[7], x[2]);
    lemma_mul_comm(x[7], x[3]);
    lemma_mul_comm(x[7], x[4]);
    lemma_mul_comm(x[7], x[5]);
    lemma_mul_comm(x[7], x[6]);
    lemma_mul_comm(x[7], x[7]);
    lemma_mul_form8(x[7], adjoint_entry(conj_seq(x), 6, 7), (0), x[0], (0), x[1], (0), x[2], (0), x[3], (0), x[4], (0), x[5], (2), x[6], (-3), x[7]);
}

proof fn lemma_cp_left_term_7_0(x: Seq<int>)
    requires
        is_coeffs(x),
    ensures
        adjoint_entry(conj_seq(x), 7, 0) * x[0] == (-2) * (x[0] * x[0]) + (1) * (x[0] * x[2]),
{
    lemma_trace_is_neg_last(x);
    assert(conj_seq(x)[0] == 2 * x[7] - x[0]);
    assert(conj_seq(x)[1] == 3 * x[7] - x[1]);
    assert(conj_seq(x)[2] == 4 * x[7] - x[2]);
    assert(conj_seq(x)[3] == 6 * x[7] - x[3]);
    assert(conj_seq(x)[4] == 5 * x[7] - x[4]);
    assert(conj_seq(x)[5] == 4 * x[7] - x[5]);
    assert(conj_seq(x)[6] == 3 * x[7] - x[6]);
    assert(conj_seq(x)[7] == 2 * x[7] - x[7]);
    lemma_adjoint_entries_eval_7(conj_seq(x));
    assert(adjoint_entry(conj_seq(x), 7, 0) == (2) * conj_seq(x)[0] + (0) * conj_seq(x)[1] + (-1) * conj_seq(x)[2] + (0) * conj_seq(x)[3] + (0) * conj_seq(x)[4] + (0) * conj_seq(x)[5] + (0) * conj_seq(x)[6] + (0) * conj_seq(x)[7]);
    assert(adjoint_entry(conj_seq(x), 7, 0) == (-2) * x[0] + (0) * x[1] + (1) * x[2] + (0) * x[3] + (0) * x[4] + (0) * x[5] + (0) * x[6] + (0) * x[7]);
    lemma_mul_comm(adjoint_entry(conj_seq(x), 7, 0), x[0]);
    lemma_mul_comm(x[0], x[0]);
    lemma_mul_comm(x[0], x[1]);
    lemma_mul_comm(x[0], x[2]);
    lemma_mul_comm(x[0], x[3]);
    lemma_mul_comm(x[0], x[4]);
    lemma_mul_comm(x[0], x[5]);
    lemma_mul_comm(x[0], x[6]);
    lemma_mul_comm(x[0], x[7]);
    lemma_mul_form8(x[0], adjoint_entry(conj_seq(x), 7, 0), (-2), x[0], (0), x[1], (1), x[2], (0), x[3], (0), x[4], (0), x[5], (0), x[6], (0), x[7]);
}

proof fn lemma_cp_left_term_7_1(x: Seq<int>)
    requires
        is_coeffs(x),
    ensures
        adjoint_entry(conj_seq(x), 7, 1) * x[1] == (-2) * (x[1] * x[1]) + (1) * (x[1] * x[3]),
{
    lemma_trace_is_neg_last(x);
    assert(conj_seq(x)[0] == 2 * x[7] - x[0]);
    assert(conj_seq(x)[1] == 3 * x[7] - x[1]);
    assert(conj_seq(x)[2] == 4 * x[7] - x[2]);
    assert(conj_seq(x)[3] == 6 * x[7] - x[3]);
    assert(conj_seq(x)[4] == 5 * x[7] - x[4]);
    assert(conj_seq(x)[5] == 4 * x[7] - x[5]);
    assert(conj_seq(x)[6] == 3 * x[7] - x[6]);
    assert(conj_seq(x)[7] == 2 * x[7] - x[7]);
    lemma_adjoint_entries_eval_7(conj_seq(x));
    assert(adjoint_entry(conj_seq(x), 7, 1) == (0) * conj_seq(x)[0] + (2) * conj_seq(x)[1] + (0) * conj_seq(x)[2] + (-1) * conj_seq(x)[3] + (0) * conj_seq(x)[4] + (0) * conj_seq(x)[5] + (0) * conj_seq(x)[6] + (0) * conj_seq(x)[7]);
    assert(adjoint_entry(conj_seq(x), 7, 1) == (0) * x[0] + (-2) * x[1] + (0) * x[2] + (1) * x[3] + (0) * x[4] + (0) * x[5] + (0) * x[6] + (0) * x[7]);
    lemma_mul_comm(adjoint_entry(conj_seq(x), 7, 1), x[1]);
    lemma_mul_comm(x[1], x[0]);
    lemma_mul_comm(x[1], x[1]);
    lemma_mul_comm(x[1], x[2]);
    lemma_mul_comm(x[1], x[3]);
    lemma_mul_comm(x[1], x[4]);
    lemma_mul_comm(x[1], x[5]);
    lemma_mul_comm(x[1], x[6]);
    lemma_mul_comm(x[1], x[7]);
    lemma_mul_form8(x[1], adjoint_entry(conj_seq(x), 7, 1), (0), x[0], (-2), x[1], (0), x[2], (1), x[3], (0), x[4], (0), x[5], (0), x[6], (0), x[7]);
}

proof fn lemma_cp_left_term_7_2(x: Seq<int>)
    requires
        is_coeffs(x),
    ensures
        adjoint_entry(conj_seq(x), 7, 2) * x[2] == (1) * (x[0] * x[2]) + (-2) * (x[2] * x[2]) + (1) * (x[2] * x[3]),
{
    lemma_trace_is_neg_last(x);
    assert(conj_seq(x)[0] == 2 * x[7] - x[0]);
    assert(conj_seq(x)[1] == 3 * x[7] - x[1]);
    assert(conj_seq(x)[2] == 4 * x[7] - x[2]);
    assert(conj_seq(x)[3] == 6 * x[7] - x[3]);
    assert(conj_seq(x)[4] == 5 * x[7] - x[4]);
    assert(conj_seq(x)[5] == 4 * x[7] - x[5]);
    assert(conj_seq(x)[6] == 3 * x[7] - x[6]);
    assert(conj_seq(x)[7] == 2 * x[7] - x[7]);
    lemma_adjoint_entries_eval_7(conj_seq(x));
    assert(adjoint_entry(conj_seq(x), 7, 2) == (-1) * conj_seq(x)[0] + (0) * conj_seq(x)[1] + (2) * conj_seq(x)[2] + (-1) * conj_seq(x)[3] + (0) * conj_seq(x)[4] + (0) * conj_seq(x)[5] + (0) * conj_seq(x)[6] + (0) * conj_seq(x)[7]);
    assert(adjoint_entry(conj_seq(x), 7, 2) == (1) * x[0] + (0) * x[1] + (-2) * x[2] + (1) * x[3] + (0) * x[4] + (0) * x[5] + (0) * x[6] + (0) * x[7]);
    lemma_mul_comm(adjoint_entry(conj_seq(x), 7, 2), x[2]);
    lemma_mul_comm(x[2], x[0]);
    lemma_mul_comm(x[2], x[1]);
    lemma_mul_comm(x[2], x[2]);
    lemma_mul_comm(x[2], x[3]);
    lemma_mul_comm(x[2], x[4]);
    lemma_mul_comm(x[2], x[5]);
    lemma_mul_comm(x[2], x[6]);
    lemma_mul_comm(x[2], x[7]);
    lemma_mul_form8(x[2], adjoint_entry(conj_seq(x), 7, 2), (1), x[0], (0), x[1], (-2), x[2], (1), x[3], (0), x[4], (0), x[5], (0), x[6], (0), x[7]);
}

proof fn lemma_cp_left_term_7_3(x: Seq<int>)
    requires
        is_coeffs(x),
    ensures
        adjoint_entry(conj_seq(x), 7, 3) * x[3] == (1) * (x[1] * x[3]) + (1) * (x[2] * x[3]) + (-2) * (x[3] * x[3]) + (1) * (x[3] * x[4]),
{
    lemma_trace_is_neg_last(x);
    assert(conj_seq(x)[0] == 2 * x[7] - x[0]);
    assert(conj_seq(x)[1] == 3 * x[7] - x[1]);
    assert(conj_seq(x)[2] == 4 * x[7] - x[2]);
    assert(conj_seq(x)[3] == 6 * x[7] - x[3]);
    assert(conj_seq(x)[4] == 5 * x[7] - x[4]);
    assert(conj_seq(x)[5] == 4 * x[7] - x[5]);
    assert(conj_seq(x)[6] == 3 * x[7] - x[6]);
    assert(conj_seq(x)[7] == 2 * x[7] - x[7]);
    lemma_adjoint_entries_eval_7(conj_seq(x));
    assert(adjoint_entry(conj_seq(x), 7, 3) == (0) * conj_seq(x)[0] + (-1) * conj_seq(x)[1] + (-1) * conj_seq(x)[2] + (2) * conj_seq(x)[3] + (-1) * conj_seq(x)[4] + (0) * conj_seq(x)[5] + (0) * conj_seq(x)[6] + (0) * conj_seq(x)[7]);
    assert(adjoint_entry(conj_seq(x), 7, 3) == (0) * x[0] + (1) * x[1] + (1) * x[2] + (-2) * x[3] + (1) * x[4] + (0) * x[5] + (0) * x[6] + (0) * x[7]);
    lemma_mul_comm(adjoint_entry(conj_seq(x), 7, 3), x[3]);
    lemma_mul_comm(x[3], x[0]);
    lemma_mul_comm(x[3], x[1]);
    lemma_mul_comm(x[3], x[2]);
    lemma_mul_comm(x[3], x[3]);
    lemma_mul_comm(x[3], x[4]);
    lemma_mul_comm(x[3], x[5]);
    lemma_mul_comm(x[3], x[6]);
    lemma_mul_comm(x[3], x[7]);
    lemma_mul_form8(x[3], adjoint_entry(conj_seq(x), 7, 3), (0), x[0], (1), x[1], (1), x[2], (-2), x[3], (1), x[4], (0), x[5], (0), x[6], (0), x[7]);
}

proof fn lemma_cp_left_term_7_4(x: Seq<int>)
    requires
        is_coeffs(x),
    ensures
        adjoint_entry(conj_seq(x), 7, 4) * x[4] == (1) * (x[3] * x[4]) + (-2) * (x[4] * x[4]) + (1) * (x[4] * x[5]),
{
    lemma_trace_is_neg_last(x);
    assert(conj_seq(x)[0] == 2 * x[7] - x[0]);
    assert(conj_seq(x)[1] == 3 * x[7] - x[1]);
    assert(conj_seq(x)[2] == 4 * x[7] - x[2]);
    assert(conj_seq(x)[3] == 6 * x[7] - x[3]);
    assert(conj_seq(x)[4] == 5 * x[7] - x[4]);
    assert(conj_seq(x)[5] == 4 * x[7] - x[5]);
    assert(conj_seq(x)[6] == 3 * x[7] - x[6]);
    assert(conj_seq(x)[7] == 2 * x[7] - x[7]);
    lemma_adjoint_entries_eval_7(conj_seq(x));
    assert(adjoint_entry(conj_seq(x), 7, 4) == (0) * conj_seq(x)[0] + (0) * conj_seq(x)[1] + (0) * conj_seq(x)[2] + (-1) * conj_seq(x)[3] + (2) * conj_seq(x)[4] + (-1) * conj_seq(x)[5] + (0) * conj_seq(x)[6] + (0) * conj_seq(x)[7]);
    assert(adjoint_entry(conj_seq(x), 7, 4) == (0) * x[0] + (0) * x[1] + (0) * x[2] + (1) * x[3] + (-2) * x[4] + (1) * x[5] + (0) * x[6] + (0) * x[7]);
    lemma_mul_comm(adjoint_entry(conj_seq(x), 7, 4), x[4]);
    lemma_mul_comm(x[4], x[0]);
    lemma_mul_comm(x[4], x[1]);
    lemma_mul_comm(x[4], x[2]);
    lemma_mul_comm(x[4], x[3]);
    lemma_mul_comm(x[4], x[4]);
    lemma_mul_comm(x[4], x[5]);
    lemma_mul_comm(x[4], x[6]);
    lemma_mul_comm(x[4], x[7]);
    lemma_mul_form8(x[4], adjoint_entry(conj_seq(x), 7, 4), (0), x[0], (0), x[1], (0), x[2], (1), x[3], (-2), x[4], (1), x[5], (0), x[6], (0), x[7]);
}

proof fn lemma_cp_left_term_7_5(x: Seq<int>)
    requires
        is_coeffs(x),
    ensures
        adjoint_entry(conj_seq(x), 7, 5) * x[5] == (1) * (x[4] * x[5]) + (-2) * (x[5] * x[5]) + (1) * (x[5] * x[6]),
{
    lemma_trace_is_neg_last(x);
    assert(conj_seq(x)[0] == 2 * x[7] - x[0]);
    assert(conj_seq(x)[1] == 3 * x[7] - x[1]);
    assert(conj_seq(x)[2] == 4 * x[7] - x[2]);
    assert(conj_seq(x)[3] == 6 * x[7] - x[3]);
    assert(conj_seq(x)[4] == 5 * x[7] - x[4]);
    assert(conj_seq(x)[5] == 4 * x[7] - x[5]);
    assert(conj_seq(x)[6] == 3 * x[7] - x[6]);
    assert(conj_seq(x)[7] == 2 * x[7] - x[7]);
    lemma_adjoint_entries_eval_7(conj_seq(x));
    assert(adjoint_entry(conj_seq(x), 7, 5) == (0) * conj_seq(x)[0] + (0) * conj_seq(x)[1] + (0) * conj_seq(x)[2] + (0) * conj_seq(x)[3] + (-1) * conj_seq(x)[4] + (2) * conj_seq(x)[5] + (-1) * conj_seq(x)[6] + (0) * conj_seq(x)[7]);
    assert(adjoint_entry(conj_seq(x), 7, 5) == (0) * x[0] + (0) * x[1] + (0) * x[2] + (0) * x[3] + (1) * x[4] + (-2) * x[5] + (1) * x[6] + (0) * x[7]);
    lemma_mul_comm(adjoint_entry(conj_seq(x), 7, 5), x[5]);
    lemma_mul_comm(x[5], x[0]);
    lemma_mul_comm(x[5], x[1]);
    lemma_mul_comm(x[5], x[2]);
    lemma_mul_comm(x[5], x[3]);
    lemma_mul_comm(x[5], x[4]);
    lemma_mul_comm(x[5], x[5]);
    lemma_mul_comm(x[5], x[6]);
    lemma_mul_comm(x[5], x[7]);
    lemma_mul_form8(x[5], adjoint_entry(conj_seq(x), 7, 5), (0), x[0], (0), x[1], (0), x[2], (0), x[3], (1), x[4], (-2), x[5], (1), x[6], (0), x[7]);
}

proof fn lemma_cp_left_term_7_6(x: Seq<int>)
    requires
        is_coeffs(x),
    ensures
        adjoint_entry(conj_seq(x), 7, 6) * x[6] == (1) * (x[5] * x[6]) + (-2) * (x[6] * x[6]) + (1) * (x[6] * x[7]),
{
    lemma_trace_is_neg_last(x);
    assert(conj_seq(x)[0] == 2 * x[7] - x[0]);
    assert(conj_seq(x)[1] == 3 * x[7] - x[1]);
    assert(conj_seq(x)[2] == 4 * x[7] - x[2]);
    assert(conj_seq(x)[3] == 6 * x[7] - x[3]);
    assert(conj_seq(x)[4] == 5 * x[7] - x[4]);
    assert(conj_seq(x)[5] == 4 * x[7] - x[5]);
    assert(conj_seq(x)[6] == 3 * x[7] - x[6]);
    assert(conj_seq(x)[7] == 2 * x[7] - x[7]);
    lemma_adjoint_entries_eval_7(conj_seq(x));
    assert(adjoint_entry(conj_seq(x), 7, 6) == (0) * conj_seq(x)[0] + (0) * conj_seq(x)[1] + (0) * conj_seq(x)[2] + (0) * conj_seq(x)[3] + (0) * conj_seq(x)[4] + (-1) * conj_seq(x)[5] + (2) * conj_seq(x)[6] + (-1) * conj_seq(x)[7]);
    assert(adjoint_entry(conj_seq(x), 7, 6) == (0) * x[0] + (0) * x[1] + (0) * x[2] + (0) * x[3] + (0) * x[4] + (1) * x[5] + (-2) * x[6] + (1) * x[7]);
    lemma_mul_comm(adjoint_entry(conj_seq(x), 7, 6), x[6]);
    lemma_mul_comm(x[6], x[0]);
    lemma_mul_comm(x[6], x[1]);
    lemma_mul_comm(x[6], x[2]);
    lemma_mul_comm(x[6], x[3]);
    lemma_mul_comm(x[6], x[4]);
    lemma_mul_comm(x[6], x[5]);
    lemma_mul_comm(x[6], x[6]);
    lemma_mul_comm(x[6], x[7]);
    lemma_mul_form8(x[6], adjoint_entry(conj_seq(x), 7, 6), (0), x[0], (0), x[1], (0), x[2], (0), x[3], (0), x[4], (1), x[5], (-2), x[6], (1), x[7]);
}

proof fn lemma_cp_left_term_7_7(x: Seq<int>)
    requires
        is_coeffs(x),
    ensures
        adjoint_entry(conj_seq(x), 7, 7) * x[7] == (1) * (x[6] * x[7]) + (-2) * (x[7] * x[7]),
{
    lemma_trace_is_neg_last(x);
    assert(conj_seq(x)[0] == 2 * x[7] - x[0]);
    assert(conj_seq(x)[1] == 3 * x[7] - x[1]);
    assert(conj_seq(x)[2] == 4 * x[7] - x[2]);
    assert(conj_seq(x)[3] == 6 * x[7] - x[3]);
    assert(conj_seq(x)[4] == 5 * x[7] - x[4]);
    assert(conj_seq(x)[5] == 4 * x[7] - x[5]);
    assert(conj_seq(x)[6] == 3 * x[7] - x[6]);
    assert(conj_seq(x)[7] == 2 * x[7] - x[7]);
    lemma_adjoint_entries_eval_7(conj_seq(x));
    assert(adjoint_entry(conj_seq(x), 7, 7) == (0) * conj_seq(x)[0] + (0) * conj_seq(x)[1] + (0) * conj_seq(x)[2] + (0) * conj_seq(x)[3] + (0) * conj_seq(x)[4] + (0) * conj_seq(x)[5] + (-1) * conj_seq(x)[6] + (1) * conj_seq(x)[7]);
    assert(adjoint_entry(conj_seq(x), 7, 7) == (0) * x[0] + (0) * x[1] + (0) * x[2] + (0) * x[3] + (0) * x[4] + (0) * x[5] + (1) * x[6] + (-2) * x[7]);
    lemma_mul_comm(adjoint_entry(conj_seq(x), 7, 7), x[7]);
    lemma_mul_comm(x[7], x[0]);
    lemma_mul_comm(x[7], x[1]);
    lemma_mul_comm(x[7], x[2]);
    lemma_mul_comm(x[7], x[3]);
    lemma_mul_comm(x[7], x[4]);
    lemma_mul_comm(x[7], x[5]);
    lemma_mul_comm(x[7], x[6]);
    lemma_mul_comm(x[7], x[7]);
    lemma_mul_form8(x[7], adjoint_entry(conj_seq(x), 7, 7), (0), x[0], (0), x[1], (0), x[2], (0), x[3], (0), x[4], (0), x[5], (1), x[6], (-2), x[7]);
}

/// Coefficient `0` of `conj(x) * x` equals the matching coefficient of
/// the identity scaled by the norm of `x`.
proof fn lemma_conjugate_product_left_entry_0(x: Seq<int>)
    requires
        is_coeffs(x),
    ensures
        mul_entry(conj_seq(x), x, 0) == identity_seq()[0] * norm_spec(x),
{
    let c = conj_seq(x);
    lemma_inner_self_even(x);
    lemma_mul_entry_unroll(c, x, 0);
    lemma_cp_left_term_0_0(x);
    lemma_cp_left_term_0_1(x);
    lemma_cp_left_term_0_2(x);
    lemma_cp_left_term_0_3(x);
    lemma_cp_left_term_0_4(x);
    lemma_cp_left_term_0_5(x);
    lemma_cp_left_term_0_6(x);
    lemma_cp_left_term_0_7(x);
    assert(mul_entry(c, x, 0) == (-2) * (x[0] * x[0]) + (2) * (x[0] * x[2]) + (-2) * (x[1] * x[1]) + (2) * (x[1] * x[3]) + (-2) * (x[2] * x[2]) + (2) * (x[2] * x[3]) + (-2) * (x[3] * x[3]) + (2) * (x[3] * x[4]) + (-2) * (x[4] * x[4]) + (2) * (x[4] * x[5]) + (-2) * (x[5] * x[5]) + (2) * (x[5] * x[6]) + (-2) * (x[6] * x[6]) + (2) * (x[6] * x[7]) + (-2) * (x[7] * x[7]));
}

/// Coefficient `1` of `conj(x) * x` equals the matching coefficient of
/// the identity scaled by the norm of `x`.
proof fn lemma_conjugate_product_left_entry_1(x: Seq<int>)
    requires
        is_coeffs(x),
    ensures
        mul_entry(conj_seq(x), x, 1) == identity_seq()[1] * norm_spec(x),
{
    let c = conj_seq(x);
    lemma_inner_self_even(x);
    lemma_mul_entry_unroll(c, x, 1);
    lemma_cp_left_term_1_0(x);
    lemma_cp_left_term_1_1(x);
    lemma_cp_left_term_1_2(x);
    lemma_cp_left_term_1_3(x);
    lemma_cp_left_term_1_4(x);
    lemma_cp_left_term_1_5(x);
    lemma_cp_left_term_1_6(x);
    lemma_cp_left_term_1_7(x);
    assert(mul_entry(c, x, 1) == (-3) * (x[0] * x[0]) + (3) * (x[0] * x[2]) + (-3) * (x[1] * x[1]) + (3) * (x[1] * x[3]) + (-3) * (x[2] * x[2]) + (3) * (x[2] * x[3]) + (-3) * (x[3] * x[3]) + (3) * (x[3] * x[4]) + (-3) * (x[4] * x[4]) + (3) * (x[4] * x[5]) + (-3) * (x[5] * x[5]) + (3) * (x[5] * x[6]) + (-3) * (x[6] * x[6]) + (3) * (x[6] * x[7]) + (-3) * (x[7] * x[7]));
}

/// Coefficient `2` of `conj(x) * x` equals the matching coefficient of
/// the identity scaled by the norm of `x`.
proof fn lemma_conjugate_product_left_entry_2(x: Seq<int>)
    requires
        is_coeffs(x),
    ensures
        mul_entry(conj_seq(x), x, 2) == identity_seq()[2] * norm_spec(x),
{
    let c = conj_seq(x);
    lemma_inner_self_even(x);
    lemma_mul_entry_unroll(c, x, 2);
    lemma_cp_left_term_2_0(x);
    lemma_cp_left_term_2_1(x);
    lemma_cp_left_term_2_2(x);
    lemma_cp_left_term_2_3(x);
    lemma_cp_left_term_2_4(x);
    lemma_cp_left_term_2_5(x);
    lemma_cp_left_term_2_6(x);
    lemma_cp_left_term_2_7(x);
    assert(mul_entry(c, x, 2) == (-4) * (x[0] * x[0]) + (4) * (x[0] * x[2]) + (-4) * (x[1] * x[1]) + (4) * (x[1] * x[3]) + (-4) * (x[2] * x[2]) + (4) * (x[2] * x[3]) + (-4) * (x[3] * x[3]) + (4) * (x[3] * x[4]) + (-4) * (x[4] * x[4]) + (4) * (x[4] * x[5]) + (-4) * (x[5] * x[5]) + (4) * (x[5] * x[6]) + (-4) * (x[6] * x[6]) + (4) * (x[6] * x[7]) + (-4) * (x[7] * x[7]));
}

/// Coefficient `3` of `conj(x) * x` equals the matching coefficient of
/// the identity scaled by the norm of `x`.
proof fn lemma_conjugate_product_left_entry_3(x: Seq<int>)
    requires
        is_coeffs(x),
    ensures
        mul_entry(conj_seq(x), x, 3) == identity_seq()[3] * norm_spec(x),
{
    let c = conj_seq(x);
    lemma_inner_self_even(x);
    lemma_mul_entry_unroll(c, x, 3);
    lemma_cp_left_term_3_0(x);
    lemma_cp_left_term_3_1(x);
    lemma_cp_left_term_3_2(x);
    lemma_cp_left_term_3_3(x);
    lemma_cp_left_term_3_4(x);
    lemma_cp_left_term_3_5(x);
    lemma_cp_left_term_3_6(x);
    lemma_cp_left_term_3_7(x);
    assert(mul_entry(c, x, 3) == (-6) * (x[0] * x[0]) + (6) * (x[0] * x[2]) + (-6) * (x[1] * x[1]) + (6) * (x[1] * x[3]) + (-6) * (x[2] * x[2]) + (6) * (x[2] * x[3]) + (-6) * (x[3] * x[3]) + (6) * (x[3] * x[4]) + (-6) * (x[4] * x[4]) + (6) * (x[4] * x[5]) + (-6) * (x[5] * x[5]) + (6) * (x[5] * x[6]) + (-6) * (x[6] * x[6]) + (6) * (x[6] * x[7]) + (-6) * (x[7] * x[7]));
}

/// Coefficient `4` of `conj(x) * x` equals the matching coefficient of
/// the identity scaled by the norm of `x`.
proof fn lemma_conjugate_product_left_entry_4(x: Seq<int>)
    requires
        is_coeffs(x),
    ensures
        mul_entry(conj_seq(x), x, 4) == identity_seq()[4] * norm_spec(x),
{
    let c = conj_seq(x);
    lemma_inner_self_even(x);
    lemma_mul_entry_unroll(c, x, 4);
    lemma_cp_left_term_4_0(x);
    lemma_cp_left_term_4_1(x);
    lemma_cp_left_term_4_2(x);
    lemma_cp_left_term_4_3(x);
    lemma_cp_left_term_4_4(x);
    lemma_cp_left_term_4_5(x);
    lemma_cp_left_term_4_6(x);
    lemma_cp_left_term_4_7(x);
    assert(mul_entry(c, x, 4) == (-5) * (x[0] * x[0]) + (5) * (x[0] * x[2]) + (-5) * (x[1] * x[1]) + (5) * (x[1] * x[3]) + (-5) * (x[2] * x[2]) + (5) * (x[2] * x[3]) + (-5) * (x[3] * x[3]) + (5) * (x[3] * x[4]) + (-5) * (x[4] * x[4]) + (5) * (x[4] * x[5]) + (-5) * (x[5] * x[5]) + (5) * (x[5] * x[6]) + (-5) * (x[6] * x[6]) + (5) * (x[6] * x[7]) + (-5) * (x[7] * x[7]));
}

/// Coefficient `5` of `conj(x) * x` equals the matching coefficient of
/// the identity scaled by the norm of `x`.
proof fn lemma_conjugate_product_left_entry_5(x: Seq<int>)
    requires
        is_coeffs(x),
    ensures
        mul_entry(conj_seq(x), x, 5) == identity_seq()[5] * norm_spec(x),
{
    let c = conj_seq(x);
    lemma_inner_self_even(x);
    lemma_mul_entry_unroll(c, x, 5);
    lemma_cp_left_term_5_0(x);
    lemma_cp_left_term_5_1(x);
    lemma_cp_left_term_5_2(x);
    lemma_cp_left_term_5_3(x);
    lemma_cp_left_term_5_4(x);
    lemma_cp_left_term_5_5(x);
    lemma_cp_left_term_5_6(x);
    lemma_cp_left_term_5_7(x);
    assert(mul_entry(c, x, 5) == (-4) * (x[0] * x[0]) + (4) * (x[0] * x[2]) + (-4) * (x[1] * x[1]) + (4) * (x[1] * x[3]) + (-4) * (x[2] * x[2]) + (4) * (x[2] * x[3]) + (-4) * (x[3] * x[3]) + (4) * (x[3] * x[4]) + (-4) * (x[4] * x[4]) + (4) * (x[4] * x[5]) + (-4) * (x[5] * x[5]) + (4) * (x[5] * x[6]) + (-4) * (x[6] * x[6]) + (4) * (x[6] * x[7]) + (-4) * (x[7] * x[7]));
}

/// Coefficient `6` of `conj(x) * x` equals the matching coefficient of
/// the identity scaled by the norm of `x`.
proof fn lemma_conjugate_product_left_entry_6(x: Seq<int>)
    requires
        is_coeffs(x),
    ensures
        mul_entry(conj_seq(x), x, 6) == identity_seq()[6] * norm_spec(x),
{
    let c = conj_seq(x);
    lemma_inner_self_even(x);
    lemma_mul_entry_unroll(c, x, 6);
    lemma_cp_left_term_6_0(x);
    lemma_cp_left_term_6_1(x);
    lemma_cp_left_term_6_2(x);
    lemma_cp_left_term_6_3(x);
    lemma_cp_left_term_6_4(x);
    lemma_cp_left_term_6_5(x);
    lemma_cp_left_term_6_6(x);
    lemma_cp_left_term_6_7(x);
    assert(mul_entry(c, x, 6) == (-3) * (x[0] * x[0]) + (3) * (x[0] * x[2]) + (-3) * (x[1] * x[1]) + (3) * (x[1] * x[3]) + (-3) * (x[2] * x[2]) + (3) * (x[2] * x[3]) + (-3) * (x[3] * x[3]) + (3) * (x[3] * x[4]) + (-3) * (x[4] * x[4]) + (3) * (x[4] * x[5]) + (-3) * (x[5] * x[5]) + (3) * (x[5] * x[6]) + (-3) * (x[6] * x[6]) + (3) * (x[6] * x[7]) + (-3) * (x[7] * x[7]));
}

/// Coefficient `7` of `conj(x) * x` equals the matching coefficient of
/// the identity scaled by the norm of `x`.
proof fn lemma_conjugate_product_left_entry_7(x: Seq<int>)
    requires
        is_coeffs(x),
    ensures
        mul_entry(conj_seq(x), x, 7) == identity_seq()[7] * norm_spec(x),
{
    let c = conj_seq(x);
    lemma_inner_self_even(x);
    lemma_mul_entry_unroll(c, x, 7);
    lemma_cp_left_term_7_0(x);
    lemma_cp_left_term_7_1(x);
    lemma_cp_left_term_7_2(x);
    lemma_cp_left_term_7_3(x);
    lemma_cp_left_term_7_4(x);
    lemma_cp_left_term_7_5(x);
    lemma_cp_left_term_7_6(x);
    lemma_cp_left_term_7_7(x);
    assert(mul_entry(c, x, 7) == (-2) * (x[0] * x[0]) + (2) * (x[0] * x[2]) + (-2) * (x[1] * x[1]) + (2) * (x[1] * x[3]) + (-2) * (x[2] * x[2]) + (2) * (x[2] * x[3]) + (-2) * (x[3] * x[3]) + (2) * (x[3] * x[4]) + (-2) * (x[4] * x[4]) + (2) * (x[4] * x[5]) + (-2) * (x[5] * x[5]) + (2) * (x[5] * x[6]) + (-2) * (x[6] * x[6]) + (2) * (x[6] * x[7]) + (-2) * (x[7] * x[7]));
}

/// An element times its own conjugate is the identity scaled by the norm
/// of the element: `x * conj(x) == norm(x) . 1`.
pub proof fn lemma_conjugate_product(x: Seq<int>)
    requires
        is_coeffs(x),
    ensures
        mul_seq(x, conj_seq(x)) == scale_seq(identity_seq(), norm_spec(x)),
{
    lemma_conjugate_product_entry_0(x);
    lemma_conjugate_product_entry_1(x);
    lemma_conjugate_product_entry_2(x);
    lemma_conjugate_product_entry_3(x);
    lemma_conjugate_product_entry_4(x);
    lemma_conjugate_product_entry_5(x);
    lemma_conjugate_product_entry_6(x);
    lemma_conjugate_product_entry_7(x);
    assert(mul_seq(x, conj_seq(x)) =~= scale_seq(identity_seq(), norm_spec(x)));
}

/// The conjugate of an element times the element, in that order, is also
/// the identity scaled by the norm: `conj(x) * x == norm(x) . 1`.
pub proof fn lemma_conjugate_product_left(x: Seq<int>)
    requires
        is_coeffs(x),
    ensures
        mul_seq(conj_seq(x), x) == scale_seq(identity_seq(), norm_spec(x)),
{
    lemma_conjugate_product_left_entry_0(x);
    lemma_conjugate_product_left_entry_1(x);
    lemma_conjugate_product_left_entry_2(x);
    lemma_conjugate_product_left_entry_3(x);
    lemma_conjugate_product_left_entry_4(x);
    lemma_conjugate_product_left_entry_5(x);
    lemma_conjugate_product_left_entry_6(x);
    lemma_conjugate_product_left_entry_7(x);
    assert(mul_seq(conj_seq(x), x) =~= scale_seq(identity_seq(), norm_spec(x)));
}


/// Coefficient `0` of `1 * 1` equals coefficient `0` of `1`.
#[verifier::rlimit(100)]
proof fn lemma_identity_product_entry_0()
    ensures
        mul_entry(identity_seq(), identity_seq(), 0) == identity_seq()[0],
{
    lemma_mul_entry_unroll(identity_seq(), identity_seq(), 0);
    lemma_adjoint_entries_eval_0(identity_seq());
    assert(adjoint_entry(identity_seq(), 0, 0) == 1);
    lemma_mul_const(adjoint_entry(identity_seq(), 0, 0), identity_seq()[0], -2);
    assert(adjoint_entry(identity_seq(), 0, 1) == 0);
    lemma_mul_const(adjoint_entry(identity_seq(), 0, 1), identity_seq()[1], -3);
    assert(adjoint_entry(identity_seq(), 0, 2) == 0);
    lemma_mul_const(adjoint_entry(identity_seq(), 0, 2), identity_seq()[2], -4);
    assert(adjoint_entry(identity_seq(), 0, 3) == 0);
    lemma_mul_const(adjoint_entry(identity_seq(), 0, 3), identity_seq()[3], -6);
    assert(adjoint_entry(identity_seq(), 0, 4) == 0);
    lemma_mul_const(adjoint_entry(identity_seq(), 0, 4), identity_seq()[4], -5);
    assert(adjoint_entry(identity_seq(), 0, 5) == 0);
    lemma_mul_const(adjoint_entry(identity_seq(), 0, 5), identity_seq()[5], -4);
    assert(adjoint_entry(identity_seq(), 0, 6) == 0);
    lemma_mul_const(adjoint_entry(identity_seq(), 0, 6), identity_seq()[6], -3);
    assert(adjoint_entry(identity_seq(), 0, 7) == 0);
    lemma_mul_const(adjoint_entry(identity_seq(), 0, 7), identity_seq()[7], -2);
}

/// Coefficient `1` of `1 * 1` equals coefficient `1` of `1`.
#[verifier::rlimit(100)]
proof fn lemma_identity_product_entry_1()
    ensures
        mul_entry(identity_seq(), identity_seq(), 1) == identity_seq()[1],
{
    lemma_mul_entry_unroll(identity_seq(), identity_seq(), 1);
    lemma_adjoint_entries_eval_1(identity_seq());
    assert(adjoint_entry(identity_seq(), 1, 0) == 0);
    lemma_mul_const(adjoint_entry(identity_seq(), 1, 0), identity_seq()[0], -2);
    assert(adjoint_entry(identity_seq(), 1, 1) == 1);
    lemma_mul_const(adjoint_entry(identity_seq(), 1, 1), identity_seq()[1], -3);
    assert(adjoint_entry(identity_seq(), 1, 2) == 0);
    lemma_mul_const(adjoint_entry(identity_seq(), 1, 2), identity_seq()[2], -4);
    assert(adjoint_entry(identity_seq(), 1, 3) == 0);
    lemma_mul_const(adjoint_entry(identity_seq(), 1, 3), identity_seq()[3], -6);
    assert(adjoint_entry(identity_seq(), 1, 4) == 0);
    lemma_mul_const(adjoint_entry(identity_seq(), 1, 4), identity_seq()[4], -5);
    assert(adjoint_entry(identity_seq(), 1, 5) == 0);
    lemma_mul_const(adjoint_entry(identity_seq(), 1, 5), identity_seq()[5], -4);
    assert(adjoint_entry(identity_seq(), 1, 6) == 0);
    lemma_mul_const(adjoint_entry(identity_seq(), 1, 6), identity_seq()[6], -3);
    assert(adjoint_entry(identity_seq(), 1, 7) == 0);
    lemma_mul_const(adjoint_entry(identity_seq(), 1, 7), identity_seq()[7], -2);
}

/// Coefficient `2` of `1 * 1` equals coefficient `2` of `1`.
#[verifier::rlimit(100)]
proof fn lemma_identity_product_entry_2()
    ensures
        mul_entry(identity_seq(), identity_seq(), 2) == identity_seq()[2],
{
    lemma_mul_entry_unroll(identity_seq(), identity_seq(), 2);
    lemma_adjoint_entries_eval_2(identity_seq());
    assert(adjoint_entry(identity_seq(), 2, 0) == 0);
    lemma_mul_const(adjoint_entry(identity_seq(), 2, 0), identity_seq()[0], -2);
    assert(adjoint_entry(identity_seq(), 2, 1) == 0);
    lemma_mul_const(adjoint_entry(identity_seq(), 2, 1), identity_seq()[1], -3);
    assert(adjoint_entry(identity_seq(), 2, 2) == 1);
    lemma_mul_const(adjoint_entry(identity_seq(), 2, 2), identity_seq()[2], -4);
    assert(adjoint_entry(identity_seq(), 2, 3) == 0);
    lemma_mul_const(adjoint_entry(identity_seq(), 2, 3), identity_seq()[3], -6);
    assert(adjoint_entry(identity_seq(), 2, 4) == 0);
    lemma_mul_const(adjoint_entry(identity_seq(), 2, 4), identity_seq()[4], -5);
    assert(adjoint_entry(identity_seq(), 2, 5) == 0);
    lemma_mul_const(adjoint_entry(identity_seq(), 2, 5), identity_seq()[5], -4);
    assert(adjoint_entry(identity_seq(), 2, 6) == 0);
    lemma_mul_const(adjoint_entry(identity_seq(), 2, 6), identity_seq()[6], -3);
    assert(adjoint_entry(identity_seq(), 2, 7) == 0);
    lemma_mul_const(adjoint_entry(identity_seq(), 2, 7), identity_seq()[7], -2);
}

/// Coefficient `3` of `1 * 1` equals coefficient `3` of `1`.
#[verifier::rlimit(100)]
proof fn lemma_identity_product_entry_3()
    ensures
        mul_entry(identity_seq(), identity_seq(), 3) == identity_seq()[3],
{
    lemma_mul_entry_unroll(identity_seq(), identity_seq(), 3);
    lemma_adjoint_entries_eval_3(identity_seq());
    assert(adjoint_entry(identity_seq(), 3, 0) == 0);
    lemma_mul_const(adjoint_entry(identity_seq(), 3, 0), identity_seq()[0], -2);
    assert(adjoint_entry(identity_seq(), 3, 1) == 0);
    lemma_mul_const(adjoint_entry(identity_seq(), 3, 1), identity_seq()[1], -3);
    assert(adjoint_entry(identity_seq(), 3, 2) == 0);
    lemma_mul_const(adjoint_entry(identity_seq(), 3, 2), identity_seq()[2], -4);
    assert(adjoint_entry(identity_seq(), 3, 3) == 1);
    lemma_mul_const(adjoint_entry(identity_seq(), 3, 3), identity_seq()[3], -6);
    assert(adjoint_entry(identity_seq(), 3, 4) == 0);
    lemma_mul_const(adjoint_entry(identity_seq(), 3, 4), identity_seq()[4], -5);
    assert(adjoint_entry(identity_seq(), 3, 5) == 0);
    lemma_mul_const(adjoint_entry(identity_seq(), 3, 5), identity_seq()[5], -4);
    assert(adjoint_entry(identity_seq(), 3, 6) == 0);
    lemma_mul_const(adjoint_entry(identity_seq(), 3, 6), identity_seq()[6], -3);
    assert(adjoint_entry(identity_seq(), 3, 7) == 0);
    lemma_mul_const(adjoint_entry(identity_seq(), 3, 7), identity_seq()[7], -2);
}

/// Coefficient `4` of `1 * 1` equals coefficient `4` of `1`.
#[verifier::rlimit(100)]
proof fn lemma_identity_product_entry_4()
    ensures
        mul_entry(identity_seq(), identity_seq(), 4) == identity_seq()[4],
{
    lemma_mul_entry_unroll(identity_seq(), identity_seq(), 4);
    lemma_adjoint_entries_eval_4(identity_seq());
    assert(adjoint_entry(identity_seq(), 4, 0) == 0);
    lemma_mul_const(adjoint_entry(identity_seq(), 4, 0), identity_seq()[0], -2);
    assert(adjoint_entry(identity_seq(), 4, 1) == 0);
    lemma_mul_const(adjoint_entry(identity_seq(), 4, 1), identity_seq()[1], -3);
    assert(adjoint_entry(identity_seq(), 4, 2) == 0);
    lemma_mul_const(adjoint_entry(identity_seq(), 4, 2), identity_seq()[2], -4);
    assert(adjoint_entry(identity_seq(), 4, 3) == 0);
    lemma_mul_const(adjoint_entry(identity_seq(), 4, 3), identity_seq()[3], -6);
    assert(adjoint_entry(identity_seq(), 4, 4) == 1);
    lemma_mul_const(adjoint_entry(identity_seq(), 4, 4), identity_seq()[4], -5);
    assert(adjoint_entry(identity_seq(), 4, 5) == 0);
    lemma_mul_const(adjoint_entry(identity_seq(), 4, 5), identity_seq()[5], -4);
    assert(adjoint_entry(identity_seq(), 4, 6) == 0);
    lemma_mul_const(adjoint_entry(identity_seq(), 4, 6), identity_seq()[6], -3);
    assert(adjoint_entry(identity_seq(), 4, 7) == 0);
    lemma_mul_const(adjoint_entry(identity_seq(), 4, 7), identity_seq()[7], -2);
}

/// Coefficient `5` of `1 * 1` equals coefficient `5` of `1`.
#[verifier::rlimit(100)]
proof fn lemma_identity_product_entry_5()
    ensures
        mul_entry(identity_seq(), identity_seq(), 5) == identity_seq()[5],
{
    lemma_mul_entry_unroll(identity_seq(), identity_seq(), 5);
    lemma_adjoint_entries_eval_5(identity_seq());
    assert(adjoint_entry(identity_seq(), 5, 0) == 0);
    lemma_mul_const(adjoint_entry(identity_seq(), 5, 0), identity_seq()[0], -2);
    assert(adjoint_entry(identity_seq(), 5, 1) == 0);
    lemma_mul_const(adjoint_entry(identity_seq(), 5, 1), identity_seq()[1], -3);
    assert(adjoint_entry(identity_seq(), 5, 2) == 0);
    lemma_mul_const(adjoint_entry(identity_seq(), 5, 2), identity_seq()[2], -4);
    assert(adjoint_entry(identity_seq(), 5, 3) == 0);
    lemma_mul_const(adjoint_entry(identity_seq(), 5, 3), identity_seq()[3], -6);
    assert(adjoint_entry(identity_seq(), 5, 4) == 0);
    lemma_mul_const(adjoint_entry(identity_seq(), 5, 4), identity_seq()[4], -5);
    assert(adjoint_entry(identity_seq(), 5, 5) == 1);
    lemma_mul_const(adjoint_entry(identity_seq(), 5, 5), identity_seq()[5], -4);
    assert(adjoint_entry(identity_seq(), 5, 6) == 0);
    lemma_mul_const(adjoint_entry(identity_seq(), 5, 6), identity_seq()[6], -3);
    assert(adjoint_entry(identity_seq(), 5, 7) == 0);
    lemma_mul_const(adjoint_entry(identity_seq(), 5, 7), identity_seq()[7], -2);
}

/// Coefficient `6` of `1 * 1` equals coefficient `6` of `1`.
#[verifier::rlimit(100)]
proof fn lemma_identity_product_entry_6()
    ensures
        mul_entry(identity_seq(), identity_seq(), 6) == identity_seq()[6],
{
    lemma_mul_entry_unroll(identity_seq(), identity_seq(), 6);
    lemma_adjoint_entries_eval_6(identity_seq());
    assert(adjoint_entry(identity_seq(), 6, 0) == 0);
    lemma_mul_const(adjoint_entry(identity_seq(), 6, 0), identity_seq()[0], -2);
    assert(adjoint_entry(identity_seq(), 6, 1) == 0);
    lemma_mul_const(adjoint_entry(identity_seq(), 6, 1), identity_seq()[1], -3);
    assert(adjoint_entry(identity_seq(), 6, 2) == 0);
    lemma_mul_const(adjoint_entry(identity_seq(), 6, 2), identity_seq()[2], -4);
    assert(adjoint_entry(identity_seq(), 6, 3) == 0);
    lemma_mul_const(adjoint_entry(identity_seq(), 6, 3), identity_seq()[3], -6);
    assert(adjoint_entry(identity_seq(), 6, 4) == 0);
    lemma_mul_const(adjoint_entry(identity_seq(), 6, 4), identity_seq()[4], -5);
    assert(adjoint_entry(identity_seq(), 6, 5) == 0);
    lemma_mul_const(adjoint_entry(identity_seq(), 6, 5), identity_seq()[5], -4);
    assert(adjoint_entry(identity_seq(), 6, 6) == 1);
    lemma_mul_const(adjoint_entry(identity_seq(), 6, 6), identity_seq()[6], -3);
    assert(adjoint_entry(identity_seq(), 6, 7) == 0);
    lemma_mul_const(adjoint_entry(identity_seq(), 6, 7), identity_seq()[7], -2);
}

/// Coefficient `7` of `1 * 1` equals coefficient `7` of `1`.
#[verifier::rlimit(100)]
proof fn lemma_identity_product_entry_7()
    ensures
        mul_entry(identity_seq(), identity_seq(), 7) == identity_seq()[7],
{
    lemma_mul_entry_unroll(identity_seq(), identity_seq(), 7);
    lemma_adjoint_entries_eval_7(identity_seq());
    assert(adjoint_entry(identity_seq(), 7, 0) == 0);
    lemma_mul_const(adjoint_entry(identity_seq(), 7, 0), identity_seq()[0], -2);
    assert(adjoint_entry(identity_seq(), 7, 1) == 0);
    lemma_mul_const(adjoint_entry(identity_seq(), 7, 1), identity_seq()[1], -3);
    assert(adjoint_entry(identity_seq(), 7, 2) == 0);
    lemma_mul_const(adjoint_entry(identity_seq(), 7, 2), identity_seq()[2], -4);
    assert(adjoint_entry(identity_seq(), 7, 3) == 0);
    lemma_mul_const(adjoint_entry(identity_seq(), 7, 3), identity_seq()[3], -6);
    assert(adjoint_entry(identity_seq(), 7, 4) == 0);
    lemma_mul_const(adjoint_entry(identity_seq(), 7, 4), identity_seq()[4], -5);
    assert(adjoint_entry(identity_seq(), 7, 5) == 0);
    lemma_mul_const(adjoint_entry(identity_seq(), 7, 5), identity_seq()[5], -4);
    assert(adjoint_entry(identity_seq(), 7, 6) == 0);
    lemma_mul_const(adjoint_entry(identity_seq(), 7, 6), identity_seq()[6], -3);
    assert(adjoint_entry(identity_seq(), 7, 7) == 1);
    lemma_mul_const(adjoint_entry(identity_seq(), 7, 7), identity_seq()[7], -2);
}

/// The identity is idempotent: `1 * 1 == 1`.
pub proof fn lemma_identity_product()
    ensures
        mul_seq(identity_seq(), identity_seq()) == identity_seq(),
{
    lemma_identity_product_entry_0();
    lemma_identity_product_entry_1();
    lemma_identity_product_entry_2();
    lemma_identity_product_entry_3();
    lemma_identity_product_entry_4();
    lemma_identity_product_entry_5();
    lemma_identity_product_entry_6();
    lemma_identity_product_entry_7();
    assert(mul_seq(identity_seq(), identity_seq()) =~= identity_seq());
}

/// Applying a Gram row to a basis vector picks out one Gram entry.
#[verifier::rlimit(100)]
proof fn lemma_gram_row_basis(k: int, j: int)
    requires
        0 <= j < 8,
    ensures
        gram_row(k, basis_seq(j)) == gram(k, j),
{
    lemma_gram_row_unroll(k, basis_seq(j));
    if j == 0 {
        lemma_mul_const(gram(k, 0), basis_seq(0)[0], 1);
        lemma_mul_const(gram(k, 1), basis_seq(0)[1], 0);
        lemma_mul_const(gram(k, 2), basis_seq(0)[2], 0);
        lemma_mul_const(gram(k, 3), basis_seq(0)[3], 0);
        lemma_mul_const(gram(k, 4), basis_seq(0)[4], 0);
        lemma_mul_const(gram(k, 5), basis_seq(0)[5], 0);
        lemma_mul_const(gram(k, 6), basis_seq(0)[6], 0);
        lemma_mul_const(gram(k, 7), basis_seq(0)[7], 0);
    } else if j == 1 {
        lemma_mul_const(gram(k, 0), basis_seq(1)[0], 0);
        lemma_mul_const(gram(k, 1), basis_seq(1)[1], 1);
        lemma_mul_const(gram(k, 2), basis_seq(1)[2], 0);
        lemma_mul_const(gram(k, 3), basis_seq(1)[3], 0);
        lemma_mul_const(gram(k, 4), basis_seq(1)[4], 0);
        lemma_mul_const(gram(k, 5), basis_seq(1)[5], 0);
        lemma_mul_const(gram(k, 6), basis_seq(1)[6], 0);
        lemma_mul_const(gram(k, 7), basis_seq(1)[7], 0);
    } else if j == 2 {
        lemma_mul_const(gram(k, 0), basis_seq(2)[0], 0);
        lemma_mul_const(gram(k, 1), basis_seq(2)[1], 0);
        lemma_mul_const(gram(k, 2), basis_seq(2)[2], 1);
        lemma_mul_const(gram(k, 3), basis_seq(2)[3], 0);
        lemma_mul_const(gram(k, 4), basis_seq(2)[4], 0);
        lemma_mul_const(gram(k, 5), basis_seq(2)[5], 0);
        lemma_mul_const(gram(k, 6), basis_seq(2)[6], 0);
        lemma_mul_const(gram(k, 7), basis_seq(2)[7], 0);
    } else if j == 3 {
        lemma_mul_const(gram(k, 0), basis_seq(3)[0], 0);
        lemma_mul_const(gram(k, 1), basis_seq(3)[1], 0);
        lemma_mul_const(gram(k, 2), basis_seq(3)[2], 0);
        lemma_mul_const(gram(k, 3), basis_seq(3)[3], 1);
        lemma_mul_const(gram(k, 4), basis_seq(3)[4], 0);
        lemma_mul_const(gram(k, 5), basis_seq(3)[5], 0);
        lemma_mul_const(gram(k, 6), basis_seq(3)[6], 0);
        lemma_mul_const(gram(k, 7), basis_seq(3)[7], 0);
    } else if j == 4 {
        lemma_mul_const(gram(k, 0), basis_seq(4)[0], 0);
        lemma_mul_const(gram(k, 1), basis_seq(4)[1], 0);
        lemma_mul_const(gram(k, 2), basis_seq(4)[2], 0);
        lemma_mul_const(gram(k, 3), basis_seq(4)[3], 0);
        lemma_mul_const(gram(k, 4), basis_seq(4)[4], 1);
        lemma_mul_const(gram(k, 5), basis_seq(4)[5], 0);
        lemma_mul_const(gram(k, 6), basis_seq(4)[6], 0);
        lemma_mul_const(gram(k, 7), basis_seq(4)[7], 0);
    } else if j == 5 {
        lemma_mul_const(gram(k, 0), basis_seq(5)[0], 0);
        lemma_mul_const(gram(k, 1), basis_seq(5)[1], 0);
        lemma_mul_const(gram(k, 2), basis_seq(5)[2], 0);
        lemma_mul_const(gram(k, 3), basis_seq(5)[3], 0);
        lemma_mul_const(gram(k, 4), basis_seq(5)[4], 0);
        lemma_mul_const(gram(k, 5), basis_seq(5)[5], 1);
        lemma_mul_const(gram(k, 6), basis_seq(5)[6], 0);
        lemma_mul_const(gram(k, 7), basis_seq(5)[7], 0);
    } else if j == 6 {
        lemma_mul_const(gram(k, 0), basis_seq(6)[0], 0);
        lemma_mul_const(gram(k, 1), basis_seq(6)[1], 0);
        lemma_mul_const(gram(k, 2), basis_seq(6)[2], 0);
        lemma_mul_const(gram(k, 3), basis_seq(6)[3], 0);
        lemma_mul_const(gram(k, 4), basis_seq(6)[4], 0);
        lemma_mul_const(gram(k, 5), basis_seq(6)[5], 0);
        lemma_mul_const(gram(k, 6), basis_seq(6)[6], 1);
        lemma_mul_const(gram(k, 7), basis_seq(6)[7], 0);
    } else if j == 7 {
        lemma_mul_const(gram(k, 0), basis_seq(7)[0], 0);
        lemma_mul_const(gram(k, 1), basis_seq(7)[1], 0);
        lemma_mul_const(gram(k, 2), basis_seq(7)[2], 0);
        lemma_mul_const(gram(k, 3), basis_seq(7)[3], 0);
        lemma_mul_const(gram(k, 4), basis_seq(7)[4], 0);
        lemma_mul_const(gram(k, 5), basis_seq(7)[5], 0);
        lemma_mul_const(gram(k, 6), basis_seq(7)[6], 0);
        lemma_mul_const(gram(k, 7), basis_seq(7)[7], 1);
    }
}

/// The inner products of the basis vectors reproduce the Gram matrix:
/// `inner_product(e_i, e_j) == Gram[i][j]` for all `i, j`.
#[verifier::rlimit(100)]
pub proof fn lemma_basis_inner_products(i: int, j: int)
    requires
        0 <= i < 8,
        0 <= j < 8,
    ensures
        inner_product_spec(basis_seq(i), basis_seq(j)) == gram(i, j),
{
    lemma_inner_unroll(basis_seq(i), basis_seq(j));
    lemma_gram_row_basis(0, j);
    lemma_gram_row_basis(1, j);
    lemma_gram_row_basis(2, j);
    lemma_gram_row_basis(3, j);
    lemma_gram_row_basis(4, j);
    lemma_gram_row_basis(5, j);
    lemma_gram_row_basis(6, j);
    lemma_gram_row_basis(7, j);
    if i == 0 {
        lemma_mul_comm(basis_seq(0)[0], gram_row(0, basis_seq(j)));
        lemma_mul_const(gram_row(0, basis_seq(j)), basis_seq(0)[0], 1);
        lemma_mul_comm(basis_seq(0)[1], gram_row(1, basis_seq(j)));
        lemma_mul_const(gram_row(1, basis_seq(j)), basis_seq(0)[1], 0);
        lemma_mul_comm(basis_seq(0)[2], gram_row(2, basis_seq(j)));
        lemma_mul_const(gram_row(2, basis_seq(j)), basis_seq(0)[2], 0);
        lemma_mul_comm(basis_seq(0)[3], gram_row(3, basis_seq(j)));
        lemma_mul_const(gram_row(3, basis_seq(j)), basis_seq(0)[3], 0);
        lemma_mul_comm(basis_seq(0)[4], gram_row(4, basis_seq(j)));
        lemma_mul_const(gram_row(4, basis_seq(j)), basis_seq(0)[4], 0);
        lemma_mul_comm(basis_seq(0)[5], gram_row(5, basis_seq(j)));
        lemma_mul_const(gram_row(5, basis_seq(j)), basis_seq(0)[5], 0);
        lemma_mul_comm(basis_seq(0)[6], gram_row(6, basis_seq(j)));
        lemma_mul_const(gram_row(6, basis_seq(j)), basis_seq(0)[6], 0);
        lemma_mul_comm(basis_seq(0)[7], gram_row(7, basis_seq(j)));
        lemma_mul_const(gram_row(7, basis_seq(j)), basis_seq(0)[7], 0);
    } else if i == 1 {
        lemma_mul_comm(basis_seq(1)[0], gram_row(0, basis_seq(j)));
        lemma_mul_const(gram_row(0, basis_seq(j)), basis_seq(1)[0], 0);
        lemma_mul_comm(basis_seq(1)[1], gram_row(1, basis_seq(j)));
        lemma_mul_const(gram_row(1, basis_seq(j)), basis_seq(1)[1], 1);
        lemma_mul_comm(basis_seq(1)[2], gram_row(2, basis_seq(j)));
        lemma_mul_const(gram_row(2, basis_seq(j)), basis_seq(1)[2], 0);
        lemma_mul_comm(basis_seq(1)[3], gram_row(3, basis_seq(j)));
        lemma_mul_const(gram_row(3, basis_seq(j)), basis_seq(1)[3], 0);
        lemma_mul_comm(basis_seq(1)[4], gram_row(4, basis_seq(j)));
        lemma_mul_const(gram_row(4, basis_seq(j)), basis_seq(1)[4], 0);
        lemma_mul_comm(basis_seq(1)[5], gram_row(5, basis_seq(j)));
        lemma_mul_const(gram_row(5, basis_seq(j)), basis_seq(1)[5], 0);
        lemma_mul_comm(basis_seq(1)[6], gram_row(6, basis_seq(j)));
        lemma_mul_const(gram_row(6, basis_seq(j)), basis_seq(1)[6], 0);
        lemma_mul_comm(basis_seq(1)[7], gram_row(7, basis_seq(j)));
        lemma_mul_const(gram_row(7, basis_seq(j)), basis_seq(1)[7], 0);
    } else if i == 2 {
        lemma_mul_comm(basis_seq(2)[0], gram_row(0, basis_seq(j)));
        lemma_mul_const(gram_row(0, basis_seq(j)), basis_seq(2)[0], 0);
        lemma_mul_comm(basis_seq(2)[1], gram_row(1, basis_seq(j)));
        lemma_mul_const(gram_row(1, basis_seq(j)), basis_seq(2)[1], 0);
        lemma_mul_comm(basis_seq(2)[2], gram_row(2, basis_seq(j)));
        lemma_mul_const(gram_row(2, basis_seq(j)), basis_seq(2)[2], 1);
        lemma_mul_comm(basis_seq(2)[3], gram_row(3, basis_seq(j)));
        lemma_mul_const(gram_row(3, basis_seq(j)), basis_seq(2)[3], 0);
        lemma_mul_comm(basis_seq(2)[4], gram_row(4, basis_seq(j)));
        lemma_mul_const(gram_row(4, basis_seq(j)), basis_seq(2)[4], 0);
        lemma_mul_comm(basis_seq(2)[5], gram_row(5, basis_seq(j)));
        lemma_mul_const(gram_row(5, basis_seq(j)), basis_seq(2)[5], 0);
        lemma_mul_comm(basis_seq(2)[6], gram_row(6, basis_seq(j)));
        lemma_mul_const(gram_row(6, basis_seq(j)), basis_seq(2)[6], 0);
        lemma_mul_comm(basis_seq(2)[7], gram_row(7, basis_seq(j)));
        lemma_mul_const(gram_row(7, basis_seq(j)), basis_seq(2)[7], 0);
    } else if i == 3 {
        lemma_mul_comm(basis_seq(3)[0], gram_row(0, basis_seq(j)));
        lemma_mul_const(gram_row(0, basis_seq(j)), basis_seq(3)[0], 0);
        lemma_mul_comm(basis_seq(3)[1], gram_row(1, basis_seq(j)));
        lemma_mul_const(gram_row(1, basis_seq(j)), basis_seq(3)[1], 0);
        lemma_mul_comm(basis_seq(3)[2], gram_row(2, basis_seq(j)));
        lemma_mul_const(gram_row(2, basis_seq(j)), basis_seq(3)[2], 0);
        lemma_mul_comm(basis_seq(3)[3], gram_row(3, basis_seq(j)));
        lemma_mul_const(gram_row(3, basis_seq(j)), basis_seq(3)[3], 1);
        lemma_mul_comm(basis_seq(3)[4], gram_row(4, basis_seq(j)));
        lemma_mul_const(gram_row(4, basis_seq(j)), basis_seq(3)[4], 0);
        lemma_mul_comm(basis_seq(3)[5], gram_row(5, basis_seq(j)));
        lemma_mul_const(gram_row(5, basis_seq(j)), basis_seq(3)[5], 0);
        lemma_mul_comm(basis_seq(3)[6], gram_row(6, basis_seq(j)));
        lemma_mul_const(gram_row(6, basis_seq(j)), basis_seq(3)[6], 0);
        lemma_mul_comm(basis_seq(3)[7], gram_row(7, basis_seq(j)));
        lemma_mul_const(gram_row(7, basis_seq(j)), basis_seq(3)[7], 0);
    } else if i == 4 {
        lemma_mul_comm(basis_seq(4)[0], gram_row(0, basis_seq(j)));
        lemma_mul_const(gram_row(0, basis_seq(j)), basis_seq(4)[0], 0);
        lemma_mul_comm(basis_seq(4)[1], gram_row(1, basis_seq(j)));
        lemma_mul_const(gram_row(1, basis_seq(j)), basis_seq(4)[1], 0);
        lemma_mul_comm(basis_seq(4)[2], gram_row(2, basis_seq(j)));
        lemma_mul_const(gram_row(2, basis_seq(j)), basis_seq(4)[2], 0);
        lemma_mul_comm(basis_seq(4)[3], gram_row(3, basis_seq(j)));
        lemma_mul_const(gram_row(3, basis_seq(j)), basis_seq(4)[3], 0);
        lemma_mul_comm(basis_seq(4)[4], gram_row(4, basis_seq(j)));
        lemma_mul_const(gram_row(4, basis_seq(j)), basis_seq(4)[4], 1);
        lemma_mul_comm(basis_seq(4)[5], gram_row(5, basis_seq(j)));
        lemma_mul_const(gram_row(5, basis_seq(j)), basis_seq(4)[5], 0);
        lemma_mul_comm(basis_seq(4)[6], gram_row(6, basis_seq(j)));
        lemma_mul_const(gram_row(6, basis_seq(j)), basis_seq(4)[6], 0);
        lemma_mul_comm(basis_seq(4)[7], gram_row(7, basis_seq(j)));
        lemma_mul_const(gram_row(7, basis_seq(j)), basis_seq(4)[7], 0);
    } else if i == 5 {
        lemma_mul_comm(basis_seq(5)[0], gram_row(0, basis_seq(j)));
        lemma_mul_const(gram_row(0, basis_seq(j)), basis_seq(5)[0], 0);
        lemma_mul_comm(basis_seq(5)[1], gram_row(1, basis_seq(j)));
        lemma_mul_const(gram_row(1, basis_seq(j)), basis_seq(5)[1], 0);
        lemma_mul_comm(basis_seq(5)[2], gram_row(2, basis_seq(j)));
        lemma_mul_const(gram_row(2, basis_seq(j)), basis_seq(5)[2], 0);
        lemma_mul_comm(basis_seq(5)[3], gram_row(3, basis_seq(j)));
        lemma_mul_const(gram_row(3, basis_seq(j)), basis_seq(5)[3], 0);
        lemma_mul_comm(basis_seq(5)[4], gram_row(4, basis_seq(j)));
        lemma_mul_const(gram_row(4, basis_seq(j)), basis_seq(5)[4], 0);
        lemma_mul_comm(basis_seq(5)[5], gram_row(5, basis_seq(j)));
        lemma_mul_const(gram_row(5, basis_seq(j)), basis_seq(5)[5], 1);
        lemma_mul_comm(basis_seq(5)[6], gram_row(6, basis_seq(j)));
        lemma_mul_const(gram_row(6, basis_seq(j)), basis_seq(5)[6], 0);
        lemma_mul_comm(basis_seq(5)[7], gram_row(7, basis_seq(j)));
        lemma_mul_const(gram_row(7, basis_seq(j)), basis_seq(5)[7], 0);
    } else if i == 6 {
        lemma_mul_comm(basis_seq(6)[0], gram_row(0, basis_seq(j)));
        lemma_mul_const(gram_row(0, basis_seq(j)), basis_seq(6)[0], 0);
        lemma_mul_comm(basis_seq(6)[1], gram_row(1, basis_seq(j)));
        lemma_mul_const(gram_row(1, basis_seq(j)), basis_seq(6)[1], 0);
        lemma_mul_comm(basis_seq(6)[2], gram_row(2, basis_seq(j)));
        lemma_mul_const(gram_row(2, basis_seq(j)), basis_seq(6)[2], 0);
        lemma_mul_comm(basis_seq(6)[3], gram_row(3, basis_seq(j)));
        lemma_mul_const(gram_row(3, basis_seq(j)), basis_seq(6)[3], 0);
        lemma_mul_comm(basis_seq(6)[4], gram_row(4, basis_seq(j)));
        lemma_mul_const(gram_row(4, basis_seq(j)), basis_seq(6)[4], 0);
        lemma_mul_comm(basis_seq(6)[5], gram_row(5, basis_seq(j)));
        lemma_mul_const(gram_row(5, basis_seq(j)), basis_seq(6)[5], 0);
        lemma_mul_comm(basis_seq(6)[6], gram_row(6, basis_seq(j)));
        lemma_mul_const(gram_row(6, basis_seq(j)), basis_seq(6)[6], 1);
        lemma_mul_comm(basis_seq(6)[7], gram_row(7, basis_seq(j)));
        lemma_mul_const(gram_row(7, basis_seq(j)), basis_seq(6)[7], 0);
    } else if i == 7 {
        lemma_mul_comm(basis_seq(7)[0], gram_row(0, basis_seq(j)));
        lemma_mul_const(gram_row(0, basis_seq(j)), basis_seq(7)[0], 0);
        lemma_mul_comm(basis_seq(7)[1], gram_row(1, basis_seq(j)));
        lemma_mul_const(gram_row(1, basis_seq(j)), basis_seq(7)[1], 0);
        lemma_mul_comm(basis_seq(7)[2], gram_row(2, basis_seq(j)));
        lemma_mul_const(gram_row(2, basis_seq(j)), basis_seq(7)[2], 0);
        lemma_mul_comm(basis_seq(7)[3], gram_row(3, basis_seq(j)));
        lemma_mul_const(gram_row(3, basis_seq(j)), basis_seq(7)[3], 0);
        lemma_mul_comm(basis_seq(7)[4], gram_row(4, basis_seq(j)));
        lemma_mul_const(gram_row(4, basis_seq(j)), basis_seq(7)[4], 0);
        lemma_mul_comm(basis_seq(7)[5], gram_row(5, basis_seq(j)));
        lemma_mul_const(gram_row(5, basis_seq(j)), basis_seq(7)[5], 0);
        lemma_mul_comm(basis_seq(7)[6], gram_row(6, basis_seq(j)));
        lemma_mul_const(gram_row(6, basis_seq(j)), basis_seq(7)[6], 0);
        lemma_mul_comm(basis_seq(7)[7], gram_row(7, basis_seq(j)));
        lemma_mul_const(gram_row(7, basis_seq(j)), basis_seq(7)[7], 1);
    }
}

/// Coefficient `0` of `x * 1` equals coefficient `0` of `x`.
#[verifier::rlimit(100)]
proof fn lemma_right_identity_entry_0(x: Seq<int>)
    requires
        is_coeffs(x),
    ensures
        mul_entry(x, identity_seq(), 0) == x[0],
{
    lemma_mul_entry_unroll(x, identity_seq(), 0);
    lemma_adjoint_entries_eval_0(x);
    lemma_mul_const(adjoint_entry(x, 0, 0), identity_seq()[0], -2);
    lemma_mul_const(adjoint_entry(x, 0, 1), identity_seq()[1], -3);
    lemma_mul_const(adjoint_entry(x, 0, 2), identity_seq()[2], -4);
    lemma_mul_const(adjoint_entry(x, 0, 3), identity_seq()[3], -6);
    lemma_mul_const(adjoint_entry(x, 0, 4), identity_seq()[4], -5);
    lemma_mul_const(adjoint_entry(x, 0, 5), identity_seq()[5], -4);
    lemma_mul_const(adjoint_entry(x, 0, 6), identity_seq()[6], -3);
    lemma_mul_const(adjoint_entry(x, 0, 7), identity_seq()[7], -2);
}

/// Coefficient `1` of `x * 1` equals coefficient `1` of `x`.
#[verifier::rlimit(100)]
proof fn lemma_right_identity_entry_1(x: Seq<int>)
    requires
        is_coeffs(x),
    ensures
        mul_entry(x, identity_seq(), 1) == x[1],
{
    lemma_mul_entry_unroll(x, identity_seq(), 1);
    lemma_adjoint_entries_eval_1(x);
    lemma_mul_const(adjoint_entry(x, 1, 0), identity_seq()[0], -2);
    lemma_mul_const(adjoint_entry(x, 1, 1), identity_seq()[1], -3);
    lemma_mul_const(adjoint_entry(x, 1, 2), identity_seq()[2], -4);
    lemma_mul_const(adjoint_entry(x, 1, 3), identity_seq()[3], -6);
    lemma_mul_const(adjoint_entry(x, 1, 4), identity_seq()[4], -5);
    lemma_mul_const(adjoint_entry(x, 1, 5), identity_seq()[5], -4);
    lemma_mul_const(adjoint_entry(x, 1, 6), identity_seq()[6], -3);
    lemma_mul_const(adjoint_entry(x, 1, 7), identity_seq()[7], -2);
}

/// Coefficient `2` of `x * 1` equals coefficient `2` of `x`.
#[verifier::rlimit(100)]
proof fn lemma_right_identity_entry_2(x: Seq<int>)
    requires
        is_coeffs(x),
    ensures
        mul_entry(x, identity_seq(), 2) == x[2],
{
    lemma_mul_entry_unroll(x, identity_seq(), 2);
    lemma_adjoint_entries_eval_2(x);
    lemma_mul_const(adjoint_entry(x, 2, 0), identity_seq()[0], -2);
    lemma_mul_const(adjoint_entry(x, 2, 1), identity_seq()[1], -3);
    lemma_mul_const(adjoint_entry(x, 2, 2), identity_seq()[2], -4);
    lemma_mul_const(adjoint_entry(x, 2, 3), identity_seq()[3], -6);
    lemma_mul_const(adjoint_entry(x, 2, 4), identity_seq()[4], -5);
    lemma_mul_const(adjoint_entry(x, 2, 5), identity_seq()[5], -4);
    lemma_mul_const(adjoint_entry(x, 2, 6), identity_seq()[6], -3);
    lemma_mul_const(adjoint_entry(x, 2, 7), identity_seq()[7], -2);
}

/// Coefficient `3` of `x * 1` equals coefficient `3` of `x`.
#[verifier::rlimit(100)]
proof fn lemma_right_identity_entry_3(x: Seq<int>)
    requires
        is_coeffs(x),
    ensures
        mul_entry(x, identity_seq(), 3) == x[3],
{
    lemma_mul_entry_unroll(x, identity_seq(), 3);
    lemma_adjoint_entries_eval_3(x);
    lemma_mul_const(adjoint_entry(x, 3, 0), identity_seq()[0], -2);
    lemma_mul_const(adjoint_entry(x, 3, 1), identity_seq()[1], -3);
    lemma_mul_const(adjoint_entry(x, 3, 2), identity_seq()[2], -4);
    lemma_mul_const(adjoint_entry(x, 3, 3), identity_seq()[3], -6);
    lemma_mul_const(adjoint_entry(x, 3, 4), identity_seq()[4], -5);
    lemma_mul_const(adjoint_entry(x, 3, 5), identity_seq()[5], -4);
    lemma_mul_const(adjoint_entry(x, 3, 6), identity_seq()[6], -3);
    lemma_mul_const(adjoint_entry(x, 3, 7), identity_seq()[7], -2);
}

/// Coefficient `4` of `x * 1` equals coefficient `4` of `x`.
#[verifier::rlimit(100)]
proof fn lemma_right_identity_entry_4(x: Seq<int>)
    requires
        is_coeffs(x),
    ensures
        mul_entry(x, identity_seq(), 4) == x[4],
{
    lemma_mul_entry_unroll(x, identity_seq(), 4);
    lemma_adjoint_entries_eval_4(x);
    lemma_mul_const(adjoint_entry(x, 4, 0), identity_seq()[0], -2);
    lemma_mul_const(adjoint_entry(x, 4, 1), identity_seq()[1], -3);
    lemma_mul_const(adjoint_entry(x, 4, 2), identity_seq()[2], -4);
    lemma_mul_const(adjoint_entry(x, 4, 3), identity_seq()[3], -6);
    lemma_mul_const(adjoint_entry(x, 4, 4), identity_seq()[4], -5);
    lemma_mul_const(adjoint_entry(x, 4, 5), identity_seq()[5], -4);
    lemma_mul_const(adjoint_entry(x, 4, 6), identity_seq()[6], -3);
    lemma_mul_const(adjoint_entry(x, 4, 7), identity_seq()[7], -2);
}

/// Coefficient `5` of `x * 1` equals coefficient `5` of `x`.
#[verifier::rlimit(100)]
proof fn lemma_right_identity_entry_5(x: Seq<int>)
    requires
        is_coeffs(x),
    ensures
        mul_entry(x, identity_seq(), 5) == x[5],
{
    lemma_mul_entry_unroll(x, identity_seq(), 5);
    lemma_adjoint_entries_eval_5(x);
    lemma_mul_const(adjoint_entry(x, 5, 0), identity_seq()[0], -2);
    lemma_mul_const(adjoint_entry(x, 5, 1), identity_seq()[1], -3);
    lemma_mul_const(adjoint_entry(x, 5, 2), identity_seq()[2], -4);
    lemma_mul_const(adjoint_entry(x, 5, 3), identity_seq()[3], -6);
    lemma_mul_const(adjoint_entry(x, 5, 4), identity_seq()[4], -5);
    lemma_mul_const(adjoint_entry(x, 5, 5), identity_seq()[5], -4);
    lemma_mul_const(adjoint_entry(x, 5, 6), identity_seq()[6], -3);
    lemma_mul_const(adjoint_entry(x, 5, 7), identity_seq()[7], -2);
}

/// Coefficient `6` of `x * 1` equals coefficient `6` of `x`.
#[verifier::rlimit(100)]
proof fn lemma_right_identity_entry_6(x: Seq<int>)
    requires
        is_coeffs(x),
    ensures
        mul_entry(x, identity_seq(), 6) == x[6],
{
    lemma_mul_entry_unroll(x, identity_seq(), 6);
    lemma_adjoint_entries_eval_6(x);
    lemma_mul_const(adjoint_entry(x, 6, 0), identity_seq()[0], -2);
    lemma_mul_const(adjoint_entry(x, 6, 1), identity_seq()[1], -3);
    lemma_mul_const(adjoint_entry(x, 6, 2), identity_seq()[2], -4);
    lemma_mul_const(adjoint_entry(x, 6, 3), identity_seq()[3], -6);
    lemma_mul_const(adjoint_entry(x, 6, 4), identity_seq()[4], -5);
    lemma_mul_const(adjoint_entry(x, 6, 5), identity_seq()[5], -4);
    lemma_mul_const(adjoint_entry(x, 6, 6), identity_seq()[6], -3);
    lemma_mul_const(adjoint_entry(x, 6, 7), identity_seq()[7], -2);
}

/// Coefficient `7` of `x * 1` equals coefficient `7` of `x`.
#[verifier::rlimit(100)]
proof fn lemma_right_identity_entry_7(x: Seq<int>)
    requires
        is_coeffs(x),
    ensures
        mul_entry(x, identity_seq(), 7) == x[7],
{
    lemma_mul_entry_unroll(x, identity_seq(), 7);
    lemma_adjoint_entries_eval_7(x);
    lemma_mul_const(adjoint_entry(x, 7, 0), identity_seq()[0], -2);
    lemma_mul_const(adjoint_entry(x, 7, 1), identity_seq()[1], -3);
    lemma_mul_const(adjoint_entry(x, 7, 2), identity_seq()[2], -4);
    lemma_mul_const(adjoint_entry(x, 7, 3), identity_seq()[3], -6);
    lemma_mul_const(adjoint_entry(x, 7, 4), identity_seq()[4], -5);
    lemma_mul_const(adjoint_entry(x, 7, 5), identity_seq()[5], -4);
    lemma_mul_const(adjoint_entry(x, 7, 6), identity_seq()[6], -3);
    lemma_mul_const(adjoint_entry(x, 7, 7), identity_seq()[7], -2);
}

/// Coefficient `0` of `1 * x` equals coefficient `0` of `x`.
#[verifier::rlimit(100)]
proof fn lemma_left_identity_entry_0(x: Seq<int>)
    requires
        is_coeffs(x),
    ensures
        mul_entry(identity_seq(), x, 0) == x[0],
{
    lemma_mul_entry_unroll(identity_seq(), x, 0);
    lemma_adjoint_entries_eval_0(identity_seq());
    assert(adjoint_entry(identity_seq(), 0, 0) == 1);
    lemma_mul_comm(adjoint_entry(identity_seq(), 0, 0), x[0]);
    lemma_mul_const(x[0], adjoint_entry(identity_seq(), 0, 0), 1);
    assert(adjoint_entry(identity_seq(), 0, 1) == 0);
    lemma_mul_comm(adjoint_entry(identity_seq(), 0, 1), x[1]);
    lemma_mul_const(x[1], adjoint_entry(identity_seq(), 0, 1), 0);
    assert(adjoint_entry(identity_seq(), 0, 2) == 0);
    lemma_mul_comm(adjoint_entry(identity_seq(), 0, 2), x[2]);
    lemma_mul_const(x[2], adjoint_entry(identity_seq(), 0, 2), 0);
    assert(adjoint_entry(identity_seq(), 0, 3) == 0);
    lemma_mul_comm(adjoint_entry(identity_seq(), 0, 3), x[3]);
    lemma_mul_const(x[3], adjoint_entry(identity_seq(), 0, 3), 0);
    assert(adjoint_entry(identity_seq(), 0, 4) == 0);
    lemma_mul_comm(adjoint_entry(identity_seq(), 0, 4), x[4]);
    lemma_mul_const(x[4], adjoint_entry(identity_seq(), 0, 4), 0);
    assert(adjoint_entry(identity_seq(), 0, 5) == 0);
    lemma_mul_comm(adjoint_entry(identity_seq(), 0, 5), x[5]);
    lemma_mul_const(x[5], adjoint_entry(identity_seq(), 0, 5), 0);
    assert(adjoint_entry(identity_seq(), 0, 6) == 0);
    lemma_mul_comm(adjoint_entry(identity_seq(), 0, 6), x[6]);
    lemma_mul_const(x[6], adjoint_entry(identity_seq(), 0, 6), 0);
    assert(adjoint_entry(identity_seq(), 0, 7) == 0);
    lemma_mul_comm(adjoint_entry(identity_seq(), 0, 7), x[7]);
    lemma_mul_const(x[7], adjoint_entry(identity_seq(), 0, 7), 0);
}

/// Coefficient `1` of `1 * x` equals coefficient `1` of `x`.
#[verifier::rlimit(100)]
proof fn lemma_left_identity_entry_1(x: Seq<int>)
    requires
        is_coeffs(x),
    ensures
        mul_entry(identity_seq(), x, 1) == x[1],
{
    lemma_mul_entry_unroll(identity_seq(), x, 1);
    lemma_adjoint_entries_eval_1(identity_seq());
    assert(adjoint_entry(identity_seq(), 1, 0) == 0);
    lemma_mul_comm(adjoint_entry(identity_seq(), 1, 0), x[0]);
    lemma_mul_const(x[0], adjoint_entry(identity_seq(), 1, 0), 0);
    assert(adjoint_entry(identity_seq(), 1, 1) == 1);
    lemma_mul_comm(adjoint_entry(identity_seq(), 1, 1), x[1]);
    lemma_mul_const(x[1], adjoint_entry(identity_seq(), 1, 1), 1);
    assert(adjoint_entry(identity_seq(), 1, 2) == 0);
    lemma_mul_comm(adjoint_entry(identity_seq(), 1, 2), x[2]);
    lemma_mul_const(x[2], adjoint_entry(identity_seq(), 1, 2), 0);
    assert(adjoint_entry(identity_seq(), 1, 3) == 0);
    lemma_mul_comm(adjoint_entry(identity_seq(), 1, 3), x[3]);
    lemma_mul_const(x[3], adjoint_entry(identity_seq(), 1, 3), 0);
    assert(adjoint_entry(identity_seq(), 1, 4) == 0);
    lemma_mul_comm(adjoint_entry(identity_seq(), 1, 4), x[4]);
    lemma_mul_const(x[4], adjoint_entry(identity_seq(), 1, 4), 0);
    assert(adjoint_entry(identity_seq(), 1, 5) == 0);
    lemma_mul_comm(adjoint_entry(identity_seq(), 1, 5), x[5]);
    lemma_mul_const(x[5], adjoint_entry(identity_seq(), 1, 5), 0);
    assert(adjoint_entry(identity_seq(), 1, 6) == 0);
    lemma_mul_comm(adjoint_entry(identity_seq(), 1, 6), x[6]);
    lemma_mul_const(x[6], adjoint_entry(identity_seq(), 1, 6), 0);
    assert(adjoint_entry(identity_seq(), 1, 7) == 0);
    lemma_mul_comm(adjoint_entry(identity_seq(), 1, 7), x[7]);
    lemma_mul_const(x[7], adjoint_entry(identity_seq(), 1, 7), 0);
}

/// Coefficient `2` of `1 * x` equals coefficient `2` of `x`.
#[verifier::rlimit(100)]
proof fn lemma_left_identity_entry_2(x: Seq<int>)
    requires
        is_coeffs(x),
    ensures
        mul_entry(identity_seq(), x, 2) == x[2],
{
    lemma_mul_entry_unroll(identity_seq(), x, 2);
    lemma_adjoint_entries_eval_2(identity_seq());
    assert(adjoint_entry(identity_seq(), 2, 0) == 0);
    lemma_mul_comm(adjoint_entry(identity_seq(), 2, 0), x[0]);
    lemma_mul_const(x[0], adjoint_entry(identity_seq(), 2, 0), 0);
    assert(adjoint_entry(identity_seq(), 2, 1) == 0);
    lemma_mul_comm(adjoint_entry(identity_seq(), 2, 1), x[1]);
    lemma_mul_const(x[1], adjoint_entry(identity_seq(), 2, 1), 0);
    assert(adjoint_entry(identity_seq(), 2, 2) == 1);
    lemma_mul_comm(adjoint_entry(identity_seq(), 2, 2), x[2]);
    lemma_mul_const(x[2], adjoint_entry(identity_seq(), 2, 2), 1);
    assert(adjoint_entry(identity_seq(), 2, 3) == 0);
    lemma_mul_comm(adjoint_entry(identity_seq(), 2, 3), x[3]);
    lemma_mul_const(x[3], adjoint_entry(identity_seq(), 2, 3), 0);
    assert(adjoint_entry(identity_seq(), 2, 4) == 0);
    lemma_mul_comm(adjoint_entry(identity_seq(), 2, 4), x[4]);
    lemma_mul_const(x[4], adjoint_entry(identity_seq(), 2, 4), 0);
    assert(adjoint_entry(identity_seq(), 2, 5) == 0);
    lemma_mul_comm(adjoint_entry(identity_seq(), 2, 5), x[5]);
    lemma_mul_const(x[5], adjoint_entry(identity_seq(), 2, 5), 0);
    assert(adjoint_entry(identity_seq(), 2, 6) == 0);
    lemma_mul_comm(adjoint_entry(identity_seq(), 2, 6), x[6]);
    lemma_mul_const(x[6], adjoint_entry(identity_seq(), 2, 6), 0);
    assert(adjoint_entry(identity_seq(), 2, 7) == 0);
    lemma_mul_comm(adjoint_entry(identity_seq(), 2, 7), x[7]);
    lemma_mul_const(x[7], adjoint_entry(identity_seq(), 2, 7), 0);
}

/// Coefficient `3` of `1 * x` equals coefficient `3` of `x`.
#[verifier::rlimit(100)]
proof fn lemma_left_identity_entry_3(x: Seq<int>)
    requires
        is_coeffs(x),
    ensures
        mul_entry(identity_seq(), x, 3) == x[3],
{
    lemma_mul_entry_unroll(identity_seq(), x, 3);
    lemma_adjoint_entries_eval_3(identity_seq());
    assert(adjoint_entry(identity_seq(), 3, 0) == 0);
    lemma_mul_comm(adjoint_entry(identity_seq(), 3, 0), x[0]);
    lemma_mul_const(x[0], adjoint_entry(identity_seq(), 3, 0), 0);
    assert(adjoint_entry(identity_seq(), 3, 1) == 0);
    lemma_mul_comm(adjoint_entry(identity_seq(), 3, 1), x[1]);
    lemma_mul_const(x[1], adjoint_entry(identity_seq(), 3, 1), 0);
    assert(adjoint_entry(identity_seq(), 3, 2) == 0);
    lemma_mul_comm(adjoint_entry(identity_seq(), 3, 2), x[2]);
    lemma_mul_const(x[2], adjoint_entry(identity_seq(), 3, 2), 0);
    assert(adjoint_entry(identity_seq(), 3, 3) == 1);
    lemma_mul_comm(adjoint_entry(identity_seq(), 3, 3), x[3]);
    lemma_mul_const(x[3], adjoint_entry(identity_seq(), 3, 3), 1);
    assert(adjoint_entry(identity_seq(), 3, 4) == 0);
    lemma_mul_comm(adjoint_entry(identity_seq(), 3, 4), x[4]);
    lemma_mul_const(x[4], adjoint_entry(identity_seq(), 3, 4), 0);
    assert(adjoint_entry(identity_seq(), 3, 5) == 0);
    lemma_mul_comm(adjoint_entry(identity_seq(), 3, 5), x[5]);
    lemma_mul_const(x[5], adjoint_entry(identity_seq(), 3, 5), 0);
    assert(adjoint_entry(identity_seq(), 3, 6) == 0);
    lemma_mul_comm(adjoint_entry(identity_seq(), 3, 6), x[6]);
    lemma_mul_const(x[6], adjoint_entry(identity_seq(), 3, 6), 0);
    assert(adjoint_entry(identity_seq(), 3, 7) == 0);
    lemma_mul_comm(adjoint_entry(identity_seq(), 3, 7), x[7]);
    lemma_mul_const(x[7], adjoint_entry(identity_seq(), 3, 7), 0);
}

/// Coefficient `4` of `1 * x` equals coefficient `4` of `x`.
#[verifier::rlimit(100)]
proof fn lemma_left_identity_entry_4(x: Seq<int>)
    requires
        is_coeffs(x),
    ensures
        mul_entry(identity_seq(), x, 4) == x[4],
{
    lemma_mul_entry_unroll(identity_seq(), x, 4);
    lemma_adjoint_entries_eval_4(identity_seq());
    assert(adjoint_entry(identity_seq(), 4, 0) == 0);
    lemma_mul_comm(adjoint_entry(identity_seq(), 4, 0), x[0]);
    lemma_mul_const(x[0], adjoint_entry(identity_seq(), 4, 0), 0);
    assert(adjoint_entry(identity_seq(), 4, 1) == 0);
    lemma_mul_comm(adjoint_entry(identity_seq(), 4, 1), x[1]);
    lemma_mul_const(x[1], adjoint_entry(identity_seq(), 4, 1), 0);
    assert(adjoint_entry(identity_seq(), 4, 2) == 0);
    lemma_mul_comm(adjoint_entry(identity_seq(), 4, 2), x[2]);
    lemma_mul_const(x[2], adjoint_entry(identity_seq(), 4, 2), 0);
    assert(adjoint_entry(identity_seq(), 4, 3) == 0);
    lemma_mul_comm(adjoint_entry(identity_seq(), 4, 3), x[3]);
    lemma_mul_const(x[3], adjoint_entry(identity_seq(), 4, 3), 0);
    assert(adjoint_entry(identity_seq(), 4, 4) == 1);
    lemma_mul_comm(adjoint_entry(identity_seq(), 4, 4), x[4]);
    lemma_mul_const(x[4], adjoint_entry(identity_seq(), 4, 4), 1);
    assert(adjoint_entry(identity_seq(), 4, 5) == 0);
    lemma_mul_comm(adjoint_entry(identity_seq(), 4, 5), x[5]);
    lemma_mul_const(x[5], adjoint_entry(identity_seq(), 4, 5), 0);
    assert(adjoint_entry(identity_seq(), 4, 6) == 0);
    lemma_mul_comm(adjoint_entry(identity_seq(), 4, 6), x[6]);
    lemma_mul_const(x[6], adjoint_entry(identity_seq(), 4, 6), 0);
    assert(adjoint_entry(identity_seq(), 4, 7) == 0);
    lemma_mul_comm(adjoint_entry(identity_seq(), 4, 7), x[7]);
    lemma_mul_const(x[7], adjoint_entry(identity_seq(), 4, 7), 0);
}

/// Coefficient `5` of `1 * x` equals coefficient `5` of `x`.
#[verifier::rlimit(100)]
proof fn lemma_left_identity_entry_5(x: Seq<int>)
    requires
        is_coeffs(x),
    ensures
        mul_entry(identity_seq(), x, 5) == x[5],
{
    lemma_mul_entry_unroll(identity_seq(), x, 5);
    lemma_adjoint_entries_eval_5(identity_seq());
    assert(adjoint_entry(identity_seq(), 5, 0) == 0);
    lemma_mul_comm(adjoint_entry(identity_seq(), 5, 0), x[0]);
    lemma_mul_const(x[0], adjoint_entry(identity_seq(), 5, 0), 0);
    assert(adjoint_entry(identity_seq(), 5, 1) == 0);
    lemma_mul_comm(adjoint_entry(identity_seq(), 5, 1), x[1]);
    lemma_mul_const(x[1], adjoint_entry(identity_seq(), 5, 1), 0);
    assert(adjoint_entry(identity_seq(), 5, 2) == 0);
    lemma_mul_comm(adjoint_entry(identity_seq(), 5, 2), x[2]);
    lemma_mul_const(x[2], adjoint_entry(identity_seq(), 5, 2), 0);
    assert(adjoint_entry(identity_seq(), 5, 3) == 0);
    lemma_mul_comm(adjoint_entry(identity_seq(), 5, 3), x[3]);
    lemma_mul_const(x[3], adjoint_entry(identity_seq(), 5, 3), 0);
    assert(adjoint_entry(identity_seq(), 5, 4) == 0);
    lemma_mul_comm(adjoint_entry(identity_seq(), 5, 4), x[4]);
    lemma_mul_const(x[4], adjoint_entry(identity_seq(), 5, 4), 0);
    assert(adjoint_entry(identity_seq(), 5, 5) == 1);
    lemma_mul_comm(adjoint_entry(identity_seq(), 5, 5), x[5]);
    lemma_mul_const(x[5], adjoint_entry(identity_seq(), 5, 5), 1);
    assert(adjoint_entry(identity_seq(), 5, 6) == 0);
    lemma_mul_comm(adjoint_entry(identity_seq(), 5, 6), x[6]);
    lemma_mul_const(x[6], adjoint_entry(identity_seq(), 5, 6), 0);
    assert(adjoint_entry(identity_seq(), 5, 7) == 0);
    lemma_mul_comm(adjoint_entry(identity_seq(), 5, 7), x[7]);
    lemma_mul_const(x[7], adjoint_entry(identity_seq(), 5, 7), 0);
}

/// Coefficient `6` of `1 * x` equals coefficient `6` of `x`.
#[verifier::rlimit(100)]
proof fn lemma_left_identity_entry_6(x: Seq<int>)
    requires
        is_coeffs(x),
    ensures
        mul_entry(identity_seq(), x, 6) == x[6],
{
    lemma_mul_entry_unroll(identity_seq(), x, 6);
    lemma_adjoint_entries_eval_6(identity_seq());
    assert(adjoint_entry(identity_seq(), 6, 0) == 0);
    lemma_mul_comm(adjoint_entry(identity_seq(), 6, 0), x[0]);
    lemma_mul_const(x[0], adjoint_entry(identity_seq(), 6, 0), 0);
    assert(adjoint_entry(identity_seq(), 6, 1) == 0);
    lemma_mul_comm(adjoint_entry(identity_seq(), 6, 1), x[1]);
    lemma_mul_const(x[1], adjoint_entry(identity_seq(), 6, 1), 0);
    assert(adjoint_entry(identity_seq(), 6, 2) == 0);
    lemma_mul_comm(adjoint_entry(identity_seq(), 6, 2), x[2]);
    lemma_mul_const(x[2], adjoint_entry(identity_seq(), 6, 2), 0);
    assert(adjoint_entry(identity_seq(), 6, 3) == 0);
    lemma_mul_comm(adjoint_entry(identity_seq(), 6, 3), x[3]);
    lemma_mul_const(x[3], adjoint_entry(identity_seq(), 6, 3), 0);
    assert(adjoint_entry(identity_seq(), 6, 4) == 0);
    lemma_mul_comm(adjoint_entry(identity_seq(), 6, 4), x[4]);
    lemma_mul_const(x[4], adjoint_entry(identity_seq(), 6, 4), 0);
    assert(adjoint_entry(identity_seq(), 6, 5) == 0);
    lemma_mul_comm(adjoint_entry(identity_seq(), 6, 5), x[5]);
    lemma_mul_const(x[5], adjoint_entry(identity_seq(), 6, 5), 0);
    assert(adjoint_entry(identity_seq(), 6, 6) == 1);
    lemma_mul_comm(adjoint_entry(identity_seq(), 6, 6), x[6]);
    lemma_mul_const(x[6], adjoint_entry(identity_seq(), 6, 6), 1);
    assert(adjoint_entry(identity_seq(), 6, 7) == 0);
    lemma_mul_comm(adjoint_entry(identity_seq(), 6, 7), x[7]);
    lemma_mul_const(x[7], adjoint_entry(identity_seq(), 6, 7), 0);
}

/// Coefficient `7` of `1 * x` equals coefficient `7` of `x`.
#[verifier::rlimit(100)]
proof fn lemma_left_identity_entry_7(x: Seq<int>)
    requires
        is_coeffs(x),
    ensures
        mul_entry(identity_seq(), x, 7) == x[7],
{
    lemma_mul_entry_unroll(identity_seq(), x, 7);
    lemma_adjoint_entries_eval_7(identity_seq());
    assert(adjoint_entry(identity_seq(), 7, 0) == 0);
    lemma_mul_comm(adjoint_entry(identity_seq(), 7, 0), x[0]);
    lemma_mul_const(x[0], adjoint_entry(identity_seq(), 7, 0), 0);
    assert(adjoint_entry(identity_seq(), 7, 1) == 0);
    lemma_mul_comm(adjoint_entry(identity_seq(), 7, 1), x[1]);
    lemma_mul_const(x[1], adjoint_entry(identity_seq(), 7, 1), 0);
    assert(adjoint_entry(identity_seq(), 7, 2) == 0);
    lemma_mul_comm(adjoint_entry(identity_seq(), 7, 2), x[2]);
    lemma_mul_const(x[2], adjoint_entry(identity_seq(), 7, 2), 0);
    assert(adjoint_entry(identity_seq(), 7, 3) == 0);
    lemma_mul_comm(adjoint_entry(identity_seq(), 7, 3), x[3]);
    lemma_mul_const(x[3], adjoint_entry(identity_seq(), 7, 3), 0);
    assert(adjoint_entry(identity_seq(), 7, 4) == 0);
    lemma_mul_comm(adjoint_entry(identity_seq(), 7, 4), x[4]);
    lemma_mul_const(x[4], adjoint_entry(identity_seq(), 7, 4), 0);
    assert(adjoint_entry(identity_seq(), 7, 5) == 0);
    lemma_mul_comm(adjoint_entry(identity_seq(), 7, 5), x[5]);
    lemma_mul_const(x[5], adjoint_entry(identity_seq(), 7, 5), 0);
    assert(adjoint_entry(identity_seq(), 7, 6) == 0);
    lemma_mul_comm(adjoint_entry(identity_seq(), 7, 6), x[6]);
    lemma_mul_const(x[6], adjoint_entry(identity_seq(), 7, 6), 0);
    assert(adjoint_entry(identity_seq(), 7, 7) == 1);
    lemma_mul_comm(adjoint_entry(identity_seq(), 7, 7), x[7]);
    lemma_mul_const(x[7], adjoint_entry(identity_seq(), 7, 7), 1);
}

/// The identity element is a two-sided multiplicative identity:
/// `x * 1 == x` and `1 * x == x`.
pub proof fn lemma_identity_laws(x: Seq<int>)
    requires
        is_coeffs(x),
    ensures
        mul_seq(x, identity_seq()) == x,
        mul_seq(identity_seq(), x) == x,
{
    lemma_right_identity_entry_0(x);
    lemma_right_identity_entry_1(x);
    lemma_right_identity_entry_2(x);
    lemma_right_identity_entry_3(x);
    lemma_right_identity_entry_4(x);
    lemma_right_identity_entry_5(x);
    lemma_right_identity_entry_6(x);
    lemma_right_identity_entry_7(x);
    lemma_left_identity_entry_0(x);
    lemma_left_identity_entry_1(x);
    lemma_left_identity_entry_2(x);
    lemma_left_identity_entry_3(x);
    lemma_left_identity_entry_4(x);
    lemma_left_identity_entry_5(x);
    lemma_left_identity_entry_6(x);
    lemma_left_identity_entry_7(x);
    assert(mul_seq(x, identity_seq()) =~= x);
    assert(mul_seq(identity_seq(), x) =~= x);
}

/// The slice of the norm composition law in which the right factor is the
/// identity: `norm(x * 1) == norm(x) * norm(1)`.
pub proof fn lemma_norm_composition_identity(x: Seq<int>)
    requires
        is_coeffs(x),
    ensures
        norm_spec(mul_seq(x, identity_seq())) == norm_spec(x) * norm_spec(identity_seq()),
{
    lemma_identity_laws(x);
    lemma_identity_norm_trace();
}

} // verus!
