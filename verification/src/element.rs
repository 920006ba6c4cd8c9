//! The octavian integer value type and its algebraic operations.
//!
//! An `Octavian` holds exactly eight coefficients: its coordinates in a
//! fixed basis of the E8 lattice.  Values are immutable in spirit: every
//! operation returns a new value, and the in-place operators are specified
//! to be observably identical to replacing the value with the result.
//! The coefficient type is a fixed-width integer, so each operation states
//! as a precondition exactly that its mathematical result (and, where the
//! algorithm stores an intermediate matrix, that intermediate) fits the
//! coefficient type; within those bounds every operation is total and exact.

use vstd::prelude::*;

use crate::arith::lemma_mul_bounds;
use crate::arith::lemma_tdiv_even_half;
use crate::arith::lemma_tdiv_in_i32_range;
use crate::expand::lemma_inner_self_even;
use crate::expand::lemma_trace_is_neg_last;
use crate::model::add_seq;
use crate::model::adjoint_entry;
use crate::model::adjoint_entry_prefix;
use crate::model::conj_seq;
use crate::model::gram_row;
use crate::model::gram_row_prefix;
use crate::model::inner_prefix;
use crate::model::inner_product_spec;
use crate::model::mul_entry;
use crate::model::mul_entry_prefix;
use crate::model::mul_seq;
use crate::model::norm_spec;
use crate::model::tdiv;
use crate::model::trace_spec;
use crate::model::unscale_seq;
use crate::model::identity_seq;
use crate::model::neg_seq;
use crate::model::scale_seq;
use crate::model::sub_seq;
use crate::model::to_int_seq;
use crate::model::zero_seq;
use crate::tables::GRAM_MATRIX;
use crate::tables::OCTAVIAN_ADJOINT_MATRICES;

verus! {

/// An octavian integer: an element of the E8-lattice algebra, stored as its
/// eight coordinates in the fixed basis.
#[derive(Clone, Copy, Hash, Debug)]
pub struct Octavian {
    /// The E8 lattice coordinates of the octavian.
    pub coefficients: [i32; 8],
}

impl View for Octavian {
    type V = Seq<int>;

    open spec fn view(&self) -> Seq<int> {
        to_int_seq(self.coefficients@)
    }
}

impl PartialEq for Octavian {
    /// Two octavians are equal exactly when all eight coefficients agree.
    fn eq(&self, other: &Octavian) -> (r: bool) {
        let mut same = true;
        for k in 0..8
            invariant
                same == (forall|i: int|
                    0 <= i < k ==> self.coefficients@[i] == other.coefficients@[i]),
        {
            if self.coefficients[k] != other.coefficients[k] {
                same = false;
            }
        }
        if same {
            assert(self.coefficients@ =~= other.coefficients@);
        }
        same
    }
}

impl Eq for Octavian {}

impl vstd::std_specs::cmp::PartialEqSpecImpl for Octavian {
    open spec fn obeys_eq_spec() -> bool {
        true
    }

    open spec fn eq_spec(&self, other: &Octavian) -> bool {
        self.coefficients@ == other.coefficients@
    }
}

/// The one way a construction can fail.
#[derive(Clone, Copy, Debug, PartialEq, Eq, Structural)]
pub enum OctavianError {
    /// The input did not hold exactly eight coefficients.
    InvalidLength,
}

impl Octavian {
    /// Create a new `Octavian` from its eight coefficients.
    pub fn new(coefficients: [i32; 8]) -> (r: Self)
        ensures
            r.coefficients == coefficients,
            r@ == to_int_seq(coefficients@),
    {
        Octavian { coefficients }
    }

    /// Create a new `Octavian` from a coefficient slice, rejecting any input
    /// whose length is not exactly eight.
    pub fn try_from_coefficients(coefficients: &[i32]) -> (r: Result<Octavian, OctavianError>)
        ensures
            coefficients@.len() == 8 ==> r is Ok && r->Ok_0@ == to_int_seq(coefficients@),
            coefficients@.len() != 8 ==> r is Err && r->Err_0 == OctavianError::InvalidLength,
    {
        if coefficients.len() != 8 {
            return Err(OctavianError::InvalidLength);
        }
        let mut c: [i32; 8] = [0; 8];
        for k in 0..8
            invariant
                coefficients@.len() == 8,
                forall|i: int| 0 <= i < k ==> c@[i] == coefficients@[i],
        {
            c[k] = coefficients[k];
        }
        let r = Octavian::new(c);
        proof {
            assert(r@ =~= to_int_seq(coefficients@));
        }
        Ok(r)
    }

    /// The zero octavian: every coefficient is zero.
    pub fn zero(self) -> (r: Self)
        ensures
            r@ == zero_seq(),
    {
        let r = Octavian::new([0; 8]);
        proof {
            assert(r@ =~= zero_seq());
        }
        r
    }

    /// The multiplicative identity.  In this basis it is not a coordinate
    /// vector; its coefficients are the fixed vector below.
    pub fn one() -> (r: Self)
        ensures
            r@ == identity_seq(),
    {
        let r = Octavian::new([-2, -3, -4, -6, -5, -4, -3, -2]);
        proof {
            assert(r@ =~= identity_seq());
        }
        r
    }

    /// Coefficient-wise sum of two octavians.
    pub fn add(self, other: Self) -> (r: Self)
        requires
            forall|i: int| 0 <= i < 8 ==> i32::MIN <= (#[trigger] self@[i]) + other@[i] <= i32::MAX,
        ensures
            r@ == add_seq(self@, other@),
    {
        let mut c: [i32; 8] = [0; 8];
        for k in 0..8
            invariant
                forall|i: int| 0 <= i < 8 ==> i32::MIN <= (#[trigger] self@[i]) + other@[i] <= i32::MAX,
                forall|i: int| 0 <= i < k ==> c@[i] as int == self@[i] + other@[i],
        {
            proof {
                assert(self@[k as int] == self.coefficients@[k as int] as int);
                assert(other@[k as int] == other.coefficients@[k as int] as int);
            }
            c[k] = self.coefficients[k] + other.coefficients[k];
        }
        let r = Octavian::new(c);
        proof {
            assert(r@ =~= add_seq(self@, other@));
        }
        r
    }

    /// Coefficient-wise difference of two octavians.
    pub fn sub(self, other: Self) -> (r: Self)
        requires
            forall|i: int| 0 <= i < 8 ==> i32::MIN <= (#[trigger] self@[i]) - other@[i] <= i32::MAX,
        ensures
            r@ == sub_seq(self@, other@),
    {
        let mut c: [i32; 8] = [0; 8];
        for k in 0..8
            invariant
                forall|i: int| 0 <= i < 8 ==> i32::MIN <= (#[trigger] self@[i]) - other@[i] <= i32::MAX,
                forall|i: int| 0 <= i < k ==> c@[i] as int == self@[i] - other@[i],
        {
            proof {
                assert(self@[k as int] == self.coefficients@[k as int] as int);
                assert(other@[k as int] == other.coefficients@[k as int] as int);
            }
            c[k] = self.coefficients[k] - other.coefficients[k];
        }
        let r = Octavian::new(c);
        proof {
            assert(r@ =~= sub_seq(self@, other@));
        }
        r
    }

    /// Multiplies every coefficient by the scalar `t`.
    pub fn scale(&self, t: i32) -> (r: Self)
        requires
            forall|i: int| 0 <= i < 8 ==> i32::MIN <= (#[trigger] self@[i]) * t <= i32::MAX,
        ensures
            r@ == scale_seq(self@, t as int),
    {
        let mut c: [i32; 8] = [0; 8];
        for k in 0..8
            invariant
                forall|i: int| 0 <= i < 8 ==> i32::MIN <= (#[trigger] self@[i]) * t <= i32::MAX,
                forall|i: int| 0 <= i < k ==> c@[i] as int == self@[i] * t,
        {
            proof {
                assert(self@[k as int] == self.coefficients@[k as int] as int);
            }
            c[k] = self.coefficients[k] * t;
        }
        let r = Octavian::new(c);
        proof {
            assert(r@ =~= scale_seq(self@, t as int));
        }
        r
    }

    /// The octavian with the opposite coefficients; the same as scaling
    /// by minus one.
    pub fn neg(self) -> (r: Self)
        requires
            forall|i: int| 0 <= i < 8 ==> (#[trigger] self@[i]) != i32::MIN,
        ensures
            r@ == neg_seq(self@),
    {
        let r = self.scale(-1);
        proof {
            assert(r@ =~= neg_seq(self@));
        }
        r
    }

    /// Divides every coefficient by the scalar `t`, truncating towards zero.
    /// The scalar must not be zero, and the one overflowing quotient (the
    /// smallest coefficient divided by minus one) is ruled out.
    pub fn unscale(&self, t: i32) -> (r: Self)
        requires
            t != 0,
            forall|i: int| 0 <= i < 8 ==> !((#[trigger] self@[i]) == i32::MIN && t == -1),
        ensures
            r@ == unscale_seq(self@, t as int),
    {
        let mut c: [i32; 8] = [0; 8];
        for k in 0..8
            invariant
                t != 0,
                forall|i: int| 0 <= i < 8 ==> !((#[trigger] self@[i]) == i32::MIN && t == -1),
                forall|i: int| 0 <= i < k ==> c@[i] as int == tdiv(self@[i], t as int),
        {
            proof {
                assert(self@[k as int] == self.coefficients@[k as int] as int);
                lemma_tdiv_in_i32_range(self@[k as int], t as int);
            }
            let q = self.coefficients[k].checked_div(t);
            c[k] = q.unwrap();
        }
        let r = Octavian::new(c);
        proof {
            assert(r@ =~= unscale_seq(self@, t as int));
        }
        r
    }

    /// The inner product of the coefficient sequences, computed in a wide
    /// intermediate type so that no step can overflow.
    fn inner_wide(&self, rhs: &Self) -> (r: i128)
        ensures
            r == inner_product_spec(self@, rhs@),
    {
        let mut temp: [i128; 8] = [0; 8];
        for i in 0..8
            invariant
                forall|k: int| 0 <= k < i ==> #[trigger] temp@[k] == gram_row(k, rhs@),
                forall|k: int|
                    0 <= k < i ==> -0x2_0000_0000_0000_0000 <= #[trigger] temp@[k]
                        <= 0x2_0000_0000_0000_0000,
        {
            let mut acc: i128 = 0;
            for j in 0..8
                invariant
                    i < 8,
                    acc == gram_row_prefix(i as int, rhs@, j as int),
                    -(j as int) * 0x4000_0000_0000_0000 <= acc <= (j as int)
                        * 0x4000_0000_0000_0000,
            {
                proof {
                    reveal(crate::model::gram);
                    assert(rhs@[j as int] == rhs.coefficients@[j as int] as int);
                    lemma_mul_bounds(
                        (GRAM_MATRIX@[i as int])@[j as int] as int,
                        rhs@[j as int],
                        0x8000_0000,
                        0x8000_0000,
                    );
                }
                acc = acc + (GRAM_MATRIX[i][j] as i128) * (rhs.coefficients[j] as i128);
            }
            temp[i] = acc;
        }
        let mut total: i128 = 0;
        for i in 0..8
            invariant
                forall|k: int| 0 <= k < 8 ==> #[trigger] temp@[k] == gram_row(k, rhs@),
                forall|k: int|
                    0 <= k < 8 ==> -0x2_0000_0000_0000_0000 <= #[trigger] temp@[k]
                        <= 0x2_0000_0000_0000_0000,
                total == inner_prefix(self@, rhs@, i as int),
                -(i as int) * 0x1_0000_0000_0000_0000_0000_0000 <= total <= (i as int)
                    * 0x1_0000_0000_0000_0000_0000_0000,
        {
            proof {
                assert(self@[i as int] == self.coefficients@[i as int] as int);
                lemma_mul_bounds(
                    self@[i as int],
                    temp@[i as int] as int,
                    0x8000_0000,
                    0x2_0000_0000_0000_0000,
                );
            }
            total = total + (self.coefficients[i] as i128) * temp[i];
        }
        total
    }

    /// The inner product of two octavians under the Gram bilinear form,
    /// computed as the two-stage contraction `self . (G rhs)`.
    pub fn inner_product(&self, rhs: Self) -> (r: i32)
        requires
            i32::MIN <= inner_product_spec(self@, rhs@) <= i32::MAX,
        ensures
            r as int == inner_product_spec(self@, rhs@),
    {
        let t = self.inner_wide(&rhs);
        t as i32
    }

    /// The norm of an octavian: half the inner product of the element with
    /// itself.  The halving is exact, since that inner product is always
    /// even.
    pub fn norm(&self) -> (r: i32)
        requires
            i32::MIN <= norm_spec(self@) <= i32::MAX,
        ensures
            r as int == norm_spec(self@),
    {
        let t = self.inner_wide(self);
        proof {
            lemma_inner_self_even(self@);
            lemma_tdiv_even_half(norm_spec(self@));
        }
        let q = t.checked_div(2);
        q.unwrap() as i32
    }

    /// The trace of an octavian: the inner product of the element with the
    /// identity.  In this basis it equals the negated last coefficient.
    pub fn trace(&self) -> (r: i32)
        requires
            self@[7] != i32::MIN,
        ensures
            r as int == trace_spec(self@),
            r as int == -self@[7],
    {
        proof {
            lemma_trace_is_neg_last(self@);
        }
        let one = Octavian::one();
        let t = self.inner_wide(&one);
        t as i32
    }

    /// The conjugate of an octavian: the identity scaled by the trace of
    /// the element, minus the element.
    pub fn conj(self) -> (r: Self)
        requires
            forall|i: int| 0 <= i < 8 ==> i32::MIN <= #[trigger] conj_seq(self@)[i] <= i32::MAX,
        ensures
            r@ == conj_seq(self@),
    {
        proof {
            lemma_trace_is_neg_last(self@);
        }
        let one = Octavian::one();
        let tr: i128 = -(self.coefficients[7] as i128);
        let mut c: [i32; 8] = [0; 8];
        for k in 0..8
            invariant
                one@ == identity_seq(),
                tr == trace_spec(self@),
                -0x8000_0000 <= tr <= 0x8000_0000,
                forall|i: int| 0 <= i < 8 ==> i32::MIN <= #[trigger] conj_seq(self@)[i] <= i32::MAX,
                forall|i: int| 0 <= i < k ==> c@[i] as int == conj_seq(self@)[i],
        {
            proof {
                assert(self@[k as int] == self.coefficients@[k as int] as int);
                assert(one@[k as int] == one.coefficients@[k as int] as int);
                lemma_mul_bounds(one@[k as int], tr as int, 0x8000_0000, 0x8000_0000);
                assert(conj_seq(self@)[k as int] == identity_seq()[k as int] * trace_spec(self@)
                    - self@[k as int]);
            }
            let v: i128 = (one.coefficients[k] as i128) * tr - (self.coefficients[k] as i128);
            c[k] = v as i32;
        }
        let r = Octavian::new(c);
        proof {
            assert(r@ =~= conj_seq(self@));
        }
        r
    }

    /// The left adjoint matrix of an octavian: the eight constant adjoint
    /// matrices combined entry-wise, each weighted by the matching
    /// coefficient, so that multiplying by this element on the left is the
    /// same as applying this matrix.
    pub fn left_adjoint_matrix(&self) -> (m: [[i32; 8]; 8])
        requires
            forall|i: int, j: int|
                0 <= i < 8 && 0 <= j < 8 ==> i32::MIN <= #[trigger] adjoint_entry(self@, i, j)
                    <= i32::MAX,
        ensures
            forall|i: int, j: int|
                0 <= i < 8 && 0 <= j < 8 ==> (#[trigger] (m@[i])@[j]) as int == adjoint_entry(
                    self@,
                    i,
                    j,
                ),
    {
        let mut m: [[i32; 8]; 8] = [[0; 8]; 8];
        for i in 0..8
            invariant
                forall|a: int, b: int|
                    0 <= a < 8 && 0 <= b < 8 ==> i32::MIN <= #[trigger] adjoint_entry(self@, a, b)
                        <= i32::MAX,
                forall|a: int, b: int|
                    0 <= a < i && 0 <= b < 8 ==> (#[trigger] (m@[a])@[b]) as int == adjoint_entry(
                        self@,
                        a,
                        b,
                    ),
        {
            let mut row: [i32; 8] = [0; 8];
            for j in 0..8
                invariant
                    i < 8,
                    forall|a: int, b: int|
                        0 <= a < 8 && 0 <= b < 8 ==> i32::MIN <= #[trigger] adjoint_entry(
                            self@,
                            a,
                            b,
                        ) <= i32::MAX,
                    forall|b: int|
                        0 <= b < j ==> (#[trigger] row@[b]) as int == adjoint_entry(
                            self@,
                            i as int,
                            b,
                        ),
            {
                let mut acc: i128 = 0;
                for k in 0..8
                    invariant
                        i < 8,
                        j < 8,
                        acc == adjoint_entry_prefix(self@, i as int, j as int, k as int),
                        -(k as int) * 0x4000_0000_0000_0000 <= acc <= (k as int)
                            * 0x4000_0000_0000_0000,
                {
                    proof {
                        reveal(crate::model::adj);
                        assert(self@[k as int] == self.coefficients@[k as int] as int);
                        lemma_mul_bounds(
                            (((OCTAVIAN_ADJOINT_MATRICES@[k as int])@[i as int])@[
                                j as int
                            ]) as int,
                            self@[k as int],
                            0x8000_0000,
                            0x8000_0000,
                        );
                    }
                    acc = acc + (OCTAVIAN_ADJOINT_MATRICES[k][i][j] as i128)
                        * (self.coefficients[k] as i128);
                }
                proof {
                    assert(acc == adjoint_entry(self@, i as int, j as int));
                }
                row[j] = acc as i32;
            }
            m[i] = row;
        }
        m
    }

    /// The product of two octavians: the left adjoint matrix of `self`
    /// applied to the coefficient vector of `other`.  Non-commutative.
    pub fn mul(self, other: Self) -> (r: Self)
        requires
            forall|i: int, j: int|
                0 <= i < 8 && 0 <= j < 8 ==> i32::MIN <= #[trigger] adjoint_entry(self@, i, j)
                    <= i32::MAX,
            forall|i: int|
                0 <= i < 8 ==> i32::MIN <= #[trigger] mul_entry(self@, other@, i) <= i32::MAX,
        ensures
            r@ == mul_seq(self@, other@),
    {
        let m = self.left_adjoint_matrix();
        let mut c: [i32; 8] = [0; 8];
        for i in 0..8
            invariant
                forall|a: int, b: int|
                    0 <= a < 8 && 0 <= b < 8 ==> (#[trigger] (m@[a])@[b]) as int == adjoint_entry(
                        self@,
                        a,
                        b,
                    ),
                forall|a: int|
                    0 <= a < 8 ==> i32::MIN <= #[trigger] mul_entry(self@, other@, a) <= i32::MAX,
                forall|a: int| 0 <= a < i ==> c@[a] as int == mul_entry(self@, other@, a),
        {
            let mut acc: i128 = 0;
            for j in 0..8
                invariant
                    i < 8,
                    forall|a: int, b: int|
                        0 <= a < 8 && 0 <= b < 8 ==> (#[trigger] (m@[a])@[b]) as int
                            == adjoint_entry(self@, a, b),
                    acc == mul_entry_prefix(self@, other@, i as int, j as int),
                    -(j as int) * 0x4000_0000_0000_0000 <= acc <= (j as int)
                        * 0x4000_0000_0000_0000,
            {
                proof {
                    assert(other@[j as int] == other.coefficients@[j as int] as int);
                    assert((m@[i as int])@[j as int] as int == adjoint_entry(
                        self@,
                        i as int,
                        j as int,
                    ));
                    lemma_mul_bounds(
                        adjoint_entry(self@, i as int, j as int),
                        other@[j as int],
                        0x8000_0000,
                        0x8000_0000,
                    );
                }
                acc = acc + (m[i][j] as i128) * (other.coefficients[j] as i128);
            }
            c[i] = acc as i32;
        }
        let r = Octavian::new(c);
        proof {
            assert(r@ =~= mul_seq(self@, other@));
        }
        r
    }

    /// Adds `other` into `self`; observably identical to replacing `self`
    /// with the sum.
    pub fn add_assign(&mut self, other: Self)
        requires
            forall|i: int|
                0 <= i < 8 ==> i32::MIN <= (#[trigger] old(self)@[i]) + other@[i] <= i32::MAX,
        ensures
            final(self)@ == add_seq(old(self)@, other@),
    {
        let r = (*self).add(other);
        *self = r;
    }

    /// Multiplies `self` by `other` on the right, in place; observably
    /// identical to replacing `self` with the product.
    pub fn mul_assign(&mut self, other: Self)
        requires
            forall|i: int, j: int|
                0 <= i < 8 && 0 <= j < 8 ==> i32::MIN <= #[trigger] adjoint_entry(
                    old(self)@,
                    i,
                    j,
                ) <= i32::MAX,
            forall|i: int|
                0 <= i < 8 ==> i32::MIN <= #[trigger] mul_entry(old(self)@, other@, i) <= i32::MAX,
        ensures
            final(self)@ == mul_seq(old(self)@, other@),
    {
        let r = (*self).mul(other);
        *self = r;
    }

    /// The Gram matrix in the coefficient type.
    pub fn gram_matrix_typed() -> (g: [[i32; 8]; 8])
        ensures
            g == GRAM_MATRIX,
    {
        GRAM_MATRIX
    }

    /// The eight adjoint matrices in the coefficient type.
    pub fn octavian_adjoint_matrices_typed() -> (a: [[[i32; 8]; 8]; 8])
        ensures
            a == OCTAVIAN_ADJOINT_MATRICES,
    {
        OCTAVIAN_ADJOINT_MATRICES
    }
}


} // verus!
