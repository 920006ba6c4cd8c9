use std::collections::HashSet;

use rayon::iter::IntoParallelRefIterator;
use rayon::iter::ParallelIterator;

use octavian::Octavian;
use octavian::OctavianError;
use octavian::GRAM_MATRIX;
use octavian::OCTAVIAN_UNITS_COEFFICIENTS;
use octavian::units::basis_vectors;
use octavian::units::unit_vectors;

/// Ensure that the definition of the identity octavian is correct.
#[test]
fn lib_test_one() {
    let one = Octavian::one();
    assert_eq!(one, Octavian::new([-2, -3, -4, -6, -5, -4, -3, -2]));
}

/// Ensure that addition works.
#[test]
fn lib_test_addition() {
    let one = Octavian::one();
    assert_eq!(one.add(one), Octavian::new([-4, -6, -8, -12, -10, -8, -6, -4]));
}

/// Ensure that subtraction works.
#[test]
fn lib_test_subtraction() {
    let one = Octavian::one();
    assert_eq!(one.sub(one), Octavian::new([0i32; 8]));
}

/// Ensure that the 240 octavian units form a closed set under multiplication.
#[test]
fn lib_closure_of_units() {
    let mut units: HashSet<Octavian> = HashSet::new();
    for u in OCTAVIAN_UNITS_COEFFICIENTS {
        let x = Octavian::new(u);
        units.insert(x);
    }
    assert_eq!(240, units.len());
    let mut result = HashSet::<Octavian>::new();
    for u in &units {
        for v in &units {
            result.insert(u.mul(*v));
        }
    }
    assert_eq!(240, result.len())
}

/// Ensure that the definition of the identity octavian is correct.
#[test]
fn tests_test_one() {
    let one = Octavian::one();
    assert_eq!(one, Octavian::new([-2, -3, -4, -6, -5, -4, -3, -2]));
}

/// Ensure that addition works.
#[test]
fn tests_test_addition() {
    let one = Octavian::one();
    assert_eq!(one.clone().add(one), Octavian::new([-4, -6, -8, -12, -10, -8, -6, -4]));
}

/// Ensure that subtraction works.
#[test]
fn tests_test_subtraction() {
    let one = Octavian::one();
    assert_eq!(one.clone().sub(one), Octavian::new([0i32; 8]));
}

/// Ensure that the inner product works.
#[test]
fn test_inner_product() {
    let b = basis_vectors();
    assert_eq!(-1, b[1].inner_product(b[3]));
}

/// Ensure that the norm works.  Under the lattice normalization the norm is
/// half the self inner product, so a basis vector has norm one.
#[test]
fn test_norm() {
    let b = basis_vectors();
    assert_eq!(1, b[1].norm());
}

/// Ensure that the 240 octavian units form a closed set under multiplication.
#[test]
fn tests_closure_of_units() {
    let mut units: HashSet<Octavian> = HashSet::new();
    for u in OCTAVIAN_UNITS_COEFFICIENTS {
        let x = Octavian::new(u);
        units.insert(x);
    }
    assert_eq!(240, units.len());
    let mut result = HashSet::<Octavian>::new();
    for u in &units {
        for v in &units {
            result.insert(u.mul(*v));
        }
    }
    assert_eq!(240, result.len())
}

#[test]
fn closure_of_units_parallel() {
    let units: HashSet<Octavian> = OCTAVIAN_UNITS_COEFFICIENTS
        .iter()
        .map(|&u| Octavian::new(u))
        .collect();

    assert_eq!(240, units.len());

    let result: HashSet<Octavian> = units
        .par_iter()
        .flat_map(|u| units.par_iter().map(move |v| u.clone().mul(v.clone())))
        .collect();

    assert_eq!(240, result.len());
}

/// A construction from a slice of the wrong length is rejected.
#[test]
fn test_invalid_length() {
    assert_eq!(
        Octavian::try_from_coefficients(&[1, 2, 3]),
        Err(OctavianError::InvalidLength)
    );
    assert_eq!(
        Octavian::try_from_coefficients(&[1, 2, 0, 0, 0, 0, 0, 1, 9]),
        Err(OctavianError::InvalidLength)
    );
    let ok = Octavian::try_from_coefficients(&[1, 2, 0, 0, 0, 0, 0, 1]);
    assert_eq!(ok, Ok(Octavian::new([1, 2, 0, 0, 0, 0, 0, 1])));
}

/// Converting an octavian to its coefficient sequence and back reproduces
/// the identical value.
#[test]
fn test_coefficient_round_trip() {
    let x = Octavian::new([3, -1, 4, -1, 5, -9, 2, -6]);
    let y = Octavian::new(x.coefficients);
    assert_eq!(x, y);
    let z = Octavian::try_from_coefficients(&x.coefficients).unwrap();
    assert_eq!(x, z);
}

/// Adding zero changes nothing, subtracting an element from itself gives
/// zero, and negation equals scaling by minus one.
#[test]
fn test_linear_operator_laws() {
    let x = Octavian::new([3, -1, 4, -1, 5, -9, 2, -6]);
    assert_eq!(x.add(x.zero()), x);
    assert_eq!(x.sub(x), x.zero());
    assert_eq!(x.neg(), x.scale(-1));
}

/// Scaling and exact unscaling are inverse; non-exact unscaling truncates
/// towards zero.
#[test]
fn test_scale_unscale() {
    let x = Octavian::new([1, 2, 0, 0, 0, 0, 0, 1]);
    assert_eq!(x.scale(3).unscale(3), x);
    let y = Octavian::new([7, -7, 2, -2, 1, -1, 0, 9]);
    assert_eq!(y.unscale(2), Octavian::new([3, -3, 1, -1, 0, 0, 0, 4]));
}

/// The norm of a product is the product of the norms.
#[test]
fn test_norm_composition() {
    let x = Octavian::new([1, 2, 0, 0, 0, 0, 0, 1]);
    let y = Octavian::new([0, 0, -1, -1, -1, -1, -1, 0]);
    assert_eq!(6, x.norm());
    assert_eq!(1, y.norm());
    assert_eq!(x.mul(y).norm(), x.norm() * y.norm());
    let z = Octavian::new([2, 3, 4, 6, 5, 4, 3, 2]);
    assert_eq!(x.mul(z).norm(), x.norm() * z.norm());
}

/// An element times its own conjugate is the identity scaled by the norm.
#[test]
fn test_conjugate_product() {
    let x = Octavian::new([1, 2, 0, 0, 0, 0, 0, 1]);
    assert_eq!(6, x.norm());
    let p = x.mul(x.conj());
    assert_eq!(p, Octavian::one().scale(x.norm()));
    assert_eq!(p, Octavian::new([-12, -18, -24, -36, -30, -24, -18, -12]));
    let q = x.conj().mul(x);
    assert_eq!(q, Octavian::one().scale(x.norm()));
}

/// Conjugation is an involution.
#[test]
fn test_conjugate_involution() {
    let x = Octavian::new([3, -1, 4, -1, 5, -9, 2, -6]);
    assert_eq!(x.conj().conj(), x);
}

/// The inner products of the basis vectors reproduce the Gram matrix.
#[test]
fn test_basis_gram_matrix() {
    let b = basis_vectors();
    for i in 0..8 {
        for j in 0..8 {
            assert_eq!(i32::from(GRAM_MATRIX[i][j]), b[i].inner_product(b[j]));
        }
    }
}

/// The traces of the first seven basis vectors are zero; the trace of the
/// eighth is minus one.
#[test]
fn test_basis_traces() {
    let b = basis_vectors();
    for i in 0..7 {
        assert_eq!(0, b[i].trace());
    }
    assert_eq!(-1, b[7].trace());
}

/// The identity is idempotent under multiplication, has norm one, and has
/// trace two.
#[test]
fn test_identity_properties() {
    let one = Octavian::one();
    assert_eq!(one.mul(one), one);
    assert_eq!(1, one.norm());
    assert_eq!(2, one.trace());
}

/// The trace equals the negated last coefficient.
#[test]
fn test_trace_closed_form() {
    let x = Octavian::new([3, -1, 4, -1, 5, -9, 2, -6]);
    assert_eq!(6, x.trace());
    assert_eq!(x.trace(), x.inner_product(Octavian::one()));
}

/// The left adjoint matrix of the identity is the identity matrix, and the
/// left adjoint matrix of the first basis vector is the first adjoint table
/// matrix.
#[test]
fn test_left_adjoint_matrix() {
    let m = Octavian::one().left_adjoint_matrix();
    for i in 0..8 {
        for j in 0..8 {
            assert_eq!(if i == j { 1 } else { 0 }, m[i][j]);
        }
    }
    let e0 = Octavian::new([1, 0, 0, 0, 0, 0, 0, 0]);
    let a0 = Octavian::octavian_adjoint_matrices_typed()[0];
    assert_eq!(e0.left_adjoint_matrix(), a0);
}

/// The Gram matrix accessor returns the table itself.
#[test]
fn test_gram_matrix_typed() {
    assert_eq!(Octavian::gram_matrix_typed(), GRAM_MATRIX);
}

/// The unit table maps to 240 distinct elements, and its first row is the
/// identity.
#[test]
fn test_unit_vectors() {
    let units = unit_vectors();
    assert_eq!(240, units.len());
    assert_eq!(units[0], Octavian::one());
    let set: HashSet<Octavian> = units.iter().copied().collect();
    assert_eq!(240, set.len());
    for u in &units {
        assert_eq!(1, u.norm());
    }
}

/// The in-place operators behave exactly like their pure counterparts.
#[test]
fn test_in_place_operators() {
    let x = Octavian::new([1, 2, 0, 0, 0, 0, 0, 1]);
    let y = Octavian::new([0, 0, -1, -1, -1, -1, -1, 0]);
    let mut a = x;
    a.add_assign(y);
    assert_eq!(a, x.add(y));
    let mut m = x;
    m.mul_assign(y);
    assert_eq!(m, x.mul(y));
}

/// Multiplication is not commutative in general.
#[test]
fn test_non_commutative() {
    let x = Octavian::new([1, 0, 0, 0, 0, 0, 0, 0]);
    let y = Octavian::new([0, 1, 0, 0, 0, 0, 0, 0]);
    assert_ne!(x.mul(y), y.mul(x));
    assert_eq!(x.mul(y).norm(), y.mul(x).norm());
}
