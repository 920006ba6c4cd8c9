//! Exact arithmetic for the octavian integers: an eight-dimensional
//! integral algebra whose elements are coordinate vectors in a fixed basis
//! of the E8 root lattice.
//!
//! The library provides the linear operators (addition, subtraction,
//! negation, scalar scaling and unscaling), the Gram-matrix inner product
//! with its derived norm and trace, conjugation, and the full
//! non-commutative ring multiplication built from the left adjoint
//! matrices.  It also enumerates the eight basis vectors and the 240 unit
//! elements, the roots of E8.

pub mod arith;
pub mod element;
pub mod expand;
pub mod laws;
pub mod model;
pub mod tables;
pub mod units;

pub use element::Octavian;
pub use element::OctavianError;
pub use tables::GRAM_MATRIX;
pub use tables::OCTAVIAN_ADJOINT_MATRICES;
pub use tables::OCTAVIAN_UNITS_COEFFICIENTS;
