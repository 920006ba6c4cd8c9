use vstd::prelude::*;

verus! {

/// The Gram matrix of the chosen E8 basis: the bilinear form between basis vectors.
pub const GRAM_MATRIX: [[i32; 8]; 8] = [
    [2, 0, -1, 0, 0, 0, 0, 0],
    [0, 2, 0, -1, 0, 0, 0, 0],
    [-1, 0, 2, -1, 0, 0, 0, 0],
    [0, -1, -1, 2, -1, 0, 0, 0],
    [0, 0, 0, -1, 2, -1, 0, 0],
    [0, 0, 0, 0, -1, 2, -1, 0],
    [0, 0, 0, 0, 0, -1, 2, -1],
    [0, 0, 0, 0, 0, 0, -1, 2],
];

/// The eight adjoint matrices: entry `k` is the matrix of left multiplication
/// by the `k`-th basis vector, expressed in the same basis.
pub const OCTAVIAN_ADJOINT_MATRICES: [[[i32; 8]; 8]; 8] = [
    [
        [2, -1, -1, 0, 1, 0, -1, 0],
        [3, -1, -1, 0, 1, 0, -2, 1],
        [4, -2, -2, 0, 2, 0, -2, 1],
        [6, -2, -3, 0, 3, -1, -3, 2],
        [5, -1, -3, 0, 2, 0, -3, 2],
        [4, -1, -3, 1, 1, 0, -2, 1],
        [3, 0, -2, 0, 1, 0, -1, 0],
        [2, 0, -1, 0, 0, 0, 0, 0],
    ],
    [
        [1, 2, -2, 0, 0, 0, 0, 0],
        [1, 3, -2, 0, -1, 1, -1, 0],
        [2, 4, -3, 0, -1, 1, -1, 0],
        [2, 6, -4, 0, -2, 2, -2, 1],
        [1, 5, -3, 0, -2, 2, -1, 0],
        [1, 4, -2, 0, -2, 1, 0, 0],
        [0, 3, -1, 0, -1, 0, 0, 0],
        [0, 2, 0, -1, 0, 0, 0, 0],
    ],
    [
        [-1, 2, 2, -2, 0, 0, 0, 0],
        [-2, 2, 3, -3, 0, 1, 0, 0],
        [-2, 3, 4, -4, 0, 1, 0, -1],
        [-3, 4, 6, -6, 0, 2, 0, -1],
        [-2, 3, 5, -5, 0, 1, 1, -1],
        [-1, 2, 4, -4, 0, 1, 0, 0],
        [-1, 1, 3, -2, -1, 1, 0, 0],
        [-1, 0, 2, -1, 0, 0, 0, 0],
    ],
    [
        [0, -2, 0, 2, -2, 1, 0, 0],
        [0, -3, 0, 3, -2, 0, 1, -1],
        [0, -4, 0, 4, -3, 0, 1, 0],
        [0, -6, 0, 6, -4, 0, 1, -1],
        [0, -5, 0, 5, -3, 0, 0, 0],
        [-1, -4, 0, 4, -2, 0, 0, 0],
        [0, -3, -1, 3, -1, 0, 0, 0],
        [0, -1, -1, 2, -1, 0, 0, 0],
    ],
    [
        [-1, 0, 0, 0, 2, -2, 0, 0],
        [-1, 1, 0, -1, 3, -3, 0, 1],
        [-2, 1, 0, -1, 4, -3, -1, 1],
        [-3, 2, 0, -2, 6, -5, 0, 1],
        [-2, 2, 0, -2, 5, -4, 0, 0],
        [-1, 2, 0, -2, 4, -3, 0, 0],
        [-1, 1, 1, -2, 3, -2, 0, 0],
        [0, 0, 0, -1, 2, -1, 0, 0],
    ],
    [
        [0, 0, 0, -1, 0, 2, 0, -1],
        [0, -1, -1, 0, 0, 3, -1, -1],
        [0, -1, -1, 0, -1, 4, 0, -2],
        [1, -2, -2, 0, -1, 6, -1, -2],
        [0, -2, -1, 0, -1, 5, -1, -1],
        [0, -1, -1, 0, -1, 4, -1, -1],
        [0, 0, -1, 0, -1, 3, -1, 0],
        [0, 0, 0, 0, -1, 2, -1, 0],
    ],
    [
        [1, 0, 0, 0, 0, -2, 2, 0],
        [2, 1, 0, -1, 0, -2, 3, -1],
        [2, 1, 0, -1, 1, -4, 4, -1],
        [3, 2, 0, -1, 0, -5, 6, -2],
        [3, 1, -1, 0, 0, -4, 5, -2],
        [2, 0, 0, 0, 0, -3, 4, -2],
        [1, 0, 0, 0, 0, -2, 3, -2],
        [0, 0, 0, 0, 0, -1, 2, -1],
    ],
    [
        [-1, 0, 0, 0, 0, 1, -2, 2],
        [-1, -1, 0, 1, -1, 1, -2, 3],
        [-1, 0, 0, 0, -1, 2, -3, 4],
        [-2, -1, 1, 0, -1, 2, -4, 6],
        [-2, 0, 1, 0, -1, 1, -3, 5],
        [-1, 0, 0, 0, 0, 0, -2, 4],
        [0, 0, 0, 0, 0, 0, -2, 3],
        [0, 0, 0, 0, 0, 0, -1, 1],
    ],
];

/// The coefficient rows of the 240 unit elements: the roots of the E8 lattice.
pub const OCTAVIAN_UNITS_COEFFICIENTS: [[i32; 8]; 240] = [
    [-2, -3, -4, -6, -5, -4, -3, -2],
    [-2, -3, -4, -6, -5, -4, -3, -1],
    [-2, -3, -4, -6, -5, -4, -2, -1],
    [-2, -3, -4, -6, -5, -3, -2, -1],
    [-2, -3, -4, -6, -4, -3, -2, -1],
    [-2, -3, -4, -5, -4, -3, -2, -1],
    [-2, -3, -3, -5, -4, -3, -2, -1],
    [-2, -2, -4, -5, -4, -3, -2, -1],
    [-2, -2, -3, -5, -4, -3, -2, -1],
    [-2, -2, -3, -4, -4, -3, -2, -1],
    [-2, -2, -3, -4, -3, -3, -2, -1],
    [-2, -2, -3, -4, -3, -2, -2, -1],
    [-2, -2, -3, -4, -3, -2, -1, -1],
    [-2, -2, -3, -4, -3, -2, -1, 0],
    [-1, -3, -3, -5, -4, -3, -2, -1],
    [-1, -2, -3, -5, -4, -3, -2, -1],
    [-1, -2, -3, -4, -4, -3, -2, -1],
    [-1, -2, -3, -4, -3, -3, -2, -1],
    [-1, -2, -3, -4, -3, -2, -2, -1],
    [-1, -2, -3, -4, -3, -2, -1, -1],
    [-1, -2, -3, -4, -3, -2, -1, 0],
    [-1, -2, -2, -4, -4, -3, -2, -1],
    [-1, -2, -2, -4, -3, -3, -2, -1],
    [-1, -2, -2, -4, -3, -2, -2, -1],
    [-1, -2, -2, -4, -3, -2, -1, -1],
    [-1, -2, -2, -4, -3, -2, -1, 0],
    [-1, -2, -2, -3, -3, -3, -2, -1],
    [-1, -2, -2, -3, -3, -2, -2, -1],
    [-1, -2, -2, -3, -3, -2, -1, -1],
    [-1, -2, -2, -3, -3, -2, -1, 0],
    [-1, -2, -2, -3, -2, -2, -2, -1],
    [-1, -2, -2, -3, -2, -2, -1, -1],
    [-1, -2, -2, -3, -2, -2, -1, 0],
    [-1, -2, -2, -3, -2, -1, -1, -1],
    [-1, -2, -2, -3, -2, -1, -1, 0],
    [-1, -2, -2, -3, -2, -1, 0, 0],
    [-1, -1, -2, -3, -3, -3, -2, -1],
    [-1, -1, -2, -3, -3, -2, -2, -1],
    [-1, -1, -2, -3, -3, -2, -1, -1],
    [-1, -1, -2, -3, -3, -2, -1, 0],
    [-1, -1, -2, -3, -2, -2, -2, -1],
    [-1, -1, -2, -3, -2, -2, -1, -1],
    [-1, -1, -2, -3, -2, -2, -1, 0],
    [-1, -1, -2, -3, -2, -1, -1, -1],
    [-1, -1, -2, -3, -2, -1, -1, 0],
    [-1, -1, -2, -3, -2, -1, 0, 0],
    [-1, -1, -2, -2, -2, -2, -2, -1],
    [-1, -1, -2, -2, -2, -2, -1, -1],
    [-1, -1, -2, -2, -2, -2, -1, 0],
    [-1, -1, -2, -2, -2, -1, -1, -1],
    [-1, -1, -2, -2, -2, -1, -1, 0],
    [-1, -1, -2, -2, -2, -1, 0, 0],
    [-1, -1, -2, -2, -1, -1, -1, -1],
    [-1, -1, -2, -2, -1, -1, -1, 0],
    [-1, -1, -2, -2, -1, -1, 0, 0],
    [-1, -1, -2, -2, -1, 0, 0, 0],
    [-1, -1, -1, -2, -2, -2, -2, -1],
    [-1, -1, -1, -2, -2, -2, -1, -1],
    [-1, -1, -1, -2, -2, -2, -1, 0],
    [-1, -1, -1, -2, -2, -1, -1, -1],
    [-1, -1, -1, -2, -2, -1, -1, 0],
    [-1, -1, -1, -2, -2, -1, 0, 0],
    [-1, -1, -1, -2, -1, -1, -1, -1],
    [-1, -1, -1, -2, -1, -1, -1, 0],
    [-1, -1, -1, -2, -1, -1, 0, 0],
    [-1, -1, -1, -2, -1, 0, 0, 0],
    [-1, -1, -1, -1, -1, -1, -1, -1],
    [-1, -1, -1, -1, -1, -1, -1, 0],
    [-1, -1, -1, -1, -1, -1, 0, 0],
    [-1, -1, -1, -1, -1, 0, 0, 0],
    [-1, -1, -1, -1, 0, 0, 0, 0],
    [-1, 0, -1, -1, -1, -1, -1, -1],
    [-1, 0, -1, -1, -1, -1, -1, 0],
    [-1, 0, -1, -1, -1, -1, 0, 0],
    [-1, 0, -1, -1, -1, 0, 0, 0],
    [-1, 0, -1, -1, 0, 0, 0, 0],
    [-1, 0, -1, 0, 0, 0, 0, 0],
    [-1, 0, 0, 0, 0, 0, 0, 0],
    [0, -1, -1, -2, -2, -2, -2, -1],
    [0, -1, -1, -2, -2, -2, -1, -1],
    [0, -1, -1, -2, -2, -2, -1, 0],
    [0, -1, -1, -2, -2, -1, -1, -1],
    [0, -1, -1, -2, -2, -1, -1, 0],
    [0, -1, -1, -2, -2, -1, 0, 0],
    [0, -1, -1, -2, -1, -1, -1, -1],
    [0, -1, -1, -2, -1, -1, -1, 0],
    [0, -1, -1, -2, -1, -1, 0, 0],
    [0, -1, -1, -2, -1, 0, 0, 0],
    [0, -1, -1, -1, -1, -1, -1, -1],
    [0, -1, -1, -1, -1, -1, -1, 0],
    [0, -1, -1, -1, -1, -1, 0, 0],
    [0, -1, -1, -1, -1, 0, 0, 0],
    [0, -1, -1, -1, 0, 0, 0, 0],
    [0, -1, 0, -1, -1, -1, -1, -1],
    [0, -1, 0, -1, -1, -1, -1, 0],
    [0, -1, 0, -1, -1, -1, 0, 0],
    [0, -1, 0, -1, -1, 0, 0, 0],
    [0, -1, 0, -1, 0, 0, 0, 0],
    [0, -1, 0, 0, 0, 0, 0, 0],
    [0, 0, -1, -1, -1, -1, -1, -1],
    [0, 0, -1, -1, -1, -1, -1, 0],
    [0, 0, -1, -1, -1, -1, 0, 0],
    [0, 0, -1, -1, -1, 0, 0, 0],
    [0, 0, -1, -1, 0, 0, 0, 0],
    [0, 0, -1, 0, 0, 0, 0, 0],
    [0, 0, 0, -1, -1, -1, -1, -1],
    [0, 0, 0, -1, -1, -1, -1, 0],
    [0, 0, 0, -1, -1, -1, 0, 0],
    [0, 0, 0, -1, -1, 0, 0, 0],
    [0, 0, 0, -1, 0, 0, 0, 0],
    [0, 0, 0, 0, -1, -1, -1, -1],
    [0, 0, 0, 0, -1, -1, -1, 0],
    [0, 0, 0, 0, -1, -1, 0, 0],
    [0, 0, 0, 0, -1, 0, 0, 0],
    [0, 0, 0, 0, 0, -1, -1, -1],
    [0, 0, 0, 0, 0, -1, -1, 0],
    [0, 0, 0, 0, 0, -1, 0, 0],
    [0, 0, 0, 0, 0, 0, -1, -1],
    [0, 0, 0, 0, 0, 0, -1, 0],
    [0, 0, 0, 0, 0, 0, 0, -1],
    [0, 0, 0, 0, 0, 0, 0, 1],
    [0, 0, 0, 0, 0, 0, 1, 0],
    [0, 0, 0, 0, 0, 0, 1, 1],
    [0, 0, 0, 0, 0, 1, 0, 0],
    [0, 0, 0, 0, 0, 1, 1, 0],
    [0, 0, 0, 0, 0, 1, 1, 1],
    [0, 0, 0, 0, 1, 0, 0, 0],
    [0, 0, 0, 0, 1, 1, 0, 0],
    [0, 0, 0, 0, 1, 1, 1, 0],
    [0, 0, 0, 0, 1, 1, 1, 1],
    [0, 0, 0, 1, 0, 0, 0, 0],
    [0, 0, 0, 1, 1, 0, 0, 0],
    [0, 0, 0, 1, 1, 1, 0, 0],
    [0, 0, 0, 1, 1, 1, 1, 0],
    [0, 0, 0, 1, 1, 1, 1, 1],
    [0, 0, 1, 0, 0, 0, 0, 0],
    [0, 0, 1, 1, 0, 0, 0, 0],
    [0, 0, 1, 1, 1, 0, 0, 0],
    [0, 0, 1, 1, 1, 1, 0, 0],
    [0, 0, 1, 1, 1, 1, 1, 0],
    [0, 0, 1, 1, 1, 1, 1, 1],
    [0, 1, 0, 0, 0, 0, 0, 0],
    [0, 1, 0, 1, 0, 0, 0, 0],
    [0, 1, 0, 1, 1, 0, 0, 0],
    [0, 1, 0, 1, 1, 1, 0, 0],
    [0, 1, 0, 1, 1, 1, 1, 0],
    [0, 1, 0, 1, 1, 1, 1, 1],
    [0, 1, 1, 1, 0, 0, 0, 0],
    [0, 1, 1, 1, 1, 0, 0, 0],
    [0, 1, 1, 1, 1, 1, 0, 0],
    [0, 1, 1, 1, 1, 1, 1, 0],
    [0, 1, 1, 1, 1, 1, 1, 1],
    [0, 1, 1, 2, 1, 0, 0, 0],
    [0, 1, 1, 2, 1, 1, 0, 0],
    [0, 1, 1, 2, 1, 1, 1, 0],
    [0, 1, 1, 2, 1, 1, 1, 1],
    [0, 1, 1, 2, 2, 1, 0, 0],
    [0, 1, 1, 2, 2, 1, 1, 0],
    [0, 1, 1, 2, 2, 1, 1, 1],
    [0, 1, 1, 2, 2, 2, 1, 0],
    [0, 1, 1, 2, 2, 2, 1, 1],
    [0, 1, 1, 2, 2, 2, 2, 1],
    [1, 0, 0, 0, 0, 0, 0, 0],
    [1, 0, 1, 0, 0, 0, 0, 0],
    [1, 0, 1, 1, 0, 0, 0, 0],
    [1, 0, 1, 1, 1, 0, 0, 0],
    [1, 0, 1, 1, 1, 1, 0, 0],
    [1, 0, 1, 1, 1, 1, 1, 0],
    [1, 0, 1, 1, 1, 1, 1, 1],
    [1, 1, 1, 1, 0, 0, 0, 0],
    [1, 1, 1, 1, 1, 0, 0, 0],
    [1, 1, 1, 1, 1, 1, 0, 0],
    [1, 1, 1, 1, 1, 1, 1, 0],
    [1, 1, 1, 1, 1, 1, 1, 1],
    [1, 1, 1, 2, 1, 0, 0, 0],
    [1, 1, 1, 2, 1, 1, 0, 0],
    [1, 1, 1, 2, 1, 1, 1, 0],
    [1, 1, 1, 2, 1, 1, 1, 1],
    [1, 1, 1, 2, 2, 1, 0, 0],
    [1, 1, 1, 2, 2, 1, 1, 0],
    [1, 1, 1, 2, 2, 1, 1, 1],
    [1, 1, 1, 2, 2, 2, 1, 0],
    [1, 1, 1, 2, 2, 2, 1, 1],
    [1, 1, 1, 2, 2, 2, 2, 1],
    [1, 1, 2, 2, 1, 0, 0, 0],
    [1, 1, 2, 2, 1, 1, 0, 0],
    [1, 1, 2, 2, 1, 1, 1, 0],
    [1, 1, 2, 2, 1, 1, 1, 1],
    [1, 1, 2, 2, 2, 1, 0, 0],
    [1, 1, 2, 2, 2, 1, 1, 0],
    [1, 1, 2, 2, 2, 1, 1, 1],
    [1, 1, 2, 2, 2, 2, 1, 0],
    [1, 1, 2, 2, 2, 2, 1, 1],
    [1, 1, 2, 2, 2, 2, 2, 1],
    [1, 1, 2, 3, 2, 1, 0, 0],
    [1, 1, 2, 3, 2, 1, 1, 0],
    [1, 1, 2, 3, 2, 1, 1, 1],
    [1, 1, 2, 3, 2, 2, 1, 0],
    [1, 1, 2, 3, 2, 2, 1, 1],
    [1, 1, 2, 3, 2, 2, 2, 1],
    [1, 1, 2, 3, 3, 2, 1, 0],
    [1, 1, 2, 3, 3, 2, 1, 1],
    [1, 1, 2, 3, 3, 2, 2, 1],
    [1, 1, 2, 3, 3, 3, 2, 1],
    [1, 2, 2, 3, 2, 1, 0, 0],
    [1, 2, 2, 3, 2, 1, 1, 0],
    [1, 2, 2, 3, 2, 1, 1, 1],
    [1, 2, 2, 3, 2, 2, 1, 0],
    [1, 2, 2, 3, 2, 2, 1, 1],
    [1, 2, 2, 3, 2, 2, 2, 1],
    [1, 2, 2, 3, 3, 2, 1, 0],
    [1, 2, 2, 3, 3, 2, 1, 1],
    [1, 2, 2, 3, 3, 2, 2, 1],
    [1, 2, 2, 3, 3, 3, 2, 1],
    [1, 2, 2, 4, 3, 2, 1, 0],
    [1, 2, 2, 4, 3, 2, 1, 1],
    [1, 2, 2, 4, 3, 2, 2, 1],
    [1, 2, 2, 4, 3, 3, 2, 1],
    [1, 2, 2, 4, 4, 3, 2, 1],
    [1, 2, 3, 4, 3, 2, 1, 0],
    [1, 2, 3, 4, 3, 2, 1, 1],
    [1, 2, 3, 4, 3, 2, 2, 1],
    [1, 2, 3, 4, 3, 3, 2, 1],
    [1, 2, 3, 4, 4, 3, 2, 1],
    [1, 2, 3, 5, 4, 3, 2, 1],
    [1, 3, 3, 5, 4, 3, 2, 1],
    [2, 2, 3, 4, 3, 2, 1, 0],
    [2, 2, 3, 4, 3, 2, 1, 1],
    [2, 2, 3, 4, 3, 2, 2, 1],
    [2, 2, 3, 4, 3, 3, 2, 1],
    [2, 2, 3, 4, 4, 3, 2, 1],
    [2, 2, 3, 5, 4, 3, 2, 1],
    [2, 2, 4, 5, 4, 3, 2, 1],
    [2, 3, 3, 5, 4, 3, 2, 1],
    [2, 3, 4, 5, 4, 3, 2, 1],
    [2, 3, 4, 6, 4, 3, 2, 1],
    [2, 3, 4, 6, 5, 3, 2, 1],
    [2, 3, 4, 6, 5, 4, 2, 1],
    [2, 3, 4, 6, 5, 4, 3, 1],
    [2, 3, 4, 6, 5, 4, 3, 2],
];

} // verus!
