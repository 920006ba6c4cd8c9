//! Enumeration of the canonical finite subsets: the eight basis vectors and
//! the 240 unit elements.

use vstd::prelude::*;

use crate::element::Octavian;
use crate::model::basis_seq;
use crate::model::unit_row_seq;
use crate::tables::OCTAVIAN_UNITS_COEFFICIENTS;

verus! {

/// The eight standard basis vectors, in index order.
pub fn basis_vectors() -> (r: Vec<Octavian>)
    ensures
        r@.len() == 8,
        forall|k: int| 0 <= k < 8 ==> #[trigger] r@[k]@ == basis_seq(k),
{
    let mut v: Vec<Octavian> = Vec::new();
    for k in 0..8
        invariant
            v@.len() == k,
            forall|i: int| 0 <= i < k ==> #[trigger] v@[i]@ == basis_seq(i),
    {
        let mut c: [i32; 8] = [0; 8];
        c[k] = 1;
        let e = Octavian::new(c);
        proof {
            assert(e@ =~= basis_seq(k as int));
        }
        v.push(e);
    }
    v
}

/// The 240 unit elements, one for each row of the unit table, in table order.
pub fn unit_vectors() -> (r: Vec<Octavian>)
    ensures
        r@.len() == 240,
        forall|k: int| 0 <= k < 240 ==> #[trigger] r@[k]@ == unit_row_seq(k),
{
    let mut v: Vec<Octavian> = Vec::new();
    for k in 0..240
        invariant
            v@.len() == k,
            forall|i: int| 0 <= i < k ==> #[trigger] v@[i]@ == unit_row_seq(i),
    {
        let e = Octavian::new(OCTAVIAN_UNITS_COEFFICIENTS[k]);
        proof {
            reveal(crate::model::unit_row);
            assert(e@ =~= unit_row_seq(k as int));
        }
        v.push(e);
    }
    v
}

} // verus!
