//! Plain utilities on vectors of model scalars.

use vstd::prelude::*;

verus! {

/// An independent copy of a coefficient vector.
pub fn copy_scalars(p: &Vec<u64>) -> (r: Vec<u64>)
    ensures
        r@ == p@,
{
    let mut r: Vec<u64> = Vec::new();
    let mut i: usize = 0;
    while i < p.len()
        invariant
            i <= p@.len(),
            r@ == p@.take(i as int),
        decreases p@.len() - i,
    {
        r.push(p[i]);
        proof {
            assert(r@ =~= p@.take(i + 1));
        }
        i = i + 1;
    }
    proof {
        assert(p@.take(p@.len() as int) =~= p@);
    }
    r
}

/// Row-by-row equality of two matrices of scalars.
pub open spec fn matrix_eq(a: Seq<Vec<u64>>, b: Seq<Vec<u64>>) -> bool {
    &&& a.len() == b.len()
    &&& forall|i: int| 0 <= i < a.len() ==> a[i]@ == b[i]@
}

/// An independent copy of a matrix of scalars.
pub fn copy_scalar_matrix(m: &Vec<Vec<u64>>) -> (r: Vec<Vec<u64>>)
    ensures
        matrix_eq(r@, m@),
{
    let mut r: Vec<Vec<u64>> = Vec::new();
    let mut i: usize = 0;
    while i < m.len()
        invariant
            i <= m@.len(),
            r@.len() == i,
            forall|k: int| 0 <= k < i ==> r@[k]@ == m@[k]@,
        decreases m@.len() - i,
    {
        r.push(copy_scalars(&m[i]));
        i = i + 1;
    }
    r
}

} // verus!
