//! Non-hiding polynomial commitments over the model group.
//!
//! A commitment is a multi-scalar combination of the polynomial's
//! coefficients with the committing elements of the reference string.
//! A polynomial longer than the basis is split into segments of the
//! basis length, each committed independently; the per-segment points
//! are kept in source order.  Group elements are model scalars, the
//! group operation is wrapping addition and scalar multiplication is
//! wrapping multiplication, so committing is total and deterministic:
//! the same polynomial and the same basis always give the same points.

use vstd::prelude::*;

use crate::srs::Srs;

verus! {

/// A polynomial commitment: one group element per polynomial segment,
/// and optionally one for a degree-bound shift.  This compiler only
/// ever forms unbounded (unshifted) commitments.
#[derive(Debug, PartialEq, Eq)]
pub struct PolyComm {
    pub unshifted: Vec<u64>,
    pub shifted: Option<u64>,
}

/// The model group operation.
pub open spec fn wadd(a: u64, b: u64) -> u64 {
    vstd::wrapping::u64_specs::wrapping_add(a, b)
}

/// Scalar multiplication of a model group element.
pub open spec fn wmul(a: u64, b: u64) -> u64 {
    vstd::wrapping::u64_specs::wrapping_mul(a, b)
}

/// Multi-scalar combination of one segment: the sum of each coefficient
/// times the committing element at the same position.
pub open spec fn msm(g: Seq<u64>, p: Seq<u64>) -> u64
    recommends
        p.len() <= g.len(),
    decreases p.len(),
{
    if p.len() == 0 {
        0u64
    } else {
        wadd(msm(g, p.drop_last()), wmul(p.last(), g[p.len() - 1]))
    }
}

/// The segment commitments of a polynomial: the first basis-length
/// coefficients form the first segment, and so on; the empty polynomial
/// still has one (identity) segment commitment.
pub open spec fn spec_commit(g: Seq<u64>, p: Seq<u64>) -> Seq<u64>
    recommends
        g.len() >= 1,
    decreases p.len()
        when g.len() >= 1
{
    if p.len() <= g.len() {
        seq![msm(g, p)]
    } else {
        seq![msm(g, p.take(g.len() as int))] + spec_commit(g, p.skip(g.len() as int))
    }
}

/// Whether `c` is the non-hiding commitment to `p` under the basis `g`.
pub open spec fn is_commitment(c: PolyComm, g: Seq<u64>, p: Seq<u64>) -> bool {
    &&& c.shifted is None
    &&& c.unshifted@ == spec_commit(g, p)
}

/// Point-for-point agreement of two commitments.
pub open spec fn comm_eq(a: PolyComm, b: PolyComm) -> bool {
    &&& a.unshifted@ == b.unshifted@
    &&& a.shifted == b.shifted
}

impl Srs {
    /// The non-hiding commitment to `plnm`: every segment's multi-scalar
    /// combination, in source order, with no blinding randomness.
    pub fn commit_non_hiding(&self, plnm: &Vec<u64>) -> (c: PolyComm)
        requires
            self.g@.len() >= 1,
        ensures
            is_commitment(c, self.g@, plnm@),
    {
        let n = self.g.len();
        let mut unshifted: Vec<u64> = Vec::new();
        if plnm.len() == 0 {
            unshifted.push(0);
            proof {
                assert(spec_commit(self.g@, plnm@) =~= seq![0u64]);
                assert(unshifted@ =~= seq![0u64]);
            }
        } else {
            proof {
                assert(plnm@.skip(0) =~= plnm@);
                assert(Seq::<u64>::empty() + spec_commit(self.g@, plnm@)
                    =~= spec_commit(self.g@, plnm@));
            }
            let mut offset: usize = 0;
            while offset < plnm.len()
                invariant
                    self.g@.len() == n,
                    n >= 1,
                    plnm@.len() > 0,
                    offset <= plnm@.len(),
                    spec_commit(self.g@, plnm@) == unshifted@ + (if offset < plnm@.len() {
                        spec_commit(self.g@, plnm@.skip(offset as int))
                    } else {
                        Seq::<u64>::empty()
                    }),
                decreases plnm@.len() - offset,
            {
                let remaining = plnm.len() - offset;
                let seg_len = if remaining < n { remaining } else { n };
                let end = offset + seg_len;
                let ghost tail = plnm@.skip(offset as int);
                let mut acc: u64 = 0;
                let mut i: usize = offset;
                proof {
                    assert(plnm@.subrange(offset as int, offset as int) =~= Seq::<u64>::empty());
                }
                while i < end
                    invariant
                        self.g@.len() == n,
                        offset <= i <= end,
                        end <= plnm@.len(),
                        end - offset <= n,
                        acc == msm(self.g@, plnm@.subrange(offset as int, i as int)),
                    decreases end - i,
                {
                    let ghost prev = plnm@.subrange(offset as int, i as int);
                    acc = acc.wrapping_add(plnm[i].wrapping_mul(self.g[i - offset]));
                    proof {
                        let cur = plnm@.subrange(offset as int, i + 1);
                        assert(cur.drop_last() =~= prev);
                        assert(cur.last() == plnm@[i as int]);
                    }
                    i = i + 1;
                }
                proof {
                    let g = self.g@;
                    let p = plnm@;
                    if end == p.len() {
                        // the final (possibly partial) segment is the whole tail
                        assert(p.subrange(offset as int, end as int) =~= tail);
                        assert(spec_commit(g, tail) == seq![msm(g, tail)]);
                        assert(unshifted@ + seq![acc] + Seq::<u64>::empty()
                            =~= unshifted@ + seq![acc]);
                    } else {
                        // a full segment with more coefficients after it
                        assert(tail.len() > n);
                        assert(tail.take(n as int) =~= p.subrange(offset as int, end as int));
                        assert(tail.skip(n as int) =~= p.skip(end as int));
                        assert(spec_commit(g, tail)
                            == seq![msm(g, tail.take(n as int))] + spec_commit(g, tail.skip(n as int)));
                        assert(unshifted@ + (seq![acc] + spec_commit(g, p.skip(end as int)))
                            =~= (unshifted@ + seq![acc]) + spec_commit(g, p.skip(end as int)));
                    }
                }
                unshifted.push(acc);
                offset = end;
            }
        }
        PolyComm { unshifted, shifted: None }
    }
}

/// Commits to every polynomial of a family, preserving positions: the
/// commitment at index `i` is to the polynomial at index `i`.
pub fn commit_family(srs: &Srs, polys: &Vec<Vec<u64>>) -> (r: Vec<PolyComm>)
    requires
        srs.g@.len() >= 1,
    ensures
        r@.len() == polys@.len(),
        forall|i: int| 0 <= i < polys@.len() ==> is_commitment(#[trigger] r@[i], srs.g@, polys@[i]@),
{
    let mut r: Vec<PolyComm> = Vec::new();
    let mut i: usize = 0;
    while i < polys.len()
        invariant
            srs.g@.len() >= 1,
            i <= polys@.len(),
            r@.len() == i,
            forall|k: int| 0 <= k < i ==> is_commitment(#[trigger] r@[k], srs.g@, polys@[k]@),
        decreases polys@.len() - i,
    {
        r.push(srs.commit_non_hiding(&polys[i]));
        i = i + 1;
    }
    r
}

} // verus!
