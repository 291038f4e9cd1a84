//! The structured reference string and the two ways of holding one.

use vstd::prelude::*;

verus! {

/// A structured reference string: the public sequence of committing
/// elements against which polynomials are committed.  Committing
/// elements stand in for hashed-to-curve group points; the model fixes
/// them as a deterministic enumeration, since only their count and
/// their determinism matter to the compiler.
#[derive(Debug, PartialEq, Eq)]
pub struct Srs {
    /// The committing elements.
    pub g: Vec<u64>,
}

/// The committing element at position `i` of a freshly generated basis.
pub open spec fn basis_elem(i: int) -> u64
    recommends
        0 <= i < u64::MAX,
{
    (i + 1) as u64
}

/// The contents of a freshly generated basis of `size` elements.
pub open spec fn generated_basis(size: nat) -> Seq<u64> {
    Seq::new(size, |i: int| basis_elem(i))
}

impl Srs {
    /// An independently owned basis with the same committing elements.
    pub fn deep_copy(&self) -> (r: Srs)
        ensures
            r.g@ == self.g@,
    {
        Srs { g: crate::scalars::copy_scalars(&self.g) }
    }
}

/// A reference-string holder: either exclusively owns a basis or holds
/// a non-owning handle to one managed by the caller.  No consumer
/// branches on which variant it received; every read goes through
/// `get_ref`.
pub enum SRSValue<'a> {
    Value(Srs),
    Ref(&'a Srs),
}

/// A reference-string request: reuse an externally supplied basis, or
/// generate a fresh one of the given size.  Evaluated exactly once, at
/// compile time.
pub enum SRSSpec<'a> {
    Use(&'a Srs),
    Generate(usize),
}

impl<'a> SRSSpec<'a> {
    /// How many committing elements the requested basis will have.
    pub open spec fn basis_len(self) -> nat {
        match self {
            SRSSpec::Use(x) => x.g@.len(),
            SRSSpec::Generate(size) => size as nat,
        }
    }
}

impl<'a> SRSValue<'a> {
    /// The reference string this holder gives access to, regardless of
    /// variant.
    pub open spec fn value(self) -> Srs {
        match self {
            SRSValue::Value(s) => s,
            SRSValue::Ref(s) => *s,
        }
    }

    /// The committing elements this holder gives access to.
    pub open spec fn basis(self) -> Seq<u64> {
        self.value().g@
    }

    /// Read-only access to the basis; the only way other components
    /// touch it.
    pub fn get_ref(&self) -> (r: &Srs)
        ensures
            *r == self.value(),
    {
        match self {
            SRSValue::Value(x) => x,
            SRSValue::Ref(x) => x,
        }
    }

    /// Generates a fresh basis with `size` committing elements.
    pub fn generate(size: usize) -> (r: Srs)
        ensures
            r.g@ == generated_basis(size as nat),
    {
        let mut g: Vec<u64> = Vec::new();
        let mut i: usize = 0;
        while i < size
            invariant
                i <= size,
                g@.len() == i,
                forall|k: int| 0 <= k < i ==> g@[k] == basis_elem(k),
            decreases size - i,
        {
            g.push((i as u64) + 1);
            i = i + 1;
        }
        proof {
            assert(g@ =~= generated_basis(size as nat));
        }
        Srs { g }
    }

    /// Whether this holder is the resolution of the given request: a
    /// `Use` request yields a borrowing holder for the supplied basis,
    /// a `Generate` request an owning holder for a fresh one.
    pub open spec fn resolves(self, request: SRSSpec<'a>) -> bool {
        match request {
            SRSSpec::Use(x) => self matches SRSValue::Ref(y) && y == x,
            SRSSpec::Generate(size) => self matches SRSValue::Value(s)
                && s.g@ == generated_basis(size as nat),
        }
    }

    /// Resolves a reference-string request into a holder.  Reusing a
    /// basis never copies it; generating produces an owned one.
    pub fn create(request: SRSSpec<'a>) -> (r: SRSValue<'a>)
        ensures
            r.resolves(request),
            r.basis().len() == request.basis_len(),
    {
        match request {
            SRSSpec::Use(x) => SRSValue::Ref(x),
            SRSSpec::Generate(size) => SRSValue::Value(Self::generate(size)),
        }
    }
}

} // verus!
