//! The proving artifact and its projection to the public verification
//! artifact.

use vstd::prelude::*;

use crate::commitment::{comm_eq, commit_family, is_commitment, PolyComm};
use crate::constraints::{spec_zk_w3, sponge_eq, zk_w3, ConstraintSystem, Domain, SpongeParams};
use crate::scalars::copy_scalars;
use crate::srs::{SRSSpec, SRSValue};

verus! {

/// Margin subtracted from the blow-up domain's size when bounding the
/// quotient polynomial.  It is a protocol-version constant fixed by the
/// highest-degree custom gates present (the elliptic-curve and
/// hash-permutation gates); it is not derived per gate.
pub const QUOTIENT_SIZE_MARGIN: usize = 7;

/// The single fatal failure of index compilation: the reference-string
/// basis is too small to hold the public-input polynomial as one
/// unchunked segment.  It reflects a structural mismatch between the
/// committed setup and the circuit, repairable only by recompiling with
/// a larger basis.
#[derive(Clone, Copy, PartialEq, Eq, Structural, Debug)]
pub enum IndexError {
    SrsTooSmall,
}

/// The proving artifact: the constraint system it owns, the resolved
/// reference-string holder, the two protocol size bounds, and the
/// outer-field sponge parameters.  Never mutated after construction.
pub struct Index<'a> {
    /// The circuit's constraint system.
    pub cs: ConstraintSystem,
    /// Polynomial commitment keys.
    pub srs: SRSValue<'a>,
    /// Maximal size of one polynomial segment: the basis length.
    pub max_poly_size: usize,
    /// Maximal size of the quotient polynomial under the supported
    /// constraints.
    pub max_quot_size: usize,
    /// Outer-field Fiat–Shamir sponge parameters.
    pub fq_sponge_params: SpongeParams,
}

/// Whether compilation succeeds: a circuit without public inputs
/// compiles against any basis; one with public inputs needs a basis at
/// least as long as the primary domain.
pub open spec fn compiles(cs: ConstraintSystem, basis_len: nat) -> bool {
    cs.public == 0 || basis_len >= cs.domain.d1.size
}

/// Field-for-field agreement of two constraint systems, except that the
/// first carries the injected endomorphism coefficient.
pub open spec fn cs_with_endo(c: ConstraintSystem, orig: ConstraintSystem, endo: u64) -> bool {
    &&& c.public == orig.public
    &&& c.domain == orig.domain
    &&& c.qwm == orig.qwm
    &&& c.qmm == orig.qmm
    &&& c.qc == orig.qc
    &&& c.sigmam == orig.sigmam
    &&& c.rcm == orig.rcm
    &&& c.psm == orig.psm
    &&& c.addm == orig.addm
    &&& c.doublem == orig.doublem
    &&& c.mulm == orig.mulm
    &&& c.emulm == orig.emulm
    &&& c.shift == orig.shift
    &&& c.zkpm == orig.zkpm
    &&& c.endo == endo
    &&& c.fr_sponge_params == orig.fr_sponge_params
}

impl<'a> Index<'a> {
    /// Invariant established by compilation: a well-formed constraint
    /// system, the basis length as the segment bound, and the protocol
    /// quotient bound.
    pub open spec fn wf(self) -> bool {
        &&& self.cs.wf()
        &&& self.max_poly_size == self.srs.basis().len()
        &&& self.max_quot_size + QUOTIENT_SIZE_MARGIN == self.cs.domain.d8.size
    }

    /// Compiles the proving artifact from a constraint system, sponge
    /// parameters, the endomorphism coefficient and a reference-string
    /// request.
    ///
    /// Succeeds exactly when the basis can hold the public-input
    /// polynomial as one segment (always, if there are no public
    /// inputs); the only failure is the fatal configuration error, and
    /// no partially constructed artifact is ever produced.
    pub fn create(
        cs: ConstraintSystem,
        fq_sponge_params: SpongeParams,
        endo_q: u64,
        srs: SRSSpec<'a>,
    ) -> (result: Result<Index<'a>, IndexError>)
        requires
            cs.wf(),
        ensures
            result is Ok <==> compiles(cs, srs.basis_len()),
            result matches Ok(ind) ==> {
                &&& ind.wf()
                &&& ind.srs.resolves(srs)
                &&& ind.max_poly_size == srs.basis_len()
                &&& ind.max_quot_size + QUOTIENT_SIZE_MARGIN == cs.domain.d8.size
                &&& cs_with_endo(ind.cs, cs, endo_q)
                &&& ind.fq_sponge_params == fq_sponge_params
            },
            result matches Err(e) ==> e == IndexError::SrsTooSmall,
    {
        let srs = SRSValue::create(srs);
        let max_poly_size = srs.get_ref().g.len();
        if cs.public > 0 && max_poly_size < cs.domain.d1.size {
            return Err(IndexError::SrsTooSmall);
        }
        let mut cs = cs;
        cs.endo = endo_q;
        Ok(Index {
            max_quot_size: cs.domain.d8.size - QUOTIENT_SIZE_MARGIN,
            fq_sponge_params,
            max_poly_size,
            srs,
            cs,
        })
    }
}

/// The verification artifact: a self-contained public projection of a
/// proving artifact — the domain, both size bounds, a reference-string
/// holder, a commitment to every circuit-describing polynomial in
/// source order, and the protocol scalars.
pub struct VerifierIndex<'a> {
    /// Primary evaluation domain.
    pub domain: Domain,
    /// Maximal size of one polynomial segment.
    pub max_poly_size: usize,
    /// Maximal size of the quotient polynomial.
    pub max_quot_size: usize,
    /// Polynomial commitment keys.
    pub srs: SRSValue<'a>,
    /// Permutation commitments, one per wire class.
    pub sigma_comm: Vec<PolyComm>,
    /// Generic wire selector commitments.
    pub qw_comm: Vec<PolyComm>,
    /// Multiplication selector commitment.
    pub qm_comm: PolyComm,
    /// Constant selector commitment.
    pub qc_comm: PolyComm,
    /// Round-constant polynomial commitments.
    pub rcm_comm: Vec<PolyComm>,
    /// Hash-permutation selector commitment.
    pub psm_comm: PolyComm,
    /// Elliptic-curve addition selector commitment.
    pub add_comm: PolyComm,
    /// Elliptic-curve doubling selector commitment.
    pub double_comm: PolyComm,
    /// Variable-base scalar-multiplication selector commitment.
    pub mul_comm: PolyComm,
    /// Endomorphism-multiplication selector commitment.
    pub emul_comm: PolyComm,
    /// Coset shift scalars.
    pub shift: Vec<u64>,
    /// Zero-knowledge masking polynomial.
    pub zkpm: Vec<u64>,
    /// Zero-knowledge root of unity of the primary domain.
    pub w: u64,
    /// Endomorphism coefficient.
    pub endo: u64,
    /// Inner-field Fiat–Shamir sponge parameters.
    pub fr_sponge_params: SpongeParams,
    /// Outer-field Fiat–Shamir sponge parameters.
    pub fq_sponge_params: SpongeParams,
}

/// Positional fidelity of a commitment family: one commitment per
/// polynomial, and the commitment at index `i` is to the polynomial at
/// index `i`.
pub open spec fn comms_match(c: Seq<PolyComm>, g: Seq<u64>, polys: Seq<Vec<u64>>) -> bool {
    &&& c.len() == polys.len()
    &&& forall|i: int| 0 <= i < polys.len() ==> is_commitment(#[trigger] c[i], g, polys[i]@)
}

/// Ownership fidelity of the projected holder: a borrowed reference
/// string is propagated as the same non-owning handle, never copied; an
/// owned one is deep-copied into an independently owned holder.
pub open spec fn srs_projected(v: SRSValue, s: SRSValue) -> bool {
    match s {
        SRSValue::Ref(x) => v matches SRSValue::Ref(y) && y == x,
        SRSValue::Value(x) => v matches SRSValue::Value(t) && t.g@ == x.g@,
    }
}

/// The full characterization of a verification artifact as the
/// projection of a proving artifact: every commitment is the non-hiding
/// commitment of the corresponding polynomial under the artifact's
/// basis, in source order, and every scalar field is copied verbatim.
pub open spec fn is_projection(v: VerifierIndex, ind: Index) -> bool {
    &&& v.domain == ind.cs.domain.d1
    &&& v.max_poly_size == ind.max_poly_size
    &&& v.max_quot_size == ind.max_quot_size
    &&& srs_projected(v.srs, ind.srs)
    &&& comms_match(v.sigma_comm@, ind.srs.basis(), ind.cs.sigmam@)
    &&& comms_match(v.qw_comm@, ind.srs.basis(), ind.cs.qwm@)
    &&& is_commitment(v.qm_comm, ind.srs.basis(), ind.cs.qmm@)
    &&& is_commitment(v.qc_comm, ind.srs.basis(), ind.cs.qc@)
    &&& comms_match(v.rcm_comm@, ind.srs.basis(), ind.cs.rcm@)
    &&& is_commitment(v.psm_comm, ind.srs.basis(), ind.cs.psm@)
    &&& is_commitment(v.add_comm, ind.srs.basis(), ind.cs.addm@)
    &&& is_commitment(v.double_comm, ind.srs.basis(), ind.cs.doublem@)
    &&& is_commitment(v.mul_comm, ind.srs.basis(), ind.cs.mulm@)
    &&& is_commitment(v.emul_comm, ind.srs.basis(), ind.cs.emulm@)
    &&& v.shift@ == ind.cs.shift@
    &&& v.zkpm@ == ind.cs.zkpm@
    &&& v.w == spec_zk_w3(ind.cs.domain.d1)
    &&& v.endo == ind.cs.endo
    &&& sponge_eq(v.fr_sponge_params, ind.cs.fr_sponge_params)
    &&& sponge_eq(v.fq_sponge_params, ind.fq_sponge_params)
}

impl<'a> Index<'a> {
    /// Derives the public verification artifact: commits to every
    /// circuit-describing polynomial with the artifact's basis,
    /// preserving source order, copies the protocol scalars, and
    /// recomputes the zero-knowledge root of unity.  The result holds
    /// no reference back to the proving artifact, apart from a shared
    /// borrowed reference string.  A basis with no committing element
    /// can commit to nothing, so projection asks for a non-empty one.
    pub fn verifier_index(&self) -> (v: VerifierIndex<'a>)
        requires
            self.wf(),
            self.srs.basis().len() >= 1,
        ensures
            is_projection(v, *self),
    {
        let srs = match &self.srs {
            SRSValue::Value(s) => SRSValue::Value(s.deep_copy()),
            SRSValue::Ref(x) => SRSValue::Ref(*x),
        };

        let basis = self.srs.get_ref();
        VerifierIndex {
            domain: self.cs.domain.d1,

            sigma_comm: commit_family(basis, &self.cs.sigmam),
            qw_comm: commit_family(basis, &self.cs.qwm),
            qm_comm: basis.commit_non_hiding(&self.cs.qmm),
            qc_comm: basis.commit_non_hiding(&self.cs.qc),

            rcm_comm: commit_family(basis, &self.cs.rcm),
            psm_comm: basis.commit_non_hiding(&self.cs.psm),

            add_comm: basis.commit_non_hiding(&self.cs.addm),
            double_comm: basis.commit_non_hiding(&self.cs.doublem),
            mul_comm: basis.commit_non_hiding(&self.cs.mulm),
            emul_comm: basis.commit_non_hiding(&self.cs.emulm),

            w: zk_w3(self.cs.domain.d1),
            fr_sponge_params: self.cs.fr_sponge_params.deep_copy(),
            fq_sponge_params: self.fq_sponge_params.deep_copy(),
            endo: self.cs.endo,
            max_poly_size: self.max_poly_size,
            max_quot_size: self.max_quot_size,
            zkpm: copy_scalars(&self.cs.zkpm),
            shift: copy_scalars(&self.cs.shift),
            srs,
        }
    }
}

/// Index-for-index agreement of two commitment families.
pub open spec fn comms_eq(a: Seq<PolyComm>, b: Seq<PolyComm>) -> bool {
    &&& a.len() == b.len()
    &&& forall|i: int| 0 <= i < a.len() ==> comm_eq(#[trigger] a[i], #[trigger] b[i])
}

/// Projection is deterministic: any two verification artifacts derived
/// from the same unmodified proving artifact agree on every commitment
/// point and every scalar field.
pub proof fn lemma_projection_deterministic<'a>(
    v1: VerifierIndex<'a>,
    v2: VerifierIndex<'a>,
    ind: Index<'a>,
)
    requires
        is_projection(v1, ind),
        is_projection(v2, ind),
    ensures
        v1.domain == v2.domain,
        v1.max_poly_size == v2.max_poly_size,
        v1.max_quot_size == v2.max_quot_size,
        v1.srs.basis() == v2.srs.basis(),
        v1.srs is Ref <==> v2.srs is Ref,
        comms_eq(v1.sigma_comm@, v2.sigma_comm@),
        comms_eq(v1.qw_comm@, v2.qw_comm@),
        comm_eq(v1.qm_comm, v2.qm_comm),
        comm_eq(v1.qc_comm, v2.qc_comm),
        comms_eq(v1.rcm_comm@, v2.rcm_comm@),
        comm_eq(v1.psm_comm, v2.psm_comm),
        comm_eq(v1.add_comm, v2.add_comm),
        comm_eq(v1.double_comm, v2.double_comm),
        comm_eq(v1.mul_comm, v2.mul_comm),
        comm_eq(v1.emul_comm, v2.emul_comm),
        v1.shift@ == v2.shift@,
        v1.zkpm@ == v2.zkpm@,
        v1.w == v2.w,
        v1.endo == v2.endo,
        sponge_eq(v1.fr_sponge_params, v2.fr_sponge_params),
        sponge_eq(v1.fq_sponge_params, v2.fq_sponge_params),
{
    assert forall|i: int| 0 <= i < v1.sigma_comm@.len() implies comm_eq(
        #[trigger] v1.sigma_comm@[i],
        #[trigger] v2.sigma_comm@[i],
    ) by {
        assert(is_commitment(v1.sigma_comm@[i], ind.srs.basis(), ind.cs.sigmam@[i]@));
        assert(is_commitment(v2.sigma_comm@[i], ind.srs.basis(), ind.cs.sigmam@[i]@));
    }
    assert forall|i: int| 0 <= i < v1.qw_comm@.len() implies comm_eq(
        #[trigger] v1.qw_comm@[i],
        #[trigger] v2.qw_comm@[i],
    ) by {
        assert(is_commitment(v1.qw_comm@[i], ind.srs.basis(), ind.cs.qwm@[i]@));
        assert(is_commitment(v2.qw_comm@[i], ind.srs.basis(), ind.cs.qwm@[i]@));
    }
    assert forall|i: int| 0 <= i < v1.rcm_comm@.len() implies comm_eq(
        #[trigger] v1.rcm_comm@[i],
        #[trigger] v2.rcm_comm@[i],
    ) by {
        assert(is_commitment(v1.rcm_comm@[i], ind.srs.basis(), ind.cs.rcm@[i]@));
        assert(is_commitment(v2.rcm_comm@[i], ind.srs.basis(), ind.cs.rcm@[i]@));
    }
}

} // verus!
