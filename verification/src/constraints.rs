//! The circuit-describing data consumed by the index compiler: the
//! constraint system's polynomial families, its evaluation domains and
//! protocol scalars, and the zero-knowledge root of unity derived from
//! the primary domain.

use vstd::prelude::*;

use crate::commitment::wmul;
use crate::scalars::matrix_eq;

verus! {

/// Number of wire columns of the circuit.
pub const COLUMNS: usize = 15;

/// Number of wire classes joined by the permutation argument.
pub const PERMUTS: usize = 7;

/// Number of generic (addition) wire selectors.
pub const GENERICS: usize = 3;

/// Number of final rows of the primary domain reserved for
/// zero-knowledge masking.
pub const ZK_ROWS: usize = 3;

/// A multiplicative evaluation domain, described by its size and a
/// generator of the subgroup.
#[derive(Clone, Copy, Debug, PartialEq, Eq, Structural)]
pub struct Domain {
    pub size: usize,
    pub group_gen: u64,
}

/// The primary domain and its eightfold blow-up, used for
/// quotient-degree checking.
#[derive(Clone, Copy, Debug, PartialEq, Eq, Structural)]
pub struct EvaluationDomains {
    pub d1: Domain,
    pub d8: Domain,
}

impl EvaluationDomains {
    /// The blow-up domain has exactly eight rows per row of the primary
    /// domain, which itself keeps the zero-knowledge rows.
    pub open spec fn wf(self) -> bool {
        &&& ZK_ROWS <= self.d1.size
        &&& self.d8.size == 8 * self.d1.size
    }
}

/// Constants configuring an arithmetic sponge for the Fiat–Shamir
/// transcript: round constants and an MDS matrix.
#[derive(Debug, PartialEq, Eq)]
pub struct SpongeParams {
    pub round_constants: Vec<Vec<u64>>,
    pub mds: Vec<Vec<u64>>,
}

/// Whether two sponge parameter sets hold the same constants.
pub open spec fn sponge_eq(a: SpongeParams, b: SpongeParams) -> bool {
    &&& matrix_eq(a.round_constants@, b.round_constants@)
    &&& matrix_eq(a.mds@, b.mds@)
}

impl SpongeParams {
    /// An independent copy of the parameter set.
    pub fn deep_copy(&self) -> (r: SpongeParams)
        ensures
            sponge_eq(r, *self),
    {
        SpongeParams {
            round_constants: crate::scalars::copy_scalar_matrix(&self.round_constants),
            mds: crate::scalars::copy_scalar_matrix(&self.mds),
        }
    }
}

/// An arithmetic constraint system: one coefficient vector per selector
/// or permutation polynomial, the evaluation domains, the public-input
/// count and the protocol scalars.  Built externally; the compiler
/// mutates it exactly once, to inject the endomorphism coefficient.
pub struct ConstraintSystem {
    /// Number of public input wires.
    pub public: usize,
    /// Primary and eightfold evaluation domains.
    pub domain: EvaluationDomains,
    /// Generic wire selector polynomials.
    pub qwm: Vec<Vec<u64>>,
    /// Multiplication selector polynomial.
    pub qmm: Vec<u64>,
    /// Constant selector polynomial.
    pub qc: Vec<u64>,
    /// Permutation polynomials, one per wire class.
    pub sigmam: Vec<Vec<u64>>,
    /// Round-constant polynomials of the hash-permutation gate.
    pub rcm: Vec<Vec<u64>>,
    /// Hash-permutation selector polynomial.
    pub psm: Vec<u64>,
    /// Elliptic-curve addition selector polynomial.
    pub addm: Vec<u64>,
    /// Elliptic-curve doubling selector polynomial.
    pub doublem: Vec<u64>,
    /// Variable-base scalar-multiplication selector polynomial.
    pub mulm: Vec<u64>,
    /// Endomorphism-multiplication selector polynomial.
    pub emulm: Vec<u64>,
    /// Coset shift scalars, one per wire class.
    pub shift: Vec<u64>,
    /// Zero-knowledge masking polynomial.
    pub zkpm: Vec<u64>,
    /// Endomorphism coefficient; unset until the compiler injects it.
    pub endo: u64,
    /// Inner-field Fiat–Shamir sponge parameters.
    pub fr_sponge_params: SpongeParams,
}

impl ConstraintSystem {
    /// Well-formedness: the protocol-fixed family sizes, and coherent
    /// evaluation domains.
    pub open spec fn wf(self) -> bool {
        &&& self.domain.wf()
        &&& self.qwm@.len() == GENERICS
        &&& self.sigmam@.len() == PERMUTS
        &&& self.rcm@.len() == COLUMNS
        &&& self.shift@.len() == PERMUTS
    }
}

/// The generator raised to the given power, in the model field.
pub open spec fn spec_pow(g: u64, e: nat) -> u64
    decreases e,
{
    if e == 0 {
        1u64
    } else {
        wmul(spec_pow(g, (e - 1) as nat), g)
    }
}

/// The zero-knowledge root of unity of a domain: its generator raised
/// to the index of the first masked row.
pub open spec fn spec_zk_w3(d: Domain) -> u64
    recommends
        ZK_ROWS <= d.size,
{
    spec_pow(d.group_gen, (d.size - ZK_ROWS) as nat)
}

/// Computes the zero-knowledge root of unity of a domain.  It is never
/// cached: every projection recomputes it from the domain alone.
pub fn zk_w3(d: Domain) -> (w: u64)
    requires
        ZK_ROWS <= d.size,
    ensures
        w == spec_zk_w3(d),
{
    let e = d.size - ZK_ROWS;
    let mut acc: u64 = 1;
    let mut i: usize = 0;
    while i < e
        invariant
            i <= e,
            acc == spec_pow(d.group_gen, i as nat),
        decreases e - i,
    {
        acc = acc.wrapping_mul(d.group_gen);
        i = i + 1;
    }
    acc
}

} // verus!
