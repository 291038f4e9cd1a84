//! Compilation of a discrete-log PLONK protocol index.
//!
//! Given an arithmetic constraint system and a polynomial-commitment
//! reference string, this library assembles a proving artifact (`Index`)
//! and derives from it the public verification artifact
//! (`VerifierIndex`): commitments to every circuit-describing polynomial
//! together with the protocol scalars.
//!
//! Field and group arithmetic are external collaborators of this
//! compiler and are out of its scope; the library models scalars and
//! group elements as machine words under wrapping arithmetic.  The model
//! keeps every structural invariant the compiler is responsible for —
//! polynomial segment sizing, the quotient-degree bound, positional
//! commitment ordering, and the owned-versus-borrowed reference-string
//! split — and each of those is stated in the contracts and proved.

pub mod commitment;
pub mod constraints;
pub mod index;
pub mod scalars;
pub mod srs;
