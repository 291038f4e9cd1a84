use plonk_dlog_index::commitment::PolyComm;
use plonk_dlog_index::constraints::{zk_w3, ConstraintSystem, Domain, EvaluationDomains, SpongeParams};
use plonk_dlog_index::index::{Index, IndexError, VerifierIndex};
use plonk_dlog_index::srs::{SRSSpec, SRSValue, Srs};

/// A sponge parameter set with recognizable constants.
fn sponge(seed: u64) -> SpongeParams {
    SpongeParams {
        round_constants: vec![vec![seed, seed + 1], vec![seed + 2, seed + 3]],
        mds: vec![vec![seed + 4, seed + 5], vec![seed + 6, seed + 7]],
    }
}

/// A well-formed constraint system over a primary domain of size 8 (and
/// a blow-up domain of size 64) whose polynomial families hold pairwise
/// distinct single-coefficient polynomials, so that any commitment
/// reordering would be caught.
fn circuit(public: usize) -> ConstraintSystem {
    ConstraintSystem {
        public,
        domain: EvaluationDomains {
            d1: Domain { size: 8, group_gen: 3 },
            d8: Domain { size: 64, group_gen: 5 },
        },
        qwm: (0..3u64).map(|i| vec![100 + i]).collect(),
        qmm: vec![200],
        qc: vec![42],
        sigmam: (0..7u64).map(|i| vec![300 + i]).collect(),
        rcm: (0..15u64).map(|i| vec![400 + i]).collect(),
        psm: vec![500],
        addm: vec![600],
        doublem: vec![700],
        mulm: vec![800],
        emulm: vec![900],
        shift: vec![1, 2, 3, 4, 5, 6, 7],
        zkpm: vec![11, 12, 13],
        endo: 0,
        fr_sponge_params: sponge(1000),
    }
}

fn comm_points(c: &PolyComm) -> Vec<u64> {
    assert!(c.shifted.is_none());
    c.unshifted.clone()
}

#[test]
fn generated_basis_is_deterministic_enumeration() {
    let srs = SRSValue::generate(4);
    assert_eq!(srs.g, vec![1, 2, 3, 4]);
    let again = SRSValue::generate(4);
    assert_eq!(srs, again);
    assert_eq!(SRSValue::generate(0).g, Vec::<u64>::new());
}

#[test]
fn holder_resolution_follows_the_request() {
    let basis = Srs { g: vec![9, 8, 7] };
    let borrowed = SRSValue::create(SRSSpec::Use(&basis));
    match &borrowed {
        SRSValue::Ref(r) => assert!(std::ptr::eq(*r, &basis)),
        SRSValue::Value(_) => panic!("reusing a basis must borrow it"),
    }
    assert_eq!(borrowed.get_ref().g, vec![9, 8, 7]);

    let owned = SRSValue::create(SRSSpec::Generate(2));
    match &owned {
        SRSValue::Value(s) => assert_eq!(s.g, vec![1, 2]),
        SRSValue::Ref(_) => panic!("generating must produce an owned basis"),
    }
    assert_eq!(owned.get_ref().g, vec![1, 2]);
}

#[test]
fn commitment_splits_into_segments() {
    let srs = Srs { g: vec![1, 2, 3] };
    // One full segment and one partial segment.
    let c = srs.commit_non_hiding(&vec![5, 6, 7, 10]);
    assert_eq!(c.unshifted, vec![5 * 1 + 6 * 2 + 7 * 3, 10]);
    assert!(c.shifted.is_none());
    // Three segments.
    let c = srs.commit_non_hiding(&vec![1, 1, 1, 1, 1, 1, 1]);
    assert_eq!(c.unshifted, vec![6, 6, 1]);
    // The empty polynomial still has one identity segment.
    let c = srs.commit_non_hiding(&Vec::new());
    assert_eq!(c.unshifted, vec![0]);
}

#[test]
fn commitment_wraps_in_the_model_group() {
    let srs = Srs { g: vec![u64::MAX] };
    let c = srs.commit_non_hiding(&vec![2]);
    // 2 * (2^64 - 1) mod 2^64
    assert_eq!(c.unshifted, vec![u64::MAX - 1]);
}

#[test]
fn compilation_succeeds_without_public_inputs() {
    // A basis far smaller than the domain is accepted when no wire is public.
    let index = Index::create(circuit(0), sponge(2000), 77, SRSSpec::Generate(1))
        .expect("a circuit without public inputs compiles against any basis");
    assert_eq!(index.max_poly_size, 1);
    assert_eq!(index.cs.endo, 77);
    assert_eq!(index.fq_sponge_params, sponge(2000));

    // Even an empty basis compiles when no wire is public.
    let index = Index::create(circuit(0), sponge(2000), 77, SRSSpec::Generate(0))
        .expect("compilation does not depend on the segment size without public inputs");
    assert_eq!(index.max_poly_size, 0);
}

#[test]
fn compilation_with_public_inputs_needs_a_full_segment() {
    // Basis exactly as long as the primary domain: accepted.
    let index = Index::create(circuit(3), sponge(2000), 77, SRSSpec::Generate(8))
        .expect("a domain-sized basis holds the public-input polynomial");
    assert_eq!(index.max_poly_size, 8);

    // One element short: the fatal configuration error.
    match Index::create(circuit(3), sponge(2000), 77, SRSSpec::Generate(7)) {
        Err(e) => assert_eq!(e, IndexError::SrsTooSmall),
        Ok(_) => panic!("a short basis cannot hold the public-input polynomial"),
    }
}

#[test]
fn max_quotient_size_is_blowup_size_minus_margin() {
    let index = Index::create(circuit(0), sponge(2000), 77, SRSSpec::Generate(4)).unwrap();
    assert_eq!(index.max_quot_size, 64 - 7);
    let verifier = index.verifier_index();
    assert_eq!(verifier.max_quot_size, 64 - 7);
}

fn assert_verifier_indexes_equal(a: &VerifierIndex, b: &VerifierIndex) {
    assert_eq!(a.domain, b.domain);
    assert_eq!(a.max_poly_size, b.max_poly_size);
    assert_eq!(a.max_quot_size, b.max_quot_size);
    assert_eq!(a.srs.get_ref().g, b.srs.get_ref().g);
    assert_eq!(a.sigma_comm, b.sigma_comm);
    assert_eq!(a.qw_comm, b.qw_comm);
    assert_eq!(a.qm_comm, b.qm_comm);
    assert_eq!(a.qc_comm, b.qc_comm);
    assert_eq!(a.rcm_comm, b.rcm_comm);
    assert_eq!(a.psm_comm, b.psm_comm);
    assert_eq!(a.add_comm, b.add_comm);
    assert_eq!(a.double_comm, b.double_comm);
    assert_eq!(a.mul_comm, b.mul_comm);
    assert_eq!(a.emul_comm, b.emul_comm);
    assert_eq!(a.shift, b.shift);
    assert_eq!(a.zkpm, b.zkpm);
    assert_eq!(a.w, b.w);
    assert_eq!(a.endo, b.endo);
    assert_eq!(a.fr_sponge_params, b.fr_sponge_params);
    assert_eq!(a.fq_sponge_params, b.fq_sponge_params);
}

#[test]
fn projection_is_deterministic() {
    let index = Index::create(circuit(0), sponge(2000), 77, SRSSpec::Generate(8)).unwrap();
    let first = index.verifier_index();
    let second = index.verifier_index();
    assert_verifier_indexes_equal(&first, &second);
}

#[test]
fn commitment_ordering_matches_polynomial_ordering() {
    let index = Index::create(circuit(0), sponge(2000), 77, SRSSpec::Generate(8)).unwrap();
    let verifier = index.verifier_index();
    let basis = index.srs.get_ref();

    assert_eq!(verifier.sigma_comm.len(), 7);
    for i in 0..7 {
        assert_eq!(verifier.sigma_comm[i], basis.commit_non_hiding(&index.cs.sigmam[i]));
        // With single-coefficient polynomials and a leading basis
        // element of 1, the commitment exposes the coefficient itself.
        assert_eq!(comm_points(&verifier.sigma_comm[i]), vec![300 + i as u64]);
    }
    assert_eq!(verifier.qw_comm.len(), 3);
    for i in 0..3 {
        assert_eq!(verifier.qw_comm[i], basis.commit_non_hiding(&index.cs.qwm[i]));
        assert_eq!(comm_points(&verifier.qw_comm[i]), vec![100 + i as u64]);
    }
    assert_eq!(verifier.rcm_comm.len(), 15);
    for i in 0..15 {
        assert_eq!(verifier.rcm_comm[i], basis.commit_non_hiding(&index.cs.rcm[i]));
        assert_eq!(comm_points(&verifier.rcm_comm[i]), vec![400 + i as u64]);
    }
}

#[test]
fn projecting_a_borrowed_reference_string_shares_it() {
    let basis = SRSValue::generate(8);
    let index = Index::create(circuit(0), sponge(2000), 77, SRSSpec::Use(&basis)).unwrap();
    match &index.srs {
        SRSValue::Ref(r) => assert!(std::ptr::eq(*r, &basis)),
        SRSValue::Value(_) => panic!("reusing a basis must borrow it"),
    }
    let verifier = index.verifier_index();
    match &verifier.srs {
        SRSValue::Ref(r) => assert!(std::ptr::eq(*r, &basis)),
        SRSValue::Value(_) => panic!("a borrowed reference string must never be duplicated"),
    }
}

#[test]
fn projecting_an_owned_reference_string_copies_it() {
    let index = Index::create(circuit(0), sponge(2000), 77, SRSSpec::Generate(8)).unwrap();
    let verifier = index.verifier_index();
    match (&index.srs, &verifier.srs) {
        (SRSValue::Value(from), SRSValue::Value(to)) => {
            assert_eq!(from.g, to.g);
            assert!(!std::ptr::eq(from, to));
        },
        _ => panic!("an owned reference string must project to an owned copy"),
    }
}

#[test]
fn zero_knowledge_root_of_unity_is_recomputed_from_the_domain() {
    // Generator 3 over a domain of 8 rows, 3 of them masked: 3^5.
    assert_eq!(zk_w3(Domain { size: 8, group_gen: 3 }), 243);
    // The derivation wraps in the model field.
    assert_eq!(zk_w3(Domain { size: 4, group_gen: u64::MAX }), u64::MAX);
    let index = Index::create(circuit(0), sponge(2000), 77, SRSSpec::Generate(8)).unwrap();
    assert_eq!(index.verifier_index().w, 243);
}

#[test]
fn end_to_end_fixed_value_gate() {
    // A minimal circuit holding one fixed-value (constant) gate, a
    // basis at least as long as the domain, and no public inputs.
    let cs = circuit(0);
    let basis = SRSValue::generate(8);
    let index = Index::create(cs, sponge(2000), 77, SRSSpec::Use(&basis)).unwrap();
    let verifier = index.verifier_index();

    // Every commitment is recomputable from the same constraint system
    // and basis, and reproduces the identical points.
    assert_eq!(verifier.qc_comm, basis.commit_non_hiding(&index.cs.qc));
    assert_eq!(comm_points(&verifier.qc_comm), vec![42]);
    assert_eq!(verifier.qm_comm, basis.commit_non_hiding(&index.cs.qmm));
    assert_eq!(verifier.psm_comm, basis.commit_non_hiding(&index.cs.psm));
    assert_eq!(verifier.add_comm, basis.commit_non_hiding(&index.cs.addm));
    assert_eq!(verifier.double_comm, basis.commit_non_hiding(&index.cs.doublem));
    assert_eq!(verifier.mul_comm, basis.commit_non_hiding(&index.cs.mulm));
    assert_eq!(verifier.emul_comm, basis.commit_non_hiding(&index.cs.emulm));

    // Scalar fields are copied verbatim.
    assert_eq!(verifier.domain, Domain { size: 8, group_gen: 3 });
    assert_eq!(verifier.max_poly_size, 8);
    assert_eq!(verifier.shift, vec![1, 2, 3, 4, 5, 6, 7]);
    assert_eq!(verifier.zkpm, vec![11, 12, 13]);
    assert_eq!(verifier.endo, 77);
    assert_eq!(verifier.fr_sponge_params, sponge(1000));
    assert_eq!(verifier.fq_sponge_params, sponge(2000));
}

#[test]
fn short_basis_with_public_inputs_yields_no_artifact() {
    // Same circuit, one public input, and a basis one element shorter
    // than the domain: compilation fails with the configuration error
    // and hands back nothing but that error.
    let result = Index::create(circuit(1), sponge(2000), 77, SRSSpec::Generate(7));
    match result {
        Err(e) => assert_eq!(e, IndexError::SrsTooSmall),
        Ok(_) => panic!("compilation must fail on a short basis"),
    }
}
