use bellman_core::assembly::ProvingAssignment;
use bellman_core::builder::{Builder, ProvingQueries, VerifyingKey};
use bellman_core::context::{Answer, Auxiliary};
use bellman_core::density::DensityTracker;
use bellman_core::error::SynthesisError;
use bellman_core::group::{G1Point, G2Point};
use bellman_core::linear::LinearCombination;
use bellman_core::multiexp::{g1_multiexp, g2_multiexp};
use bellman_core::scalar::Scalar;

fn s(v: u64) -> Scalar {
    Scalar::from_u64(v)
}

fn g1(k: u64) -> G1Point {
    G1Point::one().mul(&s(k))
}

fn g2(k: u64) -> G2Point {
    G2Point::one().mul(&s(k))
}

#[test]
fn group_basics() {
    let g = G1Point::one();
    assert!(!g.is_zero());
    assert!(G1Point::zero().is_zero());
    assert_eq!(g.add(&G1Point::zero()).to_bytes(), g.to_bytes());
    assert_eq!(g.mul(&s(2)).to_bytes(), g.add(&g).to_bytes());
    assert_ne!(g.mul(&s(2)).to_bytes(), g.to_bytes());
    assert!(g.mul(&s(0)).is_zero());
    let h = G2Point::one();
    assert_eq!(h.mul(&s(3)).to_bytes(), h.add(&h).add(&h).to_bytes());
    assert!(G2Point::zero().is_zero());
    assert_eq!(G1Point::zero().to_bytes().len(), 96);
    assert_eq!(G1Point::zero().to_bytes()[0], 0x40);
}

#[test]
fn point_decoding() {
    assert!(G1Point::from_bytes(vec![0u8; 95]).is_none());
    let mut bad = vec![0u8; 96];
    bad[95] = 1;
    assert!(G1Point::from_bytes(bad).is_none());
    let p = G1Point::from_bytes(g1(5).to_bytes()).unwrap();
    assert_eq!(p.to_bytes(), g1(5).to_bytes());
    let q = G2Point::from_bytes(g2(7).to_bytes()).unwrap();
    assert_eq!(q.to_bytes(), g2(7).to_bytes());
    assert!(G2Point::from_bytes(vec![1u8; 192]).is_none());
}

#[test]
fn multiexp_full_density() {
    let bases = vec![g1(1), g1(2)];
    let r = g1_multiexp(&bases, None, &vec![s(3), s(5)]).unwrap();
    assert_eq!(r.to_bytes(), g1(13).to_bytes());
    let bases2 = vec![g2(1), g2(2)];
    let r2 = g2_multiexp(&bases2, None, &vec![s(3), s(5)]).unwrap();
    assert_eq!(r2.to_bytes(), g2(13).to_bytes());
}

#[test]
fn multiexp_with_density_and_zero_scalar() {
    let mut d = DensityTracker::new();
    for _ in 0..3 {
        d.add_element();
    }
    d.inc(0);
    d.inc(2);
    // position 1 is unmarked and consumes no base
    let bases = vec![g1(1), g1(10)];
    let r = g1_multiexp(&bases, Some(&d), &vec![s(2), s(100), s(3)]).unwrap();
    assert_eq!(r.to_bytes(), g1(32).to_bytes());
    // a zero scalar still consumes its base
    let bases = vec![g1(1), g1(10)];
    let r = g1_multiexp(&bases, None, &vec![s(0), s(3)]).unwrap();
    assert_eq!(r.to_bytes(), g1(30).to_bytes());
}

#[test]
fn multiexp_errors() {
    let r = g1_multiexp(&vec![g1(1)], None, &vec![s(1), s(2)]);
    assert_eq!(r.unwrap_err(), SynthesisError::AssignmentMissing);
    let r = g1_multiexp(&vec![G1Point::zero()], None, &vec![s(4)]);
    assert_eq!(r.unwrap_err(), SynthesisError::UnexpectedIdentity);
    let r = g1_multiexp(&vec![G1Point::zero()], None, &vec![s(0)]);
    assert!(r.unwrap().is_zero());
}

fn vk(delta1: G1Point, delta2: G2Point) -> VerifyingKey {
    VerifyingKey {
        alpha_g1: g1(2),
        beta_g1: g1(3),
        beta_g2: g2(3),
        gamma_g2: g2(5),
        delta_g1: delta1,
        delta_g2: delta2,
        ic: vec![g1(1), g1(4)],
    }
}

fn trivial_assignment() -> ProvingAssignment {
    let mut cs = ProvingAssignment::new();
    let x = cs.alloc_input(s(3));
    let one = bellman_core::linear::Coefficient::new_unchecked(bellman_core::linear::Index::Input(0));
    cs.enforce(
        &LinearCombination::zero().add_var(x),
        &LinearCombination::zero().add_var(one),
        &LinearCombination::zero().add_var(x),
    );
    cs
}

fn queries() -> ProvingQueries {
    ProvingQueries {
        h: vec![g1(3), g1(1)],
        l: vec![],
        a_input: vec![g1(11), g1(12)],
        a_aux: vec![],
        b1_input: vec![g1(13)],
        b1_aux: vec![],
        b2_input: vec![g2(13)],
        b2_aux: vec![],
    }
}

fn prove(r: u64, sv: u64) -> (Vec<u8>, Vec<u8>, Vec<u8>) {
    let cs = trivial_assignment();
    let b = Builder::try_new(vk(g1(7), g2(7)), &queries(), &cs, &vec![s(2), s(3)], s(r), s(sv)).unwrap();
    let (a, bb, c) = b.try_build().unwrap();
    (a.to_bytes(), bb.to_bytes(), c.to_bytes())
}

#[test]
fn subverted_key_is_rejected() {
    let cs = trivial_assignment();
    let r = Builder::try_new(vk(G1Point::zero(), g2(7)), &queries(), &cs, &vec![s(2), s(3)], s(1), s(1));
    assert_eq!(r.unwrap_err(), SynthesisError::UnexpectedIdentity);
    let r = Builder::try_new(vk(g1(7), G2Point::zero()), &queries(), &cs, &vec![s(2), s(3)], s(1), s(1));
    assert_eq!(r.unwrap_err(), SynthesisError::UnexpectedIdentity);
}

#[test]
fn proof_is_deterministic_and_blinded() {
    assert_eq!(prove(4, 6), prove(4, 6));
    assert_ne!(prove(4, 6), prove(5, 6));
    assert_ne!(prove(4, 6).1, prove(4, 8).1);
}

#[test]
fn proof_components_match_formula() {
    // input = [1, 3]; b density marks input 0 only
    let (a, b, c) = prove(4, 6);
    // answer.a = 11 + 3*12 = 47, answer.b1 = 13, answer.b2 = 13 (in G2), aux sums zero
    // A = 7*4 + 2 + 47 = 77
    assert_eq!(a, g1(77).to_bytes());
    // B = 7*6 + 3 + 13 = 58
    assert_eq!(b, g2(58).to_bytes());
    // C = 7*24 + 2*6 + 3*4 + 47*6 + 13*4 + 9 + 0 = 535
    assert_eq!(c, g1(535).to_bytes());
}

#[test]
fn answer_and_auxiliary_sums() {
    let mut d = DensityTracker::new();
    d.add_element();
    d.add_element();
    d.inc(1);
    let ans = Answer::try_new(&vec![g1(1), g1(2)], &vec![g1(5)], &vec![g2(5)], &d, &vec![s(3), s(4)]).unwrap();
    assert_eq!(ans.a.to_bytes(), g1(11).to_bytes());
    assert_eq!(ans.b1.to_bytes(), g1(20).to_bytes());
    assert_eq!(ans.b2.to_bytes(), g2(20).to_bytes());
    let aux = Auxiliary::try_new(&vec![g1(1)], &vec![], &vec![], &d, &d, &vec![s(3), s(4)]);
    assert_eq!(aux.unwrap_err(), SynthesisError::AssignmentMissing);
}

#[test]
fn h_sum_is_computed_and_checked() {
    let cs = trivial_assignment();
    let b = Builder::try_new(vk(g1(7), g2(7)), &queries(), &cs, &vec![s(2), s(3)], s(1), s(1)).unwrap();
    assert_eq!(b.h.to_bytes(), g1(9).to_bytes());
    let r = Builder::try_new(vk(g1(7), g2(7)), &queries(), &cs, &vec![s(1), s(1), s(1)], s(1), s(1));
    assert_eq!(r.unwrap_err(), SynthesisError::AssignmentMissing);
}

#[test]
fn missing_l_bases_fail() {
    let mut cs = trivial_assignment();
    cs.alloc_aux(s(2));
    let r = Builder::try_new(vk(g1(7), g2(7)), &queries(), &cs, &vec![s(2), s(3)], s(1), s(1));
    assert_eq!(r.unwrap_err(), SynthesisError::AssignmentMissing);
}
