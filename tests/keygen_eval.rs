use bellman_core::error::SynthesisError;
use bellman_core::eval::{eval, eval_at_tau, EvaluationWriter, KeyPairWires, WireEvaluation};
use bellman_core::group::{G1Point, G2Point};
use bellman_core::scalar::Scalar;

fn s(v: u64) -> Scalar {
    Scalar::from_u64(v)
}

fn g1(k: u64) -> G1Point {
    G1Point::one().mul(&s(k))
}

fn g2(k: u64) -> G2Point {
    G2Point::one().mul(&s(k))
}

#[test]
fn eval_at_tau_sums_entries() {
    let lagrange = vec![s(2), s(3), s(5)];
    let wires = vec![(s(1), 0usize), (s(4), 2usize), (s(2), 0usize)];
    assert_eq!(eval_at_tau(&lagrange, &wires).to_limbs(), [26, 0, 0, 0]);
    assert!(eval_at_tau(&lagrange, &vec![]).is_zero());
}

fn qap() -> KeyPairWires {
    KeyPairWires {
        at: vec![vec![(s(1), 0)], vec![]],
        bt: vec![vec![(s(2), 1)], vec![]],
        ct: vec![vec![], vec![]],
    }
}

#[test]
fn eval_writes_query_points() {
    let lagrange = vec![s(3), s(5)];
    let mut w = EvaluationWriter::zeros(2);
    let r = eval(&G1Point::one(), &G2Point::one(), &lagrange, &qap(), &mut w, &s(1), &s(7), &s(11));
    assert!(r.is_ok());
    // wire 0: a = 3, b = 10, ext = (11*3 + 7*10 + 0) * 1 = 103
    assert_eq!(w.a[0].to_bytes(), g1(3).to_bytes());
    assert_eq!(w.b_g1[0].to_bytes(), g1(10).to_bytes());
    assert_eq!(w.b_g2[0].to_bytes(), g2(10).to_bytes());
    assert_eq!(w.ext[0].to_bytes(), g1(103).to_bytes());
    // wire 1 is in no constraint: everything stays at infinity
    assert!(w.a[1].is_zero());
    assert!(w.b_g2[1].is_zero());
    assert!(w.ext[1].is_zero());
}

#[test]
fn eval_writes_identity_over_old_points() {
    let lagrange = vec![s(3), s(5)];
    let mut w = EvaluationWriter::new(vec![g1(1), g1(1)], vec![g1(1), g1(1)], vec![g2(1), g2(1)], vec![g1(1), g1(1)]);
    eval(&G1Point::one(), &G2Point::one(), &lagrange, &qap(), &mut w, &s(1), &s(7), &s(11)).unwrap();
    assert_eq!(w.a[0].to_bytes(), g1(3).to_bytes());
    assert!(w.a[1].is_zero());
    assert!(w.b_g1[1].is_zero());
    assert!(w.b_g2[1].is_zero());
    assert!(w.ext[1].is_zero());
}

#[test]
fn eval_scales_ext_by_inverse() {
    let lagrange = vec![s(3), s(5)];
    let mut w = EvaluationWriter::zeros(2);
    eval(&G1Point::one(), &G2Point::one(), &lagrange, &qap(), &mut w, &s(2), &s(7), &s(11)).unwrap();
    assert_eq!(w.ext[0].to_bytes(), g1(206).to_bytes());
}

#[test]
fn eval_rejects_mismatched_sizes() {
    let lagrange = vec![s(3), s(5)];
    let mut w = EvaluationWriter::zeros(3);
    let r = eval(&G1Point::one(), &G2Point::one(), &lagrange, &qap(), &mut w, &s(1), &s(1), &s(1));
    assert_eq!(r.unwrap_err(), SynthesisError::MalformedWireSize);
    assert_eq!(w.a.len(), 3);
}

#[test]
fn unconstrained_aux_is_detected() {
    let lagrange = vec![s(3), s(5)];
    let mut inputs = EvaluationWriter::zeros(0);
    let empty = KeyPairWires { at: vec![], bt: vec![], ct: vec![] };
    eval(&G1Point::one(), &G2Point::one(), &lagrange, &empty, &mut inputs, &s(1), &s(1), &s(1)).unwrap();
    let mut aux = EvaluationWriter::zeros(2);
    eval(&G1Point::one(), &G2Point::one(), &lagrange, &qap(), &mut aux, &s(1), &s(7), &s(11)).unwrap();
    let we = WireEvaluation::from_writers(inputs, aux);
    assert_eq!(we.l.len(), 2);
    assert!(we.is_unconstrained());
    let (l, a, b_g1, b_g2) = we.filter_non_zero_and_map_to_affine();
    assert_eq!(l.len(), 1);
    assert_eq!(a.len(), 1);
    assert_eq!(b_g1.len(), 1);
    assert_eq!(b_g2.len(), 1);
    assert_eq!(l[0].to_bytes(), g1(103).to_bytes());
}

#[test]
fn constrained_wires_are_bound() {
    let we = WireEvaluation::from_writers(
        EvaluationWriter::new(vec![g1(1)], vec![g1(1)], vec![g2(1)], vec![g1(2)]),
        EvaluationWriter::new(vec![g1(3)], vec![G1Point::zero()], vec![G2Point::zero()], vec![g1(4)]),
    );
    assert!(!we.is_unconstrained());
    assert_eq!(we.a.len(), 2);
    assert_eq!(we.ic[0].to_bytes(), g1(2).to_bytes());
    let (l, a, b_g1, b_g2) = we.filter_non_zero_and_map_to_affine();
    assert_eq!((l.len(), a.len(), b_g1.len(), b_g2.len()), (1, 2, 1, 1));
}

#[test]
fn fresh_wire_evaluation_is_all_zero() {
    let we = WireEvaluation::new(2, 3);
    assert_eq!(we.a.len(), 5);
    assert_eq!(we.ic.len(), 2);
    assert_eq!(we.l.len(), 3);
    assert!(we.is_unconstrained());
    let (l, a, b_g1, b_g2) = we.filter_non_zero_and_map_to_affine();
    assert!(l.is_empty() && a.is_empty() && b_g1.is_empty() && b_g2.is_empty());
}
