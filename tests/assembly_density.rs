use bellman_core::assembly::ProvingAssignment;
use bellman_core::density::DensityTracker;
use bellman_core::linear::{Coefficient, Index, LinearCombination};
use bellman_core::scalar::Scalar;

fn s(v: u64) -> Scalar {
    Scalar::from_u64(v)
}

fn one() -> Coefficient {
    Coefficient::new_unchecked(Index::Input(0))
}

#[test]
fn density_count_matches_bits() {
    let mut d = DensityTracker::new();
    for _ in 0..5 {
        d.add_element();
    }
    assert_eq!(d.get_total_density(), 0);
    d.inc(1);
    d.inc(3);
    d.inc(1);
    assert_eq!(d.get_total_density(), 2);
    let bits: Vec<bool> = (0..d.len()).map(|i| d.get(i)).collect();
    assert_eq!(bits, vec![false, true, false, true, false]);
    assert_eq!(bits.iter().filter(|b| **b).count(), d.get_total_density());
}

#[test]
fn trivial_circuit_is_satisfied() {
    let mut cs = ProvingAssignment::new();
    let x = cs.alloc_input(s(3));
    assert_eq!(x.get_unchecked(), Index::Input(1));
    let a = LinearCombination::zero().add_var(x);
    let b = LinearCombination::zero().add_var(one());
    let c = LinearCombination::zero().add_var(x);
    cs.enforce(&a, &b, &c);
    assert!(cs.is_satisfied());
    assert_eq!(cs.a[0].to_limbs(), [3, 0, 0, 0]);
    assert_eq!(cs.b[0].to_limbs(), [1, 0, 0, 0]);
    assert_eq!(cs.b_input_density.get_total_density(), 1);
    assert!(cs.b_input_density.get(0));
}

fn multiplication(z: u64) -> ProvingAssignment {
    let mut cs = ProvingAssignment::new();
    let zv = cs.alloc_aux(s(z));
    let x = cs.alloc_input(s(2));
    let y = cs.alloc_input(s(3));
    cs.enforce(
        &LinearCombination::zero().add_var(x),
        &LinearCombination::zero().add_var(y),
        &LinearCombination::zero().add_var(zv),
    );
    cs
}

#[test]
fn multiplication_circuit() {
    assert!(multiplication(6).is_satisfied());
    assert!(!multiplication(7).is_satisfied());
}

#[test]
fn density_skips_aux_wires_not_in_b() {
    let mut cs = ProvingAssignment::new();
    let wires: Vec<Coefficient> = (0..4).map(|i| cs.alloc_aux(s(i + 1))).collect();
    // wires 0 and 1 appear only in A; wires 2 and 3 also appear in B
    let a = LinearCombination::zero().add_var(wires[0]).add_var(wires[1]).add_var(wires[2]);
    let b = LinearCombination::zero().add_var(wires[2]).add_var(wires[3]);
    let c = LinearCombination::zero();
    cs.enforce(&a, &b, &c);
    assert_eq!(cs.b_aux_density.get_total_density(), 2);
    assert_eq!(cs.a_aux_density.get_total_density(), 3);
    assert!(!cs.b_aux_density.get(0));
    assert!(cs.b_aux_density.get(3));
    assert_eq!(cs.b_input_density.get_total_density(), 0);
}

#[test]
fn unconstrained_assignment_has_no_rows() {
    let mut cs = ProvingAssignment::new();
    cs.alloc_aux(s(5));
    assert!(cs.is_satisfied());
    assert_eq!(cs.aux.len(), 1);
    assert_eq!(cs.a_aux_density.get_total_density(), 0);
}
