use bellman_core::linear::{Coefficient, Index, LinearCombination};
use bellman_core::scalar::Scalar;

fn s(v: u64) -> Scalar {
    Scalar::from_u64(v)
}

fn minus_one_limbs() -> [u64; 4] {
    [0xffffffff00000000, 0x53bda402fffe5bfe, 0x3339d80809a1d805, 0x73eda753299d7d48]
}

#[test]
fn scalar_add_mul_neg_exact() {
    assert_eq!(s(2).add(&s(3)).to_limbs(), [5, 0, 0, 0]);
    assert_eq!(s(7).mul(&s(6)).to_limbs(), [42, 0, 0, 0]);
    assert_eq!(s(1).neg().to_limbs(), minus_one_limbs());
    assert!(s(0).neg().is_zero());
    let m1 = Scalar { limbs: minus_one_limbs() };
    assert!(m1.add(&s(1)).is_zero());
    assert_eq!(m1.mul(&m1).to_limbs(), [1, 0, 0, 0]);
}

#[test]
fn scalar_equals_compares_values() {
    assert!(s(9).equals(&s(4).add(&s(5))));
    assert!(!s(9).equals(&s(8)));
}

#[test]
fn coefficient_round_trip() {
    let c = Coefficient::new_unchecked(Index::Aux(4));
    assert_eq!(c.get_unchecked(), Index::Aux(4));
    assert_ne!(c.get_unchecked(), Index::Input(4));
}

#[test]
fn add_then_sub_term_cancels() {
    let inputs = vec![s(1), s(5)];
    let aux = vec![s(11)];
    let x = Coefficient::new_unchecked(Index::Input(1));
    let z = Coefficient::new_unchecked(Index::Aux(0));
    let lc = LinearCombination::zero().add_term(s(3), x);
    let before = lc.evaluate(&inputs, &aux);
    assert_eq!(before.to_limbs(), [15, 0, 0, 0]);
    let lc = lc.add_term(s(7), z).sub_term(s(7), z);
    assert_eq!(lc.as_ref().len(), 3);
    assert_eq!(lc.evaluate(&inputs, &aux).to_limbs(), before.to_limbs());
}

#[test]
fn add_scaled_distributes() {
    let inputs = vec![s(1), s(2), s(3)];
    let aux = vec![s(4), s(5)];
    let lc1 = LinearCombination::zero()
        .add_var(Coefficient::new_unchecked(Index::Input(1)))
        .add_term(s(2), Coefficient::new_unchecked(Index::Aux(0)));
    let lc2 = LinearCombination::zero()
        .add_term(s(3), Coefficient::new_unchecked(Index::Input(2)))
        .add_var(Coefficient::new_unchecked(Index::Aux(1)));
    let e1 = lc1.evaluate(&inputs, &aux);
    let e2 = lc2.evaluate(&inputs, &aux);
    assert_eq!(e1.to_limbs(), [10, 0, 0, 0]);
    assert_eq!(e2.to_limbs(), [14, 0, 0, 0]);
    let combined = lc1.add_scaled(s(10), &lc2);
    assert_eq!(combined.evaluate(&inputs, &aux).to_limbs(), [150, 0, 0, 0]);
    assert_eq!(e1.add(&s(10).mul(&e2)).to_limbs(), [150, 0, 0, 0]);
}

#[test]
fn sub_lc_and_sub_scaled() {
    let inputs = vec![s(1), s(9)];
    let aux: Vec<Scalar> = vec![];
    let x = Coefficient::new_unchecked(Index::Input(1));
    let lc = LinearCombination::zero().add_term(s(5), x);
    let other = LinearCombination::zero().add_var(x);
    assert_eq!(lc.clone().sub_lc(&other).evaluate(&inputs, &aux).to_limbs(), [36, 0, 0, 0]);
    assert_eq!(lc.clone().add_lc(&other).evaluate(&inputs, &aux).to_limbs(), [54, 0, 0, 0]);
    assert_eq!(lc.sub_scaled(s(2), &other).evaluate(&inputs, &aux).to_limbs(), [27, 0, 0, 0]);
    let neg = LinearCombination::zero().sub_var(x);
    assert!(neg.evaluate(&inputs, &aux).add(&s(9)).is_zero());
}

#[test]
fn duplicates_are_kept_and_summed() {
    let inputs = vec![s(1)];
    let aux = vec![s(6)];
    let z = Coefficient::new_unchecked(Index::Aux(0));
    let lc = LinearCombination::zero().add_var(z).add_var(z);
    assert_eq!(lc.as_ref().len(), 2);
    assert_eq!(lc.evaluate(&inputs, &aux).to_limbs(), [12, 0, 0, 0]);
}

#[test]
fn term_order_is_irrelevant() {
    let inputs = vec![s(1), s(2), s(3)];
    let aux: Vec<Scalar> = vec![];
    let x = Coefficient::new_unchecked(Index::Input(1));
    let y = Coefficient::new_unchecked(Index::Input(2));
    let xy = LinearCombination::zero().add_var(x).add_var(y);
    let yx = LinearCombination::zero().add_var(y).add_var(x);
    assert_eq!(xy.evaluate(&inputs, &aux).to_limbs(), yx.evaluate(&inputs, &aux).to_limbs());
    assert_eq!(xy.evaluate(&inputs, &aux).to_limbs(), [5, 0, 0, 0]);
}

#[test]
fn unassigned_wire_counts_as_zero() {
    let lc = LinearCombination::zero().add_var(Coefficient::new_unchecked(Index::Aux(3)));
    assert!(lc.evaluate(&vec![s(1)], &vec![]).is_zero());
}
