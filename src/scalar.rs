use ff::{Field, PrimeField};
use pairing::bls12_381::{Fr, FrRepr};
use vstd::arithmetic::div_mod::lemma_fundamental_div_mod_converse;
use vstd::prelude::*;

verus! {

/// The order r of the scalar field of BLS12-381.
pub open spec fn fr_modulus() -> int {
    52435875175126190479447740508185965837690552500527637822603658699938581184513int
}

pub open spec fn limb_base() -> int {
    0x1_0000_0000_0000_0000int
}

/// The integer that four little-endian 64-bit limbs stand for.
pub open spec fn limbs_value(l: Seq<u64>) -> int {
    l[0] as int + limb_base() * (l[1] as int + limb_base() * (l[2] as int + limb_base() * l[3] as int))
}

/// Two limb sequences that stand for the same integer are the same limbs.
pub proof fn lemma_limbs_unique(a: Seq<u64>, b: Seq<u64>)
    requires
        a.len() == 4,
        b.len() == 4,
        limbs_value(a) == limbs_value(b),
    ensures
        a == b,
{
    let B = limb_base();
    let ra2 = a[2] as int + B * a[3] as int;
    let rb2 = b[2] as int + B * b[3] as int;
    let ra1 = a[1] as int + B * ra2;
    let rb1 = b[1] as int + B * rb2;
    let v = limbs_value(a);
    assert(v == ra1 * B + a[0] as int) by (nonlinear_arith)
        requires
            v == a[0] as int + B * ra1,
    ;
    assert(v == rb1 * B + b[0] as int) by (nonlinear_arith)
        requires
            v == b[0] as int + B * rb1,
    ;
    lemma_fundamental_div_mod_converse(v, B, ra1, a[0] as int);
    lemma_fundamental_div_mod_converse(v, B, rb1, b[0] as int);
    assert(ra1 == ra2 * B + a[1] as int) by (nonlinear_arith)
        requires
            ra1 == a[1] as int + B * ra2,
    ;
    assert(rb1 == rb2 * B + b[1] as int) by (nonlinear_arith)
        requires
            rb1 == b[1] as int + B * rb2,
    ;
    lemma_fundamental_div_mod_converse(ra1, B, ra2, a[1] as int);
    lemma_fundamental_div_mod_converse(ra1, B, rb2, b[1] as int);
    assert(ra2 == a[3] as int * B + a[2] as int) by (nonlinear_arith)
        requires
            ra2 == a[2] as int + B * a[3] as int,
    ;
    assert(rb2 == b[3] as int * B + b[2] as int) by (nonlinear_arith)
        requires
            rb2 == b[2] as int + B * b[3] as int,
    ;
    lemma_fundamental_div_mod_converse(ra2, B, a[3] as int, a[2] as int);
    lemma_fundamental_div_mod_converse(ra2, B, b[3] as int, b[2] as int);
    assert(a =~= b);
}

/// Additive inverse modulo r of a canonical value.
pub open spec fn neg_mod(v: int) -> int {
    (fr_modulus() - v) % fr_modulus()
}

/// Every scalar of the sequence is canonical.
pub open spec fn all_wf(v: Seq<Scalar>) -> bool {
    forall|i: int| 0 <= i < v.len() ==> (#[trigger] v[i]).wf()
}

/// An element of the scalar field, held in canonical (non-Montgomery) form as
/// four little-endian 64-bit limbs.
#[derive(Clone, Copy, Debug)]
pub struct Scalar {
    pub limbs: [u64; 4],
}

impl Scalar {
    pub open spec fn value(&self) -> int {
        limbs_value(self.limbs@)
    }

    /// The limbs encode a canonical residue, below r.
    pub open spec fn wf(&self) -> bool {
        self.value() < fr_modulus()
    }

    pub fn zero() -> (r: Scalar)
        ensures
            r.wf(),
            r.value() == 0,
    {
        Scalar { limbs: [0u64, 0u64, 0u64, 0u64] }
    }

    pub fn one() -> (r: Scalar)
        ensures
            r.wf(),
            r.value() == 1,
    {
        Scalar { limbs: [1u64, 0u64, 0u64, 0u64] }
    }

    pub fn from_u64(v: u64) -> (r: Scalar)
        ensures
            r.wf(),
            r.value() == v,
    {
        Scalar { limbs: [v, 0u64, 0u64, 0u64] }
    }

    /// The four little-endian limbs of the canonical representation.
    pub fn to_limbs(&self) -> (r: [u64; 4])
        ensures
            r@ == self.limbs@,
    {
        self.limbs
    }

    pub fn is_zero(&self) -> (r: bool)
        ensures
            r == (self.value() == 0),
    {
        let r = self.limbs[0] == 0 && self.limbs[1] == 0 && self.limbs[2] == 0 && self.limbs[3] == 0;
        proof {
            let l = self.limbs@;
            let b = limb_base();
            assert(b > 0);
            assert(l[3] as int * b >= 0) by (nonlinear_arith)
                requires
                    l[3] >= 0,
                    b > 0,
            ;
            let t2 = l[2] as int + b * l[3] as int;
            assert(b * t2 >= 0) by (nonlinear_arith)
                requires
                    t2 >= 0,
                    b > 0,
            ;
            let t1 = l[1] as int + b * t2;
            assert(b * t1 >= 0) by (nonlinear_arith)
                requires
                    t1 >= 0,
                    b > 0,
            ;
            if self.value() == 0 {
                assert(t1 == 0 && l[0] == 0);
                assert(b * t2 == 0);
                assert(t2 == 0) by (nonlinear_arith)
                    requires
                        b * t2 == 0,
                        b > 0,
                ;
                assert(l[1] == 0);
                assert(l[3] == 0) by (nonlinear_arith)
                    requires
                        l[2] as int + b * l[3] as int == 0,
                        l[2] >= 0,
                        l[3] >= 0,
                        b > 0,
                ;
            }
        }
        r
    }
}

/// Relies on `Fr::from_repr` (canonical limbs in), ff's `Field::add_assign`
/// for `pairing::bls12_381::Fr` (addition modulo r) and `Fr::into_repr`
/// (canonical limbs out).
#[verifier::external_body]
pub(crate) fn fr_add(a: &Scalar, b: &Scalar) -> (r: Scalar)
    requires
        a.wf(),
        b.wf(),
    ensures
        r.wf(),
        r.value() == (a.value() + b.value()) % fr_modulus(),
{
    let mut x = Fr::from_repr(FrRepr(a.limbs)).unwrap();
    let y = Fr::from_repr(FrRepr(b.limbs)).unwrap();
    x.add_assign(&y);
    Scalar { limbs: x.into_repr().0 }
}

/// Relies on `Fr::from_repr`, ff's `Field::mul_assign` for
/// `pairing::bls12_381::Fr` (multiplication modulo r) and `Fr::into_repr`.
#[verifier::external_body]
pub(crate) fn fr_mul(a: &Scalar, b: &Scalar) -> (r: Scalar)
    requires
        a.wf(),
        b.wf(),
    ensures
        r.wf(),
        r.value() == (a.value() * b.value()) % fr_modulus(),
{
    let mut x = Fr::from_repr(FrRepr(a.limbs)).unwrap();
    let y = Fr::from_repr(FrRepr(b.limbs)).unwrap();
    x.mul_assign(&y);
    Scalar { limbs: x.into_repr().0 }
}

/// Relies on `Fr::from_repr`, ff's `Field::negate` for
/// `pairing::bls12_381::Fr` (additive inverse modulo r) and `Fr::into_repr`.
#[verifier::external_body]
pub(crate) fn fr_neg(a: &Scalar) -> (r: Scalar)
    requires
        a.wf(),
    ensures
        r.wf(),
        r.value() == neg_mod(a.value()),
{
    let mut x = Fr::from_repr(FrRepr(a.limbs)).unwrap();
    x.negate();
    Scalar { limbs: x.into_repr().0 }
}

impl Scalar {
    /// Whether two canonical scalars are the same field element.
    pub fn equals(&self, other: &Scalar) -> (r: bool)
        ensures
            r == (self.value() == other.value()),
    {
        let r = self.limbs[0] == other.limbs[0] && self.limbs[1] == other.limbs[1] && self.limbs[2]
            == other.limbs[2] && self.limbs[3] == other.limbs[3];
        proof {
            if self.value() == other.value() {
                lemma_limbs_unique(self.limbs@, other.limbs@);
            }
        }
        r
    }

    pub fn add(&self, other: &Scalar) -> (r: Scalar)
        requires
            self.wf(),
            other.wf(),
        ensures
            r.wf(),
            r.value() == (self.value() + other.value()) % fr_modulus(),
    {
        fr_add(self, other)
    }

    pub fn mul(&self, other: &Scalar) -> (r: Scalar)
        requires
            self.wf(),
            other.wf(),
        ensures
            r.wf(),
            r.value() == (self.value() * other.value()) % fr_modulus(),
    {
        fr_mul(self, other)
    }

    pub fn neg(&self) -> (r: Scalar)
        requires
            self.wf(),
        ensures
            r.wf(),
            r.value() == neg_mod(self.value()),
    {
        fr_neg(self)
    }
}

} // verus!
