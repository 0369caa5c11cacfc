use crate::scalar::Scalar;
use group::{CurveAffine, CurveProjective, EncodedPoint};
use pairing::bls12_381::{FrRepr, G1Affine, G1Uncompressed, G2Affine, G2Uncompressed};
use vstd::prelude::*;

verus! {

/// The uncompressed encoding of the point at infinity of G1: the infinity
/// flag (0x40) in the first byte, every other bit zero.
pub open spec fn g1_identity_encoding() -> Seq<u8> {
    Seq::new(96nat, |i: int| if i == 0 { 0x40u8 } else { 0u8 })
}

/// Whether `into_affine` of pairing's `G1Uncompressed` accepts the bytes: a
/// point on the curve, in the prime-order subgroup.
pub uninterp spec fn g1_decodes(b: Seq<u8>) -> bool;

/// The encoding of the sum of two encoded points.
pub uninterp spec fn g1_sum(a: Seq<u8>, b: Seq<u8>) -> Seq<u8>;

/// The encoding of an encoded point multiplied by a scalar.
pub uninterp spec fn g1_scaled(p: Seq<u8>, k: int) -> Seq<u8>;

/// Relies on `G1Uncompressed::into_affine` of pairing: whether the bytes decode.
#[verifier::external_body]
fn g1_check(b: &Vec<u8>) -> (r: bool)
    requires
        b@.len() == 96,
    ensures
        r == g1_decodes(b@),
{
    let mut e = G1Uncompressed::empty();
    e.as_mut().copy_from_slice(b.as_slice());
    e.into_affine().is_ok()
}

/// Relies on group's `CurveAffine::zero` and `into_uncompressed` for
/// pairing's `G1Affine`: the encoding of the point at infinity.
#[verifier::external_body]
fn g1_zero() -> (r: Vec<u8>)
    ensures
        r@ == g1_identity_encoding(),
        g1_decodes(r@),
{
    G1Affine::zero().into_uncompressed().as_ref().to_vec()
}

/// Relies on group's `CurveAffine::one` for pairing's `G1Affine`: the fixed
/// generator of the group, which is not the point at infinity.
#[verifier::external_body]
fn g1_one() -> (r: Vec<u8>)
    ensures
        r@ != g1_identity_encoding(),
        r@.len() == 96,
        g1_decodes(r@),
{
    G1Affine::one().into_uncompressed().as_ref().to_vec()
}

/// Relies on group's `CurveProjective::add_assign_mixed` for pairing's `G1`:
/// the group sum of two decodable points, encoded again. Adding the point at
/// infinity on either side returns the other point unchanged, and the
/// uncompressed encoding of a point is unique.
#[verifier::external_body]
fn g1_add(a: &Vec<u8>, b: &Vec<u8>) -> (r: Vec<u8>)
    requires
        a@.len() == 96,
        b@.len() == 96,
        g1_decodes(a@),
        g1_decodes(b@),
    ensures
        r@ == g1_sum(a@, b@),
        a@ == g1_identity_encoding() ==> r@ == b@,
        b@ == g1_identity_encoding() ==> r@ == a@,
        r@.len() == 96,
        g1_decodes(r@),
{
    let mut ea = G1Uncompressed::empty();
    ea.as_mut().copy_from_slice(a.as_slice());
    let mut eb = G1Uncompressed::empty();
    eb.as_mut().copy_from_slice(b.as_slice());
    let mut p = ea.into_affine().unwrap().into_projective();
    p.add_assign_mixed(&eb.into_affine().unwrap());
    p.into_affine().into_uncompressed().as_ref().to_vec()
}

/// Relies on group's `CurveAffine::mul` for pairing's `G1Affine`: a
/// decodable point multiplied by the canonical representation of a scalar;
/// the double-and-add starts at zero, so the scalar zero gives the point at
/// infinity.
#[verifier::external_body]
fn g1_mul(p: &Vec<u8>, k: &Scalar) -> (r: Vec<u8>)
    requires
        p@.len() == 96,
        g1_decodes(p@),
        k.wf(),
    ensures
        r@ == g1_scaled(p@, k.value()),
        k.value() == 0 ==> r@ == g1_identity_encoding(),
        r@.len() == 96,
        g1_decodes(r@),
{
    let mut e = G1Uncompressed::empty();
    e.as_mut().copy_from_slice(p.as_slice());
    e.into_affine().unwrap().mul(FrRepr(k.limbs)).into_affine().into_uncompressed().as_ref().to_vec()
}

/// A point of G1, held as its uncompressed affine encoding.
#[derive(Debug)]
pub struct G1Point {
    bytes: Vec<u8>,
}

impl View for G1Point {
    type V = Seq<u8>;

    closed spec fn view(&self) -> Seq<u8> {
        self.bytes@
    }
}

impl G1Point {
    /// The encoding has the right length and decodes to a point of the group.
    pub open spec fn wf(&self) -> bool {
        self@.len() == 96 && g1_decodes(self@)
    }

    /// The point that the bytes encode, if they encode one.
    pub fn from_bytes(bytes: Vec<u8>) -> (r: Option<G1Point>)
        ensures
            r.is_some() == (bytes@.len() == 96 && g1_decodes(bytes@)),
            r.is_some() ==> r.unwrap()@ == bytes@ && r.unwrap().wf(),
    {
        if bytes.len() != 96 {
            return None;
        }
        if g1_check(&bytes) {
            let r = G1Point { bytes };
            proof {
                assert(r@ == bytes@);
            }
            Some(r)
        } else {
            None
        }
    }

    /// The uncompressed encoding.
    pub fn to_bytes(&self) -> (r: Vec<u8>)
        ensures
            r@ == self@,
    {
        self.bytes.clone()
    }

    /// The point at infinity.
    pub fn zero() -> (r: G1Point)
        ensures
            r.wf(),
            r@ == g1_identity_encoding(),
    {
        G1Point { bytes: g1_zero() }
    }

    /// The fixed generator of the group.
    pub fn one() -> (r: G1Point)
        ensures
            r.wf(),
            r@ != g1_identity_encoding(),
    {
        G1Point { bytes: g1_one() }
    }

    pub fn copy(&self) -> (r: G1Point)
        ensures
            r@ == self@,
    {
        G1Point { bytes: self.bytes.clone() }
    }

    /// Whether the point is the point at infinity.
    pub fn is_zero(&self) -> (r: bool)
        requires
            self.wf(),
        ensures
            r == (self@ == g1_identity_encoding()),
    {
        let ghost id = g1_identity_encoding();
        if self.bytes[0] != 0x40u8 {
            assert(self@[0] != id[0]);
            return false;
        }
        let mut i: usize = 1;
        while i < 96
            invariant
                self@.len() == 96,
                1 <= i <= 96,
                self@[0] == 0x40u8,
                id.len() == self@.len(),
                forall|j: int| 1 <= j < id.len() ==> id[j] == 0u8,
                forall|j: int| 1 <= j < i ==> self@[j] == 0u8,
            decreases 96 - i,
        {
            if self.bytes[i] != 0u8 {
                assert(self@[i as int] != id[i as int]);
                return false;
            }
            i = i + 1;
        }
        assert(self@ =~= id);
        true
    }

    /// The group sum of two points.
    pub fn add(&self, other: &G1Point) -> (r: G1Point)
        requires
            self.wf(),
            other.wf(),
        ensures
            r.wf(),
            r@ == g1_sum(self@, other@),
            self@ == g1_identity_encoding() ==> r@ == other@,
            other@ == g1_identity_encoding() ==> r@ == self@,
    {
        G1Point { bytes: g1_add(&self.bytes, &other.bytes) }
    }

    /// The point multiplied by a scalar.
    pub fn mul(&self, k: &Scalar) -> (r: G1Point)
        requires
            self.wf(),
            k.wf(),
        ensures
            r.wf(),
            r@ == g1_scaled(self@, k.value()),
            k.value() == 0 ==> r@ == g1_identity_encoding(),
    {
        G1Point { bytes: g1_mul(&self.bytes, k) }
    }
}

/// The uncompressed encoding of the point at infinity of G2: the infinity
/// flag (0x40) in the first byte, every other bit zero.
pub open spec fn g2_identity_encoding() -> Seq<u8> {
    Seq::new(192nat, |i: int| if i == 0 { 0x40u8 } else { 0u8 })
}

/// Whether `into_affine` of pairing's `G2Uncompressed` accepts the bytes: a
/// point on the curve, in the prime-order subgroup.
pub uninterp spec fn g2_decodes(b: Seq<u8>) -> bool;

/// The encoding of the sum of two encoded points.
pub uninterp spec fn g2_sum(a: Seq<u8>, b: Seq<u8>) -> Seq<u8>;

/// The encoding of an encoded point multiplied by a scalar.
pub uninterp spec fn g2_scaled(p: Seq<u8>, k: int) -> Seq<u8>;

/// Relies on `G2Uncompressed::into_affine` of pairing: whether the bytes decode.
#[verifier::external_body]
fn g2_check(b: &Vec<u8>) -> (r: bool)
    requires
        b@.len() == 192,
    ensures
        r == g2_decodes(b@),
{
    let mut e = G2Uncompressed::empty();
    e.as_mut().copy_from_slice(b.as_slice());
    e.into_affine().is_ok()
}

/// Relies on group's `CurveAffine::zero` and `into_uncompressed` for
/// pairing's `G2Affine`: the encoding of the point at infinity.
#[verifier::external_body]
fn g2_zero() -> (r: Vec<u8>)
    ensures
        r@ == g2_identity_encoding(),
        g2_decodes(r@),
{
    G2Affine::zero().into_uncompressed().as_ref().to_vec()
}

/// Relies on group's `CurveAffine::one` for pairing's `G2Affine`: the fixed
/// generator of the group, which is not the point at infinity.
#[verifier::external_body]
fn g2_one() -> (r: Vec<u8>)
    ensures
        r@ != g2_identity_encoding(),
        r@.len() == 192,
        g2_decodes(r@),
{
    G2Affine::one().into_uncompressed().as_ref().to_vec()
}

/// Relies on group's `CurveProjective::add_assign_mixed` for pairing's `G2`:
/// the group sum of two decodable points, encoded again. Adding the point at
/// infinity on either side returns the other point unchanged, and the
/// uncompressed encoding of a point is unique.
#[verifier::external_body]
fn g2_add(a: &Vec<u8>, b: &Vec<u8>) -> (r: Vec<u8>)
    requires
        a@.len() == 192,
        b@.len() == 192,
        g2_decodes(a@),
        g2_decodes(b@),
    ensures
        r@ == g2_sum(a@, b@),
        a@ == g2_identity_encoding() ==> r@ == b@,
        b@ == g2_identity_encoding() ==> r@ == a@,
        r@.len() == 192,
        g2_decodes(r@),
{
    let mut ea = G2Uncompressed::empty();
    ea.as_mut().copy_from_slice(a.as_slice());
    let mut eb = G2Uncompressed::empty();
    eb.as_mut().copy_from_slice(b.as_slice());
    let mut p = ea.into_affine().unwrap().into_projective();
    p.add_assign_mixed(&eb.into_affine().unwrap());
    p.into_affine().into_uncompressed().as_ref().to_vec()
}

/// Relies on group's `CurveAffine::mul` for pairing's `G2Affine`: a
/// decodable point multiplied by the canonical representation of a scalar;
/// the double-and-add starts at zero, so the scalar zero gives the point at
/// infinity.
#[verifier::external_body]
fn g2_mul(p: &Vec<u8>, k: &Scalar) -> (r: Vec<u8>)
    requires
        p@.len() == 192,
        g2_decodes(p@),
        k.wf(),
    ensures
        r@ == g2_scaled(p@, k.value()),
        k.value() == 0 ==> r@ == g2_identity_encoding(),
        r@.len() == 192,
        g2_decodes(r@),
{
    let mut e = G2Uncompressed::empty();
    e.as_mut().copy_from_slice(p.as_slice());
    e.into_affine().unwrap().mul(FrRepr(k.limbs)).into_affine().into_uncompressed().as_ref().to_vec()
}

/// A point of G2, held as its uncompressed affine encoding.
#[derive(Debug)]
pub struct G2Point {
    bytes: Vec<u8>,
}

impl View for G2Point {
    type V = Seq<u8>;

    closed spec fn view(&self) -> Seq<u8> {
        self.bytes@
    }
}

impl G2Point {
    /// The encoding has the right length and decodes to a point of the group.
    pub open spec fn wf(&self) -> bool {
        self@.len() == 192 && g2_decodes(self@)
    }

    /// The point that the bytes encode, if they encode one.
    pub fn from_bytes(bytes: Vec<u8>) -> (r: Option<G2Point>)
        ensures
            r.is_some() == (bytes@.len() == 192 && g2_decodes(bytes@)),
            r.is_some() ==> r.unwrap()@ == bytes@ && r.unwrap().wf(),
    {
        if bytes.len() != 192 {
            return None;
        }
        if g2_check(&bytes) {
            let r = G2Point { bytes };
            proof {
                assert(r@ == bytes@);
            }
            Some(r)
        } else {
            None
        }
    }

    /// The uncompressed encoding.
    pub fn to_bytes(&self) -> (r: Vec<u8>)
        ensures
            r@ == self@,
    {
        self.bytes.clone()
    }

    /// The point at infinity.
    pub fn zero() -> (r: G2Point)
        ensures
            r.wf(),
            r@ == g2_identity_encoding(),
    {
        G2Point { bytes: g2_zero() }
    }

    /// The fixed generator of the group.
    pub fn one() -> (r: G2Point)
        ensures
            r.wf(),
            r@ != g2_identity_encoding(),
    {
        G2Point { bytes: g2_one() }
    }

    pub fn copy(&self) -> (r: G2Point)
        ensures
            r@ == self@,
    {
        G2Point { bytes: self.bytes.clone() }
    }

    /// Whether the point is the point at infinity.
    pub fn is_zero(&self) -> (r: bool)
        requires
            self.wf(),
        ensures
            r == (self@ == g2_identity_encoding()),
    {
        let ghost id = g2_identity_encoding();
        if self.bytes[0] != 0x40u8 {
            assert(self@[0] != id[0]);
            return false;
        }
        let mut i: usize = 1;
        while i < 192
            invariant
                self@.len() == 192,
                1 <= i <= 192,
                self@[0] == 0x40u8,
                id.len() == self@.len(),
                forall|j: int| 1 <= j < id.len() ==> id[j] == 0u8,
                forall|j: int| 1 <= j < i ==> self@[j] == 0u8,
            decreases 192 - i,
        {
            if self.bytes[i] != 0u8 {
                assert(self@[i as int] != id[i as int]);
                return false;
            }
            i = i + 1;
        }
        assert(self@ =~= id);
        true
    }

    /// The group sum of two points.
    pub fn add(&self, other: &G2Point) -> (r: G2Point)
        requires
            self.wf(),
            other.wf(),
        ensures
            r.wf(),
            r@ == g2_sum(self@, other@),
            self@ == g2_identity_encoding() ==> r@ == other@,
            other@ == g2_identity_encoding() ==> r@ == self@,
    {
        G2Point { bytes: g2_add(&self.bytes, &other.bytes) }
    }

    /// The point multiplied by a scalar.
    pub fn mul(&self, k: &Scalar) -> (r: G2Point)
        requires
            self.wf(),
            k.wf(),
        ensures
            r.wf(),
            r@ == g2_scaled(self@, k.value()),
            k.value() == 0 ==> r@ == g2_identity_encoding(),
    {
        G2Point { bytes: g2_mul(&self.bytes, k) }
    }
}

} // verus!
