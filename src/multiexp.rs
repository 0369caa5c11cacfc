use crate::density::{popcount, DensityTracker};
use crate::error::SynthesisError;
use crate::group::{g1_identity_encoding, g1_scaled, g1_sum, g2_identity_encoding, g2_scaled, g2_sum, G1Point, G2Point};
use crate::linear::values;
use crate::scalar::{all_wf, Scalar};
use vstd::prelude::*;

verus! {

/// Which positions take part: all of them without a density.
pub open spec fn mask_of(density: Option<&DensityTracker>, n: nat) -> Seq<bool> {
    match density {
        None => Seq::new(n, |i: int| true),
        Some(d) => d@,
    }
}

/// The views of a vector of G1 points.
pub open spec fn g1_views(v: Seq<G1Point>) -> Seq<Seq<u8>> {
    v.map_values(|p: G1Point| p@)
}

/// Every point of the vector is a well-formed point of G1.
pub open spec fn g1_all_wf(v: Seq<G1Point>) -> bool {
    forall|i: int| 0 <= i < v.len() ==> (#[trigger] v[i]).wf()
}

/// The multi-exponentiation over the first `n` scalars: each scalar whose
/// position is marked consumes the next base; a zero scalar skips it, any
/// other adds base times scalar to the sum. The result is the sum and the
/// number of bases consumed.
pub open spec fn g1_msm(bases: Seq<Seq<u8>>, mask: Seq<bool>, scalars: Seq<int>, n: nat) -> Result<
    (Seq<u8>, nat),
    SynthesisError,
>
    decreases n,
{
    if n == 0 {
        Ok((g1_identity_encoding(), 0nat))
    } else {
        match g1_msm(bases, mask, scalars, (n - 1) as nat) {
            Err(e) => Err(e),
            Ok((acc, j)) => {
                let k = scalars[n - 1];
                if !mask[n - 1] {
                    Ok((acc, j))
                } else if j >= bases.len() {
                    Err(SynthesisError::AssignmentMissing)
                } else if k == 0 {
                    Ok((acc, j + 1))
                } else if bases[j as int] == g1_identity_encoding() {
                    Err(SynthesisError::UnexpectedIdentity)
                } else {
                    Ok((g1_sum(acc, g1_scaled(bases[j as int], k)), j + 1))
                }
            },
        }
    }
}

/// A successful multi-exponentiation consumes exactly one base per marked
/// position: as many as the density counts.
pub proof fn lemma_g1_msm_consumes_marked(bases: Seq<Seq<u8>>, mask: Seq<bool>, scalars: Seq<int>, n: nat)
    requires
        n <= mask.len(),
        n <= scalars.len(),
    ensures
        g1_msm(bases, mask, scalars, n) matches Ok((_, j)) ==> j == popcount(mask.take(n as int)),
    decreases n,
{
    if n > 0 {
        lemma_g1_msm_consumes_marked(bases, mask, scalars, (n - 1) as nat);
        assert(mask.take(n as int).drop_last() =~= mask.take(n - 1));
        assert(mask.take(n as int).last() == mask[n - 1]);
    } else {
        assert(mask.take(0) =~= Seq::<bool>::empty());
    }
}

/// Once the multi-exponentiation fails, it fails the same way on every longer prefix.
pub proof fn lemma_g1_msm_err_sticks(bases: Seq<Seq<u8>>, mask: Seq<bool>, scalars: Seq<int>, i: nat, n: nat)
    requires
        i <= n,
        g1_msm(bases, mask, scalars, i).is_err(),
    ensures
        g1_msm(bases, mask, scalars, n) == g1_msm(bases, mask, scalars, i),
    decreases n - i,
{
    if i < n {
        lemma_g1_msm_err_sticks(bases, mask, scalars, i, (n - 1) as nat);
    }
}

/// The sum of `scalars[i]` times the next base, over the positions that
/// `density` marks (every position where it is `None`).
pub fn g1_multiexp(bases: &Vec<G1Point>, density: Option<&DensityTracker>, scalars: &Vec<Scalar>) -> (r:
    Result<G1Point, SynthesisError>)
    requires
        g1_all_wf(bases@),
        all_wf(scalars@),
        density.is_some() ==> density.unwrap()@.len() == scalars@.len(),
    ensures
        match g1_msm(g1_views(bases@), mask_of(density, scalars@.len()), values(scalars@), scalars@.len()) {
            Ok((acc, _)) => r.is_ok() && r.unwrap()@ == acc && r.unwrap().wf(),
            Err(e) => r == Err::<G1Point, SynthesisError>(e),
        },
{
    let ghost bv = g1_views(bases@);
    let ghost mask = mask_of(density, scalars@.len());
    let ghost ks = values(scalars@);
    let mut acc = G1Point::zero();
    let mut j: usize = 0;
    let mut i: usize = 0;
    while i < scalars.len()
        invariant
            g1_all_wf(bases@),
            all_wf(scalars@),
            density.is_some() ==> density.unwrap()@.len() == scalars@.len(),
            bv == g1_views(bases@),
            mask == mask_of(density, scalars@.len()),
            ks == values(scalars@),
            i <= scalars@.len(),
            j <= bases@.len(),
            acc.wf(),
            g1_msm(bv, mask, ks, i as nat) == Ok::<(Seq<u8>, nat), SynthesisError>((acc@, j as nat)),
        decreases scalars@.len() - i,
    {
        let marked = match density {
            None => true,
            Some(d) => d.get(i),
        };
        assert(marked == mask[i as int]);
        assert(((i + 1) as nat - 1) as nat == i as nat);
        if marked {
            if j >= bases.len() {
                proof {
                    lemma_g1_msm_err_sticks(bv, mask, ks, (i + 1) as nat, scalars@.len());
                }
                return Err(SynthesisError::AssignmentMissing);
            }
            if scalars[i].is_zero() {
                j = j + 1;
            } else {
                if bases[j].is_zero() {
                    proof {
                        lemma_g1_msm_err_sticks(bv, mask, ks, (i + 1) as nat, scalars@.len());
                    }
                    return Err(SynthesisError::UnexpectedIdentity);
                }
                let t = bases[j].mul(&scalars[i]);
                acc = acc.add(&t);
                j = j + 1;
            }
        }
        i = i + 1;
    }
    Ok(acc)
}

/// The views of a vector of G2 points.
pub open spec fn g2_views(v: Seq<G2Point>) -> Seq<Seq<u8>> {
    v.map_values(|p: G2Point| p@)
}

/// Every point of the vector is a well-formed point of G2.
pub open spec fn g2_all_wf(v: Seq<G2Point>) -> bool {
    forall|i: int| 0 <= i < v.len() ==> (#[trigger] v[i]).wf()
}

/// The multi-exponentiation over the first `n` scalars: each scalar whose
/// position is marked consumes the next base; a zero scalar skips it, any
/// other adds base times scalar to the sum. The result is the sum and the
/// number of bases consumed.
pub open spec fn g2_msm(bases: Seq<Seq<u8>>, mask: Seq<bool>, scalars: Seq<int>, n: nat) -> Result<
    (Seq<u8>, nat),
    SynthesisError,
>
    decreases n,
{
    if n == 0 {
        Ok((g2_identity_encoding(), 0nat))
    } else {
        match g2_msm(bases, mask, scalars, (n - 1) as nat) {
            Err(e) => Err(e),
            Ok((acc, j)) => {
                let k = scalars[n - 1];
                if !mask[n - 1] {
                    Ok((acc, j))
                } else if j >= bases.len() {
                    Err(SynthesisError::AssignmentMissing)
                } else if k == 0 {
                    Ok((acc, j + 1))
                } else if bases[j as int] == g2_identity_encoding() {
                    Err(SynthesisError::UnexpectedIdentity)
                } else {
                    Ok((g2_sum(acc, g2_scaled(bases[j as int], k)), j + 1))
                }
            },
        }
    }
}

/// A successful multi-exponentiation consumes exactly one base per marked
/// position: as many as the density counts.
pub proof fn lemma_g2_msm_consumes_marked(bases: Seq<Seq<u8>>, mask: Seq<bool>, scalars: Seq<int>, n: nat)
    requires
        n <= mask.len(),
        n <= scalars.len(),
    ensures
        g2_msm(bases, mask, scalars, n) matches Ok((_, j)) ==> j == popcount(mask.take(n as int)),
    decreases n,
{
    if n > 0 {
        lemma_g2_msm_consumes_marked(bases, mask, scalars, (n - 1) as nat);
        assert(mask.take(n as int).drop_last() =~= mask.take(n - 1));
        assert(mask.take(n as int).last() == mask[n - 1]);
    } else {
        assert(mask.take(0) =~= Seq::<bool>::empty());
    }
}

/// Once the multi-exponentiation fails, it fails the same way on every longer prefix.
pub proof fn lemma_g2_msm_err_sticks(bases: Seq<Seq<u8>>, mask: Seq<bool>, scalars: Seq<int>, i: nat, n: nat)
    requires
        i <= n,
        g2_msm(bases, mask, scalars, i).is_err(),
    ensures
        g2_msm(bases, mask, scalars, n) == g2_msm(bases, mask, scalars, i),
    decreases n - i,
{
    if i < n {
        lemma_g2_msm_err_sticks(bases, mask, scalars, i, (n - 1) as nat);
    }
}

/// The sum of `scalars[i]` times the next base, over the positions that
/// `density` marks (every position where it is `None`).
pub fn g2_multiexp(bases: &Vec<G2Point>, density: Option<&DensityTracker>, scalars: &Vec<Scalar>) -> (r:
    Result<G2Point, SynthesisError>)
    requires
        g2_all_wf(bases@),
        all_wf(scalars@),
        density.is_some() ==> density.unwrap()@.len() == scalars@.len(),
    ensures
        match g2_msm(g2_views(bases@), mask_of(density, scalars@.len()), values(scalars@), scalars@.len()) {
            Ok((acc, _)) => r.is_ok() && r.unwrap()@ == acc && r.unwrap().wf(),
            Err(e) => r == Err::<G2Point, SynthesisError>(e),
        },
{
    let ghost bv = g2_views(bases@);
    let ghost mask = mask_of(density, scalars@.len());
    let ghost ks = values(scalars@);
    let mut acc = G2Point::zero();
    let mut j: usize = 0;
    let mut i: usize = 0;
    while i < scalars.len()
        invariant
            g2_all_wf(bases@),
            all_wf(scalars@),
            density.is_some() ==> density.unwrap()@.len() == scalars@.len(),
            bv == g2_views(bases@),
            mask == mask_of(density, scalars@.len()),
            ks == values(scalars@),
            i <= scalars@.len(),
            j <= bases@.len(),
            acc.wf(),
            g2_msm(bv, mask, ks, i as nat) == Ok::<(Seq<u8>, nat), SynthesisError>((acc@, j as nat)),
        decreases scalars@.len() - i,
    {
        let marked = match density {
            None => true,
            Some(d) => d.get(i),
        };
        assert(marked == mask[i as int]);
        assert(((i + 1) as nat - 1) as nat == i as nat);
        if marked {
            if j >= bases.len() {
                proof {
                    lemma_g2_msm_err_sticks(bv, mask, ks, (i + 1) as nat, scalars@.len());
                }
                return Err(SynthesisError::AssignmentMissing);
            }
            if scalars[i].is_zero() {
                j = j + 1;
            } else {
                if bases[j].is_zero() {
                    proof {
                        lemma_g2_msm_err_sticks(bv, mask, ks, (i + 1) as nat, scalars@.len());
                    }
                    return Err(SynthesisError::UnexpectedIdentity);
                }
                let t = bases[j].mul(&scalars[i]);
                acc = acc.add(&t);
                j = j + 1;
            }
        }
        i = i + 1;
    }
    Ok(acc)
}

} // verus!
