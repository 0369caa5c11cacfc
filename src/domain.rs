use crate::error::SynthesisError;
use ff::PrimeField;
use pairing::bls12_381::Fr;
use vstd::arithmetic::power2::{lemma2_to64, lemma_pow2_unfold, pow2};
use vstd::prelude::*;

verus! {

/// Relies on ff's `PrimeField::S` for `pairing::bls12_381::Fr`: the largest
/// `s` with `2^s` dividing `r - 1`, which is 32 for the BLS12-381 scalar field
/// (the low limb of `r - 1` is `0xffffffff00000000`).
#[verifier::external_body]
fn fr_two_adicity() -> (r: u32)
    ensures
        r == 32,
{
    Fr::S
}

/// The size of the evaluation domain for `n` coefficients: the smallest power
/// of two `m = 2^exp` with `n <= m`, together with `exp`. The field holds
/// roots of unity of order up to `2^31` only: a larger `n` is rejected.
pub fn domain_size(n: usize) -> (r: Result<(usize, u32), SynthesisError>)
    ensures
        r.is_err() == (n > pow2(31)),
        r.is_err() ==> r == Err::<(usize, u32), SynthesisError>(SynthesisError::PolynomialDegreeTooLarge),
        r.is_ok() ==> {
            let (m, exp) = r.unwrap();
            &&& m == pow2(exp as nat)
            &&& n <= m
            &&& exp == 0 || pow2((exp - 1) as nat) < n
        },
{
    let s = fr_two_adicity();
    proof {
        lemma2_to64();
    }
    let mut m: usize = 1;
    let mut exp: u32 = 0;
    while m < n
        invariant
            s == 32,
            exp <= 31,
            m == pow2(exp as nat),
            exp == 0 || pow2((exp - 1) as nat) < n,
        decreases 32 - exp,
    {
        if exp + 1 >= s {
            return Err(SynthesisError::PolynomialDegreeTooLarge);
        }
        proof {
            lemma_pow2_unfold((exp + 1) as nat);
            lemma2_to64();
        }
        m = m * 2;
        exp = exp + 1;
    }
    proof {
        if exp == 31 {
            lemma2_to64();
        }
    }
    Ok((m, exp))
}

} // verus!
