use crate::assembly::ProvingAssignment;
use crate::context::{query_sums, Answer, Auxiliary};
use crate::error::SynthesisError;
use crate::group::{g1_identity_encoding, g1_scaled, g1_sum, g2_identity_encoding, g2_scaled, g2_sum, G1Point, G2Point};
use crate::linear::values;
use crate::multiexp::{g1_all_wf, g1_msm, g1_multiexp, g1_views, g2_all_wf, g2_views, mask_of};
use crate::scalar::{all_wf, fr_modulus, Scalar};
use vstd::prelude::*;

verus! {

/// The verifying key of the common reference string.
#[derive(Debug)]
pub struct VerifyingKey {
    pub alpha_g1: G1Point,
    pub beta_g1: G1Point,
    pub beta_g2: G2Point,
    pub gamma_g2: G2Point,
    pub delta_g1: G1Point,
    pub delta_g2: G2Point,
    pub ic: Vec<G1Point>,
}

impl VerifyingKey {
    pub open spec fn wf(&self) -> bool {
        &&& self.alpha_g1.wf()
        &&& self.beta_g1.wf()
        &&& self.beta_g2.wf()
        &&& self.gamma_g2.wf()
        &&& self.delta_g1.wf()
        &&& self.delta_g2.wf()
        &&& g1_all_wf(self.ic@)
    }

    /// A zero delta in either group means a subverted reference string.
    pub open spec fn is_subverted(&self) -> bool {
        self.delta_g1@ == g1_identity_encoding() || self.delta_g2@ == g2_identity_encoding()
    }
}

/// The query bases of the proving key, split into their input and auxiliary
/// parts.
pub struct ProvingQueries {
    pub h: Vec<G1Point>,
    pub l: Vec<G1Point>,
    pub a_input: Vec<G1Point>,
    pub a_aux: Vec<G1Point>,
    pub b1_input: Vec<G1Point>,
    pub b1_aux: Vec<G1Point>,
    pub b2_input: Vec<G2Point>,
    pub b2_aux: Vec<G2Point>,
}

impl ProvingQueries {
    pub open spec fn wf(&self) -> bool {
        &&& g1_all_wf(self.h@)
        &&& g1_all_wf(self.l@)
        &&& g1_all_wf(self.a_input@)
        &&& g1_all_wf(self.a_aux@)
        &&& g1_all_wf(self.b1_input@)
        &&& g1_all_wf(self.b1_aux@)
        &&& g2_all_wf(self.b2_input@)
        &&& g2_all_wf(self.b2_aux@)
    }
}

/// The sums that a proof is built from: `h` over the coefficients of the
/// quotient polynomial, `l` over the auxiliary assignment, then the input
/// sums, then the auxiliary sums; the first failure wins.
pub open spec fn prover_sums(q: &ProvingQueries, p: &ProvingAssignment, h_coeffs: Seq<int>) -> Result<
    (Seq<u8>, Seq<u8>, (Seq<u8>, Seq<u8>, Seq<u8>), (Seq<u8>, Seq<u8>, Seq<u8>)),
    SynthesisError,
> {
    let aux = values(p.aux@);
    let input = values(p.input@);
    let h = g1_msm(g1_views(q.h@), mask_of(None, h_coeffs.len()), h_coeffs, h_coeffs.len());
    let l = g1_msm(g1_views(q.l@), mask_of(None, aux.len()), aux, aux.len());
    let ans = query_sums(
        g1_views(q.a_input@),
        mask_of(None, input.len()),
        g1_views(q.b1_input@),
        g2_views(q.b2_input@),
        p.b_input_density@,
        input,
    );
    let aux_sums = query_sums(
        g1_views(q.a_aux@),
        p.a_aux_density@,
        g1_views(q.b1_aux@),
        g2_views(q.b2_aux@),
        p.b_aux_density@,
        aux,
    );
    match (h, l, ans, aux_sums) {
        (Err(e), _, _, _) => Err(e),
        (Ok(_), Err(e), _, _) => Err(e),
        (Ok(_), Ok(_), Err(e), _) => Err(e),
        (Ok(_), Ok(_), Ok(_), Err(e)) => Err(e),
        (Ok((h, _)), Ok((l, _)), Ok(ans), Ok(aux_sums)) => Ok((h, l, ans, aux_sums)),
    }
}

/// `A = delta_g1 * r + alpha_g1 + (answer.a + aux.a)`.
pub open spec fn proof_a(delta_g1: Seq<u8>, alpha_g1: Seq<u8>, ans_a: Seq<u8>, aux_a: Seq<u8>, r: int) -> Seq<u8> {
    g1_sum(g1_sum(g1_scaled(delta_g1, r), alpha_g1), g1_sum(ans_a, aux_a))
}

/// `B = delta_g2 * s + beta_g2 + (answer.b2 + aux.b2)`.
pub open spec fn proof_b(delta_g2: Seq<u8>, beta_g2: Seq<u8>, ans_b2: Seq<u8>, aux_b2: Seq<u8>, s: int) -> Seq<u8> {
    g2_sum(g2_sum(g2_scaled(delta_g2, s), beta_g2), g2_sum(ans_b2, aux_b2))
}

/// `C = delta_g1 * (r s) + alpha_g1 * s + beta_g1 * r + (answer.a + aux.a) * s
/// + (answer.b1 + aux.b1) * r + h + l`, summed in that order.
pub open spec fn proof_c(
    delta_g1: Seq<u8>,
    alpha_g1: Seq<u8>,
    beta_g1: Seq<u8>,
    a_total: Seq<u8>,
    b1_total: Seq<u8>,
    h: Seq<u8>,
    l: Seq<u8>,
    r: int,
    s: int,
) -> Seq<u8> {
    let base = g1_sum(
        g1_sum(g1_scaled(delta_g1, (r * s) % fr_modulus()), g1_scaled(alpha_g1, s)),
        g1_scaled(beta_g1, r),
    );
    g1_sum(g1_sum(g1_sum(g1_sum(base, g1_scaled(a_total, s)), g1_scaled(b1_total, r)), h), l)
}

/// Rejects a verifying key whose delta is the point at infinity.
fn try_vk(vk: VerifyingKey) -> (r: Result<VerifyingKey, SynthesisError>)
    requires
        vk.wf(),
    ensures
        vk.is_subverted() ==> r == Err::<VerifyingKey, SynthesisError>(SynthesisError::UnexpectedIdentity),
        !vk.is_subverted() ==> r == Ok::<VerifyingKey, SynthesisError>(vk),
{
    if vk.delta_g1.is_zero() || vk.delta_g2.is_zero() {
        Err(SynthesisError::UnexpectedIdentity)
    } else {
        Ok(vk)
    }
}

/// Everything a Groth16 proof is assembled from.
#[derive(Debug)]
pub struct Builder {
    pub vk: VerifyingKey,
    pub r: Scalar,
    pub s: Scalar,
    pub h: G1Point,
    pub l: G1Point,
    pub answer: Answer,
    pub aux: Auxiliary,
}

impl Builder {
    pub open spec fn wf(&self) -> bool {
        &&& self.vk.wf()
        &&& self.r.wf()
        &&& self.s.wf()
        &&& self.h.wf()
        &&& self.l.wf()
        &&& self.answer.wf()
        &&& self.aux.wf()
    }

    /// The proof `(A, B, C)` that these parts give.
    pub open spec fn proof_views(&self) -> (Seq<u8>, Seq<u8>, Seq<u8>) {
        let a_total = g1_sum(self.answer.a@, self.aux.a@);
        let b1_total = g1_sum(self.answer.b1@, self.aux.b1@);
        (
            proof_a(self.vk.delta_g1@, self.vk.alpha_g1@, self.answer.a@, self.aux.a@, self.r.value()),
            proof_b(self.vk.delta_g2@, self.vk.beta_g2@, self.answer.b2@, self.aux.b2@, self.s.value()),
            proof_c(
                self.vk.delta_g1@,
                self.vk.alpha_g1@,
                self.vk.beta_g1@,
                a_total,
                b1_total,
                self.h@,
                self.l@,
                self.r.value(),
                self.s.value(),
            ),
        )
    }

    /// Checks the verifying key and computes the sums of the proof from the
    /// query bases, the coefficients of the quotient polynomial, the
    /// assignment and the blinds `r`, `s`.
    pub fn try_new(
        vk: VerifyingKey,
        queries: &ProvingQueries,
        prover: &ProvingAssignment,
        h_coeffs: &Vec<Scalar>,
        r: Scalar,
        s: Scalar,
    ) -> (res: Result<Builder, SynthesisError>)
        requires
            vk.wf(),
            queries.wf(),
            prover.wf(),
            all_wf(h_coeffs@),
            r.wf(),
            s.wf(),
        ensures
            vk.is_subverted() ==> res == Err::<Builder, SynthesisError>(SynthesisError::UnexpectedIdentity),
            !vk.is_subverted() ==> match prover_sums(queries, prover, values(h_coeffs@)) {
                Ok((h, l, ans, aux)) => res.is_ok() && res.unwrap().wf() && res.unwrap().vk == vk
                    && res.unwrap().r == r && res.unwrap().s == s && res.unwrap().h@ == h
                    && res.unwrap().l@ == l && res.unwrap().answer.views() == ans
                    && res.unwrap().aux.views() == aux,
                Err(e) => res == Err::<Builder, SynthesisError>(e),
            },
    {
        let vk = try_vk(vk)?;
        let h = g1_multiexp(&queries.h, None, h_coeffs)?;
        let l = g1_multiexp(&queries.l, None, &prover.aux)?;
        let answer = Answer::try_new(
            &queries.a_input,
            &queries.b1_input,
            &queries.b2_input,
            &prover.b_input_density,
            &prover.input,
        )?;
        let aux = Auxiliary::try_new(
            &queries.a_aux,
            &queries.b1_aux,
            &queries.b2_aux,
            &prover.a_aux_density,
            &prover.b_aux_density,
            &prover.aux,
        )?;
        Ok(Builder { vk, r, s, h, l, answer, aux })
    }

    /// Assembles the proof `(A, B, C)`.
    pub fn try_build(self) -> (res: Result<(G1Point, G2Point, G1Point), SynthesisError>)
        requires
            self.wf(),
        ensures
            res.is_ok(),
            res.unwrap().0.wf() && res.unwrap().1.wf() && res.unwrap().2.wf(),
            (res.unwrap().0@, res.unwrap().1@, res.unwrap().2@) == self.proof_views(),
    {
        let mut b = self;
        let ga = b.try_ga()?;
        let gb = b.try_gb()?;
        let gc = b.try_gc()?;
        Ok((ga, gb, gc))
    }

    /// `A`; leaves `answer.a + aux.a` in `answer.a`.
    fn try_ga(&mut self) -> (res: Result<G1Point, SynthesisError>)
        requires
            old(self).wf(),
        ensures
            final(self).wf(),
            final(self).answer.a@ == g1_sum(old(self).answer.a@, old(self).aux.a@),
            final(self).vk == old(self).vk,
            final(self).r == old(self).r,
            final(self).s == old(self).s,
            final(self).h == old(self).h,
            final(self).l == old(self).l,
            final(self).answer.b1 == old(self).answer.b1,
            final(self).answer.b2 == old(self).answer.b2,
            final(self).aux == old(self).aux,
            res.is_ok(),
            res.unwrap().wf(),
            res.unwrap()@ == proof_a(
                old(self).vk.delta_g1@,
                old(self).vk.alpha_g1@,
                old(self).answer.a@,
                old(self).aux.a@,
                old(self).r.value(),
            ),
    {
        let mut ga = self.vk.delta_g1.mul(&self.r);
        ga = ga.add(&self.vk.alpha_g1);
        self.answer.a = self.answer.a.add(&self.aux.a);
        ga = ga.add(&self.answer.a);
        Ok(ga)
    }

    /// `B`; leaves `answer.b2 + aux.b2` in `answer.b2`.
    fn try_gb(&mut self) -> (res: Result<G2Point, SynthesisError>)
        requires
            old(self).wf(),
        ensures
            final(self).wf(),
            final(self).answer.b2@ == g2_sum(old(self).answer.b2@, old(self).aux.b2@),
            final(self).vk == old(self).vk,
            final(self).r == old(self).r,
            final(self).s == old(self).s,
            final(self).h == old(self).h,
            final(self).l == old(self).l,
            final(self).answer.a == old(self).answer.a,
            final(self).answer.b1 == old(self).answer.b1,
            final(self).aux == old(self).aux,
            res.is_ok(),
            res.unwrap().wf(),
            res.unwrap()@ == proof_b(
                old(self).vk.delta_g2@,
                old(self).vk.beta_g2@,
                old(self).answer.b2@,
                old(self).aux.b2@,
                old(self).s.value(),
            ),
    {
        let mut gb = self.vk.delta_g2.mul(&self.s);
        gb = gb.add(&self.vk.beta_g2);
        self.answer.b2 = self.answer.b2.add(&self.aux.b2);
        gb = gb.add(&self.answer.b2);
        Ok(gb)
    }

    /// `C`, from an `answer.a` that already holds `answer.a + aux.a`.
    fn try_gc(self) -> (res: Result<G1Point, SynthesisError>)
        requires
            self.wf(),
        ensures
            res.is_ok(),
            res.unwrap().wf(),
            res.unwrap()@ == proof_c(
                self.vk.delta_g1@,
                self.vk.alpha_g1@,
                self.vk.beta_g1@,
                self.answer.a@,
                g1_sum(self.answer.b1@, self.aux.b1@),
                self.h@,
                self.l@,
                self.r.value(),
                self.s.value(),
            ),
    {
        let rs = self.r.mul(&self.s);
        let delta_rs = self.vk.delta_g1.mul(&rs);
        let a_mul_s = self.vk.alpha_g1.mul(&self.s);
        let b_mul_r = self.vk.beta_g1.mul(&self.r);
        let mut gc = delta_rs;
        gc = gc.add(&a_mul_s);
        gc = gc.add(&b_mul_r);
        let a_s = self.answer.a.mul(&self.s);
        gc = gc.add(&a_s);
        let b1 = self.answer.b1.add(&self.aux.b1);
        let b1_r = b1.mul(&self.r);
        gc = gc.add(&b1_r);
        gc = gc.add(&self.h);
        gc = gc.add(&self.l);
        Ok(gc)
    }
}

/// A proof depends on nothing but its parts: two builders whose verifying
/// keys, blinds, and sums agree give the same proof.
pub proof fn lemma_proof_deterministic(x: &Builder, y: &Builder)
    requires
        x.vk.delta_g1@ == y.vk.delta_g1@,
        x.vk.delta_g2@ == y.vk.delta_g2@,
        x.vk.alpha_g1@ == y.vk.alpha_g1@,
        x.vk.beta_g1@ == y.vk.beta_g1@,
        x.vk.beta_g2@ == y.vk.beta_g2@,
        x.r.value() == y.r.value(),
        x.s.value() == y.s.value(),
        x.h@ == y.h@,
        x.l@ == y.l@,
        x.answer.views() == y.answer.views(),
        x.aux.views() == y.aux.views(),
    ensures
        x.proof_views() == y.proof_views(),
{
}

} // verus!
