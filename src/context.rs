use crate::density::DensityTracker;
use crate::error::SynthesisError;
use crate::group::{G1Point, G2Point};
use crate::linear::values;
use crate::multiexp::{g1_all_wf, g1_msm, g1_multiexp, g1_views, g2_all_wf, g2_msm, g2_multiexp, g2_views, mask_of};
use crate::scalar::{all_wf, Scalar};
use vstd::prelude::*;

verus! {

/// The three sums `a`, `b1`, `b2` over one part of the assignment, each a
/// multi-exponentiation of its bases; the first failure in that order wins.
pub open spec fn query_sums(
    a_src: Seq<Seq<u8>>,
    a_mask: Seq<bool>,
    b1_src: Seq<Seq<u8>>,
    b2_src: Seq<Seq<u8>>,
    b_mask: Seq<bool>,
    scalars: Seq<int>,
) -> Result<(Seq<u8>, Seq<u8>, Seq<u8>), SynthesisError> {
    let n = scalars.len();
    match g1_msm(a_src, a_mask, scalars, n) {
        Err(e) => Err(e),
        Ok((a, _)) => match g1_msm(b1_src, b_mask, scalars, n) {
            Err(e) => Err(e),
            Ok((b1, _)) => match g2_msm(b2_src, b_mask, scalars, n) {
                Err(e) => Err(e),
                Ok((b2, _)) => Ok((a, b1, b2)),
            },
        },
    }
}

/// The A and B sums over the input part of the assignment.
#[derive(Debug)]
pub struct Answer {
    pub a: G1Point,
    pub b1: G1Point,
    pub b2: G2Point,
}

impl Answer {
    pub open spec fn wf(&self) -> bool {
        self.a.wf() && self.b1.wf() && self.b2.wf()
    }

    pub open spec fn views(&self) -> (Seq<u8>, Seq<u8>, Seq<u8>) {
        (self.a@, self.b1@, self.b2@)
    }

    /// Sums the input assignment against the A query (every input counts) and
    /// against the B queries (the inputs that `b_input_density` marks).
    pub fn try_new(
        a_input_src: &Vec<G1Point>,
        b1_input_src: &Vec<G1Point>,
        b2_input_src: &Vec<G2Point>,
        b_input_density: &DensityTracker,
        input: &Vec<Scalar>,
    ) -> (r: Result<Answer, SynthesisError>)
        requires
            g1_all_wf(a_input_src@),
            g1_all_wf(b1_input_src@),
            g2_all_wf(b2_input_src@),
            all_wf(input@),
            b_input_density@.len() == input@.len(),
        ensures
            match query_sums(
                g1_views(a_input_src@),
                mask_of(None, input@.len()),
                g1_views(b1_input_src@),
                g2_views(b2_input_src@),
                b_input_density@,
                values(input@),
            ) {
                Ok(v) => r.is_ok() && r.unwrap().wf() && r.unwrap().views() == v,
                Err(e) => r.is_err() && r.unwrap_err() == e,
            },
    {
        let a = g1_multiexp(a_input_src, None, input)?;
        let b1 = g1_multiexp(b1_input_src, Some(b_input_density), input)?;
        let b2 = g2_multiexp(b2_input_src, Some(b_input_density), input)?;
        Ok(Answer { a, b1, b2 })
    }
}

/// The A and B sums over the auxiliary part of the assignment.
#[derive(Debug)]
pub struct Auxiliary {
    pub a: G1Point,
    pub b1: G1Point,
    pub b2: G2Point,
}

impl Auxiliary {
    pub open spec fn wf(&self) -> bool {
        self.a.wf() && self.b1.wf() && self.b2.wf()
    }

    pub open spec fn views(&self) -> (Seq<u8>, Seq<u8>, Seq<u8>) {
        (self.a@, self.b1@, self.b2@)
    }

    /// Sums the auxiliary assignment against the A query (the wires that
    /// `a_aux_density` marks) and the B queries (those `b_aux_density` marks).
    pub fn try_new(
        a_aux_src: &Vec<G1Point>,
        b1_aux_src: &Vec<G1Point>,
        b2_aux_src: &Vec<G2Point>,
        a_aux_density: &DensityTracker,
        b_aux_density: &DensityTracker,
        assignment: &Vec<Scalar>,
    ) -> (r: Result<Auxiliary, SynthesisError>)
        requires
            g1_all_wf(a_aux_src@),
            g1_all_wf(b1_aux_src@),
            g2_all_wf(b2_aux_src@),
            all_wf(assignment@),
            a_aux_density@.len() == assignment@.len(),
            b_aux_density@.len() == assignment@.len(),
        ensures
            match query_sums(
                g1_views(a_aux_src@),
                a_aux_density@,
                g1_views(b1_aux_src@),
                g2_views(b2_aux_src@),
                b_aux_density@,
                values(assignment@),
            ) {
                Ok(v) => r.is_ok() && r.unwrap().wf() && r.unwrap().views() == v,
                Err(e) => r.is_err() && r.unwrap_err() == e,
            },
    {
        let a = g1_multiexp(a_aux_src, Some(a_aux_density), assignment)?;
        let b1 = g1_multiexp(b1_aux_src, Some(b_aux_density), assignment)?;
        let b2 = g2_multiexp(b2_aux_src, Some(b_aux_density), assignment)?;
        Ok(Auxiliary { a, b1, b2 })
    }
}

} // verus!
