use crate::error::SynthesisError;
use crate::group::{g1_identity_encoding, g1_scaled, g2_identity_encoding, g2_scaled, G1Point, G2Point};
use crate::linear::values;
use crate::multiexp::{g1_all_wf, g1_views, g2_all_wf, g2_views};
use crate::scalar::{all_wf, fr_modulus, Scalar};
use vstd::prelude::*;

verus! {

/// The value at tau of a wire's column, from the Lagrange coefficients at tau:
/// the sum of `lagrange[row] * coeff` over its `(coeff, row)` entries, modulo r.
pub open spec fn at_tau(lagrange: Seq<int>, w: Seq<(Scalar, usize)>) -> int
    decreases w.len(),
{
    if w.len() == 0 {
        0
    } else {
        (at_tau(lagrange, w.drop_last()) + (lagrange[w.last().1 as int] * w.last().0.value()) % fr_modulus())
            % fr_modulus()
    }
}

/// Every entry of a column is canonical and names a row below `n`.
pub open spec fn column_ok(w: Seq<(Scalar, usize)>, n: nat) -> bool {
    forall|k: int| 0 <= k < w.len() ==> (#[trigger] w[k]).0.wf() && w[k].1 < n
}

/// The scalar of a wire's extra query element:
/// `(beta * a + alpha * b + c) * inv` modulo r.
pub open spec fn ext_scalar(a: int, b: int, c: int, alpha: int, beta: int, inv: int) -> int {
    (((((a * beta) % fr_modulus() + (b * alpha) % fr_modulus()) % fr_modulus() + c) % fr_modulus()) * inv)
        % fr_modulus()
}

/// The A, B and C columns of the QAP, one entry list per wire.
pub struct KeyPairWires {
    pub at: Vec<Vec<(Scalar, usize)>>,
    pub bt: Vec<Vec<(Scalar, usize)>>,
    pub ct: Vec<Vec<(Scalar, usize)>>,
}

/// The four outputs of evaluating a run of wires: the A query, the B query in
/// both groups, and the extra query (IC for inputs, L for auxiliaries).
pub struct EvaluationWriter {
    pub a: Vec<G1Point>,
    pub b_g1: Vec<G1Point>,
    pub b_g2: Vec<G2Point>,
    pub ext: Vec<G1Point>,
}

impl EvaluationWriter {
    pub open spec fn wf(&self) -> bool {
        g1_all_wf(self.a@) && g1_all_wf(self.b_g1@) && g2_all_wf(self.b_g2@) && g1_all_wf(self.ext@)
    }

    pub fn new(a: Vec<G1Point>, b_g1: Vec<G1Point>, b_g2: Vec<G2Point>, ext: Vec<G1Point>) -> (r: EvaluationWriter)
        ensures
            r.a == a,
            r.b_g1 == b_g1,
            r.b_g2 == b_g2,
            r.ext == ext,
    {
        EvaluationWriter { a, b_g1, b_g2, ext }
    }

    /// A writer for `n` wires with every point at infinity.
    pub fn zeros(n: usize) -> (r: EvaluationWriter)
        ensures
            r.wf(),
            r.a@.len() == n && r.b_g1@.len() == n && r.b_g2@.len() == n && r.ext@.len() == n,
            forall|i: int|
                0 <= i < n ==> (#[trigger] r.a@[i])@ == g1_identity_encoding() && r.b_g1@[i]@
                    == g1_identity_encoding() && r.b_g2@[i]@ == g2_identity_encoding() && r.ext@[i]@
                    == g1_identity_encoding(),
    {
        EvaluationWriter { a: g1_zeros(n), b_g1: g1_zeros(n), b_g2: g2_zeros(n), ext: g1_zeros(n) }
    }
}

fn g1_zeros(n: usize) -> (r: Vec<G1Point>)
    ensures
        r@.len() == n,
        g1_all_wf(r@),
        forall|i: int| 0 <= i < n ==> (#[trigger] r@[i])@ == g1_identity_encoding(),
{
    let mut v: Vec<G1Point> = Vec::new();
    let mut i: usize = 0;
    while i < n
        invariant
            i <= n,
            v@.len() == i,
            g1_all_wf(v@),
            forall|j: int| 0 <= j < i ==> (#[trigger] v@[j])@ == g1_identity_encoding(),
        decreases n - i,
    {
        v.push(G1Point::zero());
        i = i + 1;
    }
    v
}

fn g2_zeros(n: usize) -> (r: Vec<G2Point>)
    ensures
        r@.len() == n,
        g2_all_wf(r@),
        forall|i: int| 0 <= i < n ==> (#[trigger] r@[i])@ == g2_identity_encoding(),
{
    let mut v: Vec<G2Point> = Vec::new();
    let mut i: usize = 0;
    while i < n
        invariant
            i <= n,
            v@.len() == i,
            g2_all_wf(v@),
            forall|j: int| 0 <= j < i ==> (#[trigger] v@[j])@ == g2_identity_encoding(),
        decreases n - i,
    {
        v.push(G2Point::zero());
        i = i + 1;
    }
    v
}

/// The four outputs of the writer and the three columns all have the same length.
pub open spec fn sizes_match(qap: &KeyPairWires, writer: &EvaluationWriter) -> bool {
    &&& writer.a@.len() == qap.at@.len()
    &&& writer.a@.len() == qap.bt@.len()
    &&& writer.a@.len() == qap.ct@.len()
    &&& writer.a@.len() == writer.b_g1@.len()
    &&& writer.a@.len() == writer.b_g2@.len()
    &&& writer.a@.len() == writer.ext@.len()
}

/// Every entry of every column is canonical and names a row below `n`.
pub open spec fn columns_ok(qap: &KeyPairWires, n: nat) -> bool {
    &&& forall|i: int| 0 <= i < qap.at@.len() ==> column_ok((#[trigger] qap.at@[i])@, n)
    &&& forall|i: int| 0 <= i < qap.bt@.len() ==> column_ok((#[trigger] qap.bt@[i])@, n)
    &&& forall|i: int| 0 <= i < qap.ct@.len() ==> column_ok((#[trigger] qap.ct@[i])@, n)
}

fn sanity_check(qap: &KeyPairWires, writer: &EvaluationWriter) -> (r: bool)
    ensures
        r == sizes_match(qap, writer),
{
    writer.a.len() == qap.at.len() && writer.a.len() == qap.bt.len() && writer.a.len() == qap.ct.len()
        && writer.a.len() == writer.b_g1.len() && writer.a.len() == writer.b_g2.len() && writer.a.len()
        == writer.ext.len()
}

/// Evaluates one wire's column at tau.
pub fn eval_at_tau(lagrange: &Vec<Scalar>, wires: &Vec<(Scalar, usize)>) -> (r: Scalar)
    requires
        all_wf(lagrange@),
        column_ok(wires@, lagrange@.len()),
    ensures
        r.wf(),
        r.value() == at_tau(values(lagrange@), wires@),
{
    let ghost lag = values(lagrange@);
    let mut acc = Scalar::zero();
    let mut i: usize = 0;
    while i < wires.len()
        invariant
            all_wf(lagrange@),
            column_ok(wires@, lagrange@.len()),
            lag == values(lagrange@),
            i <= wires@.len(),
            acc.wf(),
            acc.value() == at_tau(lag, wires@.take(i as int)),
        decreases wires@.len() - i,
    {
        let (coeff, idx) = wires[i];
        assert(wires@[i as int].0.wf() && wires@[i as int].1 < lagrange@.len());
        let exp = lagrange[idx].mul(&coeff);
        acc = acc.add(&exp);
        assert(wires@.take(i + 1).drop_last() =~= wires@.take(i as int));
        i = i + 1;
    }
    assert(wires@.take(i as int) =~= wires@);
    acc
}

/// What evaluating wire `i` leaves in each of the four outputs.
pub open spec fn wire_outputs_ok(
    new_w: &EvaluationWriter,
    g1: Seq<u8>,
    g2: Seq<u8>,
    lag: Seq<int>,
    qap: &KeyPairWires,
    inv: int,
    alpha: int,
    beta: int,
    i: int,
) -> bool {
    let a = at_tau(lag, qap.at@[i]@);
    let b = at_tau(lag, qap.bt@[i]@);
    let c = at_tau(lag, qap.ct@[i]@);
    &&& new_w.a@[i]@ == if a == 0 { g1_identity_encoding() } else { g1_scaled(g1, a) }
    &&& new_w.b_g1@[i]@ == if b == 0 { g1_identity_encoding() } else { g1_scaled(g1, b) }
    &&& new_w.b_g2@[i]@ == if b == 0 { g2_identity_encoding() } else { g2_scaled(g2, b) }
    &&& new_w.ext@[i]@ == g1_scaled(g1, ext_scalar(a, b, c, alpha, beta, inv))
    &&& ext_scalar(a, b, c, alpha, beta, inv) == 0 ==> new_w.ext@[i]@ == g1_identity_encoding()
}

/// A wire that no constraint references gets the point at infinity in every
/// output: in particular its extra (L or IC) point binds nothing.
pub proof fn lemma_unreferenced_wire_unbound(
    w: &EvaluationWriter,
    g1: Seq<u8>,
    g2: Seq<u8>,
    lag: Seq<int>,
    qap: &KeyPairWires,
    inv: int,
    alpha: int,
    beta: int,
    i: int,
)
    requires
        wire_outputs_ok(w, g1, g2, lag, qap, inv, alpha, beta, i),
        qap.at@[i]@.len() == 0,
        qap.bt@[i]@.len() == 0,
        qap.ct@[i]@.len() == 0,
    ensures
        w.a@[i]@ == g1_identity_encoding(),
        w.b_g1@[i]@ == g1_identity_encoding(),
        w.b_g2@[i]@ == g2_identity_encoding(),
        w.ext@[i]@ == g1_identity_encoding(),
{
    assert(at_tau(lag, qap.at@[i]@) == 0);
    assert(at_tau(lag, qap.bt@[i]@) == 0);
    assert(at_tau(lag, qap.ct@[i]@) == 0);
    assert(ext_scalar(0, 0, 0, alpha, beta, inv) == 0) by (nonlinear_arith);
}

/// Evaluates every wire of a run at tau and writes its query elements: A and
/// B scaled by their values at tau (the point at infinity where that value is
/// zero), and the extra element scaled by `inv` (the inverse of gamma for
/// inputs, of delta for auxiliaries).
pub fn eval(
    g1: &G1Point,
    g2: &G2Point,
    lagrange_coeffs: &Vec<Scalar>,
    qap_polynomials: &KeyPairWires,
    writer: &mut EvaluationWriter,
    inv: &Scalar,
    alpha: &Scalar,
    beta: &Scalar,
) -> (r: Result<(), SynthesisError>)
    requires
        g1.wf(),
        g2.wf(),
        all_wf(lagrange_coeffs@),
        sizes_match(qap_polynomials, old(writer)) ==> columns_ok(qap_polynomials, lagrange_coeffs@.len()),
        old(writer).wf(),
        inv.wf(),
        alpha.wf(),
        beta.wf(),
    ensures
        final(writer).wf(),
        r.is_ok() == sizes_match(qap_polynomials, old(writer)),
        r.is_err() ==> r == Err::<(), SynthesisError>(SynthesisError::MalformedWireSize) && *final(writer)
            == *old(writer),
        r.is_ok() ==> final(writer).a@.len() == old(writer).a@.len() && final(writer).b_g1@.len()
            == old(writer).a@.len() && final(writer).b_g2@.len() == old(writer).a@.len()
            && final(writer).ext@.len() == old(writer).a@.len(),
        r.is_ok() ==> forall|i: int|
            0 <= i < old(writer).a@.len() ==> #[trigger] wire_outputs_ok(
                final(writer),
                g1@,
                g2@,
                values(lagrange_coeffs@),
                qap_polynomials,
                inv.value(),
                alpha.value(),
                beta.value(),
                i,
            ),
{
    if !sanity_check(qap_polynomials, writer) {
        return Err(SynthesisError::MalformedWireSize);
    }
    let ghost start = *writer;
    let ghost lag = values(lagrange_coeffs@);
    let n = writer.a.len();
    let mut i: usize = 0;
    while i < n
        invariant
            g1.wf(),
            g2.wf(),
            all_wf(lagrange_coeffs@),
            lag == values(lagrange_coeffs@),
            forall|k: int|
                0 <= k < qap_polynomials.at@.len() ==> column_ok(
                    (#[trigger] qap_polynomials.at@[k])@,
                    lagrange_coeffs@.len(),
                ),
            forall|k: int|
                0 <= k < qap_polynomials.bt@.len() ==> column_ok(
                    (#[trigger] qap_polynomials.bt@[k])@,
                    lagrange_coeffs@.len(),
                ),
            forall|k: int|
                0 <= k < qap_polynomials.ct@.len() ==> column_ok(
                    (#[trigger] qap_polynomials.ct@[k])@,
                    lagrange_coeffs@.len(),
                ),
            inv.wf(),
            alpha.wf(),
            beta.wf(),
            writer.wf(),
            n == start.a@.len(),
            qap_polynomials.at@.len() == n,
            qap_polynomials.bt@.len() == n,
            qap_polynomials.ct@.len() == n,
            writer.a@.len() == n,
            writer.b_g1@.len() == n,
            writer.b_g2@.len() == n,
            writer.ext@.len() == n,
            start.b_g1@.len() == n,
            start.b_g2@.len() == n,
            start.ext@.len() == n,
            i <= n,
            forall|k: int|
                0 <= k < i ==> #[trigger] wire_outputs_ok(
                    writer,
                    g1@,
                    g2@,
                    lag,
                    qap_polynomials,
                    inv.value(),
                    alpha.value(),
                    beta.value(),
                    k,
                ),
            forall|k: int| i <= k < n ==> (#[trigger] writer.a@[k]) == start.a@[k],
            forall|k: int| i <= k < n ==> (#[trigger] writer.b_g1@[k]) == start.b_g1@[k],
            forall|k: int| i <= k < n ==> (#[trigger] writer.b_g2@[k]) == start.b_g2@[k],
            forall|k: int| i <= k < n ==> (#[trigger] writer.ext@[k]) == start.ext@[k],
        decreases n - i,
    {
        let ghost before = *writer;
        let at = eval_at_tau(lagrange_coeffs, &qap_polynomials.at[i]);
        let bt = eval_at_tau(lagrange_coeffs, &qap_polynomials.bt[i]);
        let ct = eval_at_tau(lagrange_coeffs, &qap_polynomials.ct[i]);
        if !at.is_zero() {
            writer.a.set(i, g1.mul(&at));
        } else {
            writer.a.set(i, G1Point::zero());
        }
        if !bt.is_zero() {
            writer.b_g1.set(i, g1.mul(&bt));
            writer.b_g2.set(i, g2.mul(&bt));
        } else {
            writer.b_g1.set(i, G1Point::zero());
            writer.b_g2.set(i, G2Point::zero());
        }
        let at_beta = at.mul(beta);
        let bt_alpha = bt.mul(alpha);
        let mut e = at_beta.add(&bt_alpha);
        e = e.add(&ct);
        e = e.mul(inv);
        let p = g1.mul(&e);
        writer.ext.set(i, p);
        proof {
            assert forall|k: int|
                0 <= k < i + 1 implies #[trigger] wire_outputs_ok(
                writer,
                g1@,
                g2@,
                lag,
                qap_polynomials,
                inv.value(),
                alpha.value(),
                beta.value(),
                k,
            ) by {
                if k < i {
                    assert(wire_outputs_ok(
                        &before,
                        g1@,
                        g2@,
                        lag,
                        qap_polynomials,
                        inv.value(),
                        alpha.value(),
                        beta.value(),
                        k,
                    ));
                    assert(writer.a@[k] == before.a@[k]);
                    assert(writer.b_g1@[k] == before.b_g1@[k]);
                    assert(writer.b_g2@[k] == before.b_g2@[k]);
                    assert(writer.ext@[k] == before.ext@[k]);
                } else {
                    assert(before.ext@[k] == start.ext@[k]);
                }
            }
            assert forall|k: int| 0 <= k < writer.a@.len() implies (#[trigger] writer.a@[k]).wf() by {
                if k != i {
                    assert(writer.a@[k] == before.a@[k]);
                }
            }
            assert forall|k: int| 0 <= k < writer.b_g1@.len() implies (#[trigger] writer.b_g1@[k]).wf() by {
                if k != i {
                    assert(writer.b_g1@[k] == before.b_g1@[k]);
                }
            }
            assert forall|k: int| 0 <= k < writer.b_g2@.len() implies (#[trigger] writer.b_g2@[k]).wf() by {
                if k != i {
                    assert(writer.b_g2@[k] == before.b_g2@[k]);
                }
            }
            assert forall|k: int| 0 <= k < writer.ext@.len() implies (#[trigger] writer.ext@[k]).wf() by {
                if k != i {
                    assert(writer.ext@[k] == before.ext@[k]);
                }
            }
        }
        i = i + 1;
    }
    Ok(())
}


/// The encodings that are not the point at infinity, in order.
pub open spec fn g1_non_zero(v: Seq<Seq<u8>>) -> Seq<Seq<u8>> {
    v.filter(|p: Seq<u8>| p != g1_identity_encoding())
}

fn g1_filter_non_zero(v: Vec<G1Point>) -> (r: Vec<G1Point>)
    requires
        g1_all_wf(v@),
    ensures
        g1_all_wf(r@),
        g1_views(r@) == g1_non_zero(g1_views(v@)),
{
    let mut r: Vec<G1Point> = Vec::new();
    let mut i: usize = 0;
    while i < v.len()
        invariant
            g1_all_wf(v@),
            g1_all_wf(r@),
            i <= v@.len(),
            g1_views(r@) == g1_non_zero(g1_views(v@).take(i as int)),
        decreases v@.len() - i,
    {
        proof {
            let t = g1_views(v@).take(i + 1);
            assert(t.drop_last() =~= g1_views(v@).take(i as int));
            assert(t.last() == v@[i as int]@);
            reveal(Seq::filter);
        }
        let ghost old_r = r@;
        if !v[i].is_zero() {
            let p = v[i].copy();
            proof {
                assert(p.wf());
            }
            r.push(p);
            proof {
                assert(g1_views(r@) =~= g1_views(old_r).push(p@));
            }
        }
        i = i + 1;
    }
    assert(g1_views(v@).take(i as int) =~= g1_views(v@));
    r
}

/// The encodings that are not the point at infinity, in order.
pub open spec fn g2_non_zero(v: Seq<Seq<u8>>) -> Seq<Seq<u8>> {
    v.filter(|p: Seq<u8>| p != g2_identity_encoding())
}

fn g2_filter_non_zero(v: Vec<G2Point>) -> (r: Vec<G2Point>)
    requires
        g2_all_wf(v@),
    ensures
        g2_all_wf(r@),
        g2_views(r@) == g2_non_zero(g2_views(v@)),
{
    let mut r: Vec<G2Point> = Vec::new();
    let mut i: usize = 0;
    while i < v.len()
        invariant
            g2_all_wf(v@),
            g2_all_wf(r@),
            i <= v@.len(),
            g2_views(r@) == g2_non_zero(g2_views(v@).take(i as int)),
        decreases v@.len() - i,
    {
        proof {
            let t = g2_views(v@).take(i + 1);
            assert(t.drop_last() =~= g2_views(v@).take(i as int));
            assert(t.last() == v@[i as int]@);
            reveal(Seq::filter);
        }
        let ghost old_r = r@;
        if !v[i].is_zero() {
            let p = v[i].copy();
            proof {
                assert(p.wf());
            }
            r.push(p);
            proof {
                assert(g2_views(r@) =~= g2_views(old_r).push(p@));
            }
        }
        i = i + 1;
    }
    assert(g2_views(v@).take(i as int) =~= g2_views(v@));
    r
}

/// The query points of every wire: A and B over all wires (inputs first), IC
/// over the inputs, L over the auxiliaries.
pub struct WireEvaluation {
    pub a: Vec<G1Point>,
    pub b_g1: Vec<G1Point>,
    pub b_g2: Vec<G2Point>,
    pub ic: Vec<G1Point>,
    pub l: Vec<G1Point>,
}

impl WireEvaluation {
    pub open spec fn wf(&self) -> bool {
        &&& g1_all_wf(self.a@)
        &&& g1_all_wf(self.b_g1@)
        &&& g2_all_wf(self.b_g2@)
        &&& g1_all_wf(self.ic@)
        &&& g1_all_wf(self.l@)
    }

    /// Every point at infinity, for `num_inputs` inputs and `num_aux` auxiliaries.
    pub fn new(num_inputs: usize, num_aux: usize) -> (r: WireEvaluation)
        requires
            num_inputs + num_aux <= usize::MAX,
        ensures
            r.wf(),
            r.a@.len() == num_inputs + num_aux,
            r.b_g1@.len() == num_inputs + num_aux,
            r.b_g2@.len() == num_inputs + num_aux,
            r.ic@.len() == num_inputs,
            r.l@.len() == num_aux,
            forall|i: int| 0 <= i < r.a@.len() ==> (#[trigger] r.a@[i])@ == g1_identity_encoding(),
            forall|i: int| 0 <= i < r.b_g1@.len() ==> (#[trigger] r.b_g1@[i])@ == g1_identity_encoding(),
            forall|i: int| 0 <= i < r.b_g2@.len() ==> (#[trigger] r.b_g2@[i])@ == g2_identity_encoding(),
            forall|i: int| 0 <= i < r.ic@.len() ==> (#[trigger] r.ic@[i])@ == g1_identity_encoding(),
            forall|i: int| 0 <= i < r.l@.len() ==> (#[trigger] r.l@[i])@ == g1_identity_encoding(),
    {
        let n = num_inputs + num_aux;
        WireEvaluation {
            a: g1_zeros(n),
            b_g1: g1_zeros(n),
            b_g2: g2_zeros(n),
            ic: g1_zeros(num_inputs),
            l: g1_zeros(num_aux),
        }
    }

    /// Joins the outputs for the inputs and for the auxiliaries: their A and B
    /// points one after the other, IC from the inputs' extra points and L from
    /// the auxiliaries'.
    pub fn from_writers(inputs: EvaluationWriter, aux: EvaluationWriter) -> (r: WireEvaluation)
        requires
            inputs.wf(),
            aux.wf(),
        ensures
            r.wf(),
            r.a@ == inputs.a@ + aux.a@,
            r.b_g1@ == inputs.b_g1@ + aux.b_g1@,
            r.b_g2@ == inputs.b_g2@ + aux.b_g2@,
            r.ic@ == inputs.ext@,
            r.l@ == aux.ext@,
    {
        let EvaluationWriter { a: mut a, b_g1: mut b_g1, b_g2: mut b_g2, ext: ic } = inputs;
        let EvaluationWriter { a: mut aux_a, b_g1: mut aux_b_g1, b_g2: mut aux_b_g2, ext: l } = aux;
        a.append(&mut aux_a);
        b_g1.append(&mut aux_b_g1);
        b_g2.append(&mut aux_b_g2);
        let r = WireEvaluation { a, b_g1, b_g2, ic, l };
        proof {
            assert forall|i: int| 0 <= i < r.a@.len() implies (#[trigger] r.a@[i]).wf() by {
                if i >= inputs.a@.len() {
                    assert(r.a@[i] == aux.a@[i - inputs.a@.len()]);
                }
            }
            assert forall|i: int| 0 <= i < r.b_g1@.len() implies (#[trigger] r.b_g1@[i]).wf() by {
                if i >= inputs.b_g1@.len() {
                    assert(r.b_g1@[i] == aux.b_g1@[i - inputs.b_g1@.len()]);
                }
            }
            assert forall|i: int| 0 <= i < r.b_g2@.len() implies (#[trigger] r.b_g2@[i]).wf() by {
                if i >= inputs.b_g2@.len() {
                    assert(r.b_g2@[i] == aux.b_g2@[i - inputs.b_g2@.len()]);
                }
            }
        }
        r
    }

    /// Whether some auxiliary wire has an L point at infinity: the circuit
    /// does not bind that wire.
    pub fn is_unconstrained(&self) -> (r: bool)
        requires
            self.wf(),
        ensures
            r == exists|i: int| 0 <= i < self.l@.len() && (#[trigger] self.l@[i])@ == g1_identity_encoding(),
    {
        let mut i: usize = 0;
        while i < self.l.len()
            invariant
                self.wf(),
                i <= self.l@.len(),
                forall|j: int| 0 <= j < i ==> (#[trigger] self.l@[j])@ != g1_identity_encoding(),
            decreases self.l@.len() - i,
        {
            if self.l[i].is_zero() {
                return true;
            }
            i = i + 1;
        }
        false
    }

    /// The L, A, B (in G1) and B (in G2) points without those at infinity,
    /// each in order.
    pub fn filter_non_zero_and_map_to_affine(self) -> (r: (Vec<G1Point>, Vec<G1Point>, Vec<G1Point>, Vec<G2Point>))
        requires
            self.wf(),
        ensures
            g1_all_wf(r.0@) && g1_all_wf(r.1@) && g1_all_wf(r.2@) && g2_all_wf(r.3@),
            g1_views(r.0@) == g1_non_zero(g1_views(self.l@)),
            g1_views(r.1@) == g1_non_zero(g1_views(self.a@)),
            g1_views(r.2@) == g1_non_zero(g1_views(self.b_g1@)),
            g2_views(r.3@) == g2_non_zero(g2_views(self.b_g2@)),
    {
        let WireEvaluation { a, b_g1, b_g2, ic: _, l } = self;
        (g1_filter_non_zero(l), g1_filter_non_zero(a), g1_filter_non_zero(b_g1), g2_filter_non_zero(b_g2))
    }
}

} // verus!
