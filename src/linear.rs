use crate::scalar::{all_wf, fr_modulus, neg_mod, Scalar};
use vstd::arithmetic::div_mod::{
    lemma_add_mod_noop, lemma_add_mod_noop_right, lemma_mod_bound, lemma_mod_multiples_vanish,
    lemma_mod_twice, lemma_mul_mod_noop_left, lemma_mul_mod_noop_right, lemma_small_mod, lemma_sub_mod_noop_right,
};
use vstd::prelude::*;

verus! {

/// The index of either an input wire or an auxiliary wire.
#[derive(Copy, Clone, PartialEq, Eq, Structural, Debug)]
pub enum Index {
    Input(usize),
    Aux(usize),
}

/// A wire of the constraint system.
#[derive(Copy, Clone, Debug)]
pub struct Coefficient(pub Index);

impl Coefficient {
    /// Builds a wire with an arbitrary index.
    pub fn new_unchecked(idx: Index) -> (r: Coefficient)
        ensures
            r.0 == idx,
    {
        Coefficient(idx)
    }

    /// The index underlying the wire.
    pub fn get_unchecked(&self) -> (r: Index)
        ensures
            r == self.0,
    {
        self.0
    }
}

/// The values of a vector of scalars, as integers.
pub open spec fn values(v: Seq<Scalar>) -> Seq<int> {
    v.map_values(|s: Scalar| s.value())
}

/// The value that an assignment gives a wire; a wire beyond the assignment is zero.
pub open spec fn wire_value(i: Index, inputs: Seq<int>, aux: Seq<int>) -> int {
    match i {
        Index::Input(k) => if k < inputs.len() { inputs[k as int] } else { 0 },
        Index::Aux(k) => if k < aux.len() { aux[k as int] } else { 0 },
    }
}

/// The sum of `coeff * value(wire)` over the terms, modulo r.
pub open spec fn eval_terms(t: Seq<(Index, int)>, inputs: Seq<int>, aux: Seq<int>) -> int
    decreases t.len(),
{
    if t.len() == 0 {
        0
    } else {
        (eval_terms(t.drop_last(), inputs, aux) + t.last().1 * wire_value(t.last().0, inputs, aux))
            % fr_modulus()
    }
}

/// Every coefficient of the terms scaled by `c`, modulo r.
pub open spec fn scale_terms(t: Seq<(Index, int)>, c: int) -> Seq<(Index, int)> {
    t.map_values(|p: (Index, int)| (p.0, (p.1 * c) % fr_modulus()))
}

/// Every coefficient of the terms negated, modulo r.
pub open spec fn negate_terms(t: Seq<(Index, int)>) -> Seq<(Index, int)> {
    t.map_values(|p: (Index, int)| (p.0, neg_mod(p.1)))
}

pub open spec fn term_view(p: (Coefficient, Scalar)) -> (Index, int) {
    (p.0.0, p.1.value())
}

/// A linear combination of wires with scalar coefficients. Terms are kept in
/// the order they were added; a wire may occur more than once.
#[derive(Clone)]
pub struct LinearCombination(pub Vec<(Coefficient, Scalar)>);

impl View for LinearCombination {
    type V = Seq<(Index, int)>;

    open spec fn view(&self) -> Seq<(Index, int)> {
        self.0@.map_values(|p: (Coefficient, Scalar)| term_view(p))
    }
}

impl LinearCombination {
    /// Every coefficient is a canonical field element.
    pub open spec fn wf(&self) -> bool {
        forall|i: int| 0 <= i < self.0@.len() ==> (#[trigger] self.0@[i]).1.wf()
    }

    pub fn zero() -> (r: LinearCombination)
        ensures
            r.wf(),
            r@ == Seq::<(Index, int)>::empty(),
    {
        LinearCombination(Vec::new())
    }

    pub fn as_ref(&self) -> (r: &[(Coefficient, Scalar)])
        ensures
            r@ == self.0@,
    {
        self.0.as_slice()
    }

    /// Appends the term `coeff * var`.
    pub fn add_term(self, coeff: Scalar, var: Coefficient) -> (r: LinearCombination)
        requires
            self.wf(),
            coeff.wf(),
        ensures
            r.wf(),
            r@ == self@.push((var.0, coeff.value())),
    {
        let mut v = self.0;
        v.push((var, coeff));
        let r = LinearCombination(v);
        assert(r@ =~= self@.push((var.0, coeff.value())));
        r
    }

    /// Appends the term `-coeff * var`.
    pub fn sub_term(self, coeff: Scalar, var: Coefficient) -> (r: LinearCombination)
        requires
            self.wf(),
            coeff.wf(),
        ensures
            r.wf(),
            r@ == self@.push((var.0, neg_mod(coeff.value()))),
    {
        let n = coeff.neg();
        self.add_term(n, var)
    }

    /// Appends the term `1 * var`.
    pub fn add_var(self, var: Coefficient) -> (r: LinearCombination)
        requires
            self.wf(),
        ensures
            r.wf(),
            r@ == self@.push((var.0, 1int)),
    {
        self.add_term(Scalar::one(), var)
    }

    /// Appends the term `-1 * var`.
    pub fn sub_var(self, var: Coefficient) -> (r: LinearCombination)
        requires
            self.wf(),
        ensures
            r.wf(),
            r@ == self@.push((var.0, neg_mod(1))),
    {
        self.sub_term(Scalar::one(), var)
    }

    /// Appends the terms of `other`, in order.
    pub fn add_lc(self, other: &LinearCombination) -> (r: LinearCombination)
        requires
            self.wf(),
            other.wf(),
        ensures
            r.wf(),
            r@ == self@ + other@,
    {
        let mut acc = self;
        let mut i: usize = 0;
        while i < other.0.len()
            invariant
                acc.wf(),
                other.wf(),
                i <= other.0@.len(),
                acc@ == self@ + other@.take(i as int),
            decreases other.0@.len() - i,
        {
            let (var, coeff) = other.0[i];
            acc = acc.add_term(coeff, var);
            i = i + 1;
            assert(other@.take(i as int) =~= other@.take(i - 1).push(other@[i - 1]));
        }
        assert(other@.take(i as int) =~= other@);
        acc
    }

    /// Appends the terms of `other` with their coefficients negated, in order.
    pub fn sub_lc(self, other: &LinearCombination) -> (r: LinearCombination)
        requires
            self.wf(),
            other.wf(),
        ensures
            r.wf(),
            r@ == self@ + negate_terms(other@),
    {
        let mut acc = self;
        let mut i: usize = 0;
        while i < other.0.len()
            invariant
                acc.wf(),
                other.wf(),
                i <= other.0@.len(),
                acc@ == self@ + negate_terms(other@.take(i as int)),
            decreases other.0@.len() - i,
        {
            let (var, coeff) = other.0[i];
            acc = acc.sub_term(coeff, var);
            i = i + 1;
            assert(negate_terms(other@.take(i as int)) =~= negate_terms(other@.take(i - 1)).push(
                (other@[i - 1].0, neg_mod(other@[i - 1].1)),
            ));
        }
        assert(other@.take(i as int) =~= other@);
        acc
    }

    /// Appends the terms of `other` with their coefficients multiplied by `coeff`.
    pub fn add_scaled(self, coeff: Scalar, other: &LinearCombination) -> (r: LinearCombination)
        requires
            self.wf(),
            coeff.wf(),
            other.wf(),
        ensures
            r.wf(),
            r@ == self@ + scale_terms(other@, coeff.value()),
    {
        let mut acc = self;
        let mut i: usize = 0;
        while i < other.0.len()
            invariant
                acc.wf(),
                other.wf(),
                coeff.wf(),
                i <= other.0@.len(),
                acc@ == self@ + scale_terms(other@.take(i as int), coeff.value()),
            decreases other.0@.len() - i,
        {
            let (var, c) = other.0[i];
            let t = c.mul(&coeff);
            acc = acc.add_term(t, var);
            i = i + 1;
            assert(scale_terms(other@.take(i as int), coeff.value()) =~= scale_terms(
                other@.take(i - 1),
                coeff.value(),
            ).push((other@[i - 1].0, (other@[i - 1].1 * coeff.value()) % fr_modulus())));
        }
        assert(other@.take(i as int) =~= other@);
        acc
    }

    /// Appends the terms of `other` with their coefficients multiplied by `-coeff`.
    pub fn sub_scaled(self, coeff: Scalar, other: &LinearCombination) -> (r: LinearCombination)
        requires
            self.wf(),
            coeff.wf(),
            other.wf(),
        ensures
            r.wf(),
            r@ == self@ + negate_terms(scale_terms(other@, coeff.value())),
    {
        let mut acc = self;
        let mut i: usize = 0;
        while i < other.0.len()
            invariant
                acc.wf(),
                other.wf(),
                coeff.wf(),
                i <= other.0@.len(),
                acc@ == self@ + negate_terms(scale_terms(other@.take(i as int), coeff.value())),
            decreases other.0@.len() - i,
        {
            let (var, c) = other.0[i];
            let t = c.mul(&coeff);
            acc = acc.sub_term(t, var);
            i = i + 1;
            assert(negate_terms(scale_terms(other@.take(i as int), coeff.value())) =~= negate_terms(
                scale_terms(other@.take(i - 1), coeff.value()),
            ).push(
                (other@[i - 1].0, neg_mod((other@[i - 1].1 * coeff.value()) % fr_modulus())),
            ));
        }
        assert(other@.take(i as int) =~= other@);
        acc
    }
}

impl LinearCombination {
    /// The value of the combination under an assignment of the input and
    /// auxiliary wires; a wire the assignment does not cover counts as zero.
    pub fn evaluate(&self, inputs: &Vec<Scalar>, aux: &Vec<Scalar>) -> (r: Scalar)
        requires
            self.wf(),
            all_wf(inputs@),
            all_wf(aux@),
        ensures
            r.wf(),
            r.value() == eval_terms(self@, values(inputs@), values(aux@)),
    {
        let ghost ins = values(inputs@);
        let ghost auxs = values(aux@);
        let mut acc = Scalar::zero();
        let mut i: usize = 0;
        while i < self.0.len()
            invariant
                self.wf(),
                all_wf(inputs@),
                all_wf(aux@),
                ins == values(inputs@),
                auxs == values(aux@),
                i <= self.0@.len(),
                acc.wf(),
                acc.value() == eval_terms(self@.take(i as int), ins, auxs),
            decreases self.0@.len() - i,
        {
            let (var, coeff) = self.0[i];
            let w = match var.0 {
                Index::Input(k) => if k < inputs.len() { inputs[k] } else { Scalar::zero() },
                Index::Aux(k) => if k < aux.len() { aux[k] } else { Scalar::zero() },
            };
            assert(w.value() == wire_value(var.0, ins, auxs));
            let t = coeff.mul(&w);
            let ghost prev = acc.value();
            acc = acc.add(&t);
            proof {
                let x = wire_value(var.0, ins, auxs);
                assert(self@.take(i + 1).drop_last() =~= self@.take(i as int));
                assert(self@.take(i + 1).last() == (var.0, coeff.value()));
                lemma_add_mod_noop_right(prev, coeff.value() * x, fr_modulus());
            }
            i = i + 1;
        }
        assert(self@.take(i as int) =~= self@);
        acc
    }
}

/// The value of a combination is a canonical residue.
pub proof fn lemma_eval_bound(t: Seq<(Index, int)>, inputs: Seq<int>, aux: Seq<int>)
    ensures
        0 <= eval_terms(t, inputs, aux) < fr_modulus(),
{
    if t.len() > 0 {
        lemma_mod_bound(
            eval_terms(t.drop_last(), inputs, aux) + t.last().1 * wire_value(t.last().0, inputs, aux),
            fr_modulus(),
        );
    }
}

/// Concatenating two combinations adds their values.
pub proof fn lemma_eval_append(a: Seq<(Index, int)>, b: Seq<(Index, int)>, inputs: Seq<int>, aux: Seq<int>)
    ensures
        eval_terms(a + b, inputs, aux) == (eval_terms(a, inputs, aux) + eval_terms(b, inputs, aux))
            % fr_modulus(),
    decreases b.len(),
{
    let m = fr_modulus();
    let ea = eval_terms(a, inputs, aux);
    lemma_eval_bound(a, inputs, aux);
    if b.len() == 0 {
        assert(a + b =~= a);
        lemma_small_mod(ea as nat, m as nat);
    } else {
        let b0 = b.drop_last();
        let x = b.last().1 * wire_value(b.last().0, inputs, aux);
        assert((a + b).drop_last() =~= a + b0);
        assert((a + b).last() == b.last());
        lemma_eval_append(a, b0, inputs, aux);
        let eb0 = eval_terms(b0, inputs, aux);
        // ((ea + eb0) % m + x) % m == (ea + eb0 + x) % m
        lemma_add_mod_noop(ea + eb0, x, m);
        lemma_mod_twice(ea + eb0, m);
        lemma_add_mod_noop(ea + eb0, x, m);
        assert(((ea + eb0) % m + x) % m == (ea + eb0 + x) % m) by {
            lemma_add_mod_noop_right(x, ea + eb0, m);
        }
        // (ea + (eb0 + x) % m) % m == (ea + eb0 + x) % m
        lemma_add_mod_noop_right(ea, eb0 + x, m);
        assert(ea + (eb0 + x) == ea + eb0 + x);
    }
}

/// Adding a term and then subtracting the same term leaves the value of a
/// combination unchanged, under every assignment.
pub proof fn lemma_add_sub_cancel(
    lc: Seq<(Index, int)>,
    c: int,
    w: Index,
    inputs: Seq<int>,
    aux: Seq<int>,
)
    requires
        0 <= c < fr_modulus(),
    ensures
        eval_terms(lc.push((w, c)).push((w, neg_mod(c))), inputs, aux) == eval_terms(lc, inputs, aux),
{
    let m = fr_modulus();
    let x = wire_value(w, inputs, aux);
    let e = eval_terms(lc, inputs, aux);
    lemma_eval_bound(lc, inputs, aux);
    let l1 = lc.push((w, c));
    let l2 = l1.push((w, neg_mod(c)));
    assert(l2.drop_last() =~= l1);
    assert(l1.drop_last() =~= lc);
    assert(eval_terms(l1, inputs, aux) == (e + c * x) % m);
    assert(eval_terms(l2, inputs, aux) == ((e + c * x) % m + neg_mod(c) * x) % m);
    lemma_add_mod_noop_right(neg_mod(c) * x, e + c * x, m);
    if c == 0 {
        lemma_small_mod(0, m as nat);
        assert(neg_mod(c) == 0) by {
            lemma_mod_multiples_vanish(1, 0, m);
        }
        assert(((e + c * x) % m + neg_mod(c) * x) % m == (e % m) % m);
        lemma_small_mod(e as nat, m as nat);
    } else {
        lemma_small_mod((m - c) as nat, m as nat);
        assert(neg_mod(c) == m - c);
        assert(e + c * x + (m - c) * x == m * x + e) by (nonlinear_arith);
        lemma_mod_multiples_vanish(x, e, m);
        lemma_small_mod(e as nat, m as nat);
    }
}

/// Scaling every coefficient of a combination by `c` scales its value by `c`.
pub proof fn lemma_eval_scaled(t: Seq<(Index, int)>, c: int, inputs: Seq<int>, aux: Seq<int>)
    ensures
        eval_terms(scale_terms(t, c), inputs, aux) == (c * eval_terms(t, inputs, aux)) % fr_modulus(),
    decreases t.len(),
{
    let m = fr_modulus();
    if t.len() == 0 {
        assert(scale_terms(t, c) =~= Seq::<(Index, int)>::empty());
        assert(c * 0 == 0);
    } else {
        let t0 = t.drop_last();
        let k = t.last().1;
        let x = wire_value(t.last().0, inputs, aux);
        let st = scale_terms(t, c);
        assert(st.drop_last() =~= scale_terms(t0, c));
        assert(st.last() == (t.last().0, (k * c) % m));
        lemma_eval_scaled(t0, c, inputs, aux);
        let e0 = eval_terms(t0, inputs, aux);
        // eval(st) == ((c * e0) % m + ((k * c) % m) * x) % m
        lemma_mul_mod_noop_left(k * c, x, m);
        lemma_add_mod_noop(c * e0, (k * c) * x, m);
        lemma_mod_twice(c * e0, m);
        lemma_mod_twice((k * c) * x, m);
        assert(((c * e0) % m + ((k * c) % m) * x) % m == (c * e0 + (k * c) * x) % m) by {
            lemma_add_mod_noop_right((c * e0) % m, ((k * c) % m) * x, m);
            lemma_add_mod_noop_right((c * e0) % m, (k * c) * x, m);
            lemma_add_mod_noop_right((k * c) * x, c * e0, m);
        }
        assert(c * e0 + (k * c) * x == c * (e0 + k * x)) by (nonlinear_arith);
        lemma_mul_mod_noop_right(c, e0 + k * x, m);
    }
}

/// Adding `c` times a second combination to a first one gives the first
/// value plus `c` times the second value, under every assignment.
pub proof fn lemma_add_scaled_distributes(
    lc1: Seq<(Index, int)>,
    c: int,
    lc2: Seq<(Index, int)>,
    inputs: Seq<int>,
    aux: Seq<int>,
)
    ensures
        eval_terms(lc1 + scale_terms(lc2, c), inputs, aux) == (eval_terms(lc1, inputs, aux) + c
            * eval_terms(lc2, inputs, aux)) % fr_modulus(),
{
    let m = fr_modulus();
    lemma_eval_append(lc1, scale_terms(lc2, c), inputs, aux);
    lemma_eval_scaled(lc2, c, inputs, aux);
    lemma_add_mod_noop_right(eval_terms(lc1, inputs, aux), c * eval_terms(lc2, inputs, aux), m);
}

/// Negating every coefficient of a combination negates its value.
pub proof fn lemma_eval_negated(t: Seq<(Index, int)>, inputs: Seq<int>, aux: Seq<int>)
    ensures
        eval_terms(negate_terms(t), inputs, aux) == (-eval_terms(t, inputs, aux)) % fr_modulus(),
    decreases t.len(),
{
    let m = fr_modulus();
    if t.len() == 0 {
        assert(negate_terms(t) =~= Seq::<(Index, int)>::empty());
    } else {
        let t0 = t.drop_last();
        let k = t.last().1;
        let x = wire_value(t.last().0, inputs, aux);
        let nt = negate_terms(t);
        assert(nt.drop_last() =~= negate_terms(t0));
        assert(nt.last() == (t.last().0, neg_mod(k)));
        lemma_eval_negated(t0, inputs, aux);
        let e0 = eval_terms(t0, inputs, aux);
        // eval(nt) == ((-e0) % m + ((m - k) % m) * x) % m
        lemma_mul_mod_noop_left(m - k, x, m);
        lemma_add_mod_noop(-e0, (m - k) * x, m);
        lemma_mod_twice(-e0, m);
        lemma_mod_twice((m - k) * x, m);
        assert(((-e0) % m + ((m - k) % m) * x) % m == (-e0 + (m - k) * x) % m) by {
            lemma_add_mod_noop_right((-e0) % m, ((m - k) % m) * x, m);
            lemma_add_mod_noop_right((-e0) % m, (m - k) * x, m);
            lemma_add_mod_noop_right((m - k) * x, -e0, m);
        }
        assert(-e0 + (m - k) * x == m * x + (-(e0 + k * x))) by (nonlinear_arith);
        lemma_mod_multiples_vanish(x, -(e0 + k * x), m);
        lemma_sub_mod_noop_right(0, e0 + k * x, m);
    }
}

/// Subtracting a combination gives the difference of the values, under every
/// assignment.
pub proof fn lemma_sub_lc_value(lc1: Seq<(Index, int)>, lc2: Seq<(Index, int)>, inputs: Seq<int>, aux: Seq<int>)
    ensures
        eval_terms(lc1 + negate_terms(lc2), inputs, aux) == (eval_terms(lc1, inputs, aux) - eval_terms(
            lc2,
            inputs,
            aux,
        )) % fr_modulus(),
{
    let m = fr_modulus();
    let e1 = eval_terms(lc1, inputs, aux);
    let e2 = eval_terms(lc2, inputs, aux);
    lemma_eval_append(lc1, negate_terms(lc2), inputs, aux);
    lemma_eval_negated(lc2, inputs, aux);
    lemma_add_mod_noop_right(e1, -e2, m);
}

/// Subtracting `c` times a second combination from a first one gives the
/// first value minus `c` times the second value, under every assignment.
pub proof fn lemma_sub_scaled_distributes(
    lc1: Seq<(Index, int)>,
    c: int,
    lc2: Seq<(Index, int)>,
    inputs: Seq<int>,
    aux: Seq<int>,
)
    ensures
        eval_terms(lc1 + negate_terms(scale_terms(lc2, c)), inputs, aux) == (eval_terms(lc1, inputs, aux)
            - c * eval_terms(lc2, inputs, aux)) % fr_modulus(),
{
    let m = fr_modulus();
    let e1 = eval_terms(lc1, inputs, aux);
    let ce2 = c * eval_terms(lc2, inputs, aux);
    lemma_sub_lc_value(lc1, scale_terms(lc2, c), inputs, aux);
    lemma_eval_scaled(lc2, c, inputs, aux);
    lemma_sub_mod_noop_right(e1, ce2, m);
}

/// The order in which two terms are added does not change the value.
pub proof fn lemma_term_order_irrelevant(
    lc: Seq<(Index, int)>,
    a: (Index, int),
    b: (Index, int),
    inputs: Seq<int>,
    aux: Seq<int>,
)
    ensures
        eval_terms(lc.push(a).push(b), inputs, aux) == eval_terms(lc.push(b).push(a), inputs, aux),
{
    let ab = seq![a, b];
    let ba = seq![b, a];
    assert(lc.push(a).push(b) =~= lc + ab);
    assert(lc.push(b).push(a) =~= lc + ba);
    lemma_eval_append(lc, ab, inputs, aux);
    lemma_eval_append(lc, ba, inputs, aux);
    let m = fr_modulus();
    let xa = a.1 * wire_value(a.0, inputs, aux);
    let xb = b.1 * wire_value(b.0, inputs, aux);
    assert(ab.drop_last() =~= seq![a]);
    assert(ba.drop_last() =~= seq![b]);
    assert(seq![a].drop_last() =~= Seq::<(Index, int)>::empty());
    assert(seq![b].drop_last() =~= Seq::<(Index, int)>::empty());
    assert(eval_terms(Seq::<(Index, int)>::empty(), inputs, aux) == 0);
    assert(seq![a].last() == a);
    assert(seq![b].last() == b);
    assert(ab.last() == b);
    assert(ba.last() == a);
    assert(eval_terms(seq![a], inputs, aux) == (0 + xa) % m);
    assert(eval_terms(seq![b], inputs, aux) == (0 + xb) % m);
    assert(eval_terms(ab, inputs, aux) == ((0 + xa) % m + xb) % m);
    assert(eval_terms(ba, inputs, aux) == ((0 + xb) % m + xa) % m);
    lemma_add_mod_noop_right(xb, xa, m);
    lemma_add_mod_noop_right(xa, xb, m);
    assert(xa + xb == xb + xa);
}

} // verus!
