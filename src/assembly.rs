use crate::density::DensityTracker;
use crate::linear::{eval_terms, values, Coefficient, Index, LinearCombination};
use crate::scalar::{all_wf, fr_modulus, Scalar};
use vstd::prelude::*;

verus! {

/// The wire of a namespace that an index names, if it names one there.
pub open spec fn in_namespace(i: Index, j: int, aux_side: bool) -> bool {
    match i {
        Index::Input(k) => !aux_side && k == j,
        Index::Aux(k) => aux_side && k == j,
    }
}

/// The bitmap with every position of the namespace that a term of `t` names
/// marked in addition.
pub open spec fn mark_terms(bits: Seq<bool>, t: Seq<(Index, int)>, aux_side: bool) -> Seq<bool> {
    Seq::new(
        bits.len(),
        |j: int| bits[j] || exists|k: int| 0 <= k < t.len() && in_namespace(#[trigger] t[k].0, j, aux_side),
    )
}

/// Every wire that a term names has been allocated.
pub open spec fn refs_allocated(t: Seq<(Index, int)>, n_inputs: nat, n_aux: nat) -> bool {
    forall|k: int|
        0 <= k < t.len() ==> match (#[trigger] t[k]).0 {
            Index::Input(i) => i < n_inputs,
            Index::Aux(i) => i < n_aux,
        }
}

/// Every wire of the namespace that a term names lies below `n`.
pub open spec fn refs_within(t: Seq<(Index, int)>, n: nat, aux_side: bool) -> bool {
    forall|k: int|
        0 <= k < t.len() ==> match (#[trigger] t[k]).0 {
            Index::Input(i) => !aux_side ==> i < n,
            Index::Aux(i) => aux_side ==> i < n,
        }
}

/// Marks in `density` every wire of one namespace that `lc` names.
fn mark_density(density: &mut DensityTracker, lc: &LinearCombination, aux_side: bool)
    requires
        old(density).wf(),
        refs_within(lc@, old(density)@.len(), aux_side),
    ensures
        final(density).wf(),
        final(density)@ == mark_terms(old(density)@, lc@, aux_side),
{
    let ghost start = density@;
    let mut i: usize = 0;
    while i < lc.0.len()
        invariant
            density.wf(),
            start.len() == density@.len(),
            refs_within(lc@, start.len(), aux_side),
            i <= lc.0@.len(),
            density@ == mark_terms(start, lc@.take(i as int), aux_side),
        decreases lc.0@.len() - i,
    {
        let ghost before = density@;
        let (var, _coeff) = lc.0[i];
        assert(lc@[i as int].0 == var.0);
        match var.0 {
            Index::Input(k) => {
                if !aux_side {
                    density.inc(k);
                }
            },
            Index::Aux(k) => {
                if aux_side {
                    density.inc(k);
                }
            },
        }
        proof {
            let t1 = lc@.take(i + 1);
            let t0 = lc@.take(i as int);
            assert(t1[i as int].0 == var.0);
            assert forall|j: int| 0 <= j < start.len() implies density@[j] == mark_terms(start, t1, aux_side)[j] by {
                assert(before[j] == mark_terms(start, t0, aux_side)[j]);
                if in_namespace(var.0, j, aux_side) {
                    assert(in_namespace(t1[i as int].0, j, aux_side));
                    assert(density@[j]);
                } else {
                    assert(density@[j] == before[j]);
                    if exists|k: int| 0 <= k < t1.len() && in_namespace(#[trigger] t1[k].0, j, aux_side) {
                        let k = choose|k: int| 0 <= k < t1.len() && in_namespace(#[trigger] t1[k].0, j, aux_side);
                        assert(k != i);
                        assert(t0[k].0 == t1[k].0);
                        assert(in_namespace(t0[k].0, j, aux_side));
                    }
                    if exists|k: int| 0 <= k < t0.len() && in_namespace(#[trigger] t0[k].0, j, aux_side) {
                        let k = choose|k: int| 0 <= k < t0.len() && in_namespace(#[trigger] t0[k].0, j, aux_side);
                        assert(t0[k].0 == t1[k].0);
                        assert(in_namespace(t1[k].0, j, aux_side));
                    }
                }
            }
            assert(density@ =~= mark_terms(start, t1, aux_side));
        }
        i = i + 1;
    }
    assert(lc@.take(i as int) =~= lc@);
}

/// The witness of a circuit as it is synthesized: the values of the input and
/// auxiliary wires, the value of each side of each constraint, and which wires
/// the A and B sides use.
pub struct ProvingAssignment {
    pub a_aux_density: DensityTracker,
    pub b_input_density: DensityTracker,
    pub b_aux_density: DensityTracker,
    pub a: Vec<Scalar>,
    pub b: Vec<Scalar>,
    pub c: Vec<Scalar>,
    pub input: Vec<Scalar>,
    pub aux: Vec<Scalar>,
}

impl ProvingAssignment {
    pub open spec fn wf(&self) -> bool {
        &&& self.a_aux_density.wf()
        &&& self.b_input_density.wf()
        &&& self.b_aux_density.wf()
        &&& self.a_aux_density@.len() == self.aux@.len()
        &&& self.b_aux_density@.len() == self.aux@.len()
        &&& self.b_input_density@.len() == self.input@.len()
        &&& self.input@.len() >= 1
        &&& self.a@.len() == self.b@.len()
        &&& self.a@.len() == self.c@.len()
        &&& all_wf(self.input@)
        &&& all_wf(self.aux@)
        &&& all_wf(self.a@)
        &&& all_wf(self.b@)
        &&& all_wf(self.c@)
    }

    /// A fresh assignment holding only input wire 0, the constant one.
    pub fn new() -> (r: ProvingAssignment)
        ensures
            r.wf(),
            r.input@.len() == 1,
            r.input@[0].value() == 1,
            r.aux@.len() == 0,
            r.a@.len() == 0,
            r.b_input_density@ == seq![false],
            r.a_aux_density@.len() == 0,
            r.b_aux_density@.len() == 0,
    {
        let mut b_input_density = DensityTracker::new();
        b_input_density.add_element();
        let mut input: Vec<Scalar> = Vec::new();
        input.push(Scalar::one());
        ProvingAssignment {
            a_aux_density: DensityTracker::new(),
            b_input_density,
            b_aux_density: DensityTracker::new(),
            a: Vec::new(),
            b: Vec::new(),
            c: Vec::new(),
            input,
            aux: Vec::new(),
        }
    }

    /// Allocates an auxiliary wire holding `value`.
    pub fn alloc_aux(&mut self, value: Scalar) -> (r: Coefficient)
        requires
            old(self).wf(),
            value.wf(),
        ensures
            final(self).wf(),
            r.0 == Index::Aux(old(self).aux@.len() as usize),
            final(self).aux@ == old(self).aux@.push(value),
            final(self).input@ == old(self).input@,
            final(self).a_aux_density@ == old(self).a_aux_density@.push(false),
            final(self).b_aux_density@ == old(self).b_aux_density@.push(false),
            final(self).b_input_density@ == old(self).b_input_density@,
            final(self).a@ == old(self).a@,
            final(self).b@ == old(self).b@,
            final(self).c@ == old(self).c@,
    {
        let idx = self.aux.len();
        self.aux.push(value);
        self.a_aux_density.add_element();
        self.b_aux_density.add_element();
        Coefficient(Index::Aux(idx))
    }

    /// Allocates an input wire holding `value`.
    pub fn alloc_input(&mut self, value: Scalar) -> (r: Coefficient)
        requires
            old(self).wf(),
            value.wf(),
        ensures
            final(self).wf(),
            r.0 == Index::Input(old(self).input@.len() as usize),
            final(self).input@ == old(self).input@.push(value),
            final(self).aux@ == old(self).aux@,
            final(self).b_input_density@ == old(self).b_input_density@.push(false),
            final(self).a_aux_density@ == old(self).a_aux_density@,
            final(self).b_aux_density@ == old(self).b_aux_density@,
            final(self).a@ == old(self).a@,
            final(self).b@ == old(self).b@,
            final(self).c@ == old(self).c@,
    {
        let idx = self.input.len();
        self.input.push(value);
        self.b_input_density.add_element();
        Coefficient(Index::Input(idx))
    }

    /// Records the constraint `a * b = c`: the value of each side under the
    /// current assignment, and the wires that the A and B sides use.
    pub fn enforce(&mut self, a: &LinearCombination, b: &LinearCombination, c: &LinearCombination)
        requires
            old(self).wf(),
            a.wf(),
            b.wf(),
            c.wf(),
            refs_allocated(a@, old(self).input@.len(), old(self).aux@.len()),
            refs_allocated(b@, old(self).input@.len(), old(self).aux@.len()),
        ensures
            final(self).wf(),
            final(self).input@ == old(self).input@,
            final(self).aux@ == old(self).aux@,
            final(self).a@.len() == old(self).a@.len() + 1,
            final(self).a@ == old(self).a@.push(final(self).a@.last()),
            final(self).b@ == old(self).b@.push(final(self).b@.last()),
            final(self).c@ == old(self).c@.push(final(self).c@.last()),
            final(self).a@.last().value() == eval_terms(a@, values(old(self).input@), values(old(self).aux@)),
            final(self).b@.last().value() == eval_terms(b@, values(old(self).input@), values(old(self).aux@)),
            final(self).c@.last().value() == eval_terms(c@, values(old(self).input@), values(old(self).aux@)),
            final(self).a_aux_density@ == mark_terms(old(self).a_aux_density@, a@, true),
            final(self).b_input_density@ == mark_terms(old(self).b_input_density@, b@, false),
            final(self).b_aux_density@ == mark_terms(old(self).b_aux_density@, b@, true),
    {
        let ea = a.evaluate(&self.input, &self.aux);
        let eb = b.evaluate(&self.input, &self.aux);
        let ec = c.evaluate(&self.input, &self.aux);
        self.a.push(ea);
        self.b.push(eb);
        self.c.push(ec);
        mark_density(&mut self.a_aux_density, a, true);
        mark_density(&mut self.b_input_density, b, false);
        mark_density(&mut self.b_aux_density, b, true);
        proof {
            assert forall|i: int| 0 <= i < self.a@.len() implies (#[trigger] self.a@[i]).wf() by {
                if i < old(self).a@.len() {
                    assert(self.a@[i] == old(self).a@[i]);
                }
            }
            assert forall|i: int| 0 <= i < self.b@.len() implies (#[trigger] self.b@[i]).wf() by {
                if i < old(self).b@.len() {
                    assert(self.b@[i] == old(self).b@[i]);
                }
            }
            assert forall|i: int| 0 <= i < self.c@.len() implies (#[trigger] self.c@[i]).wf() by {
                if i < old(self).c@.len() {
                    assert(self.c@[i] == old(self).c@[i]);
                }
            }
        }
    }

    /// Whether every recorded constraint holds: `a * b == c` modulo r on each row.
    pub fn is_satisfied(&self) -> (r: bool)
        requires
            self.wf(),
        ensures
            r == forall|i: int|
                0 <= i < self.a@.len() ==> (#[trigger] self.a@[i]).value() * self.b@[i].value() % fr_modulus()
                    == self.c@[i].value(),
    {
        let mut i: usize = 0;
        while i < self.a.len()
            invariant
                self.wf(),
                i <= self.a@.len(),
                forall|j: int|
                    0 <= j < i ==> (#[trigger] self.a@[j]).value() * self.b@[j].value() % fr_modulus()
                        == self.c@[j].value(),
            decreases self.a@.len() - i,
        {
            let p = self.a[i].mul(&self.b[i]);
            if !p.equals(&self.c[i]) {
                return false;
            }
            i = i + 1;
        }
        true
    }
}

} // verus!
