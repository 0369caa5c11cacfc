use vstd::prelude::*;

verus! {

/// The number of set bits.
pub open spec fn popcount(s: Seq<bool>) -> nat
    decreases s.len(),
{
    if s.len() == 0 {
        0
    } else {
        popcount(s.drop_last()) + if s.last() { 1nat } else { 0nat }
    }
}

pub proof fn lemma_popcount_bound(s: Seq<bool>)
    ensures
        popcount(s) <= s.len(),
    decreases s.len(),
{
    if s.len() > 0 {
        lemma_popcount_bound(s.drop_last());
    }
}

pub proof fn lemma_popcount_push_false(s: Seq<bool>)
    ensures
        popcount(s.push(false)) == popcount(s),
{
    assert(s.push(false).drop_last() =~= s);
}

pub proof fn lemma_popcount_set(s: Seq<bool>, i: int)
    requires
        0 <= i < s.len(),
    ensures
        popcount(s.update(i, true)) == popcount(s) + if s[i] { 0nat } else { 1nat },
    decreases s.len(),
{
    let u = s.update(i, true);
    if i == s.len() - 1 {
        assert(u.drop_last() =~= s.drop_last());
    } else {
        assert(u.drop_last() =~= s.drop_last().update(i, true));
        lemma_popcount_set(s.drop_last(), i);
    }
}

/// A growable bitmap over wire positions together with the number of set
/// bits, which it always equals.
pub struct DensityTracker {
    bv: Vec<bool>,
    total_density: usize,
}

impl View for DensityTracker {
    type V = Seq<bool>;

    closed spec fn view(&self) -> Seq<bool> {
        self.bv@
    }
}

impl DensityTracker {
    /// The count matches the bitmap.
    pub closed spec fn wf(&self) -> bool {
        self.total_density == popcount(self.bv@)
    }

    pub fn new() -> (r: DensityTracker)
        ensures
            r.wf(),
            r@ == Seq::<bool>::empty(),
    {
        DensityTracker { bv: Vec::new(), total_density: 0 }
    }

    /// Extends the bitmap by one unset position.
    pub fn add_element(&mut self)
        requires
            old(self).wf(),
        ensures
            final(self).wf(),
            final(self)@ == old(self)@.push(false),
    {
        proof {
            lemma_popcount_push_false(self.bv@);
        }
        self.bv.push(false);
    }

    /// Marks position `idx`; a position already marked is not counted twice.
    pub fn inc(&mut self, idx: usize)
        requires
            old(self).wf(),
            idx < old(self)@.len(),
        ensures
            final(self).wf(),
            final(self)@ == old(self)@.update(idx as int, true),
    {
        proof {
            lemma_popcount_set(self.bv@, idx as int);
            lemma_popcount_bound(self.bv@.update(idx as int, true));
        }
        if self.total_density < self.bv.len() && !self.bv[idx] {
            self.bv.set(idx, true);
            self.total_density = self.total_density + 1;
        }
        assert(self.bv@ =~= old(self).bv@.update(idx as int, true));
    }

    pub fn get(&self, idx: usize) -> (r: bool)
        requires
            idx < self@.len(),
        ensures
            r == self@[idx as int],
    {
        self.bv[idx]
    }

    pub fn len(&self) -> (r: usize)
        ensures
            r == self@.len(),
    {
        self.bv.len()
    }

    /// The number of marked positions.
    pub fn get_total_density(&self) -> (r: usize)
        requires
            self.wf(),
        ensures
            r == popcount(self@),
    {
        self.total_density
    }
}

} // verus!
