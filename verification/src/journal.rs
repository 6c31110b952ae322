use vstd::prelude::*;

use crate::espresso::Shot;

verus! {

/// One bean tracked by the journal: a label and the shots pulled with it.
#[derive(Debug)]
pub struct BeanEntry {
    pub label: String,
    pub shots: Vec<Shot>,
}

/// Ordered mapping from bean label to the shots recorded for that bean.
///
/// Entries keep their insertion order, which is also the index space the
/// bean-list selection navigates. Labels are unique and never empty.
#[derive(Debug)]
pub struct Journal {
    pub entries: Vec<BeanEntry>,
}

impl Journal {
    /// The bean labels, in insertion order.
    pub open spec fn labels(&self) -> Seq<Seq<char>> {
        Seq::new(self.entries@.len(), |i: int| self.entries@[i].label@)
    }

    pub open spec fn spec_len(&self) -> nat {
        self.entries@.len()
    }

    /// Whether some entry carries this label.
    pub open spec fn has_label(&self, s: Seq<char>) -> bool {
        exists|i: int| 0 <= i < self.spec_len() && self.labels()[i] == s
    }

    /// Labels are pairwise distinct and never empty.
    pub open spec fn wf(&self) -> bool {
        &&& forall|i: int, j: int|
            0 <= i < j < self.spec_len() ==> self.labels()[i] != self.labels()[j]
        &&& forall|i: int| 0 <= i < self.spec_len() ==> self.labels()[i].len() > 0
    }

    /// A fresh journal with no beans.
    pub fn new() -> (r: Journal)
        ensures
            r.spec_len() == 0,
            r.wf(),
    {
        Journal { entries: Vec::new() }
    }

    pub fn len(&self) -> (r: usize)
        ensures
            r == self.spec_len(),
    {
        self.entries.len()
    }

    pub fn is_empty(&self) -> (r: bool)
        ensures
            r == (self.spec_len() == 0),
    {
        self.entries.len() == 0
    }

    /// Whether `label` is already a bean of the journal.
    pub fn has_bean(&self, label: &String) -> (r: bool)
        ensures
            r == self.has_label(label@),
    {
        let mut i: usize = 0;
        while i < self.entries.len()
            invariant
                i <= self.spec_len(),
                forall|k: int| 0 <= k < i ==> self.labels()[k] != label@,
            decreases self.spec_len() - i,
        {
            if self.entries[i].label == *label {
                assert(self.labels()[i as int] == label@);
                return true;
            }
            i = i + 1;
        }
        false
    }

    /// Add a new bean, with the shots already recorded for it, at the end of
    /// the journal.
    pub fn insert(&mut self, label: String, shots: Vec<Shot>)
        requires
            old(self).wf(),
            !old(self).has_label(label@),
            label@.len() > 0,
        ensures
            final(self).wf(),
            final(self).spec_len() == old(self).spec_len() + 1,
            forall|i: int|
                0 <= i < old(self).spec_len() ==> final(self).entries@[i] == old(self).entries@[i],
            final(self).labels()[old(self).spec_len() as int] == label@,
            final(self).entries@[old(self).spec_len() as int].shots == shots,
    {
        let ghost l = label@;
        let ghost n = self.spec_len() as int;
        self.entries.push(BeanEntry { label, shots });
        proof {
            assert forall|i: int| 0 <= i < n implies self.labels()[i] == old(self).labels()[i] by {
                assert(self.entries@[i] == old(self).entries@[i]);
            }
            assert(self.labels()[n] == l);
            assert forall|i: int| 0 <= i < n implies old(self).labels()[i] != l by {
                assert(!(exists|k: int|
                    0 <= k < old(self).spec_len() && old(self).labels()[k] == l));
            }
        }
    }

    /// The label of the bean at position `i`.
    pub fn label_at(&self, i: usize) -> (r: String)
        requires
            i < self.spec_len(),
        ensures
            r@ == self.labels()[i as int],
    {
        self.entries[i].label.clone()
    }

    /// All bean labels in order, for the renderer's list pane.
    pub fn bean_labels(&self) -> (r: Vec<String>)
        ensures
            r@.len() == self.spec_len(),
            forall|i: int| 0 <= i < self.spec_len() ==> r@[i]@ == self.labels()[i],
    {
        let mut out: Vec<String> = Vec::new();
        let mut i: usize = 0;
        while i < self.entries.len()
            invariant
                out@.len() == i,
                i <= self.spec_len(),
                forall|k: int| 0 <= k < i ==> out@[k]@ == self.labels()[k],
            decreases self.spec_len() - i,
        {
            out.push(self.entries[i].label.clone());
            i = i + 1;
        }
        out
    }
}

} // verus!
