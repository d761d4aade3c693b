//! Sets of processing unit indices.
use vstd::prelude::*;

verus! {

/// The indices are strictly increasing.
pub open spec fn strictly_increasing(s: Seq<u32>) -> bool {
    forall|a: int, b: int| 0 <= a < b < s.len() ==> s[a] < s[b]
}

/// A set of processing unit (CPU) indices, as the binding functions take and
/// return it.
#[derive(Debug, PartialEq, Eq, Hash)]
pub struct CpuSet {
    indices: Vec<u32>,
}

impl View for CpuSet {
    type V = Set<u32>;

    closed spec fn view(&self) -> Set<u32> {
        self.indices@.to_set()
    }
}

impl CpuSet {
    #[verifier::type_invariant]
    spec fn inv(self) -> bool {
        strictly_increasing(self.indices@)
    }

    /// The empty set.
    pub fn new() -> (r: CpuSet)
        ensures
            r@ == Set::<u32>::empty(),
    {
        let r = CpuSet { indices: Vec::new() };
        assert(r.indices@.to_set() =~= Set::<u32>::empty());
        r
    }

    /// Whether `index` is in the set.
    pub fn contains(&self, index: u32) -> (r: bool)
        ensures
            r == self@.contains(index),
    {
        let mut i: usize = 0;
        while i < self.indices.len()
            invariant
                0 <= i <= self.indices@.len(),
                forall|j: int| 0 <= j < i ==> self.indices@[j] != index,
            decreases self.indices@.len() - i,
        {
            if self.indices[i] == index {
                assert(self.indices@.contains(index));
                return true;
            }
            i = i + 1;
        }
        assert(!self.indices@.contains(index));
        false
    }

    /// Adds `index` to the set.
    pub fn insert(&mut self, index: u32)
        ensures
            final(self)@ == old(self)@.insert(index),
    {
        proof {
            use_type_invariant(&*self);
        }
        let mut i: usize = 0;
        while i < self.indices.len() && self.indices[i] < index
            invariant
                0 <= i <= self.indices@.len(),
                forall|j: int| 0 <= j < i ==> self.indices@[j] < index,
            decreases self.indices@.len() - i,
        {
            i = i + 1;
        }
        if i < self.indices.len() && self.indices[i] == index {
            assert(self.indices@.contains(index));
            assert(self.indices@.to_set() =~= self.indices@.to_set().insert(index));
            return;
        }
        let ghost before = self.indices@;
        let ghost after = before.insert(i as int, index);
        assert(strictly_increasing(after)) by {
            assert forall|a: int, b: int| 0 <= a < b < after.len() implies after[a] < after[b] by {
                if b > i && a < i {
                    assert(before[b - 1] > index);
                } else if b > i && a == i {
                    assert(before[b - 1] >= before[a]);
                }
            }
        }
        assert(after.to_set() =~= before.to_set().insert(index)) by {
            assert forall|v: u32| after.contains(v) implies #[trigger] before.contains(v) || v == index by {
                let k = choose|k: int| 0 <= k < after.len() && after[k] == v;
                if k < i {
                    assert(before[k] == v);
                } else if k > i {
                    assert(before[k - 1] == v);
                }
            }
            assert forall|v: u32| before.contains(v) implies #[trigger] after.contains(v) by {
                let k = choose|k: int| 0 <= k < before.len() && before[k] == v;
                if k < i {
                    assert(after[k] == v);
                } else {
                    assert(after[k + 1] == v);
                }
            }
            assert(after[i as int] == index);
        }
        let mut indices = self.indices.clone();
        assert(indices@ =~= before);
        indices.insert(i, index);
        self.indices = indices;
    }

    /// The indices of the set, in increasing order.
    pub fn indices(&self) -> (r: &[u32])
        ensures
            r@.to_set() == self@,
            strictly_increasing(r@),
    {
        proof {
            use_type_invariant(self);
        }
        self.indices.as_slice()
    }

    /// Number of indices in the set.
    pub fn len(&self) -> (r: usize)
        ensures
            r == self@.len(),
    {
        proof {
            use_type_invariant(self);
            self.indices@.unique_seq_to_set();
        }
        self.indices.len()
    }
}

impl Clone for CpuSet {
    fn clone(&self) -> (r: CpuSet)
        ensures
            r@ == self@,
    {
        proof {
            use_type_invariant(self);
        }
        let indices = self.indices.clone();
        assert(indices@ =~= self.indices@);
        CpuSet { indices }
    }
}

} // verus!
