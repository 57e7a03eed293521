//! A set of connector identifiers with a canonical representation.

use vstd::prelude::*;

verus! {

/// Whether every element of `s` is smaller than all that follow it.
pub open spec fn strictly_increasing(s: Seq<u32>) -> bool {
    forall|i: int, j: int| 0 <= i < j < s.len() ==> s[i] < s[j]
}

/// Two strictly increasing sequences with the same elements are the same
/// sequence: the representation of a set is unique.
pub proof fn lemma_increasing_unique(a: Seq<u32>, b: Seq<u32>)
    requires
        strictly_increasing(a),
        strictly_increasing(b),
        a.to_set() == b.to_set(),
    ensures
        a == b,
    decreases a.len(),
{
    if a.len() == 0 {
        if b.len() > 0 {
            assert(b.contains(b[0]));
            assert(b.to_set().contains(b[0]));
            assert(a.contains(b[0]));
        }
        assert(a =~= b);
    } else {
        let last = a.last();
        assert(a.contains(last));
        assert(a.to_set().contains(last));
        assert(b.contains(last));
        let k = choose|k: int| 0 <= k < b.len() && b[k] == last;
        if k < b.len() - 1 {
            let top = b.last();
            assert(b.contains(top));
            assert(b.to_set().contains(top));
            assert(a.contains(top));
        }
        assert(b.last() == last);
        let a0 = a.drop_last();
        let b0 = b.drop_last();
        assert forall|x: u32| a0.to_set().contains(x) == b0.to_set().contains(x) by {
            if a0.contains(x) {
                let i = choose|i: int| 0 <= i < a0.len() && a0[i] == x;
                assert(a[i] == x);
                assert(a.contains(x));
                assert(b.to_set().contains(x));
                let j = choose|j: int| 0 <= j < b.len() && b[j] == x;
                assert(j < b.len() - 1);
                assert(b0[j] == x);
            }
            if b0.contains(x) {
                let i = choose|i: int| 0 <= i < b0.len() && b0[i] == x;
                assert(b[i] == x);
                assert(b.contains(x));
                assert(a.to_set().contains(x));
                let j = choose|j: int| 0 <= j < a.len() && a[j] == x;
                assert(j < a.len() - 1);
                assert(a0[j] == x);
            }
        }
        assert(a0.to_set() =~= b0.to_set());
        lemma_increasing_unique(a0, b0);
        assert(a =~= a0.push(last));
        assert(b =~= b0.push(last));
    }
}

/// The elements of a strictly increasing sequence are as many as its length.
pub proof fn lemma_increasing_len(s: Seq<u32>)
    requires
        strictly_increasing(s),
    ensures
        s.to_set().finite(),
        s.to_set().len() == s.len(),
{
    assert(s.no_duplicates());
    s.unique_seq_to_set();
    vstd::seq_lib::seq_to_set_is_finite(s);
}

/// A finite set of connector identifiers.
///
/// The identifiers are kept in ascending order without repetition, so two
/// sets with the same elements have the same representation.
#[derive(Debug)]
pub struct ConnectorSet {
    handles: Vec<u32>,
}

impl View for ConnectorSet {
    type V = Set<u32>;

    closed spec fn view(&self) -> Set<u32> {
        self.handles@.to_set()
    }
}

impl ConnectorSet {
    /// The identifiers in ascending order.
    pub closed spec fn seq(&self) -> Seq<u32> {
        self.handles@
    }

    /// The representation invariant: ascending order, no repetition.
    pub closed spec fn wf(&self) -> bool {
        strictly_increasing(self.handles@)
    }

    /// Two well-formed sets are equal exactly if their views are.
    pub proof fn lemma_extensional(&self, other: &ConnectorSet)
        requires
            self.wf(),
            other.wf(),
        ensures
            (self@ == other@) == (self.seq() == other.seq()),
    {
        if self@ == other@ {
            lemma_increasing_unique(self.handles@, other.handles@);
        }
    }

    /// The empty set.
    pub fn new() -> (s: ConnectorSet)
        ensures
            s.wf(),
            s@ == Set::<u32>::empty(),
    {
        let s = ConnectorSet { handles: Vec::new() };
        assert(s.handles@.to_set() =~= Set::<u32>::empty());
        s
    }

    /// The number of identifiers in the set.
    pub fn len(&self) -> (n: usize)
        requires
            self.wf(),
        ensures
            n == self@.len(),
    {
        proof {
            lemma_increasing_len(self.handles@);
        }
        self.handles.len()
    }

    /// Whether the set holds no identifier.
    pub fn is_empty(&self) -> (b: bool)
        requires
            self.wf(),
        ensures
            b == (self@ == Set::<u32>::empty()),
    {
        proof {
            lemma_increasing_len(self.handles@);
            if self.handles@.len() == 0 {
                assert(self.handles@.to_set() =~= Set::<u32>::empty());
            }
        }
        self.handles.len() == 0
    }

    /// The index of the first identifier that is not below `c`.
    fn position(&self, c: u32) -> (idx: usize)
        requires
            self.wf(),
        ensures
            idx <= self.handles@.len(),
            forall|i: int| 0 <= i < idx ==> self.handles@[i] < c,
            forall|i: int| idx <= i < self.handles@.len() ==> self.handles@[i] >= c,
    {
        let mut idx: usize = 0;
        while idx < self.handles.len() && self.handles[idx] < c
            invariant
                idx <= self.handles@.len(),
                forall|i: int| 0 <= i < idx ==> self.handles@[i] < c,
            decreases self.handles@.len() - idx,
        {
            idx = idx + 1;
        }
        idx
    }

    /// Whether `c` is in the set.
    pub fn contains(&self, c: u32) -> (b: bool)
        requires
            self.wf(),
        ensures
            b == self@.contains(c),
    {
        let idx = self.position(c);
        let found = idx < self.handles.len() && self.handles[idx] == c;
        proof {
            if found {
                assert(self.handles@[idx as int] == c);
                assert(self.handles@.contains(c));
            } else if self.handles@.contains(c) {
                let k = choose|k: int| 0 <= k < self.handles@.len() && self.handles@[k] == c;
                assert(k >= idx);
                assert(k > idx);
                assert(self.handles@[idx as int] < self.handles@[k]);
            }
        }
        found
    }

    /// Adds `c` to the set. Returns whether it was absent before.
    pub fn insert(&mut self, c: u32) -> (added: bool)
        requires
            old(self).wf(),
        ensures
            final(self).wf(),
            final(self)@ == old(self)@.insert(c),
            added == !old(self)@.contains(c),
    {
        let idx = self.position(c);
        let ghost before = self.handles@;
        if idx < self.handles.len() && self.handles[idx] == c {
            proof {
                assert(before.contains(c));
                assert(before.to_set().insert(c) =~= before.to_set());
            }
            false
        } else {
            self.handles.insert(idx, c);
            proof {
                let after = self.handles@;
                before.insert_ensures(idx as int, c);
                assert(after.len() == before.len() + 1);
                assert forall|i: int| 0 <= i < idx implies after[i] == before[i] by {}
                assert forall|i: int| idx < i < after.len() implies after[i] == before[i - 1] by {}
                assert(after[idx as int] == c);
                assert forall|i: int, j: int| 0 <= i < j < after.len() implies after[i]
                    < after[j] by {
                    if j < idx {
                    } else if j == idx {
                    } else if i < idx {
                        assert(after[j] == before[j - 1]);
                    } else if i == idx {
                        assert(after[j] == before[j - 1]);
                        assert(before[j - 1] >= c);
                        if idx < before.len() {
                            assert(before[idx as int] != c);
                        }
                        assert(before[idx as int] <= before[j - 1]);
                    } else {
                        assert(after[i] == before[i - 1]);
                        assert(after[j] == before[j - 1]);
                    }
                }
                if before.contains(c) {
                    let k = choose|k: int| 0 <= k < before.len() && before[k] == c;
                    assert(k >= idx);
                    assert(before[idx as int] <= before[k]);
                }
                assert forall|x: u32| after.to_set().contains(x) == before.to_set().insert(
                    c,
                ).contains(x) by {
                    if after.contains(x) {
                        let k = choose|k: int| 0 <= k < after.len() && after[k] == x;
                        if k < idx {
                            assert(before[k] == x);
                        } else if k > idx {
                            assert(before[k - 1] == x);
                        }
                    }
                    if before.contains(x) {
                        let k = choose|k: int| 0 <= k < before.len() && before[k] == x;
                        if k < idx {
                            assert(after[k] == x);
                        } else {
                            assert(after[k + 1] == x);
                        }
                    }
                    if x == c {
                        assert(after[idx as int] == x);
                    }
                }
                assert(after.to_set() =~= before.to_set().insert(c));
            }
            true
        }
    }

    /// Takes `c` out of the set. Returns whether it was present before.
    pub fn remove(&mut self, c: u32) -> (removed: bool)
        requires
            old(self).wf(),
        ensures
            final(self).wf(),
            final(self)@ == old(self)@.remove(c),
            removed == old(self)@.contains(c),
    {
        let idx = self.position(c);
        let ghost before = self.handles@;
        if idx < self.handles.len() && self.handles[idx] == c {
            let _ = self.handles.remove(idx);
            proof {
                let after = self.handles@;
                before.remove_ensures(idx as int);
                assert(before.contains(c));
                assert forall|i: int| 0 <= i < idx implies after[i] == before[i] by {}
                assert forall|i: int| idx <= i < after.len() implies after[i] == before[i + 1] by {}
                assert forall|x: u32| after.to_set().contains(x) == before.to_set().remove(
                    c,
                ).contains(x) by {
                    if after.contains(x) {
                        let k = choose|k: int| 0 <= k < after.len() && after[k] == x;
                        if k < idx {
                            assert(before[k] == x);
                            assert(before[k] < before[idx as int]);
                        } else {
                            assert(before[k + 1] == x);
                            assert(before[idx as int] < before[k + 1]);
                        }
                        assert(before.contains(x));
                    }
                    if before.contains(x) && x != c {
                        let k = choose|k: int| 0 <= k < before.len() && before[k] == x;
                        if k < idx {
                            assert(after[k] == x);
                        } else {
                            assert(k != idx);
                            assert(after[k - 1] == x);
                        }
                    }
                }
                assert(after.to_set() =~= before.to_set().remove(c));
            }
            true
        } else {
            proof {
                if before.contains(c) {
                    let k = choose|k: int| 0 <= k < before.len() && before[k] == c;
                    assert(k >= idx);
                    assert(before[idx as int] <= before[k]);
                }
                assert(before.to_set().remove(c) =~= before.to_set());
            }
            false
        }
    }

    /// The identifiers in ascending order.
    pub fn to_vec(&self) -> (v: Vec<u32>)
        requires
            self.wf(),
        ensures
            v@ == self.seq(),
            strictly_increasing(v@),
            v@.to_set() == self@,
    {
        self.handles.clone()
    }

    /// A copy of this set.
    pub fn copy(&self) -> (s: ConnectorSet)
        requires
            self.wf(),
        ensures
            s.wf(),
            s@ == self@,
            s.seq() == self.seq(),
    {
        ConnectorSet { handles: self.handles.clone() }
    }

    /// Whether the two sets hold the same identifiers.
    pub fn equals(&self, other: &ConnectorSet) -> (b: bool)
        requires
            self.wf(),
            other.wf(),
        ensures
            b == (self@ == other@),
    {
        proof {
            self.lemma_extensional(other);
        }
        if self.handles.len() != other.handles.len() {
            return false;
        }
        let mut i: usize = 0;
        while i < self.handles.len()
            invariant
                i <= self.handles@.len(),
                self.handles@.len() == other.handles@.len(),
                (self@ == other@) == (self.handles@ == other.handles@),
                forall|k: int| 0 <= k < i ==> self.handles@[k] == other.handles@[k],
            decreases self.handles@.len() - i,
        {
            if self.handles[i] != other.handles[i] {
                return false;
            }
            i = i + 1;
        }
        assert(self.handles@ =~= other.handles@);
        true
    }

    /// The set of the identifiers in `handles`.
    pub fn from_slice(handles: &[u32]) -> (s: ConnectorSet)
        ensures
            s.wf(),
            s@ == handles@.to_set(),
    {
        let mut s = ConnectorSet::new();
        let mut i: usize = 0;
        while i < handles.len()
            invariant
                i <= handles@.len(),
                s.wf(),
                s@ == handles@.subrange(0, i as int).to_set(),
            decreases handles@.len() - i,
        {
            let c = handles[i];
            s.insert(c);
            proof {
                let prev = handles@.subrange(0, i as int);
                let next = handles@.subrange(0, i + 1);
                assert(next =~= prev.push(c));
                assert forall|x: u32| next.to_set().contains(x) == prev.to_set().insert(
                    c,
                ).contains(x) by {
                    if next.contains(x) {
                        let k = choose|k: int| 0 <= k < next.len() && next[k] == x;
                        if k < i {
                            assert(prev[k] == x);
                        }
                    }
                    if prev.contains(x) {
                        let k = choose|k: int| 0 <= k < prev.len() && prev[k] == x;
                        assert(next[k] == x);
                    }
                    if x == c {
                        assert(next[i as int] == x);
                    }
                }
                assert(next.to_set() =~= prev.to_set().insert(c));
            }
            i = i + 1;
        }
        assert(handles@.subrange(0, i as int) =~= handles@);
        s
    }

    /// The identifiers of this set that are not in `other`, in ascending
    /// order.
    pub fn difference(&self, other: &ConnectorSet) -> (v: Vec<u32>)
        requires
            self.wf(),
            other.wf(),
        ensures
            v@.to_set() == self@.difference(other@),
            strictly_increasing(v@),
    {
        let mut v: Vec<u32> = Vec::new();
        let mut i: usize = 0;
        while i < self.handles.len()
            invariant
                i <= self.handles@.len(),
                self.wf(),
                other.wf(),
                strictly_increasing(v@),
                forall|k: int|
                    0 <= k < v@.len() ==> !other@.contains(#[trigger] v@[k]) && exists|j: int|
                        0 <= j < i && self.handles@[j] == v@[k],
                forall|j: int|
                    0 <= j < i && !other@.contains(#[trigger] self.handles@[j]) ==> v@.contains(
                        self.handles@[j],
                    ),
            decreases self.handles@.len() - i,
        {
            let c = self.handles[i];
            let inside = other.contains(c);
            if !inside {
                let ghost before = v@;
                v.push(c);
                proof {
                    assert forall|a: int, b: int| 0 <= a < b < v@.len() implies v@[a] < v@[b] by {
                        if b == before.len() {
                            let j = choose|j: int| 0 <= j < i && self.handles@[j] == before[a];
                            assert(self.handles@[j] < self.handles@[i as int]);
                        }
                    }
                    assert forall|j: int|
                        0 <= j < i + 1 && !other@.contains(
                            #[trigger] self.handles@[j],
                        ) implies v@.contains(self.handles@[j]) by {
                        if j < i {
                            assert(before.contains(self.handles@[j]));
                            let k = choose|k: int|
                                0 <= k < before.len() && before[k] == self.handles@[j];
                            assert(v@[k] == self.handles@[j]);
                        } else {
                            assert(v@[before.len() as int] == c);
                        }
                    }
                    assert forall|k: int| 0 <= k < v@.len() implies !other@.contains(
                        #[trigger] v@[k],
                    ) && exists|j: int| 0 <= j < i + 1 && self.handles@[j] == v@[k] by {
                        if k < before.len() {
                            assert(v@[k] == before[k]);
                            let j = choose|j: int| 0 <= j < i && self.handles@[j] == before[k];
                            assert(0 <= j < i + 1 && self.handles@[j] == v@[k]);
                        } else {
                            assert(self.handles@[i as int] == v@[k]);
                        }
                    }
                }
            }
            i = i + 1;
        }
        proof {
            assert forall|x: u32| v@.to_set().contains(x) == self@.difference(other@).contains(
                x,
            ) by {
                if v@.contains(x) {
                    let k = choose|k: int| 0 <= k < v@.len() && v@[k] == x;
                    let j = choose|j: int| 0 <= j < i && self.handles@[j] == v@[k];
                    assert(self.handles@.contains(x));
                }
                if self.handles@.contains(x) && !other@.contains(x) {
                    let j = choose|j: int| 0 <= j < self.handles@.len() && self.handles@[j] == x;
                    assert(v@.contains(self.handles@[j]));
                }
            }
            assert(v@.to_set() =~= self@.difference(other@));
        }
        v
    }
}

} // verus!
