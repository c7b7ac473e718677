//! A small map keyed by device address, walked in insertion order.
use vstd::prelude::*;

use crate::address::RawAddress;

verus! {

/// Map from device address to a value. It holds a list of pairs in insertion
/// order, each address at most once, so that walking it is deterministic.
pub struct AddrMap<Val> {
    entries: Vec<(RawAddress, Val)>,
}

impl<Val> View for AddrMap<Val> {
    type V = Map<RawAddress, Val>;

    closed spec fn view(&self) -> Map<RawAddress, Val> {
        Map::new(|k: RawAddress| self.has(k), |k: RawAddress| self.pairs()[self.index_of(k)].1)
    }
}

impl<Val> AddrMap<Val> {
    /// The pairs, in the order in which the map is walked.
    pub closed spec fn pairs(&self) -> Seq<(RawAddress, Val)> {
        self.entries@
    }

    /// Each address occurs in at most one pair.
    #[verifier::opaque]
    pub open spec fn wf(&self) -> bool {
        forall|i: int, j: int|
            0 <= i < self.pairs().len() && 0 <= j < self.pairs().len() && i != j ==> (
            #[trigger] self.pairs()[i]).0 != (#[trigger] self.pairs()[j]).0
    }

    pub open spec fn has(&self, k: RawAddress) -> bool {
        exists|i: int| 0 <= i < self.pairs().len() && (#[trigger] self.pairs()[i]).0 == k
    }

    pub open spec fn index_of(&self, k: RawAddress) -> int {
        choose|i: int| 0 <= i < self.pairs().len() && (#[trigger] self.pairs()[i]).0 == k
    }

    /// The pair at position `i` is what the map holds for its address.
    pub proof fn lemma_pair(&self, i: int)
        requires
            self.wf(),
            0 <= i < self.pairs().len(),
        ensures
            self@.contains_key(self.pairs()[i].0),
            self@[self.pairs()[i].0] == self.pairs()[i].1,
            self.index_of(self.pairs()[i].0) == i,
    {
        reveal(AddrMap::wf);
        let k = self.pairs()[i].0;
        assert(self.has(k));
        let j = self.index_of(k);
        assert(self.pairs()[j].0 == k);
    }

    /// Every address that the map holds sits in one of its pairs.
    pub proof fn lemma_key(&self, k: RawAddress)
        requires
            self.wf(),
            self@.contains_key(k),
        ensures
            0 <= self.index_of(k) < self.pairs().len(),
            self.pairs()[self.index_of(k)].0 == k,
            self.pairs()[self.index_of(k)].1 == self@[k],
    {
        reveal(AddrMap::wf);
    }

    pub fn new() -> (r: Self)
        ensures
            r.wf(),
            r.pairs() == Seq::<(RawAddress, Val)>::empty(),
            r@ == Map::<RawAddress, Val>::empty(),
    {
        reveal(AddrMap::wf);
        let r = AddrMap { entries: Vec::new() };
        assert(r@ =~= Map::<RawAddress, Val>::empty());
        r
    }

    pub fn len(&self) -> (r: usize)
        ensures
            r == self.pairs().len(),
    {
        self.entries.len()
    }

    pub fn key_at(&self, i: usize) -> (r: RawAddress)
        requires
            i < self.pairs().len(),
        ensures
            r == self.pairs()[i as int].0,
    {
        self.entries[i].0
    }

    pub fn value_at(&self, i: usize) -> (r: &Val)
        requires
            i < self.pairs().len(),
        ensures
            *r == self.pairs()[i as int].1,
    {
        &self.entries[i].1
    }

    fn find(&self, k: &RawAddress) -> (r: Option<usize>)
        requires
            self.wf(),
        ensures
            r matches Some(i) ==> i < self.pairs().len() && self.pairs()[i as int].0 == *k
                && self.index_of(*k) == i,
            r is None ==> !self@.contains_key(*k),
    {
        reveal(AddrMap::wf);
        let mut i: usize = 0;
        while i < self.entries.len()
            invariant
                self.wf(),
                i <= self.pairs().len(),
                forall|j: int| 0 <= j < i ==> (#[trigger] self.pairs()[j]).0 != *k,
            decreases self.pairs().len() - i,
        {
            if self.entries[i].0 == *k {
                proof {
                    self.lemma_pair(i as int);
                }
                return Some(i);
            }
            i = i + 1;
        }
        None
    }

    pub fn contains_key(&self, k: &RawAddress) -> (r: bool)
        requires
            self.wf(),
        ensures
            r == self@.contains_key(*k),
    {
        reveal(AddrMap::wf);
        self.find(k).is_some()
    }

    pub fn get(&self, k: &RawAddress) -> (r: Option<&Val>)
        requires
            self.wf(),
        ensures
            r is None <==> !self@.contains_key(*k),
            r matches Some(v) ==> self@.contains_key(*k) && *v == self@[*k],
    {
        reveal(AddrMap::wf);
        match self.find(k) {
            Some(i) => {
                proof {
                    self.lemma_pair(i as int);
                }
                Some(&self.entries[i].1)
            },
            None => None,
        }
    }

    /// Sets the value of `k`; returns the value it had before.
    pub fn insert(&mut self, k: RawAddress, v: Val) -> (r: Option<Val>)
        requires
            old(self).wf(),
        ensures
            final(self).wf(),
            final(self)@ == old(self)@.insert(k, v),
            r is None <==> !old(self)@.contains_key(k),
            r matches Some(p) ==> old(self)@.contains_key(k) && p == old(self)@[k],
            old(self)@.contains_key(k) ==> final(self).pairs() == old(self).pairs().update(
                old(self).index_of(k),
                (k, v),
            ),
            !old(self)@.contains_key(k) ==> final(self).pairs() == old(self).pairs().push((k, v)),
    {
        reveal(AddrMap::wf);
        let ghost before = *self;
        match self.find(&k) {
            Some(i) => {
                proof {
                    before.lemma_pair(i as int);
                }
                let (_, prev) = self.entries.remove(i);
                self.entries.insert(i, (k, v));
                assert(self.pairs() =~= before.pairs().update(i as int, (k, v)));
                assert forall|a: int, b: int|
                    0 <= a < self.pairs().len() && 0 <= b < self.pairs().len() && a != b implies (
                    #[trigger] self.pairs()[a]).0 != (#[trigger] self.pairs()[b]).0 by {
                    assert(before.pairs()[a].0 == self.pairs()[a].0);
                    assert(before.pairs()[b].0 == self.pairs()[b].0);
                }
                assert forall|q: RawAddress| #[trigger]
                    self@.contains_key(q) == before@.insert(k, v).contains_key(q) by {
                    if before.has(q) {
                        let w = choose|w: int|
                            0 <= w < before.pairs().len() && (#[trigger] before.pairs()[w]).0 == q;
                        assert(self.pairs()[w].0 == q);
                    }
                    if self.has(q) {
                        let w = choose|w: int|
                            0 <= w < self.pairs().len() && (#[trigger] self.pairs()[w]).0 == q;
                        assert(before.pairs()[w].0 == q);
                    }
                }
                assert forall|q: RawAddress| #[trigger]
                    self@.contains_key(q) implies self@[q] == before@.insert(k, v)[q] by {
                    self.lemma_key(q);
                    let w = self.index_of(q);
                    if q != k {
                        assert(before.pairs()[w].0 == q);
                        before.lemma_pair(w);
                    }
                }
                assert(self@ =~= before@.insert(k, v));
                Some(prev)
            },
            None => {
                self.entries.push((k, v));
                assert(self.pairs() =~= before.pairs().push((k, v)));
                let ghost n = before.pairs().len() as int;
                assert forall|a: int, b: int|
                    0 <= a < self.pairs().len() && 0 <= b < self.pairs().len() && a != b implies (
                    #[trigger] self.pairs()[a]).0 != (#[trigger] self.pairs()[b]).0 by {
                    if a < n && b < n {
                        assert(before.pairs()[a].0 == self.pairs()[a].0);
                        assert(before.pairs()[b].0 == self.pairs()[b].0);
                    } else if a < n {
                        assert(before.pairs()[a] == self.pairs()[a]);
                        before.lemma_pair(a);
                    } else if b < n {
                        assert(before.pairs()[b] == self.pairs()[b]);
                        before.lemma_pair(b);
                    }
                }
                assert forall|q: RawAddress| #[trigger]
                    self@.contains_key(q) == before@.insert(k, v).contains_key(q) by {
                    if before.has(q) {
                        let w = choose|w: int|
                            0 <= w < before.pairs().len() && (#[trigger] before.pairs()[w]).0 == q;
                        assert(self.pairs()[w].0 == q);
                    }
                    if q == k {
                        assert(self.pairs()[n].0 == q);
                    }
                    if self.has(q) {
                        let w = choose|w: int|
                            0 <= w < self.pairs().len() && (#[trigger] self.pairs()[w]).0 == q;
                        if w < n {
                            assert(before.pairs()[w].0 == q);
                        }
                    }
                }
                assert forall|q: RawAddress| #[trigger]
                    self@.contains_key(q) implies self@[q] == before@.insert(k, v)[q] by {
                    self.lemma_key(q);
                    let w = self.index_of(q);
                    if q != k {
                        assert(w != n);
                        assert(before.pairs()[w].0 == q);
                        before.lemma_pair(w);
                    } else {
                        self.lemma_pair(n);
                    }
                }
                assert(self@ =~= before@.insert(k, v));
                None
            },
        }
    }

    /// Removes `k`; returns the value it had.
    pub fn remove(&mut self, k: &RawAddress) -> (r: Option<Val>)
        requires
            old(self).wf(),
        ensures
            final(self).wf(),
            final(self)@ == old(self)@.remove(*k),
            r is None <==> !old(self)@.contains_key(*k),
            r matches Some(p) ==> old(self)@.contains_key(*k) && p == old(self)@[*k],
            old(self)@.contains_key(*k) ==> final(self).pairs() == old(self).pairs().remove(
                old(self).index_of(*k),
            ),
            !old(self)@.contains_key(*k) ==> final(self).pairs() == old(self).pairs(),
    {
        reveal(AddrMap::wf);
        let ghost before = *self;
        match self.find(k) {
            Some(i) => {
                proof {
                    before.lemma_pair(i as int);
                }
                let (_, prev) = self.entries.remove(i);
                assert(self.pairs() =~= before.pairs().remove(i as int));
                let ghost ii = i as int;
                assert forall|a: int, b: int|
                    0 <= a < self.pairs().len() && 0 <= b < self.pairs().len() && a != b implies (
                    #[trigger] self.pairs()[a]).0 != (#[trigger] self.pairs()[b]).0 by {
                    let a2 = if a < ii {
                        a
                    } else {
                        a + 1
                    };
                    let b2 = if b < ii {
                        b
                    } else {
                        b + 1
                    };
                    assert(before.pairs()[a2] == self.pairs()[a]);
                    assert(before.pairs()[b2] == self.pairs()[b]);
                }
                assert forall|q: RawAddress| #[trigger]
                    self@.contains_key(q) == before@.remove(*k).contains_key(q) by {
                    if before.has(q) && q != *k {
                        let w = choose|w: int|
                            0 <= w < before.pairs().len() && (#[trigger] before.pairs()[w]).0 == q;
                        assert(w != ii);
                        let w2 = if w < ii {
                            w
                        } else {
                            w - 1
                        };
                        assert(self.pairs()[w2].0 == q);
                    }
                    if self.has(q) {
                        let w = choose|w: int|
                            0 <= w < self.pairs().len() && (#[trigger] self.pairs()[w]).0 == q;
                        let w2 = if w < ii {
                            w
                        } else {
                            w + 1
                        };
                        assert(before.pairs()[w2].0 == q);
                        assert(w2 != ii);
                    }
                }
                assert forall|q: RawAddress| #[trigger]
                    self@.contains_key(q) implies self@[q] == before@.remove(*k)[q] by {
                    self.lemma_key(q);
                    let w = self.index_of(q);
                    let w2 = if w < ii {
                        w
                    } else {
                        w + 1
                    };
                    assert(before.pairs()[w2] == self.pairs()[w]);
                    before.lemma_pair(w2);
                }
                assert(self@ =~= before@.remove(*k));
                Some(prev)
            },
            None => {
                assert(self@ =~= before@.remove(*k));
                None
            },
        }
    }
}

} // verus!
