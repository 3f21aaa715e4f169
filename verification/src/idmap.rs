//! A small association map keyed by integer ids. Keys are unique and entries
//! keep their insertion order, so every walk over the map is deterministic.
use vstd::prelude::*;

verus! {

pub struct IdMap<V> {
    pub entries: Vec<(u64, V)>,
}

impl<V> View for IdMap<V> {
    type V = Map<u64, V>;

    open spec fn view(&self) -> Map<u64, V> {
        Map::new(|k: u64| self.contains_spec(k), |k: u64| self.entries@[self.index_of(k)].1)
    }
}

impl<V> IdMap<V> {
    /// The entries in insertion order.
    pub open spec fn entries_spec(&self) -> Seq<(u64, V)> {
        self.entries@
    }

    /// No key occurs twice.
    pub open spec fn wf(&self) -> bool {
        forall|i: int, j: int| 0 <= i < j < self.entries@.len()
            ==> (#[trigger] self.entries@[i]).0 != (#[trigger] self.entries@[j]).0
    }

    pub open spec fn contains_spec(&self, k: u64) -> bool {
        exists|i: int| 0 <= i < self.entries@.len() && (#[trigger] self.entries@[i]).0 == k
    }

    pub open spec fn index_of(&self, k: u64) -> int {
        choose|i: int| 0 <= i < self.entries@.len() && (#[trigger] self.entries@[i]).0 == k
    }

    proof fn lemma_index_of(&self, k: u64)
        requires
            self.wf(),
            self.contains_spec(k),
        ensures
            0 <= self.index_of(k) < self.entries@.len(),
            self.entries@[self.index_of(k)].0 == k,
            forall|i: int| 0 <= i < self.entries@.len() && (#[trigger] self.entries@[i]).0 == k
                ==> i == self.index_of(k),
    {
    }

    /// A key of the map names the entry at its position.
    pub proof fn lemma_index_of_entry(&self, k: u64)
        requires
            self.wf(),
            self@.dom().contains(k),
        ensures
            0 <= self.index_of(k) < self.entries_spec().len(),
            self.entries_spec()[self.index_of(k)].0 == k,
            self.entries_spec()[self.index_of(k)].1 == self@[k],
    {
        self.lemma_index_of(k);
    }

    /// An entry of the sequence is the map's entry for its key.
    pub proof fn lemma_entry_at(&self, i: int)
        requires
            self.wf(),
            0 <= i < self.entries_spec().len(),
        ensures
            self@.dom().contains(self.entries_spec()[i].0),
            self@[self.entries_spec()[i].0] == self.entries_spec()[i].1,
            self.index_of(self.entries_spec()[i].0) == i,
    {
        assert(self.contains_spec(self.entries@[i].0));
        self.lemma_index_of(self.entries@[i].0);
    }

    pub fn new() -> (r: Self)
        ensures
            r.wf(),
            r@ == Map::<u64, V>::empty(),
            r.entries_spec().len() == 0,
    {
        let r = IdMap { entries: Vec::new() };
        proof {
            assert(r@ =~= Map::<u64, V>::empty());
        }
        r
    }

    /// How many entries the map holds.
    pub fn len(&self) -> (r: usize)
        ensures
            r == self.entries_spec().len(),
    {
        self.entries.len()
    }

    /// The position of `k` among the entries, if it is there.
    fn find(&self, k: u64) -> (r: Option<usize>)
        requires
            self.wf(),
        ensures
            match r {
                Some(i) => self.contains_spec(k) && i == self.index_of(k),
                None => !self.contains_spec(k),
            },
    {
        let n = self.entries.len();
        for i in 0..n
            invariant
                n == self.entries@.len(),
                self.wf(),
                forall|j: int| 0 <= j < i ==> (#[trigger] self.entries@[j]).0 != k,
        {
            if self.entries[i].0 == k {
                proof {
                    self.lemma_entry_at(i as int);
                }
                return Some(i);
            }
        }
        None
    }

    pub fn contains_key(&self, k: u64) -> (r: bool)
        requires
            self.wf(),
        ensures
            r == self@.dom().contains(k),
    {
        self.find(k).is_some()
    }

    pub fn get(&self, k: u64) -> (r: Option<&V>)
        requires
            self.wf(),
        ensures
            match r {
                Some(v) => self@.dom().contains(k) && *v == self@[k],
                None => !self@.dom().contains(k),
            },
    {
        match self.find(k) {
            Some(i) => Some(&self.entries[i].1),
            None => None,
        }
    }

    /// Inserts `k => v`, replacing the old value if `k` is already there; a
    /// fresh key goes to the end of the walk order.
    pub fn insert(&mut self, k: u64, v: V)
        requires
            old(self).wf(),
        ensures
            final(self).wf(),
            final(self)@ == old(self)@.insert(k, v),
            old(self)@.dom().contains(k) ==> {
                &&& final(self).entries_spec()
                    == old(self).entries_spec().update(old(self).index_of(k), (k, v))
            },
            !old(self)@.dom().contains(k) ==> {
                &&& final(self).entries_spec() == old(self).entries_spec().push((k, v))
            },
    {
        let found = self.find(k);
        match found {
            Some(i) => {
                self.entries.set(i, (k, v));
                proof {
                    let o = old(self);
                    assert forall|k2: u64| self.contains_spec(k2) <==> o.contains_spec(k2) by {
                        if self.contains_spec(k2) {
                            let j = choose|j: int| 0 <= j < self.entries@.len()
                                && (#[trigger] self.entries@[j]).0 == k2;
                            assert(o.entries@[j].0 == k2 || k2 == k);
                            if k2 == k {
                                assert(o.entries@[i as int].0 == k2);
                            }
                        }
                        if o.contains_spec(k2) {
                            let j = choose|j: int| 0 <= j < o.entries@.len()
                                && (#[trigger] o.entries@[j]).0 == k2;
                            assert(self.entries@[j].0 == k2 || k2 == k);
                            if k2 == k {
                                assert(self.entries@[i as int].0 == k2);
                            }
                        }
                    }
                    assert forall|k2: u64| #[trigger] self.contains_spec(k2) implies
                        self.entries@[self.index_of(k2)].1 == o@.insert(k, v)[k2] by {
                        let j = self.index_of(k2);
                        assert(0 <= j < self.entries@.len() && self.entries@[j].0 == k2);
                        if k2 == k {
                            o.lemma_index_of(k);
                            assert(o.entries@[j].0 == k2 || j == i);
                            if j != i {
                                assert(o.contains_spec(k2));
                            }
                            assert(j == i);
                        } else {
                            assert(o.entries@[j].0 == k2);
                            o.lemma_index_of(k2);
                        }
                    }
                    assert(self@ =~= o@.insert(k, v));
                }
            },
            None => {
                self.entries.push((k, v));
                proof {
                    let o = old(self);
                    let n = o.entries@.len() as int;
                    assert forall|k2: u64| self.contains_spec(k2) <==> (o.contains_spec(k2) || k2 == k) by {
                        if self.contains_spec(k2) {
                            let j = choose|j: int| 0 <= j < self.entries@.len()
                                && (#[trigger] self.entries@[j]).0 == k2;
                            if j < n {
                                assert(o.entries@[j].0 == k2);
                            }
                        }
                        if o.contains_spec(k2) {
                            let j = choose|j: int| 0 <= j < o.entries@.len()
                                && (#[trigger] o.entries@[j]).0 == k2;
                            assert(self.entries@[j].0 == k2);
                        }
                        if k2 == k {
                            assert(self.entries@[n].0 == k2);
                        }
                    }
                    assert(self.wf()) by {
                        assert forall|i2: int, j2: int| 0 <= i2 < j2 < self.entries@.len() implies
                            (#[trigger] self.entries@[i2]).0 != (#[trigger] self.entries@[j2]).0 by {
                            if j2 == n {
                                assert(o.entries@[i2].0 == self.entries@[i2].0);
                                if self.entries@[i2].0 == k {
                                    assert(o.contains_spec(k));
                                }
                            }
                        }
                    }
                    assert forall|k2: u64| #[trigger] self.contains_spec(k2) implies
                        self.entries@[self.index_of(k2)].1 == o@.insert(k, v)[k2] by {
                        let j = self.index_of(k2);
                        assert(0 <= j < self.entries@.len() && self.entries@[j].0 == k2);
                        if k2 == k {
                            assert(j == n) by {
                                if j < n {
                                    assert(o.entries@[j].0 == k2);
                                    assert(o.contains_spec(k));
                                }
                            }
                        } else {
                            assert(j < n);
                            assert(o.entries@[j].0 == k2);
                            o.lemma_index_of(k2);
                        }
                    }
                    assert(self@ =~= o@.insert(k, v));
                }
            },
        }
    }

    /// Removes `k`, returning its value; the other entries keep their order.
    pub fn remove(&mut self, k: u64) -> (r: Option<V>)
        requires
            old(self).wf(),
        ensures
            final(self).wf(),
            final(self)@ == old(self)@.remove(k),
            r is Some <==> old(self)@.dom().contains(k),
            r is Some ==> r.unwrap() == old(self)@[k],
            old(self)@.dom().contains(k) ==> final(self).entries_spec()
                == old(self).entries_spec().remove(old(self).index_of(k)),
            !old(self)@.dom().contains(k) ==> final(self).entries_spec() == old(self).entries_spec(),
    {
        let found = self.find(k);
        match found {
            Some(i) => {
                proof {
                    self.lemma_entry_at(i as int);
                }
                let (_, v) = self.entries.remove(i);
                proof {
                    let o = old(self);
                    let n = o.entries@.len() as int;
                    assert forall|k2: u64| self.contains_spec(k2) <==> (o.contains_spec(k2) && k2 != k) by {
                        if self.contains_spec(k2) {
                            let j = choose|j: int| 0 <= j < self.entries@.len()
                                && (#[trigger] self.entries@[j]).0 == k2;
                            if j < i {
                                assert(o.entries@[j].0 == k2);
                                o.lemma_index_of(k2);
                            } else {
                                assert(o.entries@[j + 1].0 == k2);
                                o.lemma_index_of(k2);
                            }
                        }
                        if o.contains_spec(k2) && k2 != k {
                            o.lemma_index_of(k2);
                            let j = o.index_of(k2);
                            if j < i {
                                assert(self.entries@[j].0 == k2);
                            } else {
                                assert(j > i);
                                assert(self.entries@[j - 1].0 == k2);
                            }
                        }
                    }
                    assert(self.wf()) by {
                        assert forall|i2: int, j2: int| 0 <= i2 < j2 < self.entries@.len() implies
                            (#[trigger] self.entries@[i2]).0 != (#[trigger] self.entries@[j2]).0 by {
                            let a = if i2 < i { i2 } else { i2 + 1 };
                            let b = if j2 < i { j2 } else { j2 + 1 };
                            assert(self.entries@[i2] == o.entries@[a]);
                            assert(self.entries@[j2] == o.entries@[b]);
                        }
                    }
                    assert forall|k2: u64| #[trigger] self.contains_spec(k2) implies
                        self.entries@[self.index_of(k2)].1 == o@[k2] by {
                        let j = self.index_of(k2);
                        assert(0 <= j < self.entries@.len() && self.entries@[j].0 == k2);
                        o.lemma_index_of(k2);
                        if j < i {
                            assert(o.entries@[j].0 == k2);
                            assert(self.entries@[j].1 == o.entries@[j].1);
                        } else {
                            assert(o.entries@[j + 1].0 == k2);
                            assert(self.entries@[j].1 == o.entries@[j + 1].1);
                        }
                    }
                    assert(self@ =~= o@.remove(k));
                }
                Some(v)
            },
            None => {
                proof {
                    assert(self@ =~= old(self)@.remove(k));
                }
                None
            },
        }
    }

    /// The key of the entry at position `i` of the walk order.
    pub fn key_at(&self, i: usize) -> (r: u64)
        requires
            i < self.entries_spec().len(),
        ensures
            r == self.entries_spec()[i as int].0,
    {
        self.entries[i].0
    }

    /// The value of the entry at position `i` of the walk order.
    pub fn value_at(&self, i: usize) -> (r: &V)
        requires
            i < self.entries_spec().len(),
        ensures
            *r == self.entries_spec()[i as int].1,
    {
        &self.entries[i].1
    }

    /// Replaces the value at position `i`, keeping its key.
    pub fn set_value_at(&mut self, i: usize, v: V)
        requires
            old(self).wf(),
            i < old(self).entries_spec().len(),
        ensures
            final(self).wf(),
            final(self).entries_spec() == old(self).entries_spec().update(
                i as int,
                (old(self).entries_spec()[i as int].0, v),
            ),
            final(self)@ == old(self)@.insert(old(self).entries_spec()[i as int].0, v),
    {
        let k = self.entries[i].0;
        proof {
            self.lemma_entry_at(i as int);
        }
        self.insert(k, v);
    }
}

} // verus!
