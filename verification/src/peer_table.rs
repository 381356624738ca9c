//! A table of per-peer records, keyed by the peer's textual identifier.
//!
//! Entries keep the order in which their keys were first inserted; no key occurs twice.

use vstd::prelude::*;

verus! {

/// Per-peer records keyed by peer identifier.
pub struct PeerTable<V> {
    keys: Vec<String>,
    vals: Vec<V>,
}

impl<V> View for PeerTable<V> {
    type V = Map<Seq<char>, V>;

    closed spec fn view(&self) -> Map<Seq<char>, V> {
        Map::new(
            |k: Seq<char>| self.key_list().contains(k),
            |k: Seq<char>| self.vals@[self.key_list().index_of(k)],
        )
    }
}

impl<V> PeerTable<V> {
    /// The keys, in table order.
    pub closed spec fn key_list(&self) -> Seq<Seq<char>> {
        self.keys@.map_values(|s: String| s@)
    }

    /// The records, in the order of `key_list`.
    pub closed spec fn values(&self) -> Seq<V> {
        self.vals@
    }

    /// Keys and records line up and no key occurs twice.
    pub closed spec fn wf(&self) -> bool {
        &&& self.keys@.len() == self.vals@.len()
        &&& self.key_list().no_duplicates()
    }

    /// What the order of entries means: the record at position `i` is the one the
    /// table holds for the key at position `i`, and the keys are the domain.
    pub proof fn lemma_entries(&self)
        requires
            self.wf(),
        ensures
            self.key_list().len() == self.values().len(),
            self.key_list().no_duplicates(),
            forall|i: int|
                0 <= i < self.key_list().len() ==> #[trigger] self@.contains_key(self.key_list()[i])
                    && self@[self.key_list()[i]] == self.values()[i],
            forall|k: Seq<char>| #[trigger] self@.contains_key(k) <==> self.key_list().contains(k),
    {
        assert forall|i: int| 0 <= i < self.key_list().len() implies #[trigger] self@.contains_key(
            self.key_list()[i],
        ) && self@[self.key_list()[i]] == self.values()[i] by {
            self.lemma_entry(i);
        }
    }

    proof fn lemma_entry(&self, i: int)
        requires
            self.wf(),
            0 <= i < self.key_list().len(),
        ensures
            self@.contains_key(self.key_list()[i]),
            self@[self.key_list()[i]] == self.vals@[i],
    {
        let kl = self.key_list();
        let k = kl[i];
        assert(kl.contains(k));
        let j = kl.index_of(k);
        assert(0 <= j < kl.len() && kl[j] == k);
        if j != i {
            assert(kl[i] != kl[j]);
        }
    }

    /// An empty table.
    pub fn new() -> (t: Self)
        ensures
            t.wf(),
            t@ == Map::<Seq<char>, V>::empty(),
            t.key_list() == Seq::<Seq<char>>::empty(),
    {
        let t = PeerTable { keys: Vec::new(), vals: Vec::new() };
        assert(t.key_list() =~= Seq::<Seq<char>>::empty());
        assert(t@ =~= Map::<Seq<char>, V>::empty());
        t
    }

    /// The number of entries.
    pub fn len(&self) -> (n: usize)
        requires
            self.wf(),
        ensures
            n == self.key_list().len(),
            n == self@.dom().len(),
    {
        proof {
            self.lemma_dom();
        }
        self.keys.len()
    }

    /// The domain of the table is the set of its keys, whose size is the number of entries.
    pub proof fn lemma_dom(&self)
        requires
            self.wf(),
        ensures
            self@.dom() == self.key_list().to_set(),
            self@.dom().finite(),
            self@.dom().len() == self.key_list().len(),
    {
        assert(self@.dom() =~= self.key_list().to_set());
        self.key_list().unique_seq_to_set();
    }

    /// The position of `k`, if it has an entry.
    fn find(&self, k: &str) -> (r: Option<usize>)
        requires
            self.wf(),
        ensures
            match r {
                Some(i) => i < self.key_list().len() && self.key_list()[i as int] == k@,
                None => !self@.contains_key(k@),
            },
    {
        let key = String::from_str(k);
        let mut i: usize = 0;
        while i < self.keys.len()
            invariant
                self.wf(),
                i <= self.keys@.len(),
                key@ == k@,
                forall|j: int| 0 <= j < i ==> self.key_list()[j] != k@,
            decreases self.keys@.len() - i,
        {
            if self.keys[i] == key {
                return Some(i);
            }
            i = i + 1;
        }
        proof {
            if self.key_list().contains(k@) {
                let j = self.key_list().index_of(k@);
                assert(self.key_list()[j] == k@);
            }
        }
        None
    }

    /// The record for `k`, if any.
    pub fn get(&self, k: &str) -> (r: Option<&V>)
        requires
            self.wf(),
        ensures
            r is Some <==> self@.contains_key(k@),
            r matches Some(v) ==> *v == self@[k@],
    {
        match self.find(k) {
            Some(i) => {
                proof {
                    self.lemma_entry(i as int);
                }
                Some(&self.vals[i])
            },
            None => None,
        }
    }

    /// Sets the record for `k`, adding an entry at the end if `k` had none.
    pub fn insert(&mut self, k: &str, v: V)
        requires
            old(self).wf(),
        ensures
            final(self).wf(),
            final(self)@ == old(self)@.insert(k@, v),
            old(self)@.contains_key(k@) ==> final(self).key_list() == old(self).key_list(),
            !old(self)@.contains_key(k@) ==> final(self).key_list() == old(self).key_list().push(
                k@,
            ),
            old(self)@.contains_key(k@) ==> final(self).values() == old(self).values().update(
                old(self).key_list().index_of(k@),
                v,
            ),
            !old(self)@.contains_key(k@) ==> final(self).values() == old(self).values().push(v),
    {
        let ghost pre = *self;
        match self.find(k) {
            Some(i) => {
                self.vals.set(i, v);
                proof {
                    assert(self.key_list() =~= pre.key_list());
                    pre.lemma_entry(i as int);
                    let j = pre.key_list().index_of(k@);
                    assert(pre.key_list()[j] == k@);
                    if j != i {
                        assert(pre.key_list()[i as int] != pre.key_list()[j]);
                    }
                    assert forall|q: Seq<char>|
                        #![auto]
                        self@.contains_key(q) == pre@.insert(k@, v).contains_key(q) by {}
                    assert forall|q: Seq<char>| #[trigger]
                        self@.contains_key(q) implies self@[q] == pre@.insert(k@, v)[q] by {
                        let a = self.key_list().index_of(q);
                        self.lemma_entry(a);
                        if q != k@ {
                            pre.lemma_entry(a);
                        }
                    }
                    assert(self@ =~= pre@.insert(k@, v));
                }
            },
            None => {
                self.keys.push(String::from_str(k));
                self.vals.push(v);
                proof {
                    assert(self.key_list() =~= pre.key_list().push(k@));
                    assert(!pre.key_list().contains(k@));
                    assert forall|a: int, b: int|
                        0 <= a < self.key_list().len() && 0 <= b < self.key_list().len() && a
                            != b implies self.key_list()[a] != self.key_list()[b] by {
                        if a < pre.key_list().len() && b < pre.key_list().len() {
                        } else if a == pre.key_list().len() {
                            assert(pre.key_list()[b] == self.key_list()[b]);
                        } else {
                            assert(pre.key_list()[a] == self.key_list()[a]);
                        }
                    }
                    assert forall|q: Seq<char>|
                        #![auto]
                        self@.contains_key(q) == pre@.insert(k@, v).contains_key(q) by {
                        assert(self.key_list()[pre.key_list().len() as int] == k@);
                        if pre.key_list().contains(q) {
                            let a = pre.key_list().index_of(q);
                            assert(self.key_list()[a] == q);
                        }
                        if self.key_list().contains(q) && q != k@ {
                            let a = self.key_list().index_of(q);
                            assert(a < pre.key_list().len());
                            assert(pre.key_list()[a] == q);
                        }
                    }
                    assert forall|q: Seq<char>| #[trigger]
                        self@.contains_key(q) implies self@[q] == pre@.insert(k@, v)[q] by {
                        let a = self.key_list().index_of(q);
                        self.lemma_entry(a);
                        if q != k@ {
                            assert(a < pre.key_list().len());
                            pre.lemma_entry(a);
                        }
                    }
                    assert(self@ =~= pre@.insert(k@, v));
                }
            },
        }
    }

    /// Removes the entry for `k`, giving back its record.
    pub fn remove(&mut self, k: &str) -> (r: Option<V>)
        requires
            old(self).wf(),
        ensures
            final(self).wf(),
            final(self)@ == old(self)@.remove(k@),
            r is Some <==> old(self)@.contains_key(k@),
            r matches Some(v) ==> v == old(self)@[k@],
    {
        let ghost pre = *self;
        match self.find(k) {
            Some(i) => {
                self.keys.remove(i);
                let v = self.vals.remove(i);
                proof {
                    pre.lemma_entry(i as int);
                    let pk = pre.key_list();
                    let sk = self.key_list();
                    assert(sk =~= pk.remove(i as int));
                    assert forall|a: int, b: int|
                        0 <= a < sk.len() && 0 <= b < sk.len() && a != b implies sk[a]
                        != sk[b] by {
                        let a2 = if a < i { a } else { a + 1 };
                        let b2 = if b < i { b } else { b + 1 };
                        assert(sk[a] == pk[a2]);
                        assert(sk[b] == pk[b2]);
                    }
                    assert forall|q: Seq<char>|
                        #![auto]
                        self@.contains_key(q) == pre@.remove(k@).contains_key(q) by {
                        if sk.contains(q) {
                            let a = sk.index_of(q);
                            let a2 = if a < i { a } else { a + 1 };
                            assert(pk[a2] == q);
                            assert(a2 != i);
                        }
                        if pk.contains(q) && q != k@ {
                            let a = pk.index_of(q);
                            assert(a != i);
                            let a1 = if a < i { a } else { a - 1 };
                            assert(sk[a1] == q);
                        }
                    }
                    assert forall|q: Seq<char>| #[trigger]
                        self@.contains_key(q) implies self@[q] == pre@.remove(k@)[q] by {
                        let a = sk.index_of(q);
                        self.lemma_entry(a);
                        let a2 = if a < i { a } else { a + 1 };
                        assert(pk[a2] == q);
                        pre.lemma_entry(a2);
                    }
                    assert(self@ =~= pre@.remove(k@));
                }
                Some(v)
            },
            None => {
                proof {
                    assert(pre@.remove(k@) =~= pre@);
                }
                None
            },
        }
    }

    /// The record at position `i` of the table order.
    pub fn value_at(&self, i: usize) -> (v: &V)
        requires
            self.wf(),
            i < self.key_list().len(),
        ensures
            *v == self.values()[i as int],
    {
        &self.vals[i]
    }

    /// The key at position `i` of the table order.
    pub fn key_at(&self, i: usize) -> (k: &String)
        requires
            self.wf(),
            i < self.key_list().len(),
        ensures
            k@ == self.key_list()[i as int],
    {
        &self.keys[i]
    }
}

} // verus!
