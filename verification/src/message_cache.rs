//! The cache of recently seen gossip messages, keyed by message ID, used to drop
//! duplicates. Times are nanoseconds on the owner's monotonic clock.

use crate::digest::bytes_equal;
use vstd::prelude::*;

verus! {

/// A message kept for deduplication.
pub struct CachedMessage {
    /// Message ID
    pub id: Vec<u8>,
    /// Message data
    pub data: Vec<u8>,
    /// When the message was cached, in nanoseconds of the owner's clock
    pub cached_at: u128,
    /// Number of times seen
    pub seen_count: u32,
}

/// Whether a message cached at `cached_at` is still fresh at `now` for a time to
/// live of `ttl` nanoseconds. The age saturates at zero where `now` is earlier, as
/// `Instant::duration_since` does.
pub open spec fn is_fresh(cached_at: u128, now: u128, ttl: u128) -> bool {
    (if now >= cached_at { now - cached_at } else { 0 }) < ttl
}

/// The entries of a cache that are fresh at `now`.
pub open spec fn fresh_part(m: Map<Seq<u8>, CachedMessage>, now: u128, ttl: u128) -> Map<
    Seq<u8>,
    CachedMessage,
> {
    m.restrict(m.dom().filter(|k: Seq<u8>| is_fresh(m[k].cached_at, now, ttl)))
}

/// `after` is `before` with `count` of its oldest entries removed: the others are
/// kept unchanged, and no removed entry was cached later than a kept one. Which of
/// several equally old entries go is left open.
pub open spec fn oldest_removed(
    before: Map<Seq<u8>, CachedMessage>,
    after: Map<Seq<u8>, CachedMessage>,
    count: nat,
) -> bool {
    &&& after.submap_of(before)
    &&& after.dom().len() + count == before.dom().len()
    &&& forall|r: Seq<u8>, q: Seq<u8>|
        #![trigger before[r], after[q]]
        before.contains_key(r) && !after.contains_key(r) && after.contains_key(q)
            ==> before[r].cached_at <= after[q].cached_at
}

/// Recently seen messages, in the order they were cached; no ID occurs twice.
pub struct MessageCache {
    entries: Vec<CachedMessage>,
}

impl View for MessageCache {
    type V = Map<Seq<u8>, CachedMessage>;

    closed spec fn view(&self) -> Map<Seq<u8>, CachedMessage> {
        Map::new(
            |k: Seq<u8>| self.ids().contains(k),
            |k: Seq<u8>| self.entries@[self.ids().index_of(k)],
        )
    }
}

impl MessageCache {
    /// The IDs of the entries, in cache order.
    pub closed spec fn ids(&self) -> Seq<Seq<u8>> {
        self.entries@.map_values(|e: CachedMessage| e.id@)
    }

    /// No ID occurs twice.
    pub closed spec fn wf(&self) -> bool {
        self.ids().no_duplicates()
    }

    proof fn lemma_entry(&self, i: int)
        requires
            self.wf(),
            0 <= i < self.entries@.len(),
        ensures
            self@.contains_key(self.ids()[i]),
            self@[self.ids()[i]] == self.entries@[i],
            self.ids()[i] == self.entries@[i].id@,
    {
        let kl = self.ids();
        let k = kl[i];
        assert(kl.contains(k));
        let j = kl.index_of(k);
        if j != i {
            assert(kl[i] != kl[j]);
        }
    }

    proof fn lemma_key(&self, k: Seq<u8>) -> (i: int)
        requires
            self.wf(),
            self@.contains_key(k),
        ensures
            0 <= i < self.entries@.len(),
            self.ids()[i] == k,
            self@[k] == self.entries@[i],
    {
        let i = self.ids().index_of(k);
        self.lemma_entry(i);
        i
    }

    /// Every entry sits under its own ID, and the cache is finite with one entry
    /// per position.
    pub proof fn lemma_keys(&self)
        requires
            self.wf(),
        ensures
            forall|k: Seq<u8>| #[trigger] self@.contains_key(k) ==> self@[k].id@ == k,
            self@.dom().finite(),
            self@.dom().len() == self.ids().len(),
    {
        assert forall|k: Seq<u8>| #[trigger] self@.contains_key(k) implies self@[k].id@ == k by {
            let i = self.lemma_key(k);
        }
        assert(self@.dom() =~= self.ids().to_set());
        self.ids().unique_seq_to_set();
    }

    /// An empty cache.
    pub fn new() -> (c: Self)
        ensures
            c.wf(),
            c@ == Map::<Seq<u8>, CachedMessage>::empty(),
    {
        let c = MessageCache { entries: Vec::new() };
        assert(c.ids() =~= Seq::<Seq<u8>>::empty());
        assert(c@ =~= Map::<Seq<u8>, CachedMessage>::empty());
        c
    }

    /// The number of cached messages.
    pub fn len(&self) -> (n: usize)
        requires
            self.wf(),
        ensures
            n == self@.dom().len(),
            self@.dom().finite(),
    {
        proof {
            self.lemma_keys();
        }
        self.entries.len()
    }

    fn position(&self, id: &[u8]) -> (r: Option<usize>)
        requires
            self.wf(),
        ensures
            match r {
                Some(i) => i < self.entries@.len() && self.ids()[i as int] == id@,
                None => !self@.contains_key(id@),
            },
    {
        let mut i: usize = 0;
        while i < self.entries.len()
            invariant
                self.wf(),
                i <= self.entries@.len(),
                forall|j: int| 0 <= j < i ==> self.ids()[j] != id@,
            decreases self.entries@.len() - i,
        {
            if bytes_equal(self.entries[i].id.as_slice(), id) {
                return Some(i);
            }
            i = i + 1;
        }
        proof {
            if self.ids().contains(id@) {
                let j = self.ids().index_of(id@);
                assert(self.ids()[j] == id@);
            }
        }
        None
    }

    /// Whether a message with this ID is cached.
    pub fn contains(&self, id: &[u8]) -> (b: bool)
        requires
            self.wf(),
        ensures
            b == self@.contains_key(id@),
    {
        match self.position(id) {
            Some(i) => {
                proof {
                    self.lemma_entry(i as int);
                }
                true
            },
            None => false,
        }
    }

    /// How often the message with this ID has been seen, if it is cached.
    pub fn seen_count(&self, id: &[u8]) -> (n: Option<u32>)
        requires
            self.wf(),
        ensures
            n is Some <==> self@.contains_key(id@),
            n matches Some(c) ==> c == self@[id@].seen_count,
    {
        match self.position(id) {
            Some(i) => {
                proof {
                    self.lemma_entry(i as int);
                }
                Some(self.entries[i].seen_count)
            },
            None => None,
        }
    }

    /// Counts one more sighting of the message with this ID, if it is cached;
    /// says whether it was.
    pub fn record_sighting(&mut self, id: &[u8]) -> (found: bool)
        requires
            old(self).wf(),
            old(self)@.contains_key(id@) ==> old(self)@[id@].seen_count < u32::MAX,
        ensures
            final(self).wf(),
            found == old(self)@.contains_key(id@),
            found ==> final(self)@ == old(self)@.insert(
                id@,
                CachedMessage { seen_count: (old(self)@[id@].seen_count + 1) as u32, ..old(self)@[id@] },
            ),
            !found ==> final(self)@ == old(self)@,
    {
        let ghost pre = *self;
        match self.position(id) {
            Some(i) => {
                proof {
                    pre.lemma_entry(i as int);
                }
                let e = self.entries.remove(i);
                let bumped = CachedMessage {
                    id: e.id,
                    data: e.data,
                    cached_at: e.cached_at,
                    seen_count: e.seen_count + 1,
                };
                self.entries.insert(i, bumped);
                proof {
                    let ne = CachedMessage { seen_count: (pre@[id@].seen_count + 1) as u32, ..pre@[id@] };
                    assert(self.entries@ =~= pre.entries@.update(i as int, ne));
                    assert(self.ids() =~= pre.ids());
                    assert forall|q: Seq<u8>|
                        #![auto]
                        self@.contains_key(q) == pre@.insert(id@, ne).contains_key(q) by {}
                    assert forall|q: Seq<u8>| #[trigger]
                        self@.contains_key(q) implies self@[q] == pre@.insert(id@, ne)[q] by {
                        let a = self.lemma_key(q);
                        if a != i {
                            pre.lemma_entry(a);
                        }
                    }
                    assert(self@ =~= pre@.insert(id@, ne));
                }
                true
            },
            None => false,
        }
    }

    /// Adds a message whose ID is not cached yet.
    pub fn insert_new(&mut self, entry: CachedMessage)
        requires
            old(self).wf(),
            !old(self)@.contains_key(entry.id@),
        ensures
            final(self).wf(),
            final(self)@ == old(self)@.insert(entry.id@, entry),
    {
        let ghost pre = *self;
        let ghost k = entry.id@;
        let ghost e = entry;
        self.entries.push(entry);
        proof {
            let pk = pre.ids();
            let sk = self.ids();
            assert(sk =~= pk.push(k));
            assert(!pk.contains(k));
            assert forall|a: int, b: int|
                0 <= a < sk.len() && 0 <= b < sk.len() && a != b implies sk[a] != sk[b] by {
                if a < pk.len() && b < pk.len() {
                } else if a == pk.len() {
                    assert(pk[b] == sk[b]);
                } else {
                    assert(pk[a] == sk[a]);
                }
            }
            assert forall|q: Seq<u8>|
                #![auto]
                self@.contains_key(q) == pre@.insert(k, e).contains_key(q) by {
                assert(sk[pk.len() as int] == k);
                if pk.contains(q) {
                    let a = pk.index_of(q);
                    assert(sk[a] == q);
                }
                if sk.contains(q) && q != k {
                    let a = sk.index_of(q);
                    assert(a < pk.len());
                    assert(pk[a] == q);
                }
            }
            assert forall|q: Seq<u8>| #[trigger]
                self@.contains_key(q) implies self@[q] == pre@.insert(k, e)[q] by {
                let a = self.lemma_key(q);
                if q != k {
                    assert(a < pk.len());
                    pre.lemma_entry(a);
                }
            }
            assert(self@ =~= pre@.insert(k, e));
        }
    }

    fn remove_at(&mut self, i: usize)
        requires
            old(self).wf(),
            i < old(self).entries@.len(),
        ensures
            final(self).wf(),
            old(self)@.contains_key(old(self).ids()[i as int]),
            final(self)@ == old(self)@.remove(old(self).ids()[i as int]),
            final(self).entries@ == old(self).entries@.remove(i as int),
    {
        let ghost pre = *self;
        let ghost k = pre.ids()[i as int];
        self.entries.remove(i);
        proof {
            pre.lemma_entry(i as int);
            let pk = pre.ids();
            let sk = self.ids();
            assert(sk =~= pk.remove(i as int));
            assert forall|a: int, b: int|
                0 <= a < sk.len() && 0 <= b < sk.len() && a != b implies sk[a] != sk[b] by {
                let a2 = if a < i { a } else { a + 1 };
                let b2 = if b < i { b } else { b + 1 };
                assert(sk[a] == pk[a2]);
                assert(sk[b] == pk[b2]);
            }
            assert forall|q: Seq<u8>|
                #![auto]
                self@.contains_key(q) == pre@.remove(k).contains_key(q) by {
                if sk.contains(q) {
                    let a = sk.index_of(q);
                    let a2 = if a < i { a } else { a + 1 };
                    assert(pk[a2] == q);
                    assert(a2 != i);
                }
                if pk.contains(q) && q != k {
                    let a = pk.index_of(q);
                    assert(a != i);
                    let a1 = if a < i { a } else { a - 1 };
                    assert(sk[a1] == q);
                }
            }
            assert forall|q: Seq<u8>| #[trigger]
                self@.contains_key(q) implies self@[q] == pre@.remove(k)[q] by {
                let a = self.lemma_key(q);
                let a2 = if a < i { a } else { a + 1 };
                assert(pk[a2] == q);
                pre.lemma_entry(a2);
            }
            assert(self@ =~= pre@.remove(k));
        }
    }

    /// Drops the messages that are no longer fresh at `now`.
    pub fn retain_fresh(&mut self, now: u128, ttl: u128)
        requires
            old(self).wf(),
        ensures
            final(self).wf(),
            final(self)@ == fresh_part(old(self)@, now, ttl),
    {
        let ghost orig = self@;
        let mut i: usize = 0;
        while i < self.entries.len()
            invariant
                self.wf(),
                i <= self.entries@.len(),
                self@.submap_of(orig),
                forall|k: Seq<u8>|
                    #[trigger] orig.contains_key(k) && is_fresh(orig[k].cached_at, now, ttl)
                        ==> self@.contains_key(k),
                forall|j: int|
                    0 <= j < i ==> is_fresh(#[trigger] self.entries@[j].cached_at, now, ttl),
            decreases self.entries@.len() - i,
        {
            if now >= self.entries[i].cached_at && now - self.entries[i].cached_at >= ttl
                || now < self.entries[i].cached_at && ttl == 0 {
                let ghost pre = *self;
                proof {
                    pre.lemma_entry(i as int);
                }
                self.remove_at(i);
                proof {
                    assert forall|j: int| 0 <= j < i implies is_fresh(
                        #[trigger] self.entries@[j].cached_at,
                        now,
                        ttl,
                    ) by {
                        assert(self.entries@[j] == pre.entries@[j]);
                    }
                }
            } else {
                i = i + 1;
            }
        }
        proof {
            let f = fresh_part(orig, now, ttl);
            assert forall|k: Seq<u8>| #![auto] self@.contains_key(k) == f.contains_key(k) by {
                if self@.contains_key(k) {
                    let a = self.lemma_key(k);
                    assert(is_fresh(self.entries@[a].cached_at, now, ttl));
                }
            }
            assert(self@ =~= f);
        }
    }

    fn oldest_position(&self) -> (m: usize)
        requires
            self.wf(),
            self.entries@.len() > 0,
        ensures
            m < self.entries@.len(),
            forall|j: int|
                0 <= j < self.entries@.len() ==> self.entries@[m as int].cached_at
                    <= #[trigger] self.entries@[j].cached_at,
    {
        let mut m: usize = 0;
        let mut i: usize = 1;
        while i < self.entries.len()
            invariant
                1 <= i <= self.entries@.len(),
                m < i,
                forall|j: int|
                    0 <= j < i ==> self.entries@[m as int].cached_at
                        <= #[trigger] self.entries@[j].cached_at,
            decreases self.entries@.len() - i,
        {
            if self.entries[i].cached_at < self.entries[m].cached_at {
                m = i;
            }
            i = i + 1;
        }
        m
    }

    /// Removes `count` of the oldest messages.
    pub fn evict_oldest(&mut self, count: usize)
        requires
            old(self).wf(),
            count <= old(self)@.dom().len(),
        ensures
            final(self).wf(),
            oldest_removed(old(self)@, final(self)@, count as nat),
    {
        let ghost orig = self@;
        proof {
            self.lemma_keys();
        }
        let mut removed: usize = 0;
        while removed < count
            invariant
                self.wf(),
                removed <= count,
                count <= orig.dom().len(),
                orig.dom().finite(),
                self@.submap_of(orig),
                self@.dom().len() + removed == orig.dom().len(),
                forall|r: Seq<u8>, q: Seq<u8>|
                    #![trigger orig[r], self@[q]]
                    orig.contains_key(r) && !self@.contains_key(r) && self@.contains_key(q)
                        ==> orig[r].cached_at <= self@[q].cached_at,
            decreases count - removed,
        {
            proof {
                self.lemma_keys();
            }
            let m = self.oldest_position();
            let ghost pre = *self;
            proof {
                pre.lemma_entry(m as int);
                pre.lemma_keys();
            }
            self.remove_at(m);
            proof {
                self.lemma_keys();
                let km = pre.ids()[m as int];
                assert forall|r: Seq<u8>, q: Seq<u8>|
                    #![trigger orig[r], self@[q]]
                    orig.contains_key(r) && !self@.contains_key(r) && self@.contains_key(q)
                        implies orig[r].cached_at <= self@[q].cached_at by {
                    assert(pre@.contains_key(q));
                    assert(self@[q] == pre@[q]);
                    if r == km {
                        let a = pre.lemma_key(q);
                        assert(pre.entries@[m as int].cached_at <= pre.entries@[a].cached_at);
                    } else {
                        assert(!pre@.contains_key(r));
                        assert(orig[r].cached_at <= pre@[q].cached_at);
                    }
                }
            }
            removed = removed + 1;
        }
    }

    /// Removes every message.
    pub fn clear(&mut self)
        ensures
            final(self).wf(),
            final(self)@ == Map::<Seq<u8>, CachedMessage>::empty(),
    {
        self.entries.clear();
        proof {
            assert(self.ids() =~= Seq::<Seq<u8>>::empty());
            assert(self@ =~= Map::<Seq<u8>, CachedMessage>::empty());
        }
    }
}

} // verus!
