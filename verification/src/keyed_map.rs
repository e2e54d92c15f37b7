//! A finite map stored as a vector of entries whose keys are pairwise
//! distinct. It is the storage behind every table of the IBC host stores.
use vstd::prelude::*;

verus! {

/// Keys of a [`KeyedMap`]: values that can be compared by their view.
pub trait MapKey: View + Sized {
    fn key_eq(&self, other: &Self) -> (b: bool)
        ensures
            b == (self@ == other@),
    ;
}

impl MapKey for String {
    fn key_eq(&self, other: &Self) -> (b: bool) {
        *self == *other
    }
}

impl MapKey for u64 {
    fn key_eq(&self, other: &Self) -> (b: bool) {
        *self == *other
    }
}

impl<A: MapKey, B: MapKey> MapKey for (A, B) {
    fn key_eq(&self, other: &Self) -> (b: bool) {
        self.0.key_eq(&other.0) && self.1.key_eq(&other.1)
    }
}

impl<A: MapKey, B: MapKey, C: MapKey> MapKey for (A, B, C) {
    fn key_eq(&self, other: &Self) -> (b: bool) {
        self.0.key_eq(&other.0) && self.1.key_eq(&other.1) && self.2.key_eq(&other.2)
    }
}

/// A finite map from keys (compared by their view) to values.
pub struct KeyedMap<K: MapKey, V> {
    entries: Vec<(K, V)>,
}

impl<K: MapKey, V> KeyedMap<K, V> {
    /// No key occurs twice among the entries.
    #[verifier::type_invariant]
    spec fn keys_distinct(self) -> bool {
        forall|i: int, j: int|
            0 <= i < j < self.entries@.len() ==> #[trigger] self.entries@[i].0@
                != #[trigger] self.entries@[j].0@
    }

    /// The number of entries.
    pub closed spec fn spec_len(self) -> nat {
        self.entries@.len()
    }

    /// The key of the `i`-th entry.
    pub closed spec fn key_at(self, i: int) -> K::V {
        self.entries@[i].0@
    }

    spec fn has_key_at(self, k: K::V, i: int) -> bool {
        0 <= i < self.entries@.len() && self.entries@[i].0@ == k
    }

    spec fn index_of(self, k: K::V) -> int {
        choose|i: int| self.has_key_at(k, i)
    }

    /// The map that the entries hold.
    pub closed spec fn view(self) -> Map<K::V, V> {
        Map::new(
            |k: K::V| exists|i: int| self.has_key_at(k, i),
            |k: K::V| self.entries@[self.index_of(k)].1,
        )
    }

    proof fn lemma_index_unique(self, k: K::V, i: int)
        requires
            self.keys_distinct(),
            self.has_key_at(k, i),
        ensures
            self.index_of(k) == i,
            self@.contains_key(k),
            self@[k] == self.entries@[i].1,
    {
        let j = self.index_of(k);
        assert(self.has_key_at(k, j));
        if j < i {
            assert(self.entries@[j].0@ != self.entries@[i].0@);
        } else if i < j {
            assert(self.entries@[i].0@ != self.entries@[j].0@);
        }
    }

    /// Every key of the map is the key of some entry, and every entry's key is in the map.
    pub proof fn lemma_keys(self)
        ensures
            forall|k: K::V| #[trigger]
                self@.contains_key(k) <==> exists|i: int|
                    0 <= i < self.spec_len() && self.key_at(i) == k,
    {
        assert forall|k: K::V| #[trigger]
            self@.contains_key(k) <==> exists|i: int|
                0 <= i < self.spec_len() && self.key_at(i) == k by {
            if self@.contains_key(k) {
                let i = choose|i: int| self.has_key_at(k, i);
                assert(0 <= i < self.spec_len() && self.key_at(i) == k);
            }
            if exists|i: int| 0 <= i < self.spec_len() && self.key_at(i) == k {
                let i = choose|i: int| 0 <= i < self.spec_len() && self.key_at(i) == k;
                assert(self.has_key_at(k, i));
            }
        }
    }

    /// An empty map.
    pub fn new() -> (m: Self)
        ensures
            m@ == Map::<K::V, V>::empty(),
            m.spec_len() == 0,
    {
        let m = KeyedMap { entries: Vec::new() };
        assert(m@ =~= Map::<K::V, V>::empty());
        m
    }

    /// The number of entries.
    pub fn len(&self) -> (n: usize)
        ensures
            n == self.spec_len(),
    {
        self.entries.len()
    }

    /// The `i`-th entry.
    pub fn entry_at(&self, i: usize) -> (kv: (&K, &V))
        requires
            i < self.spec_len(),
        ensures
            kv.0@ == self.key_at(i as int),
            self@.contains_key(kv.0@),
            self@[kv.0@] == *kv.1,
    {
        proof {
            use_type_invariant(self);
            self.lemma_index_unique(self.entries@[i as int].0@, i as int);
        }
        let e = &self.entries[i];
        (&e.0, &e.1)
    }

    fn find(&self, k: &K) -> (r: Option<usize>)
        ensures
            match r {
                Some(i) => self.has_key_at(k@, i as int),
                None => !self@.contains_key(k@),
            },
    {
        let n = self.entries.len();
        let mut i: usize = 0;
        while i < n
            invariant
                n == self.entries@.len(),
                i <= n,
                forall|j: int| 0 <= j < i ==> self.entries@[j].0@ != k@,
            decreases n - i,
        {
            if self.entries[i].0.key_eq(k) {
                return Some(i);
            }
            i = i + 1;
        }
        None
    }

    /// Whether the key is in the map.
    pub fn contains_key(&self, k: &K) -> (b: bool)
        ensures
            b == self@.contains_key(k@),
    {
        proof {
            use_type_invariant(self);
        }
        match self.find(k) {
            Some(i) => {
                proof {
                    self.lemma_index_unique(k@, i as int);
                }
                true
            },
            None => false,
        }
    }

    /// The value stored under the key, if any.
    pub fn get(&self, k: &K) -> (r: Option<&V>)
        ensures
            match r {
                Some(v) => self@.contains_key(k@) && *v == self@[k@],
                None => !self@.contains_key(k@),
            },
    {
        proof {
            use_type_invariant(self);
        }
        match self.find(k) {
            Some(i) => {
                proof {
                    self.lemma_index_unique(k@, i as int);
                }
                Some(&self.entries[i].1)
            },
            None => None,
        }
    }

    /// Stores the value under the key, replacing the value it had.
    pub fn insert(&mut self, k: K, v: V)
        ensures
            final(self)@ == old(self)@.insert(k@, v),
    {
        proof {
            use_type_invariant(&*self);
        }
        let ghost pre = *self;
        let ghost kv = k@;
        let found = self.find(&k);
        let mut entries = Vec::new();
        std::mem::swap(&mut entries, &mut self.entries);
        match found {
            Some(i) => {
                entries.set(i, (k, v));
            },
            None => {
                entries.push((k, v));
            },
        }
        let ghost post = KeyedMap { entries };
        proof {
            assert(post.keys_distinct()) by {
                assert forall|a: int, b: int|
                    0 <= a < b < post.entries@.len() implies #[trigger] post.entries@[a].0@
                        != #[trigger] post.entries@[b].0@ by {
                    if found is None && b == pre.entries@.len() {
                        assert(!pre.has_key_at(kv, a));
                    } else if found is Some && (a == found->0 || b == found->0) {
                        assert(pre.entries@[a].0@ != pre.entries@[b].0@);
                    } else {
                        assert(pre.entries@[a] == post.entries@[a]);
                        assert(pre.entries@[b] == post.entries@[b]);
                    }
                }
            }
            let n = if found is Some { found->0 as int } else { pre.entries@.len() as int };
            assert(post.has_key_at(kv, n));
            post.lemma_index_unique(kv, n);
            assert forall|k2: K::V| k2 != kv implies (#[trigger] post@.contains_key(k2)
                == pre@.contains_key(k2) && (pre@.contains_key(k2) ==> post@[k2] == pre@[k2])) by {
                if pre@.contains_key(k2) {
                    let j = choose|j: int| pre.has_key_at(k2, j);
                    pre.lemma_index_unique(k2, j);
                    assert(j != n);
                    assert(post.has_key_at(k2, j));
                    post.lemma_index_unique(k2, j);
                }
                if post@.contains_key(k2) {
                    let j = choose|j: int| post.has_key_at(k2, j);
                    assert(j != n);
                    assert(pre.has_key_at(k2, j));
                }
            }
            assert(post@ =~= pre@.insert(kv, v));
        }
        self.entries = entries;
    }

    /// Removes the key, handing back the value it had.
    pub fn remove(&mut self, k: &K) -> (r: Option<V>)
        ensures
            final(self)@ == old(self)@.remove(k@),
            match r {
                Some(v) => old(self)@.contains_key(k@) && v == old(self)@[k@],
                None => !old(self)@.contains_key(k@),
            },
    {
        proof {
            use_type_invariant(&*self);
        }
        let ghost pre = *self;
        let ghost kv = k@;
        match self.find(k) {
            None => {
                assert(pre@.remove(kv) =~= pre@);
                None
            },
            Some(i) => {
                let mut entries = Vec::new();
                std::mem::swap(&mut entries, &mut self.entries);
                let (_key, value) = entries.remove(i);
                let ghost post = KeyedMap { entries };
                proof {
                    pre.lemma_index_unique(kv, i as int);
                    assert(post.keys_distinct()) by {
                        assert forall|a: int, b: int|
                            0 <= a < b < post.entries@.len() implies #[trigger] post.entries@[a].0@
                                != #[trigger] post.entries@[b].0@ by {
                            let a0 = if a < i { a } else { a + 1 };
                            let b0 = if b < i { b } else { b + 1 };
                            assert(post.entries@[a] == pre.entries@[a0]);
                            assert(post.entries@[b] == pre.entries@[b0]);
                            assert(pre.entries@[a0].0@ != pre.entries@[b0].0@);
                        }
                    }
                    assert forall|k2: K::V| k2 != kv implies (#[trigger] post@.contains_key(k2)
                        == pre@.contains_key(k2) && (pre@.contains_key(k2) ==> post@[k2]
                        == pre@[k2])) by {
                        if pre@.contains_key(k2) {
                            let j = choose|j: int| pre.has_key_at(k2, j);
                            pre.lemma_index_unique(k2, j);
                            assert(j != i);
                            let j1 = if j < i { j } else { j - 1 };
                            assert(post.entries@[j1] == pre.entries@[j]);
                            assert(post.has_key_at(k2, j1));
                            post.lemma_index_unique(k2, j1);
                        }
                        if post@.contains_key(k2) {
                            let j = choose|j: int| post.has_key_at(k2, j);
                            let j0 = if j < i { j } else { j + 1 };
                            assert(post.entries@[j] == pre.entries@[j0]);
                            assert(pre.has_key_at(k2, j0));
                        }
                    }
                    assert(!post@.contains_key(kv)) by {
                        if post@.contains_key(kv) {
                            let j = choose|j: int| post.has_key_at(kv, j);
                            let j0 = if j < i { j } else { j + 1 };
                            assert(post.entries@[j] == pre.entries@[j0]);
                            assert(pre.entries@[j0].0@ == pre.entries@[i as int].0@);
                        }
                    }
                    assert(post@ =~= pre@.remove(kv));
                }
                self.entries = entries;
                Some(value)
            },
        }
    }
}

} // verus!
