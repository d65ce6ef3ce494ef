use vstd::prelude::*;

verus! {

/// Entries strictly increasing by key.
pub open spec fn keys_sorted<V>(s: Seq<(u64, V)>) -> bool {
    forall|i: int, j: int| 0 <= i < j < s.len() ==> s[i].0 < s[j].0
}

/// Whether some entry carries key `k`.
pub open spec fn has_key<K, V>(s: Seq<(K, V)>, k: K) -> bool {
    exists|i: int| 0 <= i < s.len() && s[i].0 == k
}

/// The map that a list of entries denotes.
pub open spec fn entries_map<K, V>(s: Seq<(K, V)>) -> Map<K, V> {
    Map::new(
        |k: K| has_key(s, k),
        |k: K| s[choose|i: int| 0 <= i < s.len() && s[i].0 == k].1,
    )
}

pub proof fn lemma_lookup<V>(s: Seq<(u64, V)>, i: int)
    requires
        keys_sorted(s),
        0 <= i < s.len(),
    ensures
        entries_map(s).contains_key(s[i].0),
        entries_map(s)[s[i].0] == s[i].1,
{
    let k = s[i].0;
    assert(has_key(s, k));
    let j = choose|j: int| 0 <= j < s.len() && s[j].0 == k;
    if j < i {
        assert(s[j].0 < s[i].0);
    } else if i < j {
        assert(s[i].0 < s[j].0);
    }
}

/// An ordered map from `u64` keys, kept as a vector of entries sorted by key.
pub struct U64Map<V> {
    entries: Vec<(u64, V)>,
}

impl<V> View for U64Map<V> {
    type V = Map<u64, V>;

    closed spec fn view(&self) -> Map<u64, V> {
        entries_map(self.entries@)
    }
}

impl<V> U64Map<V> {
    /// The keys in increasing order.
    pub closed spec fn key_seq(&self) -> Seq<u64> {
        self.entries@.map_values(|e: (u64, V)| e.0)
    }

    pub closed spec fn wf(&self) -> bool {
        keys_sorted(self.entries@)
    }

    /// What the well-formed map guarantees about its key listing.
    pub proof fn lemma_key_seq(&self)
        requires
            self.wf(),
        ensures
            forall|i: int, j: int| 0 <= i < j < self.key_seq().len() ==> self.key_seq()[i] < self.key_seq()[j],
            forall|k: u64| self@.contains_key(k) <==> self.key_seq().contains(k),
            self.key_seq().len() == self@.dom().len(),
            self@.dom().finite(),
    {
        let s = self.entries@;
        let ks = self.key_seq();
        assert forall|k: u64| self@.contains_key(k) <==> ks.contains(k) by {
            if self@.contains_key(k) {
                let i = choose|i: int| 0 <= i < s.len() && s[i].0 == k;
                assert(ks[i] == k);
            }
            if ks.contains(k) {
                let i = choose|i: int| 0 <= i < ks.len() && ks[i] == k;
                assert(s[i].0 == k);
            }
        }
        assert(ks.no_duplicates()) by {
            assert forall|i: int, j: int| 0 <= i < ks.len() && 0 <= j < ks.len() && i != j implies ks[i] != ks[j] by {
                if i < j {
                    assert(s[i].0 < s[j].0);
                } else {
                    assert(s[j].0 < s[i].0);
                }
            }
        }
        assert(self@.dom() =~= ks.to_set());
        ks.unique_seq_to_set();
    }

    pub fn new() -> (m: Self)
        ensures
            m.wf(),
            m@ == Map::<u64, V>::empty(),
    {
        let m = U64Map { entries: Vec::new() };
        assert(m@ =~= Map::<u64, V>::empty());
        m
    }

    pub fn len(&self) -> (n: usize)
        requires
            self.wf(),
        ensures
            n == self@.dom().len(),
    {
        proof {
            self.lemma_key_seq();
        }
        self.entries.len()
    }

    /// Position of `k`: `Ok(i)` when entry `i` holds it, else `Err(i)` with the
    /// index where it would be inserted.
    fn find(&self, k: u64) -> (r: Result<usize, usize>)
        requires
            self.wf(),
        ensures
            match r {
                Ok(i) => i < self.entries@.len() && self.entries@[i as int].0 == k,
                Err(i) => {
                    &&& i <= self.entries@.len()
                    &&& forall|j: int| 0 <= j < i ==> self.entries@[j].0 < k
                    &&& forall|j: int| i <= j < self.entries@.len() ==> self.entries@[j].0 > k
                },
            },
    {
        let mut i: usize = 0;
        while i < self.entries.len()
            invariant
                self.wf(),
                i <= self.entries@.len(),
                forall|j: int| 0 <= j < i ==> self.entries@[j].0 < k,
            decreases self.entries@.len() - i,
        {
            let ki = self.entries[i].0;
            if ki == k {
                return Ok(i);
            }
            if ki > k {
                assert forall|j: int| i <= j < self.entries@.len() implies self.entries@[j].0 > k by {
                    if i < j {
                        assert(self.entries@[i as int].0 < self.entries@[j].0);
                    }
                }
                return Err(i);
            }
            i = i + 1;
        }
        Err(i)
    }

    pub fn contains_key(&self, k: u64) -> (b: bool)
        requires
            self.wf(),
        ensures
            b == self@.contains_key(k),
    {
        match self.find(k) {
            Ok(i) => {
                proof {
                    lemma_lookup(self.entries@, i as int);
                }
                true
            },
            Err(_) => false,
        }
    }

    pub fn get(&self, k: u64) -> (r: Option<&V>)
        requires
            self.wf(),
        ensures
            match r {
                Some(v) => self@.contains_key(k) && self@[k] == *v,
                None => !self@.contains_key(k),
            },
    {
        match self.find(k) {
            Ok(i) => {
                proof {
                    lemma_lookup(self.entries@, i as int);
                }
                Some(&self.entries[i].1)
            },
            Err(_) => None,
        }
    }

    pub fn insert(&mut self, k: u64, v: V)
        requires
            old(self).wf(),
        ensures
            final(self).wf(),
            final(self)@ == old(self)@.insert(k, v),
    {
        let ghost s0 = self.entries@;
        match self.find(k) {
            Ok(i) => {
                self.entries.set(i, (k, v));
                let ghost s1 = self.entries@;
                assert(s1 == s0.update(i as int, (k, v)));
                assert(keys_sorted(s1));
                proof {
                    assert forall|kk: u64| #[trigger] entries_map(s1).contains_key(kk) <==> entries_map(s0).insert(k, v).contains_key(kk) by {
                        if has_key(s0, kk) {
                            let j = choose|j: int| 0 <= j < s0.len() && s0[j].0 == kk;
                            assert(s1[j].0 == kk);
                        }
                        if has_key(s1, kk) {
                            let j = choose|j: int| 0 <= j < s1.len() && s1[j].0 == kk;
                            assert(s0[j].0 == kk);
                        }
                    }
                    assert forall|kk: u64| entries_map(s1).contains_key(kk) implies #[trigger] entries_map(s1)[kk] == entries_map(s0).insert(k, v)[kk] by {
                        let j = choose|j: int| 0 <= j < s1.len() && s1[j].0 == kk;
                        lemma_lookup(s1, j);
                        if kk != k {
                            lemma_lookup(s0, j);
                        }
                    }
                    assert(entries_map(s1) =~= entries_map(s0).insert(k, v));
                }
            },
            Err(i) => {
                self.entries.insert(i, (k, v));
                let ghost s1 = self.entries@;
                assert(s1 == s0.insert(i as int, (k, v)));
                assert forall|a: int, b: int| 0 <= a < b < s1.len() implies s1[a].0 < s1[b].0 by {
                    if a < i && b > i {
                        assert(s1[b] == s0[b - 1]);
                    } else if a > i {
                        assert(s1[a] == s0[a - 1]);
                        assert(s1[b] == s0[b - 1]);
                    } else if a == i {
                        assert(s1[b] == s0[b - 1]);
                    }
                }
                proof {
                    assert forall|kk: u64| #[trigger] entries_map(s1).contains_key(kk) <==> entries_map(s0).insert(k, v).contains_key(kk) by {
                        if has_key(s0, kk) {
                            let j = choose|j: int| 0 <= j < s0.len() && s0[j].0 == kk;
                            if j < i {
                                assert(s1[j].0 == kk);
                            } else {
                                assert(s1[j + 1].0 == kk);
                            }
                        }
                        if kk == k {
                            assert(s1[i as int].0 == kk);
                        }
                        if has_key(s1, kk) {
                            let j = choose|j: int| 0 <= j < s1.len() && s1[j].0 == kk;
                            if j < i {
                                assert(s0[j].0 == kk);
                            } else if j > i {
                                assert(s0[j - 1].0 == kk);
                            }
                        }
                    }
                    assert forall|kk: u64| entries_map(s1).contains_key(kk) implies #[trigger] entries_map(s1)[kk] == entries_map(s0).insert(k, v)[kk] by {
                        let j = choose|j: int| 0 <= j < s1.len() && s1[j].0 == kk;
                        lemma_lookup(s1, j);
                        if j < i {
                            lemma_lookup(s0, j);
                        } else if j > i {
                            lemma_lookup(s0, j - 1);
                        }
                    }
                    assert(entries_map(s1) =~= entries_map(s0).insert(k, v));
                }
            },
        }
    }

    pub fn remove(&mut self, k: u64) -> (r: Option<V>)
        requires
            old(self).wf(),
        ensures
            final(self).wf(),
            final(self)@ == old(self)@.remove(k),
            match r {
                Some(v) => old(self)@.contains_key(k) && old(self)@[k] == v,
                None => !old(self)@.contains_key(k),
            },
    {
        let ghost s0 = self.entries@;
        match self.find(k) {
            Ok(i) => {
                proof {
                    lemma_lookup(s0, i as int);
                }
                let (_, v) = self.entries.remove(i);
                let ghost s1 = self.entries@;
                assert(s1 == s0.remove(i as int));
                assert forall|a: int, b: int| 0 <= a < b < s1.len() implies s1[a].0 < s1[b].0 by {
                    if a >= i {
                        assert(s1[a] == s0[a + 1]);
                    }
                    if b >= i {
                        assert(s1[b] == s0[b + 1]);
                    }
                }
                proof {
                    assert forall|kk: u64| #[trigger] entries_map(s1).contains_key(kk) <==> entries_map(s0).remove(k).contains_key(kk) by {
                        if has_key(s0, kk) && kk != k {
                            let j = choose|j: int| 0 <= j < s0.len() && s0[j].0 == kk;
                            if j < i {
                                assert(s1[j].0 == kk);
                            } else {
                                assert(j != i);
                                assert(s1[j - 1].0 == kk);
                            }
                        }
                        if has_key(s1, kk) {
                            let j = choose|j: int| 0 <= j < s1.len() && s1[j].0 == kk;
                            if j < i {
                                assert(s0[j].0 == kk);
                                assert(s0[j].0 < s0[i as int].0);
                            } else {
                                assert(s0[j + 1].0 == kk);
                                assert(s0[i as int].0 < s0[j + 1].0);
                            }
                        }
                    }
                    assert forall|kk: u64| entries_map(s1).contains_key(kk) implies #[trigger] entries_map(s1)[kk] == entries_map(s0).remove(k)[kk] by {
                        let j = choose|j: int| 0 <= j < s1.len() && s1[j].0 == kk;
                        lemma_lookup(s1, j);
                        if j < i {
                            lemma_lookup(s0, j);
                        } else {
                            lemma_lookup(s0, j + 1);
                        }
                    }
                    assert(entries_map(s1) =~= entries_map(s0).remove(k));
                }
                Some(v)
            },
            Err(_) => {
                assert(entries_map(s0).remove(k) =~= entries_map(s0));
                None
            },
        }
    }

    /// References to the values, in increasing order of their keys.
    pub fn values(&self) -> (r: Vec<&V>)
        requires
            self.wf(),
        ensures
            r@.len() == self.key_seq().len(),
            forall|i: int| 0 <= i < r@.len() ==> self@.contains_key(#[trigger] self.key_seq()[i]) && *r@[i] == self@[self.key_seq()[i]],
    {
        let mut r: Vec<&V> = Vec::new();
        let mut i: usize = 0;
        while i < self.entries.len()
            invariant
                self.wf(),
                i <= self.entries@.len(),
                r@.len() == i,
                forall|j: int| 0 <= j < i ==> *r@[j] == self.entries@[j].1,
            decreases self.entries@.len() - i,
        {
            r.push(&self.entries[i].1);
            i = i + 1;
        }
        proof {
            assert forall|j: int| 0 <= j < r@.len() implies self@.contains_key(#[trigger] self.key_seq()[j]) && *r@[j] == self@[self.key_seq()[j]] by {
                lemma_lookup(self.entries@, j);
            }
        }
        r
    }
}

} // verus!
