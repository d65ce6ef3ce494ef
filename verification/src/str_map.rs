use vstd::prelude::*;

use crate::ordered_map::{entries_map, has_key};
use crate::text::{compare_str, lemma_lt_ne, lemma_lt_trans, seq_lt, to_owned_string};

verus! {

/// Entries strictly increasing by key, in the order std gives `String`.
pub open spec fn skeys_sorted<V>(s: Seq<(String, V)>) -> bool {
    forall|i: int, j: int| #![trigger s[i], s[j]] 0 <= i < j < s.len() ==> seq_lt(s[i].0@, s[j].0@)
}

/// The entries with their keys taken by view.
pub open spec fn kv<V>(s: Seq<(String, V)>) -> Seq<(Seq<char>, V)> {
    s.map_values(|e: (String, V)| (e.0@, e.1))
}

pub open spec fn shas_key<V>(s: Seq<(String, V)>, k: Seq<char>) -> bool {
    has_key(kv(s), k)
}

/// The map that a list of string-keyed entries denotes.
pub open spec fn sentries_map<V>(s: Seq<(String, V)>) -> Map<Seq<char>, V> {
    entries_map(kv(s))
}

pub open spec fn sdistinct<V>(s: Seq<(String, V)>) -> bool {
    forall|a: int, b: int| 0 <= a < s.len() && 0 <= b < s.len() && a != b ==> s[a].0@ != s[b].0@
}

proof fn lemma_sorted_distinct<V>(s: Seq<(String, V)>)
    requires
        skeys_sorted(s),
    ensures
        sdistinct(s),
{
    assert forall|a: int, b: int| 0 <= a < s.len() && 0 <= b < s.len() && a != b implies s[a].0@ != s[b].0@ by {
        if a < b {
            lemma_lt_ne(s[a].0@, s[b].0@);
        } else {
            lemma_lt_ne(s[b].0@, s[a].0@);
        }
    }
}

proof fn lemma_lookup_distinct<V>(s: Seq<(String, V)>, i: int)
    requires
        sdistinct(s),
        0 <= i < s.len(),
    ensures
        sentries_map(s).contains_key(s[i].0@),
        sentries_map(s)[s[i].0@] == s[i].1,
{
    let t = kv(s);
    let k = s[i].0@;
    assert(t[i].0 == k);
    assert(has_key(t, k));
    let j = choose|j: int| 0 <= j < t.len() && t[j].0 == k;
    assert(j == i);
    assert(entries_map(t)[k] == t[j].1);
}

pub proof fn slemma_lookup<V>(s: Seq<(String, V)>, i: int)
    requires
        skeys_sorted(s),
        0 <= i < s.len(),
    ensures
        sentries_map(s).contains_key(s[i].0@),
        sentries_map(s)[s[i].0@] == s[i].1,
{
    lemma_sorted_distinct(s);
    lemma_lookup_distinct(s, i);
}

proof fn lemma_update_same_key<V>(s0: Seq<(String, V)>, i: int, key: String, v: V)
    requires
        sdistinct(s0),
        0 <= i < s0.len(),
        s0[i].0@ == key@,
    ensures
        sentries_map(s0.update(i, (key, v))) == sentries_map(s0).insert(key@, v),
{
    let s1 = s0.update(i, (key, v));
    assert(sdistinct(s1));
    assert forall|kk: Seq<char>| #[trigger] sentries_map(s1).contains_key(kk) <==> sentries_map(s0).insert(key@, v).contains_key(kk) by {
        if shas_key(s0, kk) {
            let j = choose|j: int| 0 <= j < kv(s0).len() && kv(s0)[j].0 == kk;
            assert(kv(s1)[j].0 == kk);
        }
        if kk == key@ {
            assert(kv(s1)[i].0 == kk);
        }
        if shas_key(s1, kk) {
            let j = choose|j: int| 0 <= j < kv(s1).len() && kv(s1)[j].0 == kk;
            assert(kv(s0)[j].0 == kk);
        }
    }
    assert forall|kk: Seq<char>| sentries_map(s1).contains_key(kk) implies #[trigger] sentries_map(s1)[kk] == sentries_map(s0).insert(key@, v)[kk] by {
        let j = choose|j: int| 0 <= j < kv(s1).len() && kv(s1)[j].0 == kk;
        assert(s1[j].0@ == kk);
        lemma_lookup_distinct(s1, j);
        if kk != key@ {
            lemma_lookup_distinct(s0, j);
        }
    }
    assert(sentries_map(s1) =~= sentries_map(s0).insert(key@, v));
}

/// An ordered map from string keys, kept as a vector of entries sorted by key.
pub struct StrMap<V> {
    entries: Vec<(String, V)>,
}

impl<V> View for StrMap<V> {
    type V = Map<Seq<char>, V>;

    closed spec fn view(&self) -> Map<Seq<char>, V> {
        sentries_map(self.entries@)
    }
}

impl<V> StrMap<V> {
    /// The keys in increasing order.
    pub closed spec fn key_seq(&self) -> Seq<Seq<char>> {
        self.entries@.map_values(|e: (String, V)| e.0@)
    }

    pub closed spec fn wf(&self) -> bool {
        skeys_sorted(self.entries@)
    }

    /// What the well-formed map guarantees about its key listing.
    pub proof fn lemma_key_seq(&self)
        requires
            self.wf(),
        ensures
            forall|i: int, j: int| 0 <= i < j < self.key_seq().len() ==> seq_lt(self.key_seq()[i], self.key_seq()[j]),
            forall|k: Seq<char>| self@.contains_key(k) <==> self.key_seq().contains(k),
            self.key_seq().len() == self@.dom().len(),
            self@.dom().finite(),
    {
        let s = self.entries@;
        let ks = self.key_seq();
        assert forall|k: Seq<char>| self@.contains_key(k) <==> ks.contains(k) by {
            if self@.contains_key(k) {
                let i = choose|i: int| 0 <= i < kv(s).len() && kv(s)[i].0 == k;
                assert(ks[i] == k);
            }
            if ks.contains(k) {
                let i = choose|i: int| 0 <= i < ks.len() && ks[i] == k;
                assert(kv(s)[i].0 == k);
            }
        }
        assert(ks.no_duplicates()) by {
            assert forall|i: int, j: int| 0 <= i < ks.len() && 0 <= j < ks.len() && i != j implies ks[i] != ks[j] by {
                if i < j {
                    lemma_lt_ne(s[i].0@, s[j].0@);
                } else {
                    lemma_lt_ne(s[j].0@, s[i].0@);
                }
            }
        }
        assert(self@.dom() =~= ks.to_set());
        ks.unique_seq_to_set();
    }

    pub fn new() -> (m: Self)
        ensures
            m.wf(),
            m@ == Map::<Seq<char>, V>::empty(),
    {
        let m = StrMap { entries: Vec::new() };
        assert(m@ =~= Map::<Seq<char>, V>::empty());
        m
    }

    pub fn len(&self) -> (n: usize)
        requires
            self.wf(),
        ensures
            n == self@.dom().len(),
    {
        proof {
            self.lemma_key_seq();
        }
        self.entries.len()
    }

    fn find(&self, k: &str) -> (r: Result<usize, usize>)
        requires
            self.wf(),
        ensures
            match r {
                Ok(i) => i < self.entries@.len() && self.entries@[i as int].0@ == k@,
                Err(i) => {
                    &&& i <= self.entries@.len()
                    &&& forall|j: int| 0 <= j < i ==> seq_lt(self.entries@[j].0@, k@)
                    &&& forall|j: int| i <= j < self.entries@.len() ==> seq_lt(k@, self.entries@[j].0@)
                },
            },
    {
        let mut i: usize = 0;
        while i < self.entries.len()
            invariant
                self.wf(),
                i <= self.entries@.len(),
                forall|j: int| 0 <= j < i ==> seq_lt(self.entries@[j].0@, k@),
            decreases self.entries@.len() - i,
        {
            let c = compare_str(self.entries[i].0.as_str(), k);
            if c == 0 {
                return Ok(i);
            }
            if c > 0 {
                assert forall|j: int| i <= j < self.entries@.len() implies seq_lt(k@, self.entries@[j].0@) by {
                    if i < j {
                        lemma_lt_trans(k@, self.entries@[i as int].0@, self.entries@[j].0@);
                    }
                }
                return Err(i);
            }
            i = i + 1;
        }
        Err(i)
    }

    pub fn contains_key(&self, k: &str) -> (b: bool)
        requires
            self.wf(),
        ensures
            b == self@.contains_key(k@),
    {
        match self.find(k) {
            Ok(i) => {
                proof {
                    slemma_lookup(self.entries@, i as int);
                }
                true
            },
            Err(i) => {
                proof {
                    assert forall|j: int| 0 <= j < self.entries@.len() implies self.entries@[j].0@ != k@ by {
                        if j < i {
                            lemma_lt_ne(self.entries@[j].0@, k@);
                        } else {
                            lemma_lt_ne(k@, self.entries@[j].0@);
                        }
                    }
                }
                false
            },
        }
    }

    pub fn get(&self, k: &str) -> (r: Option<&V>)
        requires
            self.wf(),
        ensures
            match r {
                Some(v) => self@.contains_key(k@) && self@[k@] == *v,
                None => !self@.contains_key(k@),
            },
    {
        match self.find(k) {
            Ok(i) => {
                proof {
                    slemma_lookup(self.entries@, i as int);
                }
                Some(&self.entries[i].1)
            },
            Err(i) => {
                proof {
                    assert forall|j: int| 0 <= j < self.entries@.len() implies self.entries@[j].0@ != k@ by {
                        if j < i {
                            lemma_lt_ne(self.entries@[j].0@, k@);
                        } else {
                            lemma_lt_ne(k@, self.entries@[j].0@);
                        }
                    }
                }
                None
            },
        }
    }

    pub fn insert(&mut self, k: &str, v: V)
        requires
            old(self).wf(),
        ensures
            final(self).wf(),
            final(self)@ == old(self)@.insert(k@, v),
    {
        let ghost s0 = self.entries@;
        let key = to_owned_string(k);
        match self.find(k) {
            Ok(i) => {
                self.entries.set(i, (key, v));
                let ghost s1 = self.entries@;
                assert(s1 == s0.update(i as int, (key, v)));
                assert(skeys_sorted(s1));
                proof {
                    lemma_sorted_distinct(s0);
                    lemma_update_same_key(s0, i as int, key, v);
                }
            },
            Err(i) => {
                self.entries.insert(i, (key, v));
                let ghost s1 = self.entries@;
                assert(s1 == s0.insert(i as int, (key, v)));
                assert forall|a: int, b: int| 0 <= a < b < s1.len() implies seq_lt(s1[a].0@, s1[b].0@) by {
                    if a < i && b > i {
                        assert(s1[b] == s0[b - 1]);
                    } else if a > i {
                        assert(s1[a] == s0[a - 1]);
                        assert(s1[b] == s0[b - 1]);
                    } else if a == i {
                        assert(s1[b] == s0[b - 1]);
                    }
                }
                proof {
                    assert forall|kk: Seq<char>| #[trigger] sentries_map(s1).contains_key(kk) <==> sentries_map(s0).insert(k@, v).contains_key(kk) by {
                        if shas_key(s0, kk) {
                            let j = choose|j: int| 0 <= j < kv(s0).len() && kv(s0)[j].0 == kk;
                            if j < i {
                                assert(kv(s1)[j].0 == kk);
                            } else {
                                assert(kv(s1)[j + 1].0 == kk);
                            }
                        }
                        if kk == k@ {
                            assert(kv(s1)[i as int].0 == kk);
                        }
                        if shas_key(s1, kk) {
                            let j = choose|j: int| 0 <= j < kv(s1).len() && kv(s1)[j].0 == kk;
                            if j < i {
                                assert(kv(s0)[j].0 == kk);
                            } else if j > i {
                                assert(kv(s0)[j - 1].0 == kk);
                            }
                        }
                    }
                    assert forall|kk: Seq<char>| sentries_map(s1).contains_key(kk) implies #[trigger] sentries_map(s1)[kk] == sentries_map(s0).insert(k@, v)[kk] by {
                        let j = choose|j: int| 0 <= j < kv(s1).len() && kv(s1)[j].0 == kk;
                        slemma_lookup(s1, j);
                        if j < i {
                            slemma_lookup(s0, j);
                            lemma_lt_ne(s0[j].0@, k@);
                        } else if j > i {
                            slemma_lookup(s0, j - 1);
                            lemma_lt_ne(k@, s0[j - 1].0@);
                        }
                    }
                    assert(sentries_map(s1) =~= sentries_map(s0).insert(k@, v));
                }
            },
        }
    }

    pub fn remove(&mut self, k: &str) -> (r: Option<V>)
        requires
            old(self).wf(),
        ensures
            final(self).wf(),
            final(self)@ == old(self)@.remove(k@),
            match r {
                Some(v) => old(self)@.contains_key(k@) && old(self)@[k@] == v,
                None => !old(self)@.contains_key(k@),
            },
    {
        let ghost s0 = self.entries@;
        match self.find(k) {
            Ok(i) => {
                proof {
                    slemma_lookup(s0, i as int);
                }
                let (_, v) = self.entries.remove(i);
                let ghost s1 = self.entries@;
                assert(s1 == s0.remove(i as int));
                assert forall|a: int, b: int| 0 <= a < b < s1.len() implies seq_lt(s1[a].0@, s1[b].0@) by {
                    if a >= i {
                        assert(s1[a] == s0[a + 1]);
                    }
                    if b >= i {
                        assert(s1[b] == s0[b + 1]);
                    }
                }
                proof {
                    assert forall|kk: Seq<char>| #[trigger] sentries_map(s1).contains_key(kk) <==> sentries_map(s0).remove(k@).contains_key(kk) by {
                        if shas_key(s0, kk) && kk != k@ {
                            let j = choose|j: int| 0 <= j < kv(s0).len() && kv(s0)[j].0 == kk;
                            if j < i {
                                assert(kv(s1)[j].0 == kk);
                            } else {
                                assert(j != i);
                                assert(kv(s1)[j - 1].0 == kk);
                            }
                        }
                        if shas_key(s1, kk) {
                            let j = choose|j: int| 0 <= j < kv(s1).len() && kv(s1)[j].0 == kk;
                            if j < i {
                                assert(kv(s0)[j].0 == kk);
                                lemma_lt_ne(s0[j].0@, s0[i as int].0@);
                            } else {
                                assert(kv(s0)[j + 1].0 == kk);
                                lemma_lt_ne(s0[i as int].0@, s0[j + 1].0@);
                            }
                        }
                    }
                    assert forall|kk: Seq<char>| sentries_map(s1).contains_key(kk) implies #[trigger] sentries_map(s1)[kk] == sentries_map(s0).remove(k@)[kk] by {
                        let j = choose|j: int| 0 <= j < kv(s1).len() && kv(s1)[j].0 == kk;
                        slemma_lookup(s1, j);
                        if j < i {
                            slemma_lookup(s0, j);
                        } else {
                            slemma_lookup(s0, j + 1);
                        }
                    }
                    assert(sentries_map(s1) =~= sentries_map(s0).remove(k@));
                }
                Some(v)
            },
            Err(i) => {
                proof {
                    assert forall|j: int| 0 <= j < s0.len() implies s0[j].0@ != k@ by {
                        if j < i {
                            lemma_lt_ne(s0[j].0@, k@);
                        } else {
                            lemma_lt_ne(k@, s0[j].0@);
                        }
                    }
                    assert(!shas_key(s0, k@));
                    assert(sentries_map(s0).remove(k@) =~= sentries_map(s0));
                }
                None
            },
        }
    }

    /// References to the values, in increasing order of their keys.
    pub fn values(&self) -> (r: Vec<&V>)
        requires
            self.wf(),
        ensures
            r@.len() == self.key_seq().len(),
            forall|i: int| 0 <= i < r@.len() ==> self@.contains_key(#[trigger] self.key_seq()[i]) && *r@[i] == self@[self.key_seq()[i]],
    {
        let mut r: Vec<&V> = Vec::new();
        let mut i: usize = 0;
        while i < self.entries.len()
            invariant
                self.wf(),
                i <= self.entries@.len(),
                r@.len() == i,
                forall|j: int| 0 <= j < i ==> *r@[j] == self.entries@[j].1,
            decreases self.entries@.len() - i,
        {
            r.push(&self.entries[i].1);
            i = i + 1;
        }
        proof {
            assert forall|j: int| 0 <= j < r@.len() implies self@.contains_key(#[trigger] self.key_seq()[j]) && *r@[j] == self@[self.key_seq()[j]] by {
                slemma_lookup(self.entries@, j);
            }
        }
        r
    }

    /// Keys paired with references to their values, in increasing key order.
    pub fn iter_pairs(&self) -> (r: Vec<(&String, &V)>)
        requires
            self.wf(),
        ensures
            r@.len() == self.key_seq().len(),
            forall|i: int| 0 <= i < r@.len() ==> r@[i].0@ == #[trigger] self.key_seq()[i] && self@.contains_key(self.key_seq()[i]) && *r@[i].1 == self@[self.key_seq()[i]],
    {
        let mut r: Vec<(&String, &V)> = Vec::new();
        let mut i: usize = 0;
        while i < self.entries.len()
            invariant
                self.wf(),
                i <= self.entries@.len(),
                r@.len() == i,
                forall|j: int| 0 <= j < i ==> *r@[j].0 == self.entries@[j].0 && *r@[j].1 == self.entries@[j].1,
            decreases self.entries@.len() - i,
        {
            r.push((&self.entries[i].0, &self.entries[i].1));
            i = i + 1;
        }
        proof {
            assert forall|j: int| 0 <= j < r@.len() implies r@[j].0@ == #[trigger] self.key_seq()[j] && self@.contains_key(self.key_seq()[j]) && *r@[j].1 == self@[self.key_seq()[j]] by {
                slemma_lookup(self.entries@, j);
            }
        }
        r
    }
}

} // verus!
