//! A small string-keyed map with distinct keys, kept in insertion order.

use vstd::prelude::*;
use crate::text::str_eq;

verus! {

/// A map from strings to values. Keys are distinct; entries keep the order
/// in which their keys were first inserted.
#[derive(Debug)]
pub struct StrMap<V> {
    entries: Vec<(String, V)>,
}

/// The keys of a sequence of entries.
pub open spec fn entry_keys<V>(s: Seq<(String, V)>) -> Seq<Seq<char>> {
    Seq::new(s.len(), |i: int| s[i].0@)
}

/// Whether the keys of the entries are pairwise distinct.
pub open spec fn distinct_keys<V>(s: Seq<(String, V)>) -> bool {
    forall|i: int, j: int| 0 <= i < j < s.len() ==> s[i].0@ != s[j].0@
}

impl<V> StrMap<V> {
    #[verifier::type_invariant]
    spec fn inv(self) -> bool {
        distinct_keys(self.entries@)
    }

    /// The entries in order.
    pub closed spec fn entries_view(self) -> Seq<(String, V)> {
        self.entries@
    }

    /// The map from keys to values.
    pub open spec fn view(self) -> Map<Seq<char>, V> {
        Map::new(
            |k: Seq<char>| exists|i: int| 0 <= i < self.entries_view().len() && self.entries_view()[i].0@ == k,
            |k: Seq<char>|
                self.entries_view()[choose|i: int|
                    0 <= i < self.entries_view().len() && self.entries_view()[i].0@ == k].1,
        )
    }

    /// The keys in order.
    pub open spec fn key_seq(self) -> Seq<Seq<char>> {
        entry_keys(self.entries_view())
    }

    /// Every listed key is present, and every present key is listed.
    pub proof fn lemma_keys(&self)
        ensures
            forall|i: int| 0 <= i < self.key_seq().len() ==> self@.contains_key(#[trigger] self.key_seq()[i]),
            forall|k: Seq<char>| #[trigger] self@.contains_key(k) ==> self.key_seq().contains(k),
    {
        assert forall|i: int| 0 <= i < self.key_seq().len() implies self@.contains_key(#[trigger] self.key_seq()[i]) by {
            assert(self.entries_view()[i].0@ == self.key_seq()[i]);
        }
        assert forall|k: Seq<char>| #[trigger] self@.contains_key(k) implies self.key_seq().contains(k) by {
            let j = choose|j: int| 0 <= j < self.entries_view().len() && self.entries_view()[j].0@ == k;
            assert(self.key_seq()[j] == k);
        }
    }

    /// An empty map.
    pub fn new() -> (r: StrMap<V>)
        ensures
            r@ == Map::<Seq<char>, V>::empty(),
            r.key_seq() == Seq::<Seq<char>>::empty(),
    {
        let r = StrMap { entries: Vec::new() };
        assert(r@ =~= Map::<Seq<char>, V>::empty());
        assert(r.key_seq() =~= Seq::<Seq<char>>::empty());
        r
    }

    fn position(&self, key: &str) -> (r: Option<usize>)
        ensures
            match r {
                Some(i) => i < self.entries@.len() && self.entries@[i as int].0@ == key@,
                None => forall|j: int|
                    0 <= j < self.entries@.len() ==> self.entries@[j].0@ != key@,
            },
    {
        let mut i: usize = 0;
        while i < self.entries.len()
            invariant
                i <= self.entries@.len(),
                forall|j: int| 0 <= j < i ==> self.entries@[j].0@ != key@,
            decreases self.entries@.len() - i,
        {
            if str_eq(self.entries[i].0.as_str(), key) {
                return Some(i);
            }
            i = i + 1;
        }
        None
    }

    proof fn lemma_value_at(&self, i: int)
        requires
            distinct_keys(self.entries_view()),
            0 <= i < self.entries_view().len(),
        ensures
            self@.contains_key(self.entries_view()[i].0@),
            self@[self.entries_view()[i].0@] == self.entries_view()[i].1,
    {
        let k = self.entries_view()[i].0@;
        let c = choose|j: int| 0 <= j < self.entries_view().len() && self.entries_view()[j].0@ == k;
        assert(0 <= c < self.entries_view().len() && self.entries_view()[c].0@ == k);
        if c != i {
            if c < i {
                assert(self.entries@[c].0@ != self.entries@[i].0@);
            } else {
                assert(self.entries@[i].0@ != self.entries@[c].0@);
            }
        }
    }

    /// The number of entries.
    pub fn len(&self) -> (n: usize)
        ensures
            n == self.key_seq().len(),
            n == self@.len(),
    {
        proof {
            use_type_invariant(self);
            self.lemma_len();
        }
        self.entries.len()
    }

    proof fn lemma_len(&self)
        requires
            distinct_keys(self.entries_view()),
        ensures
            self@.dom().finite(),
            self@.len() == self.entries_view().len(),
    {
        let ks = self.key_seq();
        assert(ks.no_duplicates()) by {
            assert forall|i: int, j: int| 0 <= i < ks.len() && 0 <= j < ks.len() && i != j implies ks[i]
                != ks[j] by {
                if i < j {
                    assert(self.entries@[i].0@ != self.entries@[j].0@);
                } else {
                    assert(self.entries@[j].0@ != self.entries@[i].0@);
                }
            }
        }
        assert(self@.dom() =~= ks.to_set()) by {
            assert forall|k: Seq<char>| self@.dom().contains(k) <==> ks.to_set().contains(k) by {
                if self@.dom().contains(k) {
                    let i = choose|i: int| 0 <= i < self.entries_view().len() && self.entries_view()[i].0@ == k;
                    assert(ks[i] == k);
                }
                if ks.to_set().contains(k) {
                    let i = choose|i: int| 0 <= i < ks.len() && ks[i] == k;
                    assert(self.entries_view()[i].0@ == k);
                }
            }
        }
        ks.unique_seq_to_set();
    }

    /// Whether `key` is present.
    pub fn contains_key(&self, key: &str) -> (r: bool)
        ensures
            r == self@.contains_key(key@),
    {
        match self.position(key) {
            Some(_) => true,
            None => false,
        }
    }

    /// The value stored under `key`.
    pub fn get(&self, key: &str) -> (r: Option<&V>)
        ensures
            match r {
                Some(v) => self@.contains_key(key@) && self@[key@] == *v,
                None => !self@.contains_key(key@),
            },
    {
        proof {
            use_type_invariant(self);
        }
        match self.position(key) {
            Some(i) => {
                proof {
                    self.lemma_value_at(i as int);
                }
                Some(&self.entries[i].1)
            },
            None => None,
        }
    }

    /// Stores `value` under `key`, replacing any previous value, and returns
    /// the previous value.
    pub fn insert(&mut self, key: String, value: V) -> (r: Option<V>)
        ensures
            final(self)@ == old(self)@.insert(key@, value),
            match r {
                Some(v) => old(self)@.contains_key(key@) && old(self)@[key@] == v,
                None => !old(self)@.contains_key(key@),
            },
            old(self)@.contains_key(key@) ==> final(self).key_seq() == old(self).key_seq(),
            !old(self)@.contains_key(key@) ==> final(self).key_seq() == old(self).key_seq().push(
                key@,
            ),
    {
        proof {
            use_type_invariant(&*self);
        }
        let ghost old_entries = self.entries@;
        let pos = self.position(key.as_str());
        match pos {
            Some(i) => {
                proof {
                    self.lemma_value_at(i as int);
                }
                let mut entries = Vec::new();
                std::mem::swap(&mut entries, &mut self.entries);
                let (_, prev) = entries.remove(i);
                entries.insert(i, (key, value));
                proof {
                    assert(entries@ =~= old_entries.update(i as int, entries@[i as int]));
                    assert forall|a: int, b: int| 0 <= a < b < entries@.len() implies entries@[a].0@ != entries@[b].0@ by {
                        assert(old_entries[a].0@ != old_entries[b].0@);
                    }
                }
                self.entries = entries;
                proof {
                    assert(self.entries@ =~= old_entries.update(i as int, self.entries@[i as int]));
                    assert(self@ =~= old(self)@.insert(key@, value)) by {
                        assert forall|k: Seq<char>| #![auto] self@.dom().contains(k) <==> old(self)@.insert(key@, value).dom().contains(k) by {
                            if old(self)@.dom().contains(k) {
                                let j = choose|j: int| 0 <= j < old_entries.len() && old_entries[j].0@ == k;
                                assert(self.entries@[j].0@ == k);
                            }
                            if self@.dom().contains(k) {
                                let j = choose|j: int| 0 <= j < self.entries@.len() && self.entries@[j].0@ == k;
                                if j != i {
                                    assert(old_entries[j].0@ == k);
                                }
                            }
                        }
                        assert forall|k: Seq<char>| #![auto] self@.dom().contains(k) implies self@[k] == old(self)@.insert(key@, value)[k] by {
                            let j = choose|j: int| 0 <= j < self.entries@.len() && self.entries@[j].0@ == k;
                            self.lemma_value_at(j);
                            if j != i {
                                old(self).lemma_value_at(j);
                            }
                        }
                    }
                    assert(self.key_seq() =~= old(self).key_seq());
                }
                Some(prev)
            },
            None => {
                assert(forall|j: int| 0 <= j < old_entries.len() ==> old_entries[j].0@ != key@);
                let mut entries = Vec::new();
                std::mem::swap(&mut entries, &mut self.entries);
                entries.push((key, value));
                proof {
                    let n = old_entries.len() as int;
                    assert forall|a: int, b: int| 0 <= a < b < entries@.len() implies entries@[a].0@ != entries@[b].0@ by {
                        if b < n {
                            assert(old_entries[a].0@ != old_entries[b].0@);
                        } else {
                            assert(entries@[a] == old_entries[a]);
                            assert(old_entries[a].0@ != entries@[b].0@);
                        }
                    }
                }
                self.entries = entries;
                proof {
                    let n = old_entries.len() as int;
                    assert(self@ =~= old(self)@.insert(key@, value)) by {
                        assert forall|k: Seq<char>| #![auto] self@.dom().contains(k) <==> old(self)@.insert(key@, value).dom().contains(k) by {
                            if old(self)@.dom().contains(k) {
                                let j = choose|j: int| 0 <= j < old_entries.len() && old_entries[j].0@ == k;
                                assert(self.entries@[j].0@ == k);
                            }
                            if k == key@ {
                                assert(self.entries@[n].0@ == k);
                            }
                            if self@.dom().contains(k) {
                                let j = choose|j: int| 0 <= j < self.entries@.len() && self.entries@[j].0@ == k;
                                if j != n {
                                    assert(old_entries[j].0@ == k);
                                }
                            }
                        }
                        assert forall|k: Seq<char>| #![auto] self@.dom().contains(k) implies self@[k] == old(self)@.insert(key@, value)[k] by {
                            let j = choose|j: int| 0 <= j < self.entries@.len() && self.entries@[j].0@ == k;
                            self.lemma_value_at(j);
                            if j != n {
                                old(self).lemma_value_at(j);
                            }
                        }
                    }
                    assert(self.key_seq() =~= old(self).key_seq().push(key@));
                }
                None
            },
        }
    }

    /// Removes `key`, returning its value.
    pub fn remove(&mut self, key: &str) -> (r: Option<V>)
        ensures
            final(self)@ == old(self)@.remove(key@),
            match r {
                Some(v) => old(self)@.contains_key(key@) && old(self)@[key@] == v,
                None => !old(self)@.contains_key(key@),
            },
    {
        proof {
            use_type_invariant(&*self);
        }
        let ghost old_entries = self.entries@;
        match self.position(key) {
            Some(i) => {
                proof {
                    self.lemma_value_at(i as int);
                }
                let mut entries = Vec::new();
                std::mem::swap(&mut entries, &mut self.entries);
                let (_, prev) = entries.remove(i);
                proof {
                    assert forall|a: int, b: int| 0 <= a < b < entries@.len() implies entries@[a].0@ != entries@[b].0@ by {
                        if b < i {
                            assert(old_entries[a].0@ != old_entries[b].0@);
                        } else if a < i {
                            assert(old_entries[a].0@ != old_entries[b + 1].0@);
                        } else {
                            assert(old_entries[a + 1].0@ != old_entries[b + 1].0@);
                        }
                    }
                }
                self.entries = entries;
                proof {
                    assert(self@ =~= old(self)@.remove(key@)) by {
                        assert forall|k: Seq<char>| #![auto] self@.dom().contains(k) <==> old(self)@.remove(key@).dom().contains(k) by {
                            if old(self)@.dom().contains(k) && k != key@ {
                                let j = choose|j: int| 0 <= j < old_entries.len() && old_entries[j].0@ == k;
                                if j < i {
                                    assert(self.entries@[j].0@ == k);
                                } else {
                                    assert(j != i);
                                    assert(self.entries@[j - 1].0@ == k);
                                }
                            }
                            if self@.dom().contains(k) {
                                let j = choose|j: int| 0 <= j < self.entries@.len() && self.entries@[j].0@ == k;
                                if j < i {
                                    assert(old_entries[j].0@ == k);
                                    assert(old_entries[j].0@ != old_entries[i as int].0@);
                                } else {
                                    assert(old_entries[j + 1].0@ == k);
                                    assert(old_entries[i as int].0@ != old_entries[j + 1].0@);
                                }
                            }
                        }
                        assert forall|k: Seq<char>| #![auto] self@.dom().contains(k) implies self@[k] == old(self)@.remove(key@)[k] by {
                            let j = choose|j: int| 0 <= j < self.entries@.len() && self.entries@[j].0@ == k;
                            self.lemma_value_at(j);
                            if j < i {
                                old(self).lemma_value_at(j);
                            } else {
                                old(self).lemma_value_at(j + 1);
                            }
                        }
                    }
                }
                Some(prev)
            },
            None => {
                proof {
                    assert(self@ =~= old(self)@.remove(key@));
                }
                None
            },
        }
    }

    /// Removes every entry.
    pub fn clear(&mut self)
        ensures
            final(self)@ == Map::<Seq<char>, V>::empty(),
            final(self).key_seq() == Seq::<Seq<char>>::empty(),
    {
        self.entries = Vec::new();
        proof {
            assert(self@ =~= Map::<Seq<char>, V>::empty());
            assert(self.key_seq() =~= Seq::<Seq<char>>::empty());
        }
    }

    /// The keys, in order.
    pub fn keys(&self) -> (r: Vec<String>)
        ensures
            r@.len() == self.key_seq().len(),
            forall|i: int| 0 <= i < r@.len() ==> r@[i]@ == self.key_seq()[i],
            forall|i: int, j: int|
                0 <= i < j < self.key_seq().len() ==> self.key_seq()[i] != self.key_seq()[j],
            forall|i: int|
                0 <= i < self.key_seq().len() ==> self@.contains_key(#[trigger] self.key_seq()[i]),
            forall|k: Seq<char>| #[trigger] self@.contains_key(k) ==> self.key_seq().contains(k),
    {
        proof {
            use_type_invariant(self);
            assert forall|i: int| 0 <= i < self.key_seq().len() implies self@.contains_key(#[trigger] self.key_seq()[i]) by {
                self.lemma_value_at(i);
            }
            assert forall|k: Seq<char>| #[trigger] self@.contains_key(k) implies self.key_seq().contains(k) by {
                let j = choose|j: int| 0 <= j < self.entries_view().len() && self.entries_view()[j].0@ == k;
                assert(self.key_seq()[j] == k);
            }
        }
        let mut out: Vec<String> = Vec::new();
        let mut i: usize = 0;
        while i < self.entries.len()
            invariant
                i <= self.entries@.len(),
                out@.len() == i,
                forall|j: int| 0 <= j < i ==> out@[j]@ == self.entries@[j].0@,
            decreases self.entries@.len() - i,
        {
            out.push(self.entries[i].0.clone());
            i = i + 1;
        }
        out
    }

    /// The value at position `i` in key order.
    pub fn value_at(&self, i: usize) -> (r: &V)
        requires
            i < self.key_seq().len(),
        ensures
            self@.contains_key(self.key_seq()[i as int]),
            *r == self@[self.key_seq()[i as int]],
    {
        proof {
            use_type_invariant(self);
            self.lemma_value_at(i as int);
        }
        &self.entries[i].1
    }

}

impl<V: Clone> Clone for StrMap<V> {
    /// A copy with the same keys in the same order; each value is cloned.
    fn clone(&self) -> (r: Self)
        ensures
            r.key_seq() == self.key_seq(),
    {
        proof {
            use_type_invariant(self);
        }
        let mut out: Vec<(String, V)> = Vec::new();
        let mut i: usize = 0;
        while i < self.entries.len()
            invariant
                i <= self.entries@.len(),
                out@.len() == i,
                distinct_keys(self.entries@),
                forall|j: int| 0 <= j < i ==> out@[j].0@ == self.entries@[j].0@,
            decreases self.entries@.len() - i,
        {
            let k = self.entries[i].0.clone();
            let v = self.entries[i].1.clone();
            out.push((k, v));
            i = i + 1;
        }
        assert(distinct_keys(out@)) by {
            assert forall|a: int, b: int| 0 <= a < b < out@.len() implies out@[a].0@ != out@[b].0@ by {
                assert(self.entries@[a].0@ != self.entries@[b].0@);
            }
        }
        let r = StrMap { entries: out };
        assert(r.key_seq() =~= self.key_seq());
        r
    }
}

impl<V> StrMap<V> {
    /// A copy whose values are made by `f`: the keys keep their order, and
    /// each copied value agrees with its original under `model`.
    pub fn copy_with<M, F: Fn(&V) -> V>(&self, f: F, Ghost(model): Ghost<spec_fn(V) -> M>) -> (r: StrMap<V>)
        requires
            forall|v: &V| #[trigger] f.requires((v,)),
            forall|v: &V, w: V| #[trigger] f.ensures((v,), w) ==> model(w) == model(*v),
        ensures
            r.key_seq() == self.key_seq(),
            r@.dom() == self@.dom(),
            forall|k: Seq<char>| #[trigger] r@.contains_key(k) ==> model(r@[k]) == model(self@[k]),
    {
        proof {
            use_type_invariant(self);
        }
        let mut out: Vec<(String, V)> = Vec::new();
        let mut i: usize = 0;
        while i < self.entries.len()
            invariant
                i <= self.entries@.len(),
                out@.len() == i,
                forall|v: &V| #[trigger] f.requires((v,)),
                forall|v: &V, w: V| #[trigger] f.ensures((v,), w) ==> model(w) == model(*v),
                forall|j: int|
                    0 <= j < i ==> (#[trigger] out@[j]).0@ == self.entries@[j].0@ && model(out@[j].1) == model(
                        self.entries@[j].1,
                    ),
            decreases self.entries@.len() - i,
        {
            let v = f(&self.entries[i].1);
            out.push((self.entries[i].0.clone(), v));
            i = i + 1;
        }
        proof {
            assert(distinct_keys(out@)) by {
                assert forall|a: int, b: int| 0 <= a < b < out@.len() implies out@[a].0@ != out@[b].0@ by {
                    assert(self.entries@[a].0@ != self.entries@[b].0@);
                }
            }
        }
        let r = StrMap { entries: out };
        proof {
            assert(r.key_seq() =~= self.key_seq());
            assert forall|k: Seq<char>| r@.contains_key(k) <==> self@.contains_key(k) by {
                if r@.contains_key(k) {
                    let j = choose|j: int| 0 <= j < r.entries_view().len() && r.entries_view()[j].0@ == k;
                    assert(self.entries@[j].0@ == k);
                }
                if self@.contains_key(k) {
                    let j = choose|j: int| 0 <= j < self.entries_view().len() && self.entries_view()[j].0@ == k;
                    assert(r.entries@[j].0@ == k);
                }
            }
            assert(r@.dom() =~= self@.dom());
            assert forall|k: Seq<char>| #[trigger] r@.contains_key(k) implies model(r@[k]) == model(self@[k]) by {
                let j = choose|j: int| 0 <= j < r.entries_view().len() && r.entries_view()[j].0@ == k;
                r.lemma_value_at(j);
                self.lemma_value_at(j);
            }
        }
        r
    }
}

impl StrMap<String> {
    /// A copy of this map.
    pub fn copy(&self) -> (r: StrMap<String>)
        ensures
            r.key_seq() == self.key_seq(),
            r@.dom() == self@.dom(),
            forall|k: Seq<char>| #[trigger] r@.contains_key(k) ==> r@[k]@ == self@[k]@,
    {
        proof {
            use_type_invariant(self);
        }
        let mut out: Vec<(String, String)> = Vec::new();
        let mut i: usize = 0;
        while i < self.entries.len()
            invariant
                i <= self.entries@.len(),
                out@.len() == i,
                forall|j: int| 0 <= j < i ==> out@[j].0@ == self.entries@[j].0@ && out@[j].1@ == self.entries@[j].1@,
            decreases self.entries@.len() - i,
        {
            out.push((self.entries[i].0.clone(), self.entries[i].1.clone()));
            i = i + 1;
        }
        let r = StrMap { entries: out };
        proof {
            assert(r.key_seq() =~= self.key_seq());
            assert forall|k: Seq<char>| r@.contains_key(k) <==> self@.contains_key(k) by {
                if r@.contains_key(k) {
                    let j = choose|j: int| 0 <= j < r.entries_view().len() && r.entries_view()[j].0@ == k;
                    assert(self.entries@[j].0@ == k);
                }
                if self@.contains_key(k) {
                    let j = choose|j: int| 0 <= j < self.entries_view().len() && self.entries_view()[j].0@ == k;
                    assert(r.entries@[j].0@ == k);
                }
            }
            assert(r@.dom() =~= self@.dom());
            assert forall|k: Seq<char>| #[trigger] r@.contains_key(k) implies r@[k]@ == self@[k]@ by {
                let j = choose|j: int| 0 <= j < r.entries_view().len() && r.entries_view()[j].0@ == k;
                r.lemma_value_at(j);
                self.lemma_value_at(j);
            }
        }
        r
    }
}

impl StrMap<bool> {
    /// A copy of this map.
    pub fn copy(&self) -> (r: StrMap<bool>)
        ensures
            r@ == self@,
            r.key_seq() == self.key_seq(),
    {
        proof {
            use_type_invariant(self);
        }
        let mut out: Vec<(String, bool)> = Vec::new();
        let mut i: usize = 0;
        while i < self.entries.len()
            invariant
                i <= self.entries@.len(),
                out@.len() == i,
                forall|j: int| 0 <= j < i ==> out@[j].0@ == self.entries@[j].0@ && out@[j].1 == self.entries@[j].1,
            decreases self.entries@.len() - i,
        {
            out.push((self.entries[i].0.clone(), self.entries[i].1));
            i = i + 1;
        }
        let r = StrMap { entries: out };
        proof {
            assert(r.key_seq() =~= self.key_seq());
            assert forall|k: Seq<char>| r@.contains_key(k) <==> self@.contains_key(k) by {
                if r@.contains_key(k) {
                    let j = choose|j: int| 0 <= j < r.entries_view().len() && r.entries_view()[j].0@ == k;
                    assert(self.entries@[j].0@ == k);
                }
                if self@.contains_key(k) {
                    let j = choose|j: int| 0 <= j < self.entries_view().len() && self.entries_view()[j].0@ == k;
                    assert(r.entries@[j].0@ == k);
                }
            }
            assert forall|k: Seq<char>| #[trigger] r@.contains_key(k) implies r@[k] == self@[k] by {
                let j = choose|j: int| 0 <= j < r.entries_view().len() && r.entries_view()[j].0@ == k;
                r.lemma_value_at(j);
                self.lemma_value_at(j);
            }
            assert(r@ =~= self@);
        }
        r
    }
}

/// A count capped at the largest `usize`.
pub open spec fn saturated(n: nat) -> nat {
    if n <= usize::MAX {
        n
    } else {
        usize::MAX as nat
    }
}

/// The sum of two counts, capped at the largest `usize`.
pub fn add_capped(a: usize, b: usize) -> (r: usize)
    ensures
        r == saturated((a + b) as nat),
{
    if a > usize::MAX - b {
        usize::MAX
    } else {
        a + b
    }
}

} // verus!
