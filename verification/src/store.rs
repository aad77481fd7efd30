//! A map from string keys to values that keeps each key once.

use vstd::prelude::*;
use std::rc::Rc;

verus! {

/// Values keyed by string; inserting under a key already present replaces
/// the value kept for it. Values are shared, so handing one out copies
/// nothing.
#[derive(Debug)]
pub struct KeyedStore<V> {
    entries: Vec<(String, Rc<V>)>,
}

impl<V> KeyedStore<V> {
    /// No key occurs twice.
    #[verifier::type_invariant]
    closed spec fn keys_unique(self) -> bool {
        forall|i: int, j: int|
            0 <= i < j < self.entries@.len() ==> #[trigger] self.entries@[i].0@
                != #[trigger] self.entries@[j].0@
    }

    closed spec fn has_key_at(self, k: Seq<char>, i: int) -> bool {
        0 <= i < self.entries@.len() && self.entries@[i].0@ == k
    }

    /// The stored key/value pairs as a map.
    pub closed spec fn view(self) -> Map<Seq<char>, V> {
        Map::new(
            |k: Seq<char>| exists|i: int| self.has_key_at(k, i),
            |k: Seq<char>| *self.entries@[choose|i: int| self.has_key_at(k, i)].1,
        )
    }

    proof fn lemma_lookup(self, i: int)
        requires
            self.keys_unique(),
            0 <= i < self.entries@.len(),
        ensures
            self@.dom().contains(self.entries@[i].0@),
            self@[self.entries@[i].0@] == *self.entries@[i].1,
    {
        let k = self.entries@[i].0@;
        assert(self.has_key_at(k, i));
        let j = choose|j: int| self.has_key_at(k, j);
        assert(self.has_key_at(k, j));
        if i < j {
            assert(self.entries@[i].0@ != self.entries@[j].0@);
        } else if j < i {
            assert(self.entries@[j].0@ != self.entries@[i].0@);
        }
    }

    pub fn new() -> (store: Self)
        ensures
            store@ == Map::<Seq<char>, V>::empty(),
    {
        let store = KeyedStore { entries: Vec::new() };
        assert(store@ =~= Map::<Seq<char>, V>::empty());
        store
    }

    /// Position of `key` among the entries, if it is there.
    fn find(&self, key: &str) -> (res: Option<usize>)
        ensures
            match res {
                Some(i) => self.has_key_at(key@, i as int),
                None => forall|i: int| !self.has_key_at(key@, i),
            },
    {
        let mut i: usize = 0;
        while i < self.entries.len()
            invariant
                i <= self.entries@.len(),
                forall|j: int| 0 <= j < i ==> !self.has_key_at(key@, j),
            decreases self.entries@.len() - i,
        {
            if crate::text::str_eq(self.entries[i].0.as_str(), key) {
                return Some(i);
            }
            i += 1;
        }
        None
    }

    /// Whether a value is kept under `key`.
    pub fn contains_key(&self, key: &str) -> (res: bool)
        ensures
            res == self@.dom().contains(key@),
    {
        self.find(key).is_some()
    }

    /// The value kept under `key`, if any.
    pub fn get(&self, key: &str) -> (res: Option<&Rc<V>>)
        ensures
            match res {
                Some(v) => self@.dom().contains(key@) && **v == self@[key@],
                None => !self@.dom().contains(key@),
            },
    {
        proof {
            use_type_invariant(self);
        }
        match self.find(key) {
            Some(i) => {
                proof {
                    self.lemma_lookup(i as int);
                }
                Some(&self.entries[i].1)
            },
            None => None,
        }
    }

    /// Keep `value` under `key`, replacing any value kept there before.
    pub fn insert(&mut self, key: String, value: Rc<V>)
        ensures
            final(self)@ == old(self)@.insert(key@, *value),
    {
        let ghost val = value;
        proof {
            use_type_invariant(&*self);
        }
        let ghost old_self = *self;
        let found = self.find(key.as_str());
        let ghost k = key@;
        match found {
            Some(i) => {
                let mut entries = Vec::new();
                std::mem::swap(&mut entries, &mut self.entries);
                entries.set(i, (key, value));
                proof {
                    assert forall|a: int, b: int|
                        0 <= a < b < entries@.len() implies #[trigger] entries@[a].0@
                        != #[trigger] entries@[b].0@ by {
                        assert(old_self.entries@[a].0@ != old_self.entries@[b].0@);
                    }
                }
                self.entries = entries;
                proof {
                    assert forall|x: Seq<char>| #[trigger]
                        self@.dom().contains(x) == old_self@.insert(k, *val).dom().contains(x) by {
                        if x != k {
                            if exists|j: int| old_self.has_key_at(x, j) {
                                let j = choose|j: int| old_self.has_key_at(x, j);
                                assert(self.has_key_at(x, j));
                            }
                            if exists|j: int| self.has_key_at(x, j) {
                                let j = choose|j: int| self.has_key_at(x, j);
                                assert(old_self.has_key_at(x, j));
                            }
                        } else {
                            assert(self.has_key_at(x, i as int));
                        }
                    }
                    assert forall|x: Seq<char>| #[trigger]
                        self@.dom().contains(x) implies self@[x] == old_self@.insert(
                        k,
                        *val,
                    )[x] by {
                        let j = choose|j: int| self.has_key_at(x, j);
                        self.lemma_lookup(j);
                        if x != k {
                            assert(j != i);
                            old_self.lemma_lookup(j);
                        }
                    }
                    assert(self@ =~= old_self@.insert(k, *val));
                }
            },
            None => {
                let mut entries = Vec::new();
                std::mem::swap(&mut entries, &mut self.entries);
                entries.push((key, value));
                let ghost n = old_self.entries@.len() as int;
                proof {
                    assert forall|a: int, b: int|
                        0 <= a < b < entries@.len() implies #[trigger] entries@[a].0@
                        != #[trigger] entries@[b].0@ by {
                        if b == n {
                            assert(!old_self.has_key_at(k, a));
                        } else {
                            assert(old_self.entries@[a].0@ != old_self.entries@[b].0@);
                        }
                    }
                }
                self.entries = entries;
                proof {
                    assert forall|x: Seq<char>| #[trigger]
                        self@.dom().contains(x) == old_self@.insert(k, *val).dom().contains(x) by {
                        if x != k {
                            if exists|j: int| old_self.has_key_at(x, j) {
                                let j = choose|j: int| old_self.has_key_at(x, j);
                                assert(self.has_key_at(x, j));
                            }
                            if exists|j: int| self.has_key_at(x, j) {
                                let j = choose|j: int| self.has_key_at(x, j);
                                assert(old_self.has_key_at(x, j));
                            }
                        } else {
                            assert(self.has_key_at(x, n));
                        }
                    }
                    assert forall|x: Seq<char>| #[trigger]
                        self@.dom().contains(x) implies self@[x] == old_self@.insert(
                        k,
                        *val,
                    )[x] by {
                        let j = choose|j: int| self.has_key_at(x, j);
                        self.lemma_lookup(j);
                        if x != k {
                            assert(j != n);
                            old_self.lemma_lookup(j);
                        } else if j != n {
                            assert(old_self.has_key_at(k, j));
                        }
                    }
                    assert(self@ =~= old_self@.insert(k, *val));
                }
            },
        }
    }

    /// Drop whatever is kept under `key`.
    pub fn remove(&mut self, key: &str)
        ensures
            final(self)@ == old(self)@.remove(key@),
    {
        proof {
            use_type_invariant(&*self);
        }
        let ghost old_self = *self;
        if let Some(i) = self.find(key) {
            let mut entries = Vec::new();
            std::mem::swap(&mut entries, &mut self.entries);
            entries.remove(i);
            let ghost k = key@;
            let ghost oe = old_self.entries@;
            proof {
                assert forall|j: int| 0 <= j < entries@.len() implies #[trigger] entries@[j]
                    == oe[if j < i { j } else { j + 1 }] by {}
                assert forall|a: int, b: int|
                    0 <= a < b < entries@.len() implies #[trigger] entries@[a].0@
                    != #[trigger] entries@[b].0@ by {
                    let a2 = if a < i { a } else { a + 1 };
                    let b2 = if b < i { b } else { b + 1 };
                    assert(entries@[a] == oe[a2]);
                    assert(entries@[b] == oe[b2]);
                    assert(oe[a2].0@ != oe[b2].0@);
                }
            }
            self.entries = entries;
            proof {
                assert forall|j: int| 0 <= j < self.entries@.len() implies #[trigger] self.entries@[j]
                    == oe[if j < i { j } else { j + 1 }] by {}
                assert forall|x: Seq<char>| #[trigger]
                    self@.dom().contains(x) == old_self@.remove(k).dom().contains(x) by {
                    if exists|j: int| old_self.has_key_at(x, j) {
                        let j = choose|j: int| old_self.has_key_at(x, j);
                        if x != k {
                            assert(j != i);
                            let j2 = if j < i { j } else { j - 1 };
                            assert(self.entries@[j2] == oe[j]);
                            assert(self.has_key_at(x, j2));
                        }
                    }
                    if exists|j: int| self.has_key_at(x, j) {
                        let j = choose|j: int| self.has_key_at(x, j);
                        let j2 = if j < i { j } else { j + 1 };
                        assert(self.entries@[j] == oe[j2]);
                        assert(old_self.has_key_at(x, j2));
                        if x == k {
                            assert(j2 != i);
                            if j2 < i {
                                assert(oe[j2].0@ != oe[i as int].0@);
                            } else {
                                assert(oe[i as int].0@ != oe[j2].0@);
                            }
                        }
                    }
                }
                assert forall|x: Seq<char>| #[trigger]
                    self@.dom().contains(x) implies self@[x] == old_self@.remove(k)[x] by {
                    let j = choose|j: int| self.has_key_at(x, j);
                    self.lemma_lookup(j);
                    let j2 = if j < i { j } else { j + 1 };
                    assert(self.entries@[j] == oe[j2]);
                    old_self.lemma_lookup(j2);
                }
                assert(self@ =~= old_self@.remove(k));
            }
        } else {
            proof {
                assert(!old_self@.dom().contains(key@));
                assert(self@ =~= old_self@.remove(key@));
            }
        }
    }

    /// Drop every entry.
    pub fn clear(&mut self)
        ensures
            final(self)@ == Map::<Seq<char>, V>::empty(),
    {
        self.entries = Vec::new();
        assert(self@ =~= Map::<Seq<char>, V>::empty());
    }
}

} // verus!
