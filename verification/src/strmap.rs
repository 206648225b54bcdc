//! A small map keyed by text, kept as a list of pairs without repeated keys.

use vstd::prelude::*;

verus! {

/// A map from texts to values of `V`.
pub struct StringMap<V> {
    entries: Vec<(String, V)>,
}

impl<V> StringMap<V> {
    /// The keys, in the order in which the entries are kept.
    pub closed spec fn keys(&self) -> Seq<Seq<char>> {
        Seq::new(self.entries@.len(), |i: int| self.entries@[i].0@)
    }

    /// The values, each at the place of its key.
    pub closed spec fn values(&self) -> Seq<V> {
        Seq::new(self.entries@.len(), |i: int| self.entries@[i].1)
    }

    /// No key is kept twice.
    pub open spec fn wf(&self) -> bool {
        self.keys().no_duplicates() && self.values().len() == self.keys().len()
    }

    /// The place of `key` among the keys, where it is one of them.
    pub open spec fn place(&self, key: Seq<char>) -> int {
        choose|i: int| 0 <= i < self.keys().len() && self.keys()[i] == key
    }

    /// The map that the entries stand for.
    pub open spec fn view(&self) -> Map<Seq<char>, V> {
        Map::new(|key: Seq<char>| self.keys().contains(key), |key: Seq<char>| self.values()[self.place(key)])
    }

    /// The entry at place `i` maps its key to its value.
    pub proof fn lemma_entry(&self, i: int)
        requires
            self.wf(),
            0 <= i < self.keys().len(),
        ensures
            self.view().contains_key(self.keys()[i]),
            self.view()[self.keys()[i]] == self.values()[i],
    {
        let j = self.place(self.keys()[i]);
    }

    pub fn new() -> (out: Self)
        ensures
            out.wf(),
            out.view() == Map::<Seq<char>, V>::empty(),
    {
        let out = StringMap { entries: Vec::new() };
        out
    }

    /// The number of entries.
    pub fn len(&self) -> (out: usize)
        ensures
            out == self.keys().len(),
    {
        self.entries.len()
    }

    fn position(&self, key: &str) -> (out: Option<usize>)
        ensures
            match out {
                Some(i) => i < self.keys().len() && self.keys()[i as int] == key@,
                None => !self.keys().contains(key@),
            },
    {
        let needle = key.to_owned();
        let mut i: usize = 0;
        while i < self.entries.len()
            invariant
                i <= self.entries.len(),
                needle@ == key@,
                forall|k: int| 0 <= k < i ==> self.keys()[k] != key@,
            decreases self.entries.len() - i,
        {
            if self.entries[i].0 == needle {
                return Some(i);
            }
            i += 1;
        }
        None
    }

    /// Whether `key` has a value.
    pub fn contains_key(&self, key: &str) -> (out: bool)
        ensures
            out == self.view().contains_key(key@),
    {
        self.position(key).is_some()
    }

    /// The value of `key`, if it has one.
    pub fn get(&self, key: &str) -> (out: Option<&V>)
        requires
            self.wf(),
        ensures
            match out {
                Some(value) => self.view().contains_key(key@) && *value == self.view()[key@],
                None => !self.view().contains_key(key@),
            },
    {
        match self.position(key) {
            Some(i) => {
                proof {
                    self.lemma_entry(i as int);
                }
                Some(&self.entries[i].1)
            },
            None => None,
        }
    }

    /// Takes `key` and its value out of the map and returns the value.
    pub fn remove(&mut self, key: &str) -> (out: Option<V>)
        requires
            old(self).wf(),
        ensures
            final(self).wf(),
            final(self).view() == old(self).view().remove(key@),
            match out {
                Some(value) => old(self).view().contains_key(key@) && value == old(self).view()[key@],
                None => !old(self).view().contains_key(key@),
            },
    {
        match self.position(key) {
            Some(i) => {
                proof {
                    old(self).lemma_entry(i as int);
                }
                let entry = self.entries.remove(i);
                proof {
                    old(self).keys().remove_ensures(i as int);
                    assert(self.keys().no_duplicates()) by {
                        assert forall|a: int, b: int|
                            0 <= a < self.keys().len() && 0 <= b < self.keys().len() && a != b implies self.keys()[a]
                            != self.keys()[b] by {
                            let a0 = if a < i { a } else { a + 1 };
                            let b0 = if b < i { b } else { b + 1 };
                            assert(self.keys()[a] == old(self).keys()[a0]);
                            assert(self.keys()[b] == old(self).keys()[b0]);
                        }
                    }
                    assert forall|k: Seq<char>| #[trigger]
                        self.view().contains_key(k) == old(self).view().remove(key@).contains_key(
                            k,
                        ) by {
                        if self.keys().contains(k) {
                            let a = self.place(k);
                            let a0 = if a < i { a } else { a + 1 };
                            assert(old(self).keys()[a0] == k);
                        }
                        if old(self).keys().contains(k) && k != key@ {
                            let a0 = old(self).place(k);
                            let a = if a0 < i { a0 } else { a0 - 1 };
                            assert(self.keys()[a] == k);
                        }
                    }
                    assert forall|k: Seq<char>| #[trigger]
                        self.view().contains_key(k) implies self.view()[k] == old(
                        self,
                    ).view().remove(key@)[k] by {
                        let a = self.place(k);
                        let a0 = if a < i { a } else { a + 1 };
                        old(self).lemma_entry(a0);
                        self.lemma_entry(a);
                    }
                }
                Some(entry.1)
            },
            None => {
                None
            },
        }
    }

    /// Gives `key` the value `value` and returns the value it had.
    pub fn insert(&mut self, key: String, value: V) -> (out: Option<V>)
        requires
            old(self).wf(),
        ensures
            final(self).wf(),
            final(self).view() == old(self).view().insert(key@, value),
            match out {
                Some(before) => old(self).view().contains_key(key@) && before == old(self).view()[key@],
                None => !old(self).view().contains_key(key@),
            },
    {
        let before = self.remove(key.as_str());
        let ghost middle = *self;
        self.entries.push((key, value));
        proof {
            let n = middle.keys().len() as int;
            assert(!middle.view().contains_key(key@));
            assert(self.keys().no_duplicates()) by {
                assert forall|a: int, b: int|
                    0 <= a < self.keys().len() && 0 <= b < self.keys().len() && a != b implies self.keys()[a]
                    != self.keys()[b] by {
                    if a < n && b < n {
                        assert(middle.keys()[a] != middle.keys()[b]);
                    } else if a < n {
                        assert(middle.keys().contains(middle.keys()[a]));
                    } else {
                        assert(middle.keys().contains(middle.keys()[b]));
                    }
                }
            }
            assert(self.keys()[n] == key@);
            assert forall|k: Seq<char>| #[trigger]
                self.view().contains_key(k) == middle.view().insert(key@, value).contains_key(
                    k,
                ) by {
                if self.keys().contains(k) && k != key@ {
                    let a = self.place(k);
                    assert(middle.keys()[a] == k);
                }
                if middle.keys().contains(k) {
                    let a = middle.place(k);
                    assert(self.keys()[a] == k);
                }
            }
            assert forall|k: Seq<char>| #[trigger] self.view().contains_key(k) implies self.view()[k]
                == middle.view().insert(key@, value)[k] by {
                let a = self.place(k);
                self.lemma_entry(a);
                if a < n {
                    middle.lemma_entry(a);
                }
            }
        }
        before
    }

    /// The keys, in the order in which the entries are kept.
    pub fn key_list(&self) -> (out: Vec<String>)
        ensures
            out.deep_view() == self.keys(),
    {
        let mut out: Vec<String> = Vec::new();
        let mut i: usize = 0;
        while i < self.entries.len()
            invariant
                i <= self.entries.len(),
                out.len() == i,
                forall|k: int| 0 <= k < i ==> out[k]@ == self.keys()[k],
            decreases self.entries.len() - i,
        {
            out.push(self.entries[i].0.clone());
            i += 1;
        }
        out
    }
}

} // verus!
