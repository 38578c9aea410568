//! A map from text keys to values, kept as a list in which no key occurs
//! twice.
//!
//! Contracts speak of the map through its view, a `Map` from the key's
//! characters to the value.

use vstd::prelude::*;

verus! {

/// One key of a [`TextMap`] with its value.
#[derive(Clone, Debug)]
pub struct Entry<V> {
    pub key: String,
    pub value: V,
}

/// A map keyed by text. Keys are compared by their characters.
#[derive(Debug)]
pub struct TextMap<V> {
    entries: Vec<Entry<V>>,
}

impl<V> TextMap<V> {
    /// No key occurs twice.
    #[verifier::type_invariant]
    spec fn distinct_keys(self) -> bool {
        forall|i: int, j: int|
            0 <= i < j < self.entries.len() ==> self.entries[i].key@ != self.entries[j].key@
    }

    /// The entries in the order in which their keys were first inserted.
    pub closed spec fn entry_seq(&self) -> Seq<Entry<V>> {
        self.entries@
    }

    /// The map that the entries stand for.
    pub closed spec fn view(&self) -> Map<Seq<char>, V> {
        Map::new(
            |k: Seq<char>| exists|i: int| 0 <= i < self.entries.len() && self.entries[i].key@ == k,
            |k: Seq<char>|
                self.entries[choose|i: int|
                    0 <= i < self.entries.len() && self.entries[i].key@ == k].value,
        )
    }

    /// Entry `i` is in the map, under its own key.
    proof fn lemma_entry(self, i: int)
        requires
            self.distinct_keys(),
            0 <= i < self.entries.len(),
        ensures
            self@.dom().contains(self.entries[i].key@),
            self@[self.entries[i].key@] == self.entries[i].value,
    {
        let k = self.entries[i].key@;
        let j = choose|j: int| 0 <= j < self.entries.len() && self.entries[j].key@ == k;
        assert(j == i);
    }

    /// The map has as many keys as there are entries.
    proof fn lemma_size(self)
        requires
            self.distinct_keys(),
        ensures
            self@.dom().finite(),
            self@.dom().len() == self.entries.len(),
    {
        let keys = Seq::new(self.entries.len() as nat, |i: int| self.entries[i].key@);
        assert forall|k: Seq<char>| self@.dom().contains(k) implies keys.to_set().contains(k) by {
            let j = choose|j: int| 0 <= j < self.entries.len() && self.entries[j].key@ == k;
            assert(keys[j] == k);
        }
        assert forall|k: Seq<char>| keys.to_set().contains(k) implies self@.dom().contains(k) by {
            let j = choose|j: int| 0 <= j < keys.len() && keys[j] == k;
            self.lemma_entry(j);
        }
        assert(keys.to_set() =~= self@.dom());
        keys.unique_seq_to_set();
        vstd::seq_lib::seq_to_set_is_finite(keys);
    }

    /// The empty map.
    pub fn new() -> (m: Self)
        ensures
            m@ == Map::<Seq<char>, V>::empty(),
    {
        TextMap { entries: Vec::new() }
    }

    /// Where `key` stands among the entries.
    fn position(&self, key: &str) -> (r: Option<usize>)
        ensures
            match r {
                Some(i) => i < self.entries.len() && self.entries[i as int].key@ == key@,
                None => forall|k: int| 0 <= k < self.entries.len() ==> self.entries[k].key@ != key@,
            },
    {
        let mut i: usize = 0;
        while i < self.entries.len()
            invariant
                i <= self.entries.len(),
                forall|k: int| 0 <= k < i ==> self.entries[k].key@ != key@,
            decreases self.entries.len() - i,
        {
            if *self.entries[i].key.as_str() == *key {
                return Some(i);
            }
            i += 1;
        }
        None
    }

    /// Whether the map holds `key`.
    pub fn contains_key(&self, key: &str) -> (b: bool)
        ensures
            b == self@.dom().contains(key@),
    {
        proof {
            use_type_invariant(self);
        }
        match self.position(key) {
            Some(_) => true,
            None => false,
        }
    }

    /// The value stored under `key`, if there is one.
    pub fn get(&self, key: &str) -> (r: Option<&V>)
        ensures
            match r {
                Some(v) => self@.dom().contains(key@) && *v == self@[key@],
                None => !self@.dom().contains(key@),
            },
    {
        proof {
            use_type_invariant(self);
        }
        match self.position(key) {
            Some(i) => Some(&self.entries[i].value),
            None => None,
        }
    }

    /// Stores `value` under `key`, replacing what was there.
    pub fn insert(&mut self, key: String, value: V)
        ensures
            final(self)@ == old(self)@.insert(key@, value),
    {
        proof {
            use_type_invariant(&*self);
        }
        let found = self.position(key.as_str());
        let mut entries: Vec<Entry<V>> = Vec::new();
        std::mem::swap(&mut entries, &mut self.entries);
        match found {
            Some(i) => {
                entries[i].value = value;
            },
            None => {
                entries.push(Entry { key, value });
            },
        }
        self.entries = entries;
        proof {
            let goal = old(self)@.insert(key@, value);
            assert forall|k: Seq<char>| goal.dom().contains(k) implies self@.dom().contains(
                k,
            ) by {
                if k == key@ {
                    match found {
                        Some(i) => self.lemma_entry(i as int),
                        None => self.lemma_entry(self.entries.len() - 1),
                    }
                } else {
                    let j = choose|j: int|
                        0 <= j < old(self).entries.len() && old(self).entries[j].key@ == k;
                    self.lemma_entry(j);
                }
            }
        }
    }

    /// Stores `value` under `key` unless the map already holds `key`.
    pub fn insert_if_absent(&mut self, key: String, value: V)
        ensures
            final(self)@ == if old(self)@.dom().contains(key@) {
                old(self)@
            } else {
                old(self)@.insert(key@, value)
            },
    {
        if !self.contains_key(key.as_str()) {
            self.insert(key, value);
        }
    }

    /// Takes `key` and its value out of the map.
    pub fn remove(&mut self, key: &str) -> (r: Option<V>)
        ensures
            final(self)@ == old(self)@.remove(key@),
            match r {
                Some(v) => old(self)@.dom().contains(key@) && v == old(self)@[key@],
                None => !old(self)@.dom().contains(key@),
            },
    {
        proof {
            use_type_invariant(&*self);
        }
        match self.position(key) {
            Some(i) => {
                let mut entries: Vec<Entry<V>> = Vec::new();
                std::mem::swap(&mut entries, &mut self.entries);
                let taken = entries.remove(i);
                self.entries = entries;
                proof {
                    let goal = old(self)@.remove(key@);
                    assert forall|k: Seq<char>| goal.dom().contains(k) implies self@.dom().contains(
                        k,
                    ) by {
                        let j = choose|j: int|
                            0 <= j < old(self).entries.len() && old(self).entries[j].key@ == k;
                        if j < i {
                            self.lemma_entry(j);
                        } else {
                            self.lemma_entry(j - 1);
                        }
                    }
                }
                Some(taken.value)
            },
            None => None,
        }
    }

    /// The number of keys.
    pub fn len(&self) -> (n: usize)
        ensures
            self@.dom().finite(),
            n == self@.dom().len(),
            n == self.entry_seq().len(),
    {
        proof {
            use_type_invariant(self);
            self.lemma_size();
        }
        self.entries.len()
    }

    /// The entries, one for each key of the map, in the order in which the
    /// keys were first inserted.
    pub fn entries(&self) -> (r: &Vec<Entry<V>>)
        ensures
            r@ == self.entry_seq(),
            forall|i: int|
                0 <= i < r.len() ==> self@.dom().contains(#[trigger] r[i].key@) && self@[r[i].key@]
                    == r[i].value,
            forall|k: Seq<char>|
                self@.dom().contains(k) ==> exists|i: int| 0 <= i < r.len() && r[i].key@ == k,
            forall|i: int, j: int| 0 <= i < j < r.len() ==> r[i].key@ != r[j].key@,
    {
        proof {
            use_type_invariant(self);
        }
        &self.entries
    }
}

impl<V: Clone> Clone for TextMap<V> {
    /// A map with the same keys, each with a clone of its value.
    fn clone(&self) -> (m: Self)
        ensures
            m@.dom() == self@.dom(),
            forall|k: Seq<char>| self@.dom().contains(k) ==> cloned(self@[k], #[trigger] m@[k]),
    {
        proof {
            use_type_invariant(self);
        }
        let mut entries: Vec<Entry<V>> = Vec::new();
        let mut i: usize = 0;
        while i < self.entries.len()
            invariant
                i <= self.entries.len(),
                entries.len() == i,
                forall|k: int| 0 <= k < i ==> entries[k].key@ == self.entries[k].key@,
                forall|k: int| 0 <= k < i ==> cloned(self.entries[k].value, entries[k].value),
            decreases self.entries.len() - i,
        {
            entries.push(
                Entry { key: self.entries[i].key.clone(), value: self.entries[i].value.clone() },
            );
            i += 1;
        }
        let m = TextMap { entries };
        proof {
            assert forall|k: Seq<char>| self@.dom().contains(k) implies m@.dom().contains(k) by {
                let j = choose|j: int| 0 <= j < self.entries.len() && self.entries[j].key@ == k;
                assert(m.entries[j].key@ == k);
            }
        }
        m
    }
}

} // verus!
