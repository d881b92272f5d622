//! An insertion-ordered map keyed by strings.
//!
//! The bundler keys everything by module identifier or by import specifier,
//! and what it emits must not depend on the iteration order of a hash table.
//! `StringMap` keeps its entries in the order in which their keys first came
//! and never holds a key twice.

use vstd::prelude::*;

verus! {

/// A map from strings to `V` that remembers insertion order.
pub struct StringMap<V> {
    keys: Vec<String>,
    values: Vec<V>,
}

impl<V> StringMap<V> {
    /// The keys, each as the text it holds, oldest first.
    pub closed spec fn keys(&self) -> Seq<Seq<char>> {
        self.keys@.map_values(|k: String| k@)
    }

    /// The values, in the order of their keys.
    pub closed spec fn values(&self) -> Seq<V> {
        self.values@
    }

    /// Every key has a value and no key occurs twice.
    pub open spec fn wf(&self) -> bool {
        &&& self.keys().len() == self.values().len()
        &&& self.keys().no_duplicates()
    }

    /// Whether `key` is one of the keys.
    pub open spec fn contains(&self, key: Seq<char>) -> bool {
        self.keys().contains(key)
    }

    /// The value stored under `key`.
    pub open spec fn get(&self, key: Seq<char>) -> V
        recommends
            self.contains(key),
    {
        self.values()[self.keys().index_of(key)]
    }

    /// The entries as a mathematical map.
    pub open spec fn as_map(&self) -> Map<Seq<char>, V> {
        Map::new(|k: Seq<char>| self.contains(k), |k: Seq<char>| self.get(k))
    }

    /// In a well-formed map a key is stored at one position only, so `get`
    /// reads the value at that position.
    pub proof fn lemma_get_at(&self, i: int)
        requires
            self.wf(),
            0 <= i < self.keys().len(),
        ensures
            self.contains(self.keys()[i]),
            self.keys().index_of(self.keys()[i]) == i,
            self.get(self.keys()[i]) == self.values()[i],
    {
        let key = self.keys()[i];
        assert(self.keys().contains(key));
        let j = self.keys().index_of(key);
        assert(0 <= j < self.keys().len() && self.keys()[j] == key);
    }

    /// An empty map.
    pub fn new() -> (m: Self)
        ensures
            m.wf(),
            m.keys() == Seq::<Seq<char>>::empty(),
            m.values() == Seq::<V>::empty(),
    {
        let m = StringMap { keys: Vec::new(), values: Vec::new() };
        assert(m.keys() =~= Seq::<Seq<char>>::empty());
        m
    }

    /// The number of entries.
    pub fn len(&self) -> (n: usize)
        requires
            self.wf(),
        ensures
            n == self.keys().len(),
            n == self.values().len(),
    {
        self.keys.len()
    }

    /// The position of `key` among the keys, if it is one of them.
    pub fn position(&self, key: &String) -> (found: Option<usize>)
        requires
            self.wf(),
        ensures
            match found {
                Some(i) => i < self.keys().len() && self.keys()[i as int] == key@,
                None => !self.contains(key@),
            },
    {
        let mut i: usize = 0;
        while i < self.keys.len()
            invariant
                i <= self.keys.len(),
                forall|j: int| 0 <= j < i ==> self.keys()[j] != key@,
            decreases self.keys.len() - i,
        {
            if self.keys[i] == *key {
                return Some(i);
            }
            i += 1;
        }
        None
    }

    /// Whether `key` is one of the keys.
    pub fn contains_key(&self, key: &String) -> (present: bool)
        requires
            self.wf(),
        ensures
            present == self.contains(key@),
    {
        self.position(key).is_some()
    }

    /// The key at position `i`.
    pub fn key_at(&self, i: usize) -> (key: &String)
        requires
            self.wf(),
            i < self.keys().len(),
        ensures
            key@ == self.keys()[i as int],
    {
        &self.keys[i]
    }

    /// The value at position `i`.
    pub fn value_at(&self, i: usize) -> (value: &V)
        requires
            self.wf(),
            i < self.keys().len(),
        ensures
            *value == self.values()[i as int],
    {
        &self.values[i]
    }

    /// The value at position `i`, to be changed in place. The keys stay.
    pub fn value_at_mut(&mut self, i: usize) -> (value: &mut V)
        requires
            old(self).wf(),
            i < old(self).keys().len(),
        ensures
            *value == old(self).values()[i as int],
            final(self).keys() == old(self).keys(),
            final(self).values() == old(self).values().update(i as int, *final(value)),
    {
        &mut self.values[i]
    }

    /// The value stored under `key`, if there is one.
    pub fn lookup(&self, key: &String) -> (value: Option<&V>)
        requires
            self.wf(),
        ensures
            match value {
                Some(v) => self.contains(key@) && *v == self.get(key@),
                None => !self.contains(key@),
            },
    {
        match self.position(key) {
            Some(i) => {
                proof {
                    self.lemma_get_at(i as int);
                }
                Some(&self.values[i])
            },
            None => None,
        }
    }

    /// Stores `value` under `key`. A key that is already there keeps its
    /// position and gets the new value; a new key goes to the end.
    pub fn insert(&mut self, key: String, value: V)
        requires
            old(self).wf(),
        ensures
            final(self).wf(),
            old(self).contains(key@) ==> {
                &&& final(self).keys() == old(self).keys()
                &&& final(self).values() == old(self).values().update(
                    old(self).keys().index_of(key@),
                    value,
                )
            },
            !old(self).contains(key@) ==> {
                &&& final(self).keys() == old(self).keys().push(key@)
                &&& final(self).values() == old(self).values().push(value)
            },
            final(self).contains(key@),
            final(self).get(key@) == value,
            forall|k: Seq<char>| final(self).contains(k) <==> old(self).contains(k) || k == key@,
            forall|k: Seq<char>|
                old(self).contains(k) && k != key@ ==> final(self).get(k) == old(self).get(k),
    {
        match self.position(&key) {
            Some(i) => {
                proof {
                    self.lemma_get_at(i as int);
                }
                self.values[i] = value;
            },
            None => {
                self.keys.push(key);
                self.values.push(value);
                assert(self.keys() =~= old(self).keys().push(key@));
            },
        }
        proof {
            let before = *old(self);
            let after = *self;
            let at = after.keys().index_of(key@);
            if before.contains(key@) {
                let i = before.keys().index_of(key@);
                after.lemma_get_at(i);
            } else {
                after.lemma_get_at(before.keys().len() as int);
            }
            assert forall|k: Seq<char>| after.contains(k) <==> before.contains(k) || k == key@ by {
                if before.contains(k) {
                    let i = before.keys().index_of(k);
                    assert(after.keys()[i] == k);
                }
                if after.contains(k) && k != key@ {
                    let i = after.keys().index_of(k);
                    assert(before.keys()[i] == k);
                }
            }
            assert forall|k: Seq<char>| before.contains(k) && k != key@ implies after.get(k)
                == before.get(k) by {
                let i = before.keys().index_of(k);
                before.lemma_get_at(i);
                assert(after.keys()[i] == k);
                after.lemma_get_at(i);
            }
        }
    }
}

} // verus!
