//! An insertion-ordered mapping from text keys to values, in which no key
//! occurs twice.

use vstd::prelude::*;
use crate::text::text_eq;

verus! {

/// An ordered mapping keyed by text. Entries keep the order in which their
/// keys were first inserted.
#[derive(Debug, PartialEq, Eq)]
pub struct StringMap<V> {
    keys: Vec<String>,
    values: Vec<V>,
}

/// Whether no two positions of `keys` hold the same text.
pub open spec fn distinct_keys(keys: Seq<Seq<char>>) -> bool {
    forall|i: int, j: int| 0 <= i < j < keys.len() ==> keys[i] != keys[j]
}

impl<V> StringMap<V> {
    /// The keys, in insertion order.
    pub closed spec fn spec_keys(&self) -> Seq<Seq<char>> {
        self.keys.deep_view()
    }

    /// The values, each at the position of its key.
    pub closed spec fn spec_values(&self) -> Seq<V> {
        self.values@
    }

    /// One value per key, and no key twice.
    #[verifier::type_invariant]
    pub closed spec fn well_formed(&self) -> bool {
        &&& self.keys.len() == self.values.len()
        &&& distinct_keys(self.keys.deep_view())
    }

    /// The empty map.
    pub fn new() -> (m: Self)
        ensures
            m.spec_keys() == Seq::<Seq<char>>::empty(),
            m.spec_values() == Seq::<V>::empty(),
    {
        let m = StringMap { keys: Vec::new(), values: Vec::new() };
        assert(m.keys.deep_view() =~= Seq::<Seq<char>>::empty());
        m
    }

    /// The number of entries.
    pub fn len(&self) -> (n: usize)
        ensures
            n == self.spec_keys().len(),
            n == self.spec_values().len(),
            distinct_keys(self.spec_keys()),
    {
        proof {
            use_type_invariant(self);
        }
        self.keys.len()
    }

    /// Whether the map holds no entry.
    pub fn is_empty(&self) -> (r: bool)
        ensures
            r == (self.spec_keys().len() == 0),
    {
        self.keys.len() == 0
    }

    /// The position at which `key` stands, if it occurs.
    pub fn index_of(&self, key: &str) -> (r: Option<usize>)
        ensures
            match r {
                Some(i) => i < self.spec_keys().len() && self.spec_keys()[i as int] == key@,
                None => !self.spec_keys().contains(key@),
            },
    {
        let mut i: usize = 0;
        while i < self.keys.len()
            invariant
                i <= self.keys.len(),
                forall|j: int| 0 <= j < i ==> self.keys.deep_view()[j] != key@,
            decreases self.keys.len() - i,
        {
            if text_eq(self.keys[i].as_str(), key) {
                return Some(i);
            }
            i += 1;
        }
        None
    }

    /// The value stored under `key`, if any.
    pub fn get(&self, key: &str) -> (r: Option<&V>)
        ensures
            match r {
                Some(v) => exists|i: int|
                    0 <= i < self.spec_keys().len() && self.spec_keys()[i] == key@
                        && self.spec_values()[i] == *v,
                None => !self.spec_keys().contains(key@),
            },
    {
        proof {
            use_type_invariant(self);
        }
        match self.index_of(key) {
            Some(i) => Some(&self.values[i]),
            None => None,
        }
    }

    /// The key at position `i`.
    pub fn key_at(&self, i: usize) -> (k: &String)
        requires
            i < self.spec_keys().len(),
        ensures
            k@ == self.spec_keys()[i as int],
    {
        &self.keys[i]
    }

    /// The value at position `i`.
    pub fn value_at(&self, i: usize) -> (v: &V)
        requires
            i < self.spec_values().len(),
        ensures
            *v == self.spec_values()[i as int],
    {
        proof {
            use_type_invariant(self);
        }
        &self.values[i]
    }

    /// Stores `value` under `key`. A key already present keeps its position
    /// and hands back the value it held; a new key goes to the end.
    pub fn insert(&mut self, key: String, value: V) -> (previous: Option<V>)
        ensures
            match previous {
                Some(held) => exists|i: int|
                    0 <= i < old(self).spec_keys().len() && old(self).spec_keys()[i] == key@
                        && held == old(self).spec_values()[i] && final(self).spec_keys() == old(
                        self,
                    ).spec_keys() && final(self).spec_values() == old(self).spec_values().update(
                        i,
                        value,
                    ),
                None => !old(self).spec_keys().contains(key@) && final(self).spec_keys() == old(
                    self,
                ).spec_keys().push(key@) && final(self).spec_values() == old(
                    self,
                ).spec_values().push(value),
            },
    {
        let mut taken = StringMap::new();
        std::mem::swap(self, &mut taken);
        let (map, previous) = taken.with_entry(key, value);
        *self = map;
        previous
    }

    /// This map with `value` stored under `key`, and the value that the key
    /// held before, if it held one.
    pub fn with_entry(self, key: String, value: V) -> (r: (Self, Option<V>))
        ensures
            match r.1 {
                Some(previous) => exists|i: int|
                    0 <= i < self.spec_keys().len() && self.spec_keys()[i] == key@
                        && previous == self.spec_values()[i] && r.0.spec_keys()
                        == self.spec_keys() && r.0.spec_values() == self.spec_values().update(
                        i,
                        value,
                    ),
                None => !self.spec_keys().contains(key@) && r.0.spec_keys()
                    == self.spec_keys().push(key@) && r.0.spec_values()
                    == self.spec_values().push(value),
            },
    {
        proof {
            use_type_invariant(&self);
        }
        let found = self.index_of(key.as_str());
        let StringMap { keys, values } = self;
        let mut keys = keys;
        let mut values = values;
        match found {
            Some(i) => {
                let ghost before = values@;
                let mut value = value;
                let slot = &mut values[i];
                std::mem::swap(slot, &mut value);
                let m = StringMap { keys, values };
                assert(m.values@ =~= before.update(i as int, m.values@[i as int]));
                (m, Some(value))
            },
            None => {
                let ghost before = keys.deep_view();
                keys.push(key);
                values.push(value);
                assert(keys.deep_view() =~= before.push(key@));
                let m = StringMap { keys, values };
                (m, None)
            },
        }
    }
}

impl<V> View for StringMap<V> {
    type V = Seq<(Seq<char>, V)>;

    /// The entries in insertion order, each key as its characters.
    open spec fn view(&self) -> Seq<(Seq<char>, V)> {
        Seq::new(self.spec_keys().len(), |i: int| (self.spec_keys()[i], self.spec_values()[i]))
    }
}

impl<V: Clone> Clone for StringMap<V> {
    /// A copy with the same keys in the same order, each value cloned.
    fn clone(&self) -> (r: Self)
        ensures
            r.spec_keys() == self.spec_keys(),
            r.spec_values().len() == self.spec_values().len(),
            forall|i: int|
                #![all_triggers]
                0 <= i < self.spec_values().len() ==> cloned::<V>(
                    self.spec_values()[i],
                    r.spec_values()[i],
                ),
    {
        proof {
            use_type_invariant(self);
        }
        let keys = self.keys.clone();
        let values = self.values.clone();
        assert(keys.deep_view() =~= self.keys.deep_view());
        StringMap { keys, values }
    }
}

} // verus!
