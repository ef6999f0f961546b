//! A map from numeric ids to values, backed by `std`'s `HashMap`. It backs
//! the registry of services by id.

use vstd::prelude::*;
use std::collections::HashMap;
use vstd::std_specs::iter::IteratorSpec;

verus! {

broadcast use vstd::std_specs::hash::group_hash_axioms;

/// A map from ids to values.
#[derive(Debug, Clone)]
pub struct IdMap<V> {
    map: HashMap<u128, V>,
}

impl<V> View for IdMap<V> {
    type V = Map<u128, V>;

    closed spec fn view(&self) -> Map<u128, V> {
        self.map@
    }
}

impl<V> IdMap<V> {
    /// The map's internal invariant: its ids obey `HashMap`'s key model
    /// and its hasher is a valid one.
    pub closed spec fn wf(&self) -> bool {
        &&& vstd::std_specs::hash::obeys_key_model::<u128>()
        &&& vstd::std_specs::hash::builds_valid_hashers::<std::hash::RandomState>()
    }

    /// An empty map.
    pub fn new() -> (r: Self)
        ensures
            r.wf(),
            r@ == Map::<u128, V>::empty(),
    {
        IdMap { map: HashMap::new() }
    }

    /// The number of ids.
    pub fn len(&self) -> (r: usize)
        requires
            self.wf(),
        ensures
            r == self@.len(),
    {
        self.map.len()
    }

    /// Whether the id is present.
    pub fn contains_key(&self, k: u128) -> (r: bool)
        requires
            self.wf(),
        ensures
            r == self@.contains_key(k),
    {
        self.map.contains_key(&k)
    }

    /// The value of an id.
    pub fn get(&self, k: u128) -> (r: Option<&V>)
        requires
            self.wf(),
        ensures
            match r {
                Some(v) => self@.contains_key(k) && *v == self@[k],
                None => !self@.contains_key(k),
            },
    {
        self.map.get(&k)
    }

    /// Sets the value of an id, replacing any earlier value.
    pub fn insert(&mut self, k: u128, v: V)
        requires
            old(self).wf(),
        ensures
            final(self).wf(),
            final(self)@ == old(self)@.insert(k, v),
    {
        let _ = self.map.insert(k, v);
    }

    /// Removes an id, giving back its entry if it was present.
    pub fn remove_entry(&mut self, k: u128) -> (r: Option<(u128, V)>)
        requires
            old(self).wf(),
        ensures
            final(self).wf(),
            final(self)@ == old(self)@.remove(k),
            match r {
                Some(e) => e.0 == k && old(self)@.contains_key(k) && e.1 == old(self)@[k],
                None => !old(self)@.contains_key(k),
            },
    {
        match self.map.remove(&k) {
            Some(v) => Some((k, v)),
            None => None,
        }
    }

    /// Removes an id.
    pub fn remove(&mut self, k: u128)
        requires
            old(self).wf(),
        ensures
            final(self).wf(),
            final(self)@ == old(self)@.remove(k),
    {
        let _ = self.map.remove(&k);
    }

    /// The ids present, each once.
    pub fn ids(&self) -> (r: Vec<u128>)
        requires
            self.wf(),
        ensures
            r.len() == self@.len(),
            forall|i: int| 0 <= i < r.len() ==> self@.contains_key(#[trigger] r[i]),
            forall|i: int, j: int| 0 <= i < j < r.len() ==> r[i] != r[j],
            forall|k: u128| #[trigger] self@.contains_key(k) ==> exists|i: int| 0 <= i < r.len() && r[i] == k,
    {
        let mut r: Vec<u128> = Vec::new();
        let ghost keys = vstd::std_specs::hash::spec_keys_iter(&self.map).remaining();
        proof {
            assert(keys.unref().to_set() == self@.dom());
        }
        for k in iter: self.map.keys()
            invariant
                r.len() == iter.index(),
                iter.seq() == keys,
                forall|j: int| 0 <= j < r.len() ==> r[j] == *keys[j],
        {
            r.push(*k);
        }
        proof {
            assert(keys.no_duplicates());
            assert forall|i: int| 0 <= i < r.len() implies self@.contains_key(#[trigger] r[i]) by {
                assert(keys.unref()[i] == r[i]);
                assert(keys.unref().contains(r[i]));
                assert(keys.unref().to_set().contains(r[i]));
            }
            assert forall|i: int, j: int| 0 <= i < j < r.len() implies r[i] != r[j] by {
                assert(keys[i] != keys[j]);
            }
        }
        r
    }
}

} // verus!
