use vstd::prelude::*;

use crate::component::Component;
use crate::storage::{Storage, StorageMut};
use vstd::std_specs::iter::IteratorSpec;

use std::collections::hash_map::Entry;
use std::collections::HashMap;

verus! {

broadcast use vstd::std_specs::hash::group_hash_axioms;

/// Sparse storage: an association from entity index to component, in which
/// an index that was never added is absent.
pub struct MapStorage(HashMap<usize, Component>);

/// A new storage holds no index, storing at another index leaves `i` as it
/// was, and right after `c` is stored at `i`, index `i` reads back as `c`.
pub proof fn lemma_add_then_get(m: Map<usize, Component>, i: usize, c: Component)
    ensures
        !Map::<usize, Component>::empty().contains_key(i),
        forall|j: usize| j != i ==> (#[trigger] m.insert(j, c)).contains_key(i) == m.contains_key(i),
        m.insert(i, c).contains_key(i),
        m.insert(i, c)[i] == c,
{
}

impl View for MapStorage {
    type V = Map<usize, Component>;

    closed spec fn view(&self) -> Map<usize, Component> {
        self.0@
    }
}

impl MapStorage {
    /// An empty storage.
    pub fn new() -> (r: MapStorage)
        ensures
            r@ == Map::<usize, Component>::empty(),
    {
        MapStorage(HashMap::new())
    }

    /// Stores `component` at `index`, replacing what was there.
    pub fn add(&mut self, index: usize, component: Component)
        ensures
            final(self)@ == old(self)@.insert(index, component),
    {
        self.0.insert(index, component);
    }
}

impl Storage for MapStorage {
    open spec fn contents(&self) -> Map<usize, Component> {
        self@
    }

    fn get(&self, index: usize) -> (r: Option<&Component>) {
        self.0.get(&index)
    }
}

impl StorageMut for MapStorage {
    open spec fn is_dense(&self) -> bool {
        false
    }

    fn indices(&self) -> (r: Vec<usize>) {
        let ghost keys = vstd::std_specs::hash::spec_keys_iter(&self.0).remaining().unref();
        let mut r: Vec<usize> = Vec::new();
        for k in it: self.0.keys()
            invariant
                it.seq().unref() == keys,
                keys.no_duplicates(),
                keys.to_set() == self@.dom(),
                r@ == keys.take(it.index() as int),
                r@.len() == it.index(),
        {
            r.push(*k);
        }
        proof {
            assert(r@ =~= keys);
            assert forall|i: usize| r@.contains(i) <==> self@.contains_key(i) by {
                assert(r@.to_set().contains(i) <==> r@.contains(i));
            }
        }
        r
    }

    fn get_mut(&mut self, index: usize) -> (r: Option<&mut Component>) {
        match self.0.entry(index) {
            Entry::Occupied(o) => Some(o.into_mut()),
            Entry::Vacant(_) => None,
        }
    }
}

} // verus!
