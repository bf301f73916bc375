use vstd::prelude::*;
use std::collections::HashMap;

verus! {

broadcast use vstd::std_specs::hash::group_hash_axioms;

/// One persisted key space of the ledger: a finite partial map from entity id
/// to `V`. Its abstract value is the map of the entries it holds.
pub struct StorageMap<V> {
    table: HashMap<u32, V>,
}

impl<V> View for StorageMap<V> {
    type V = Map<u32, V>;

    closed spec fn view(&self) -> Map<u32, V> {
        self.table@
    }
}

impl<V: Copy> StorageMap<V> {
    /// An empty key space.
    pub fn new() -> (r: Self)
        ensures
            r@ == Map::<u32, V>::empty(),
    {
        StorageMap { table: HashMap::new() }
    }

    /// Whether an entry is stored under `key`.
    pub fn contains_key(&self, key: u32) -> (r: bool)
        ensures
            r == self@.contains_key(key),
    {
        self.table.contains_key(&key)
    }

    /// The entry stored under `key`, if any.
    pub fn get(&self, key: u32) -> (r: Option<V>)
        ensures
            r == (if self@.contains_key(key) {
                Some(self@[key])
            } else {
                None::<V>
            }),
    {
        match self.table.get(&key) {
            Some(v) => Some(*v),
            None => None,
        }
    }

    /// Store `value` under `key`, overwriting any earlier entry.
    pub fn insert(&mut self, key: u32, value: V)
        ensures
            final(self)@ == old(self)@.insert(key, value),
    {
        self.table.insert(key, value);
    }

    /// Drop the entry under `key`, if any.
    pub fn remove(&mut self, key: u32)
        ensures
            final(self)@ == old(self)@.remove(key),
    {
        self.table.remove(&key);
    }
}

} // verus!
