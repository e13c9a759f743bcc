//! A map from integers to values that are compared by their views.

use vstd::prelude::*;
use crate::table::Table;

verus! {

/// A sorted map whose contents are stated over the views of its values.
#[derive(Debug)]
pub struct Shelf<V> {
    table: Table<V>,
}

/// The map of the views.
pub open spec fn seen<V: View>(values: Map<u64, V>) -> Map<u64, V::V> {
    Map::new(|key: u64| values.contains_key(key), |key: u64| values[key]@)
}

impl<V: View> View for Shelf<V> {
    type V = Map<u64, V::V>;

    closed spec fn view(&self) -> Map<u64, V::V> {
        seen(self.table@)
    }
}

impl<V: View> Shelf<V> {
    pub closed spec fn wf(&self) -> bool {
        self.table.wf()
    }

    pub fn new() -> (result: Self)
        ensures
            result.wf(),
            result@ == Map::<u64, V::V>::empty(),
    {
        let result = Shelf { table: Table::new() };
        assert(result@ =~= Map::<u64, V::V>::empty());
        result
    }

    pub fn get(&self, key: u64) -> (result: Option<&V>)
        requires
            self.wf(),
        ensures
            match result {
                Some(value) => self@.contains_key(key) && self@[key] == value@,
                None => !self@.contains_key(key),
            },
    {
        self.table.get(key)
    }

    /// Sets the value of a key.
    pub fn insert(&mut self, key: u64, value: V)
        requires
            old(self).wf(),
        ensures
            final(self).wf(),
            final(self)@ == old(self)@.insert(key, value@),
    {
        let _ = self.table.insert(key, value);
        assert(self@ =~= old(self)@.insert(key, value@));
    }

    /// Removes a key. What it held is handed back.
    pub fn remove(&mut self, key: u64) -> (result: Option<V>)
        requires
            old(self).wf(),
        ensures
            final(self).wf(),
            final(self)@ == old(self)@.remove(key),
            match result {
                Some(value) => old(self)@.contains_key(key) && old(self)@[key] == value@,
                None => !old(self)@.contains_key(key),
            },
    {
        let result = self.table.remove(key);
        assert(self@ =~= old(self)@.remove(key));
        result
    }
}

} // verus!
