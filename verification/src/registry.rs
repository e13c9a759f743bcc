//! A map whose keys are compared by their views.

use vstd::prelude::*;
use crate::assoc;
use crate::exact::Keep;

verus! {

/// A key that can be compared by its view.
pub trait Matched: View + Sized {
    fn matches(&self, other: &Self) -> (result: bool)
        ensures
            result == (self@ == other@),
    ;
}

/// A map kept as a list. No two keys have the same view.
#[derive(Debug)]
pub struct Registry<K, V> {
    entries: Vec<(K, V)>,
}

/// The entries with the views of their keys.
pub open spec fn keyed<K: View, V>(entries: Seq<(K, V)>) -> Seq<(K::V, V)> {
    entries.map_values(|entry: (K, V)| (entry.0@, entry.1))
}

impl<K: View, V> View for Registry<K, V> {
    type V = Map<K::V, V>;

    closed spec fn view(&self) -> Map<K::V, V> {
        assoc::listed_map(keyed(self.entries@))
    }
}

impl<K: Matched, V: Copy> Registry<K, V> {
    pub closed spec fn wf(&self) -> bool {
        assoc::distinct_keys(keyed(self.entries@))
    }

    pub fn new() -> (result: Self)
        ensures
            result.wf(),
            result@ == Map::<K::V, V>::empty(),
    {
        let result = Registry { entries: Vec::new() };
        assert(result@ =~= Map::<K::V, V>::empty());
        result
    }

    pub fn get(&self, key: &K) -> (result: Option<V>)
        requires
            self.wf(),
        ensures
            result == (if self@.contains_key(key@) {
                Some(self@[key@])
            } else {
                None
            }),
    {
        let mut at: usize = 0;
        while at < self.entries.len()
            invariant
                at <= self.entries@.len(),
                self.wf(),
                forall|i: int| 0 <= i < at ==> (#[trigger] keyed(self.entries@)[i]).0 != key@,
            decreases self.entries@.len() - at,
        {
            assert(keyed(self.entries@)[at as int] == (
                self.entries@[at as int].0@,
                self.entries@[at as int].1,
            ));
            if self.entries[at].0.matches(key) {
                proof {
                    assoc::lemma_listed(keyed(self.entries@), at as int);
                }
                return Some(self.entries[at].1);
            }
            at += 1;
        }
        proof {
            if self@.contains_key(key@) {
                let k = assoc::listed_at(keyed(self.entries@), key@);
                assert(keyed(self.entries@)[k].0 == key@);
            }
        }
        None
    }

    /// Adds a key that is not there yet.
    pub fn insert(&mut self, key: K, value: V)
        requires
            old(self).wf(),
            !old(self)@.contains_key(key@),
        ensures
            final(self).wf(),
            final(self)@ == old(self)@.insert(key@, value),
    {
        proof {
            assoc::lemma_appended(keyed(self.entries@), key@, value);
            assert(keyed(self.entries@.push((key, value))) =~= keyed(self.entries@).push(
                (key@, value),
            ));
        }
        self.entries.push((key, value));
    }

    /// Keeps the keys that pass the test.
    pub(crate) fn retain<F: Keep<K>>(
        &mut self,
        keep: &F,
        Ghost(kept): Ghost<spec_fn(K::V) -> bool>,
    )
        requires
            old(self).wf(),
            forall|key: K| #[trigger] keep.keeps(key) == kept(key@),
        ensures
            final(self).wf(),
            final(self)@ == old(self)@.restrict(
                Set::new(|key: K::V| old(self)@.contains_key(key) && kept(key)),
            ),
    {
        let ghost before = *self;
        let mut at: usize = 0;
        while at < self.entries.len()
            invariant
                at <= self.entries@.len(),
                before.wf(),
                self.wf(),
                forall|key: K| #[trigger] keep.keeps(key) == kept(key@),
                forall|key: K::V| #[trigger]
                    self@.contains_key(key) ==> before@.contains_key(key) && self@[key]
                        == before@[key],
                forall|i: int| 0 <= i < at ==> kept((#[trigger] keyed(self.entries@)[i]).0),
                forall|key: K::V|
                    before@.contains_key(key) && !#[trigger] self@.contains_key(key) ==> !kept(key),
            decreases self.entries@.len() - at,
        {
            let ghost was = keyed(self.entries@);
            proof {
                assert(was[at as int] == (
                    self.entries@[at as int].0@,
                    self.entries@[at as int].1,
                ));
                assoc::lemma_listed(was, at as int);
            }
            if keep.test(&self.entries[at].0) {
                at += 1;
            } else {
                let ghost key = was[at as int].0;
                let ghost listed = self@;
                let _ = self.entries.remove(at);
                proof {
                    assoc::lemma_unlisted(was, at as int);
                    assert(keyed(self.entries@) =~= was.remove(at as int));
                    assert(self@ == listed.remove(key));
                    assert forall|i: int| 0 <= i < at implies kept(
                        (#[trigger] keyed(self.entries@)[i]).0,
                    ) by {
                        assert(keyed(self.entries@)[i] == was[i]);
                    }
                }
            }
        }
        proof {
            assert forall|key: K::V| #[trigger] self@.contains_key(key) implies kept(key) by {
                let k = assoc::listed_at(keyed(self.entries@), key);
                assert(keyed(self.entries@)[k].0 == key);
            }
            assert(self@ =~= before@.restrict(
                Set::new(|key: K::V| before@.contains_key(key) && kept(key)),
            ));
        }
    }
}

} // verus!
