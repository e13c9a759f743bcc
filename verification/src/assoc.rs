//! A map whose keys can be compared but have no order.

use vstd::prelude::*;
use crate::exact::{Exact, Keep};

verus! {

/// A map kept as a list. Each key occurs once.
#[derive(Debug)]
pub struct Assoc<K, V> {
    entries: Vec<(K, V)>,
}

/// Whether no two pairs share a key.
pub open spec fn distinct_keys<K, V>(pairs: Seq<(K, V)>) -> bool {
    forall|i: int, j: int|
        0 <= i < pairs.len() && 0 <= j < pairs.len() && i != j ==> (#[trigger] pairs[i]).0 != (
        #[trigger] pairs[j]).0
}

/// Whether one of the pairs has the key.
pub open spec fn lists_key<K, V>(pairs: Seq<(K, V)>, key: K) -> bool {
    exists|i: int| 0 <= i < pairs.len() && (#[trigger] pairs[i]).0 == key
}

/// The position of a pair with the key.
pub open spec fn listed_at<K, V>(pairs: Seq<(K, V)>, key: K) -> int {
    choose|i: int| 0 <= i < pairs.len() && (#[trigger] pairs[i]).0 == key
}

/// The map that the pairs stand for.
pub open spec fn listed_map<K, V>(pairs: Seq<(K, V)>) -> Map<K, V> {
    Map::new(|key: K| lists_key(pairs, key), |key: K| pairs[listed_at(pairs, key)].1)
}

pub(crate) proof fn lemma_listed<K, V>(pairs: Seq<(K, V)>, i: int)
    requires
        distinct_keys(pairs),
        0 <= i < pairs.len(),
    ensures
        listed_map(pairs).contains_key(pairs[i].0),
        listed_map(pairs)[pairs[i].0] == pairs[i].1,
{
    let key = pairs[i].0;
    assert(lists_key(pairs, key));
    let k = listed_at(pairs, key);
    assert(pairs[k].0 == key);
    assert(k == i);
}

pub(crate) proof fn lemma_unlisted<K, V>(pairs: Seq<(K, V)>, at: int)
    requires
        distinct_keys(pairs),
        0 <= at < pairs.len(),
    ensures
        distinct_keys(pairs.remove(at)),
        listed_map(pairs.remove(at)) == listed_map(pairs).remove(pairs[at].0),
{
    let less = pairs.remove(at);
    let key = pairs[at].0;
    assert(distinct_keys(less));
    assert forall|other: K| #[trigger]
        listed_map(less).dom().contains(other) == listed_map(pairs).remove(key).dom().contains(
            other,
        ) && (listed_map(less).dom().contains(other) ==> listed_map(less)[other] == listed_map(
            pairs,
        ).remove(key)[other]) by {
        if lists_key(less, other) {
            let k = listed_at(less, other);
            assert(less[k].0 == other);
            lemma_listed(less, k);
            let j = if k < at {
                k
            } else {
                k + 1
            };
            assert(pairs[j] == less[k]);
            lemma_listed(pairs, j);
        }
        if lists_key(pairs, other) && other != key {
            let k = listed_at(pairs, other);
            assert(pairs[k].0 == other);
            let j = if k < at {
                k
            } else {
                k - 1
            };
            assert(less[j] == pairs[k]);
        }
    }
    assert(listed_map(less) =~= listed_map(pairs).remove(key));
}

pub(crate) proof fn lemma_appended<K, V>(pairs: Seq<(K, V)>, key: K, value: V)
    requires
        distinct_keys(pairs),
        !lists_key(pairs, key),
    ensures
        distinct_keys(pairs.push((key, value))),
        listed_map(pairs.push((key, value))) == listed_map(pairs).insert(key, value),
{
    let more = pairs.push((key, value));
    let at = pairs.len() as int;
    assert forall|i: int, j: int|
        0 <= i < more.len() && 0 <= j < more.len() && i != j implies (#[trigger] more[i]).0 != (
    #[trigger] more[j]).0 by {
        if i < at {
            assert(more[i] == pairs[i]);
        }
        if j < at {
            assert(more[j] == pairs[j]);
        }
    }
    assert(more[at] == (key, value));
    lemma_listed(more, at);
    lemma_unlisted(more, at);
    assert(more.remove(at) =~= pairs);
    assert(listed_map(more) =~= listed_map(pairs).insert(key, value));
}

impl<K, V> View for Assoc<K, V> {
    type V = Map<K, V>;

    closed spec fn view(&self) -> Map<K, V> {
        listed_map(self.entries@)
    }
}

impl<K, V> Assoc<K, V> {
    /// No key occurs twice.
    pub closed spec fn wf(&self) -> bool {
        distinct_keys(self.entries@)
    }

    pub fn new() -> (result: Self)
        ensures
            result.wf(),
            result@ == Map::<K, V>::empty(),
    {
        let result = Assoc { entries: Vec::new() };
        assert(result@ =~= Map::<K, V>::empty());
        result
    }

    pub fn clear(&mut self)
        ensures
            final(self).wf(),
            final(self)@ == Map::<K, V>::empty(),
    {
        self.entries = Vec::new();
        assert(self@ =~= Map::<K, V>::empty());
    }

    /// Keeps the values that pass the test.
    pub fn retain<F: Keep<V>>(&mut self, keep: &F)
        requires
            old(self).wf(),
        ensures
            final(self).wf(),
            final(self)@ == old(self)@.restrict(
                Set::new(|key: K| old(self)@.contains_key(key) && keep.keeps(old(self)@[key])),
            ),
    {
        let ghost before = *self;
        let mut at: usize = 0;
        while at < self.entries.len()
            invariant
                at <= self.entries@.len(),
                before.wf(),
                self.wf(),
                forall|key: K| #[trigger]
                    self@.contains_key(key) ==> before@.contains_key(key) && self@[key]
                        == before@[key],
                forall|i: int| 0 <= i < at ==> keep.keeps((#[trigger] self.entries@[i]).1),
                forall|key: K|
                    before@.contains_key(key) && !#[trigger] self@.contains_key(key)
                        ==> !keep.keeps(before@[key]),
            decreases self.entries@.len() - at,
        {
            let ghost was = *self;
            proof {
                lemma_listed(was.entries@, at as int);
            }
            if keep.test(&self.entries[at].1) {
                at += 1;
            } else {
                let ghost key = self.entries@[at as int].0;
                let _ = self.entries.remove(at);
                proof {
                    lemma_unlisted(was.entries@, at as int);
                    assert(self@ == was@.remove(key));
                    assert forall|i: int| 0 <= i < at implies keep.keeps(
                        (#[trigger] self.entries@[i]).1,
                    ) by {
                        assert(self.entries@[i] == was.entries@[i]);
                    }
                }
            }
        }
        proof {
            assert forall|key: K| #[trigger] self@.contains_key(key) implies keep.keeps(
                before@[key],
            ) by {
                let k = listed_at(self.entries@, key);
                assert(self.entries@[k].0 == key);
                lemma_listed(self.entries@, k);
            }
            assert(self@ =~= before@.restrict(
                Set::new(|key: K| before@.contains_key(key) && keep.keeps(before@[key])),
            ));
        }
    }
}

impl<K: Exact, V> Assoc<K, V> {
    fn position(&self, key: &K) -> (result: Option<usize>)
        ensures
            match result {
                Some(at) => at < self.entries@.len() && self.entries@[at as int].0 == *key,
                None => !lists_key(self.entries@, *key),
            },
    {
        let mut at: usize = 0;
        while at < self.entries.len()
            invariant
                at <= self.entries@.len(),
                forall|i: int| 0 <= i < at ==> (#[trigger] self.entries@[i]).0 != *key,
            decreases self.entries@.len() - at,
        {
            if self.entries[at].0.same(key) {
                return Some(at);
            }
            at += 1;
        }
        None
    }

    pub fn get(&self, key: &K) -> (result: Option<&V>)
        requires
            self.wf(),
        ensures
            match result {
                Some(value) => self@.contains_key(*key) && self@[*key] == *value,
                None => !self@.contains_key(*key),
            },
    {
        match self.position(key) {
            Some(at) => {
                proof {
                    lemma_listed(self.entries@, at as int);
                }
                Some(&self.entries[at].1)
            },
            None => None,
        }
    }

    /// Sets the value of a key.
    pub fn insert(&mut self, key: K, value: V)
        requires
            old(self).wf(),
        ensures
            final(self).wf(),
            final(self)@ == old(self)@.insert(key, value),
    {
        let ghost before = self.entries@;
        match self.position(&key) {
            Some(at) => {
                let _ = self.entries.remove(at);
                proof {
                    lemma_unlisted(before, at as int);
                    if lists_key(self.entries@, key) {
                        assert(listed_map(self.entries@).contains_key(key));
                    }
                    assert(listed_map(before).remove(key).insert(key, value) =~= listed_map(
                        before,
                    ).insert(key, value));
                }
            },
            None => {},
        }
        proof {
            lemma_appended(self.entries@, key, value);
        }
        self.entries.push((key, value));
    }
}

} // verus!
