//! A map from integers that is walked in ascending order of its keys.

use vstd::prelude::*;
use crate::exact::Keep;

verus! {

/// A sorted map. Each key occurs once.
#[derive(Debug)]
pub struct Table<V> {
    entries: Vec<(u64, V)>,
}

/// Whether the keys of the pairs ascend strictly.
pub open spec fn ascending<V>(pairs: Seq<(u64, V)>) -> bool {
    forall|i: int, j: int|
        0 <= i < j < pairs.len() ==> (#[trigger] pairs[i]).0 < (#[trigger] pairs[j]).0
}

/// Whether one of the pairs has the key.
pub open spec fn has_key<V>(pairs: Seq<(u64, V)>, key: u64) -> bool {
    exists|i: int| 0 <= i < pairs.len() && (#[trigger] pairs[i]).0 == key
}

/// The position of the pair with the key.
pub open spec fn key_position<V>(pairs: Seq<(u64, V)>, key: u64) -> int {
    choose|i: int| 0 <= i < pairs.len() && (#[trigger] pairs[i]).0 == key
}

/// The map that the pairs stand for.
pub open spec fn map_of<V>(pairs: Seq<(u64, V)>) -> Map<u64, V> {
    Map::new(|key: u64| has_key(pairs, key), |key: u64| pairs[key_position(pairs, key)].1)
}

proof fn lemma_map_at<V>(pairs: Seq<(u64, V)>, i: int)
    requires
        ascending(pairs),
        0 <= i < pairs.len(),
    ensures
        map_of(pairs).contains_key(pairs[i].0),
        map_of(pairs)[pairs[i].0] == pairs[i].1,
{
    let key = pairs[i].0;
    assert(has_key(pairs, key));
    let k = key_position(pairs, key);
    assert(pairs[k].0 == key);
    assert(k == i);
}

proof fn lemma_remove_at<V>(pairs: Seq<(u64, V)>, at: int)
    requires
        ascending(pairs),
        0 <= at < pairs.len(),
    ensures
        ascending(pairs.remove(at)),
        map_of(pairs.remove(at)) == map_of(pairs).remove(pairs[at].0),
{
    let less = pairs.remove(at);
    let key = pairs[at].0;
    assert(ascending(less));
    assert forall|other: u64| #[trigger]
        map_of(less).dom().contains(other) == map_of(pairs).remove(key).dom().contains(other) && (
        map_of(less).dom().contains(other) ==> map_of(less)[other] == map_of(pairs).remove(
            key,
        )[other]) by {
        if has_key(less, other) {
            let k = key_position(less, other);
            assert(less[k].0 == other);
            lemma_map_at(less, k);
            let j = if k < at {
                k
            } else {
                k + 1
            };
            assert(pairs[j] == less[k]);
            lemma_map_at(pairs, j);
        }
        if has_key(pairs, other) && other != key {
            let k = key_position(pairs, other);
            assert(pairs[k].0 == other);
            let j = if k < at {
                k
            } else {
                k - 1
            };
            assert(less[j] == pairs[k]);
        }
    }
    assert(map_of(less) =~= map_of(pairs).remove(key));
}

proof fn lemma_insert_at<V>(pairs: Seq<(u64, V)>, at: int, key: u64, value: V)
    requires
        ascending(pairs),
        0 <= at <= pairs.len(),
        forall|i: int| 0 <= i < at ==> (#[trigger] pairs[i]).0 < key,
        forall|i: int| at <= i < pairs.len() ==> key < (#[trigger] pairs[i]).0,
    ensures
        ascending(pairs.insert(at, (key, value))),
        map_of(pairs.insert(at, (key, value))) == map_of(pairs).insert(key, value),
{
    let more = pairs.insert(at, (key, value));
    assert forall|i: int, j: int| 0 <= i < j < more.len() implies (#[trigger] more[i]).0 < (
    #[trigger] more[j]).0 by {
        assert(i != at ==> more[i] == pairs[if i < at {
            i
        } else {
            i - 1
        }]);
        assert(j != at ==> more[j] == pairs[if j < at {
            j
        } else {
            j - 1
        }]);
    }
    assert(more[at] == (key, value));
    lemma_map_at(more, at);
    lemma_remove_at(more, at);
    assert(more.remove(at) =~= pairs);
    assert(map_of(more) =~= map_of(pairs).insert(key, value));
}

impl<V> View for Table<V> {
    type V = Map<u64, V>;

    closed spec fn view(&self) -> Map<u64, V> {
        map_of(self.entries@)
    }
}

impl<V> Table<V> {
    /// The pairs, in ascending order of their keys.
    pub closed spec fn pairs(&self) -> Seq<(u64, V)> {
        self.entries@
    }

    /// The keys ascend strictly.
    pub closed spec fn wf(&self) -> bool {
        ascending(self.entries@)
    }

    /// The map holds exactly the listed pairs, and the list ascends.
    pub proof fn lemma_pairs(&self)
        requires
            self.wf(),
        ensures
            ascending(self.pairs()),
            forall|i: int|
                0 <= i < self.pairs().len() ==> self@.contains_key((#[trigger] self.pairs()[i]).0)
                    && self@[self.pairs()[i].0] == self.pairs()[i].1,
            forall|key: u64| #[trigger]
                self@.contains_key(key) ==> has_key(self.pairs(), key),
    {
        assert forall|i: int| 0 <= i < self.pairs().len() implies self@.contains_key(
            (#[trigger] self.pairs()[i]).0,
        ) && self@[self.pairs()[i].0] == self.pairs()[i].1 by {
            lemma_map_at(self.pairs(), i);
        }
    }

    pub fn new() -> (result: Self)
        ensures
            result.wf(),
            result@ == Map::<u64, V>::empty(),
    {
        let result = Table { entries: Vec::new() };
        assert(result@ =~= Map::<u64, V>::empty());
        result
    }

    pub fn len(&self) -> (result: usize)
        ensures
            result == self.pairs().len(),
    {
        self.entries.len()
    }

    pub fn is_empty(&self) -> (result: bool)
        requires
            self.wf(),
        ensures
            result == (self@ == Map::<u64, V>::empty()),
            result == (self.pairs().len() == 0),
    {
        proof {
            if self.entries@.len() == 0 {
                assert(self@ =~= Map::<u64, V>::empty());
            } else {
                lemma_map_at(self.entries@, 0);
            }
        }
        self.entries.len() == 0
    }

    /// The keys, in ascending order.
    pub fn keys(&self) -> (result: Vec<u64>)
        requires
            self.wf(),
        ensures
            forall|key: u64| #[trigger] self@.contains_key(key) == result@.contains(key),
            forall|i: int, j: int|
                0 <= i < j < result@.len() ==> (#[trigger] result@[i]) < (#[trigger] result@[j]),
    {
        let mut result: Vec<u64> = Vec::new();
        let mut at: usize = 0;
        while at < self.entries.len()
            invariant
                at <= self.entries@.len(),
                result@.len() == at,
                forall|i: int| 0 <= i < at ==> #[trigger] result@[i] == self.entries@[i].0,
            decreases self.entries@.len() - at,
        {
            result.push(self.entries[at].0);
            at += 1;
        }
        proof {
            assert forall|key: u64| #[trigger] self@.contains_key(key) == result@.contains(key) by {
                if has_key(self.entries@, key) {
                    let k = key_position(self.entries@, key);
                    assert(self.entries@[k].0 == key);
                    assert(result@[k] == key);
                }
                if result@.contains(key) {
                    let k = choose|k: int| 0 <= k < result@.len() && result@[k] == key;
                    assert(self.entries@[k].0 == key);
                }
            }
            assert forall|i: int, j: int| 0 <= i < j < result@.len() implies (#[trigger] result@[i])
                < (#[trigger] result@[j]) by {
                assert(self.entries@[i].0 < self.entries@[j].0);
            }
        }
        result
    }

    /// The key at a position of the ascending list.
    pub fn key_at(&self, at: usize) -> (result: u64)
        requires
            at < self.pairs().len(),
        ensures
            result == self.pairs()[at as int].0,
    {
        self.entries[at].0
    }

    /// The value at a position of the ascending list.
    pub fn value_at(&self, at: usize) -> (result: &V)
        requires
            at < self.pairs().len(),
        ensures
            *result == self.pairs()[at as int].1,
    {
        &self.entries[at].1
    }

    /// The first position whose key is not below the given one.
    fn search(&self, key: u64) -> (result: usize)
        requires
            self.wf(),
        ensures
            result <= self.entries@.len(),
            forall|i: int| 0 <= i < result ==> (#[trigger] self.entries@[i]).0 < key,
            forall|i: int| result <= i < self.entries@.len() ==> key <= (
            #[trigger] self.entries@[i]).0,
    {
        let mut at: usize = 0;
        while at < self.entries.len() && self.entries[at].0 < key
            invariant
                at <= self.entries@.len(),
                forall|i: int| 0 <= i < at ==> (#[trigger] self.entries@[i]).0 < key,
            decreases self.entries@.len() - at,
        {
            at += 1;
        }
        proof {
            assert forall|i: int| at <= i < self.entries@.len() implies key <= (
            #[trigger] self.entries@[i]).0 by {
                if i > at {
                    assert(self.entries@[at as int].0 < self.entries@[i].0);
                }
            }
        }
        at
    }

    pub fn get(&self, key: u64) -> (result: Option<&V>)
        requires
            self.wf(),
        ensures
            match result {
                Some(value) => self@.contains_key(key) && self@[key] == *value,
                None => !self@.contains_key(key),
            },
    {
        let at = self.search(key);
        if at < self.entries.len() && self.entries[at].0 == key {
            proof {
                lemma_map_at(self.entries@, at as int);
            }
            Some(&self.entries[at].1)
        } else {
            proof {
                if self@.contains_key(key) {
                    let k = key_position(self.entries@, key);
                    assert(self.entries@[k].0 == key);
                }
            }
            None
        }
    }

    pub fn contains_key(&self, key: u64) -> (result: bool)
        requires
            self.wf(),
        ensures
            result == self@.contains_key(key),
    {
        self.get(key).is_some()
    }

    /// Sets the value of a key. What it held before is handed back.
    pub fn insert(&mut self, key: u64, value: V) -> (result: Option<V>)
        requires
            old(self).wf(),
        ensures
            final(self).wf(),
            final(self)@ == old(self)@.insert(key, value),
            result == (if old(self)@.contains_key(key) {
                Some(old(self)@[key])
            } else {
                None
            }),
    {
        let at = self.search(key);
        let mut result: Option<V> = None;
        let ghost before = self.entries@;
        if at < self.entries.len() && self.entries[at].0 == key {
            let (_, prior) = self.entries.remove(at);
            proof {
                lemma_map_at(before, at as int);
                lemma_remove_at(before, at as int);
                assert(map_of(before).remove(key).insert(key, value) =~= map_of(before).insert(
                    key,
                    value,
                ));
            }
            result = Some(prior);
        } else {
            proof {
                if has_key(before, key) {
                    let k = key_position(before, key);
                    assert(before[k].0 == key);
                }
            }
        }
        proof {
            lemma_insert_at(self.entries@, at as int, key, value);
        }
        self.entries.insert(at, (key, value));
        result
    }

    /// Removes a key. What it held is handed back.
    pub fn remove(&mut self, key: u64) -> (result: Option<V>)
        requires
            old(self).wf(),
        ensures
            final(self).wf(),
            final(self)@ == old(self)@.remove(key),
            result == (if old(self)@.contains_key(key) {
                Some(old(self)@[key])
            } else {
                None
            }),
    {
        let at = self.search(key);
        let ghost before = self.entries@;
        if at < self.entries.len() && self.entries[at].0 == key {
            let (_, prior) = self.entries.remove(at);
            proof {
                lemma_map_at(before, at as int);
                lemma_remove_at(before, at as int);
            }
            Some(prior)
        } else {
            proof {
                if has_key(before, key) {
                    let k = key_position(before, key);
                    assert(before[k].0 == key);
                }
                assert(map_of(before) =~= map_of(before).remove(key));
            }
            None
        }
    }

    pub fn clear(&mut self)
        ensures
            final(self).wf(),
            final(self)@ == Map::<u64, V>::empty(),
    {
        self.entries = Vec::new();
        assert(self@ =~= Map::<u64, V>::empty());
    }

    /// Keeps the values that pass the test.
    pub fn retain<F: Keep<V>>(&mut self, keep: &F)
        requires
            old(self).wf(),
        ensures
            final(self).wf(),
            final(self)@ == old(self)@.restrict(
                Set::new(|key: u64| old(self)@.contains_key(key) && keep.keeps(old(self)@[key])),
            ),
    {
        let ghost before = *self;
        let mut at: usize = 0;
        while at < self.entries.len()
            invariant
                at <= self.entries@.len(),
                before.wf(),
                self.wf(),
                forall|key: u64| #[trigger]
                    self@.contains_key(key) ==> before@.contains_key(key) && self@[key]
                        == before@[key],
                forall|i: int| 0 <= i < at ==> keep.keeps((#[trigger] self.entries@[i]).1),
                forall|key: u64|
                    before@.contains_key(key) && !#[trigger] self@.contains_key(key)
                        ==> !keep.keeps(before@[key]),
            decreases self.entries@.len() - at,
        {
            let ghost was = *self;
            proof {
                lemma_map_at(was.entries@, at as int);
            }
            if keep.test(&self.entries[at].1) {
                at += 1;
            } else {
                let ghost key = self.entries@[at as int].0;
                let _ = self.entries.remove(at);
                proof {
                    lemma_remove_at(was.entries@, at as int);
                    assert(self@ == was@.remove(key));
                    assert forall|i: int| 0 <= i < at implies keep.keeps(
                        (#[trigger] self.entries@[i]).1,
                    ) by {
                        assert(self.entries@[i] == was.entries@[i]);
                    }
                }
            }
        }
        proof {
            assert forall|key: u64| #[trigger] self@.contains_key(key) implies keep.keeps(
                before@[key],
            ) by {
                let k = key_position(self.entries@, key);
                assert(self.entries@[k].0 == key);
                lemma_map_at(self.entries@, k);
            }
            assert(self@ =~= before@.restrict(
                Set::new(|key: u64| before@.contains_key(key) && keep.keeps(before@[key])),
            ));
        }
    }
}

} // verus!
