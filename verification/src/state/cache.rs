//! A deterministic cache of derived objects. What it holds is never a public
//! handle.

use vstd::prelude::*;
use crate::api::identity::{
    BufferId, FramebufferId, ProgramId, QueryId, RenderbufferId, SamplerId, ShaderId, SyncId,
    TextureId, VertexArrayId,
};
use crate::exact::Exact;

verus! {

/// A GL object that something derived from it depends on.
#[derive(Clone, Copy, Debug, PartialEq, Eq, Structural)]
pub enum ResourceRef {
    Buffer(BufferId),
    Texture(TextureId),
    Renderbuffer(RenderbufferId),
    Sampler(SamplerId),
    Shader(ShaderId),
    Program(ProgramId),
    VertexArray(VertexArrayId),
    Framebuffer(FramebufferId),
    Query(QueryId),
    Sync(SyncId),
}

/// A set of objects.
#[derive(Debug)]
pub struct DependencySet {
    members: Vec<ResourceRef>,
}

impl View for DependencySet {
    type V = Set<ResourceRef>;

    closed spec fn view(&self) -> Set<ResourceRef> {
        self.members@.to_set()
    }
}

impl DependencySet {
    pub fn new() -> (result: Self)
        ensures
            result@ == Set::<ResourceRef>::empty(),
    {
        let result = DependencySet { members: Vec::new() };
        assert(result@ =~= Set::<ResourceRef>::empty());
        result
    }

    pub fn contains(&self, resource: &ResourceRef) -> (result: bool)
        ensures
            result == self@.contains(*resource),
    {
        let mut at: usize = 0;
        while at < self.members.len()
            invariant
                at <= self.members@.len(),
                forall|i: int| 0 <= i < at ==> self.members@[i] != *resource,
            decreases self.members@.len() - at,
        {
            if self.members[at] == *resource {
                return true;
            }
            at += 1;
        }
        false
    }

    pub fn insert(&mut self, resource: ResourceRef)
        ensures
            final(self)@ == old(self)@.insert(resource),
    {
        if !self.contains(&resource) {
            self.members.push(resource);
            proof {
                broadcast use vstd::seq_lib::group_seq_properties;

                assert(self@ =~= old(self)@.insert(resource));
            }
        } else {
            assert(self@ =~= old(self)@.insert(resource));
        }
    }

    fn within(&self, other: &Self) -> (result: bool)
        ensures
            result == self@.subset_of(other@),
    {
        let mut at: usize = 0;
        while at < self.members.len()
            invariant
                at <= self.members@.len(),
                forall|i: int| 0 <= i < at ==> other@.contains(#[trigger] self.members@[i]),
            decreases self.members@.len() - at,
        {
            if !other.contains(&self.members[at]) {
                proof {
                    assert(self.members@.to_set().contains(self.members@[at as int]));
                }
                return false;
            }
            at += 1;
        }
        true
    }

    /// Whether both sets have the same members.
    pub fn same(&self, other: &Self) -> (result: bool)
        ensures
            result == (self@ == other@),
    {
        let result = self.within(other) && other.within(self);
        proof {
            if result {
                assert(self@ =~= other@);
            }
        }
        result
    }

    /// Another set with the same members.
    pub fn duplicate(&self) -> (result: Self)
        ensures
            result@ == self@,
    {
        let mut members: Vec<ResourceRef> = Vec::new();
        let mut at: usize = 0;
        while at < self.members.len()
            invariant
                at <= self.members@.len(),
                members@ == self.members@.take(at as int),
            decreases self.members@.len() - at,
        {
            members.push(self.members[at]);
            at += 1;
            assert(members@ =~= self.members@.take(at as int));
        }
        assert(members@ =~= self.members@);
        DependencySet { members }
    }
}

/// How much a cache may hold.
#[derive(Clone, Copy, Debug, PartialEq, Eq, Structural)]
pub struct CacheBudget {
    pub max_entries: usize,
    pub max_bytes: u64,
}

impl CacheBudget {
    pub fn new(max_entries: usize, max_bytes: u64) -> (result: Self)
        ensures
            result == (CacheBudget { max_entries, max_bytes }),
    {
        CacheBudget { max_entries, max_bytes }
    }
}

/// What happened in a cache so far, and how much it holds now.
#[derive(Clone, Copy, Debug, PartialEq, Eq, Structural)]
pub struct CacheCounters {
    pub hits: u64,
    pub misses: u64,
    pub created: u64,
    pub evicted: u64,
    pub invalidated: u64,
    pub purged: u64,
    pub live_entries: u64,
    pub live_bytes: u64,
    pub peak_bytes: u64,
}

impl Default for CacheCounters {
    fn default() -> (result: Self)
        ensures
            result == (CacheCounters {
                hits: 0,
                misses: 0,
                created: 0,
                evicted: 0,
                invalidated: 0,
                purged: 0,
                live_entries: 0,
                live_bytes: 0,
                peak_bytes: 0,
            }),
    {
        CacheCounters {
            hits: 0,
            misses: 0,
            created: 0,
            evicted: 0,
            invalidated: 0,
            purged: 0,
            live_entries: 0,
            live_bytes: 0,
            peak_bytes: 0,
        }
    }
}

/// What an insertion pushed out, and whether the new value stayed.
#[derive(Debug)]
pub struct CacheMutation<K, V> {
    pub removed: Vec<(K, V)>,
    pub retained: bool,
}

#[derive(Debug)]
struct Entry<K, V> {
    key: K,
    value: V,
    bytes: u64,
    used: u64,
    sequence: u64,
    deps: DependencySet,
}

/// One entry of a cache: `used` is the tick of its last use, `sequence` the
/// tick of its insertion.
#[verifier::reject_recursive_types(K)]
#[verifier::reject_recursive_types(V)]
pub struct EntryModel<K, V> {
    pub key: K,
    pub value: V,
    pub bytes: u64,
    pub used: u64,
    pub sequence: u64,
    pub deps: Set<ResourceRef>,
}

/// A cache: its entries stand in the order in which they were inserted.
#[verifier::reject_recursive_types(K)]
#[verifier::reject_recursive_types(V)]
pub struct CacheModel<K, V> {
    pub budget: CacheBudget,
    pub entries: Seq<EntryModel<K, V>>,
    pub peak: u64,
    pub tick: u64,
}

/// The bytes of all the entries together.
pub open spec fn total_bytes<K, V>(entries: Seq<EntryModel<K, V>>) -> nat
    decreases entries.len(),
{
    if entries.len() == 0 {
        0
    } else {
        total_bytes(entries.drop_last()) + entries.last().bytes as nat
    }
}

/// The position of the first entry with the key, or `None`.
pub open spec fn position_of<K, V>(entries: Seq<EntryModel<K, V>>, key: K) -> Option<int>
    decreases entries.len(),
{
    if entries.len() == 0 {
        None
    } else if entries[0].key == key {
        Some(0)
    } else {
        match position_of(entries.drop_first(), key) {
            Some(at) => Some(at + 1),
            None => None,
        }
    }
}

/// The entries without the one that has the key.
pub open spec fn without_key<K, V>(entries: Seq<EntryModel<K, V>>, key: K) -> Seq<
    EntryModel<K, V>,
> {
    match position_of(entries, key) {
        Some(at) => entries.remove(at),
        None => entries,
    }
}

/// The position of the entry that was used longest ago.
pub open spec fn least_recent<K, V>(entries: Seq<EntryModel<K, V>>) -> int
    decreases entries.len(),
{
    if entries.len() <= 1 {
        0
    } else {
        let before = least_recent(entries.drop_last());
        if entries.last().used < entries[before].used {
            entries.len() - 1
        } else {
            before
        }
    }
}

/// Whether an entry of so many bytes fits beside the given entries.
pub open spec fn fits<K, V>(
    entries: Seq<EntryModel<K, V>>,
    bytes: u64,
    budget: CacheBudget,
) -> bool {
    entries.len() + 1 <= budget.max_entries && total_bytes(entries) + bytes <= budget.max_bytes
}

/// The entries that leave, one by one and the least recently used first, until
/// the new entry fits.
pub open spec fn evicted<K, V>(
    entries: Seq<EntryModel<K, V>>,
    bytes: u64,
    budget: CacheBudget,
) -> Seq<EntryModel<K, V>>
    decreases entries.len(),
{
    if fits(entries, bytes, budget) || entries.len() == 0 {
        Seq::empty()
    } else {
        let victim = least_recent(entries);
        if 0 <= victim < entries.len() {
            seq![entries[victim]] + evicted(entries.remove(victim), bytes, budget)
        } else {
            Seq::empty()
        }
    }
}

/// The entries that stay when the others leave.
pub open spec fn survivors<K, V>(
    entries: Seq<EntryModel<K, V>>,
    bytes: u64,
    budget: CacheBudget,
) -> Seq<EntryModel<K, V>>
    decreases entries.len(),
{
    if fits(entries, bytes, budget) || entries.len() == 0 {
        entries
    } else {
        let victim = least_recent(entries);
        if 0 <= victim < entries.len() {
            survivors(entries.remove(victim), bytes, budget)
        } else {
            entries
        }
    }
}

/// The entries that depend on the resource, in their order.
pub open spec fn dependents<K, V>(
    entries: Seq<EntryModel<K, V>>,
    resource: ResourceRef,
) -> Seq<EntryModel<K, V>> {
    entries.filter(|entry: EntryModel<K, V>| entry.deps.contains(resource))
}

/// The entries that do not depend on the resource, in their order.
pub open spec fn independents<K, V>(
    entries: Seq<EntryModel<K, V>>,
    resource: ResourceRef,
) -> Seq<EntryModel<K, V>> {
    entries.filter(|entry: EntryModel<K, V>| !entry.deps.contains(resource))
}

/// The key and the value of each entry.
pub open spec fn contents<K, V>(entries: Seq<EntryModel<K, V>>) -> Seq<(K, V)> {
    entries.map_values(|entry: EntryModel<K, V>| (entry.key, entry.value))
}

impl<K, V> CacheModel<K, V> {
    /// What every reachable cache satisfies: it stays inside its budget, its
    /// keys differ, and the ticks order the entries.
    pub open spec fn wf(self) -> bool {
        &&& self.entries.len() <= self.budget.max_entries
        &&& total_bytes(self.entries) <= self.budget.max_bytes
        &&& total_bytes(self.entries) <= self.peak
        &&& self.peak <= self.budget.max_bytes
        &&& forall|i: int, j: int|
            0 <= i < j < self.entries.len() ==> (#[trigger] self.entries[i]).key != (
            #[trigger] self.entries[j]).key && self.entries[i].sequence < self.entries[j].sequence
                && self.entries[i].used != self.entries[j].used
        &&& forall|i: int|
            0 <= i < self.entries.len() ==> (#[trigger] self.entries[i]).sequence
                <= self.entries[i].used <= self.tick
    }

    /// Whether a value of so many bytes can never fit.
    pub open spec fn refuses(self, bytes: u64) -> bool {
        bytes > self.budget.max_bytes || self.budget.max_entries == 0
    }

    /// The entries that leave to make room for a value under the key.
    pub open spec fn making_room(self, key: K, bytes: u64) -> Seq<EntryModel<K, V>> {
        evicted(without_key(self.entries, key), bytes, self.budget)
    }

    /// The entry that is made next.
    pub open spec fn next_entry(
        self,
        key: K,
        value: V,
        bytes: u64,
        deps: Set<ResourceRef>,
    ) -> EntryModel<K, V> {
        let now = (self.tick + 1) as u64;
        EntryModel { key, value, bytes, used: now, sequence: now, deps }
    }

    /// The cache after an insertion. An entry that had the key leaves, others
    /// leave until there is room, and the new entry is the most recent one.
    pub open spec fn inserted(
        self,
        key: K,
        value: V,
        bytes: u64,
        deps: Set<ResourceRef>,
    ) -> CacheModel<K, V> {
        if self.refuses(bytes) {
            self
        } else {
            let entries = survivors(
                without_key(self.entries, key),
                bytes,
                self.budget,
            ).push(self.next_entry(key, value, bytes, deps));
            let total = total_bytes(entries) as u64;
            CacheModel {
                budget: self.budget,
                entries,
                peak: if self.peak < total {
                    total
                } else {
                    self.peak
                },
                tick: (self.tick + 1) as u64,
            }
        }
    }

    /// What an insertion hands out: what stood under the key, and then what
    /// made room, the least recently used first.
    pub open spec fn pushed_out(self, key: K, bytes: u64) -> Seq<(K, V)> {
        if self.refuses(bytes) {
            Seq::empty()
        } else {
            (match position_of(self.entries, key) {
                Some(at) => seq![(key, self.entries[at].value)],
                None => Seq::empty(),
            }) + contents(self.making_room(key, bytes))
        }
    }

    /// The counters after an insertion.
    pub open spec fn counted(
        self,
        counters: CacheCounters,
        key: K,
        value: V,
        bytes: u64,
        deps: Set<ResourceRef>,
    ) -> CacheCounters {
        if self.refuses(bytes) {
            counters
        } else {
            self.inserted(key, value, bytes, deps).reported(
                CacheCounters {
                    created: (counters.created + 1) as u64,
                    evicted: (counters.evicted + self.making_room(key, bytes).len()) as u64,
                    ..counters
                },
            )
        }
    }

    /// The counters that describe the cache as it is now.
    pub open spec fn reported(self, counters: CacheCounters) -> CacheCounters {
        CacheCounters {
            live_entries: self.entries.len() as u64,
            live_bytes: total_bytes(self.entries) as u64,
            peak_bytes: self.peak,
            ..counters
        }
    }
}

/// A cache that evicts the least recently used entries.
#[derive(Debug)]
pub struct StructuralCache<K, V> {
    budget: CacheBudget,
    entries: Vec<Entry<K, V>>,
    bytes: u64,
    peak: u64,
    tick: u64,
}

impl<K, V> View for Entry<K, V> {
    type V = EntryModel<K, V>;

    closed spec fn view(&self) -> EntryModel<K, V> {
        EntryModel {
            key: self.key,
            value: self.value,
            bytes: self.bytes,
            used: self.used,
            sequence: self.sequence,
            deps: self.deps@,
        }
    }
}

spec fn models<K, V>(entries: Seq<Entry<K, V>>) -> Seq<EntryModel<K, V>> {
    entries.map_values(|entry: Entry<K, V>| entry@)
}

impl<K, V> View for StructuralCache<K, V> {
    type V = CacheModel<K, V>;

    closed spec fn view(&self) -> CacheModel<K, V> {
        CacheModel {
            budget: self.budget,
            entries: models(self.entries@),
            peak: self.peak,
            tick: self.tick,
        }
    }
}

proof fn lemma_total_remove<K, V>(entries: Seq<EntryModel<K, V>>, at: int)
    requires
        0 <= at < entries.len(),
    ensures
        total_bytes(entries.remove(at)) + entries[at].bytes == total_bytes(entries),
    decreases entries.len(),
{
    if at == entries.len() - 1 {
        assert(entries.remove(at) =~= entries.drop_last());
    } else {
        lemma_total_remove(entries.drop_last(), at);
        assert(entries.remove(at).drop_last() =~= entries.drop_last().remove(at));
        assert(entries.remove(at).last() == entries.last());
    }
}

proof fn lemma_total_push<K, V>(entries: Seq<EntryModel<K, V>>, entry: EntryModel<K, V>)
    ensures
        total_bytes(entries.push(entry)) == total_bytes(entries) + entry.bytes,
{
    assert(entries.push(entry).drop_last() =~= entries);
}

proof fn lemma_total_update<K, V>(
    entries: Seq<EntryModel<K, V>>,
    at: int,
    entry: EntryModel<K, V>,
)
    requires
        0 <= at < entries.len(),
        entry.bytes == entries[at].bytes,
    ensures
        total_bytes(entries.update(at, entry)) == total_bytes(entries),
    decreases entries.len(),
{
    if at == entries.len() - 1 {
        assert(entries.update(at, entry).drop_last() =~= entries.drop_last());
    } else {
        lemma_total_update(entries.drop_last(), at, entry);
        assert(entries.update(at, entry).drop_last() =~= entries.drop_last().update(at, entry));
    }
}

proof fn lemma_position<K, V>(entries: Seq<EntryModel<K, V>>, key: K, at: int)
    requires
        0 <= at < entries.len(),
        entries[at].key == key,
        forall|i: int| 0 <= i < at ==> (#[trigger] entries[i]).key != key,
    ensures
        position_of(entries, key) == Some(at),
    decreases entries.len(),
{
    if at > 0 {
        assert(entries[0].key != key);
        assert forall|i: int| 0 <= i < at - 1 implies (#[trigger] entries.drop_first()[i]).key
            != key by {
            assert(entries[i + 1].key != key);
        }
        lemma_position(entries.drop_first(), key, at - 1);
    }
}

proof fn lemma_no_position<K, V>(entries: Seq<EntryModel<K, V>>, key: K)
    requires
        forall|i: int| 0 <= i < entries.len() ==> (#[trigger] entries[i]).key != key,
    ensures
        position_of(entries, key) == None::<int>,
    decreases entries.len(),
{
    if entries.len() > 0 {
        assert(entries[0].key != key);
        assert forall|i: int| 0 <= i < entries.drop_first().len() implies (
        #[trigger] entries.drop_first()[i]).key != key by {
            assert(entries[i + 1].key != key);
        }
        lemma_no_position(entries.drop_first(), key);
    }
}

/// The entry at the chosen position was used no later than any other.
pub proof fn least_recent_is_least<K, V>(entries: Seq<EntryModel<K, V>>)
    requires
        entries.len() > 0,
    ensures
        0 <= least_recent(entries) < entries.len(),
        forall|i: int|
            0 <= i < entries.len() ==> entries[least_recent(entries)].used <= (
            #[trigger] entries[i]).used,
    decreases entries.len(),
{
    if entries.len() > 1 {
        let shorter = entries.drop_last();
        least_recent_is_least(shorter);
        assert forall|i: int| 0 <= i < entries.len() implies entries[least_recent(entries)].used
            <= (#[trigger] entries[i]).used by {
            if i < shorter.len() {
                assert(shorter[i] == entries[i]);
            }
        }
    }
}

/// Once the evicted entries have left, the new entry fits, as long as it fits
/// into an empty cache.
pub proof fn eviction_makes_room<K, V>(
    entries: Seq<EntryModel<K, V>>,
    bytes: u64,
    budget: CacheBudget,
)
    requires
        bytes <= budget.max_bytes,
        budget.max_entries > 0,
    ensures
        fits(survivors(entries, bytes, budget), bytes, budget),
    decreases entries.len(),
{
    if !fits(entries, bytes, budget) && entries.len() > 0 {
        least_recent_is_least(entries);
        eviction_makes_room(entries.remove(least_recent(entries)), bytes, budget);
    }
}

/// No entry is evicted while one that was used before it stays.
pub proof fn eviction_spares_the_recent<K, V>(
    entries: Seq<EntryModel<K, V>>,
    bytes: u64,
    budget: CacheBudget,
)
    ensures
        forall|i: int, j: int|
            0 <= i < evicted(entries, bytes, budget).len() && 0 <= j < survivors(
                entries,
                bytes,
                budget,
            ).len() ==> (#[trigger] evicted(entries, bytes, budget)[i]).used <= (
            #[trigger] survivors(entries, bytes, budget)[j]).used,
        evicted(entries, bytes, budget).len() + survivors(entries, bytes, budget).len()
            == entries.len(),
        forall|j: int|
            0 <= j < survivors(entries, bytes, budget).len() ==> entries.contains(
                #[trigger] survivors(entries, bytes, budget)[j],
            ),
        forall|i: int|
            0 <= i < evicted(entries, bytes, budget).len() ==> entries.contains(
                #[trigger] evicted(entries, bytes, budget)[i],
            ),
    decreases entries.len(),
{
    if !fits(entries, bytes, budget) && entries.len() > 0 {
        least_recent_is_least(entries);
        let victim = least_recent(entries);
        let rest = entries.remove(victim);
        eviction_spares_the_recent(rest, bytes, budget);
        let gone = evicted(entries, bytes, budget);
        let stay = survivors(entries, bytes, budget);
        assert forall|x: EntryModel<K, V>| rest.contains(x) implies entries.contains(x) by {
            let k = choose|k: int| 0 <= k < rest.len() && rest[k] == x;
            assert(entries[if k < victim {
                k
            } else {
                k + 1
            }] == x);
        }
        assert forall|i: int| 0 <= i < gone.len() implies entries.contains(#[trigger] gone[i]) by {
            if i > 0 {
                assert(gone[i] == evicted(rest, bytes, budget)[i - 1]);
            }
        }
        assert forall|i: int, j: int| 0 <= i < gone.len() && 0 <= j < stay.len() implies (
        #[trigger] gone[i]).used <= (#[trigger] stay[j]).used by {
            if i == 0 {
                assert(entries.contains(stay[j]));
            } else {
                assert(gone[i] == evicted(rest, bytes, budget)[i - 1]);
            }
        }
    }
}

proof fn lemma_removed_from<K, V>(entries: Seq<EntryModel<K, V>>, at: int)
    requires
        0 <= at < entries.len(),
    ensures
        forall|entry: EntryModel<K, V>| #[trigger]
            entries.remove(at).contains(entry) ==> entries.contains(entry),
        forall|entry: EntryModel<K, V>| #[trigger]
            entries.contains(entry) ==> entry == entries[at] || entries.remove(at).contains(entry),
{
    let rest = entries.remove(at);
    assert forall|entry: EntryModel<K, V>| #[trigger] rest.contains(entry) implies entries.contains(
        entry,
    ) by {
        let k = choose|k: int| 0 <= k < rest.len() && rest[k] == entry;
        assert(entries[if k < at {
            k
        } else {
            k + 1
        }] == entry);
    }
    assert forall|entry: EntryModel<K, V>| #[trigger] entries.contains(entry) implies entry
        == entries[at] || rest.contains(entry) by {
        let k = choose|k: int| 0 <= k < entries.len() && entries[k] == entry;
        if k < at {
            assert(rest[k] == entry);
        } else if k > at {
            assert(rest[k - 1] == entry);
        }
    }
}

/// Whether no two entries were used at the same tick.
pub open spec fn used_apart<K, V>(entries: Seq<EntryModel<K, V>>) -> bool {
    forall|i: int, j: int|
        0 <= i < j < entries.len() ==> (#[trigger] entries[i]).used != (#[trigger] entries[j]).used
}

/// Every entry leaves or stays. What leaves was used before everything that
/// stays, and leaves in the order of its last use. With the last that left
/// still there the new entry would not fit.
pub proof fn eviction_takes_no_more_than_it_must<K, V>(
    entries: Seq<EntryModel<K, V>>,
    bytes: u64,
    budget: CacheBudget,
)
    requires
        bytes <= budget.max_bytes,
        budget.max_entries > 0,
        used_apart(entries),
    ensures
        ({
            let gone = evicted(entries, bytes, budget);
            let stay = survivors(entries, bytes, budget);
            &&& forall|entry: EntryModel<K, V>| #[trigger]
                entries.contains(entry) ==> gone.contains(entry) || stay.contains(entry)
            &&& forall|i: int, j: int|
                0 <= i < gone.len() && 0 <= j < stay.len() ==> (#[trigger] gone[i]).used < (
                #[trigger] stay[j]).used
            &&& forall|i: int, j: int|
                0 <= i < j < gone.len() ==> (#[trigger] gone[i]).used < (#[trigger] gone[j]).used
            &&& gone.len() > 0 ==> stay.len() + 2 > budget.max_entries || total_bytes(stay)
                + gone.last().bytes + bytes > budget.max_bytes
        }),
    decreases entries.len(),
{
    if !fits(entries, bytes, budget) && entries.len() > 0 {
        least_recent_is_least(entries);
        let victim = least_recent(entries);
        let rest = entries.remove(victim);
        let later = evicted(rest, bytes, budget);
        let gone = evicted(entries, bytes, budget);
        let stay = survivors(entries, bytes, budget);
        eviction_takes_no_more_than_it_must(rest, bytes, budget);
        eviction_spares_the_recent(rest, bytes, budget);
        lemma_removed_from(entries, victim);
        lemma_total_remove(entries, victim);
        assert(gone == seq![entries[victim]] + later);
        assert forall|entry: EntryModel<K, V>| #[trigger] rest.contains(
            entry,
        ) implies entries[victim].used < entry.used by {
            let k = choose|k: int| 0 <= k < rest.len() && rest[k] == entry;
            let at = if k < victim {
                k
            } else {
                k + 1
            };
            assert(entries[at] == entry);
        }
        assert forall|i: int, j: int| 0 <= i < gone.len() && 0 <= j < stay.len() implies (
        #[trigger] gone[i]).used < (#[trigger] stay[j]).used by {
            if i == 0 {
                assert(rest.contains(stay[j]));
            } else {
                assert(gone[i] == later[i - 1]);
            }
        }
        assert forall|i: int, j: int| 0 <= i < j < gone.len() implies (#[trigger] gone[i]).used < (
        #[trigger] gone[j]).used by {
            assert(gone[j] == later[j - 1]);
            assert(rest.contains(later[j - 1]));
            if i > 0 {
                assert(gone[i] == later[i - 1]);
            }
        }
        assert forall|entry: EntryModel<K, V>| #[trigger] entries.contains(
            entry,
        ) implies gone.contains(entry) || stay.contains(entry) by {
            if entry == entries[victim] {
                assert(gone[0] == entry);
            } else if later.contains(entry) {
                let k = choose|k: int| 0 <= k < later.len() && later[k] == entry;
                assert(gone[k + 1] == entry);
            }
        }
        if later.len() > 0 {
            assert(gone.last() == later.last());
        } else {
            if rest.len() > 0 {
                least_recent_is_least(rest);
            }
            assert(fits(rest, bytes, budget) || rest.len() == 0);
            assert(stay == rest);
        }
    }
}

proof fn lemma_without_key<K, V>(cache: CacheModel<K, V>, key: K)
    requires
        cache.wf(),
    ensures
        used_apart(without_key(cache.entries, key)),
        forall|entry: EntryModel<K, V>| #[trigger]
            without_key(cache.entries, key).contains(entry) <==> cache.entries.contains(entry)
                && entry.key != key,
{
    let entries = cache.entries;
    let others = without_key(entries, key);
    if exists|at: int| 0 <= at < entries.len() && (#[trigger] entries[at]).key == key {
        let at = choose|at: int| 0 <= at < entries.len() && (#[trigger] entries[at]).key == key;
        lemma_position(entries, key, at);
        lemma_removed_from(entries, at);
        assert forall|entry: EntryModel<K, V>| #[trigger] others.contains(entry) implies entry.key
            != key by {
            let k = choose|k: int| 0 <= k < others.len() && others[k] == entry;
            if k < at {
                assert(entries[k] == entry);
            } else {
                assert(entries[k + 1] == entry);
            }
        }
    } else {
        lemma_no_position(entries, key);
    }
}

/// A value that can never fit is refused: nothing leaves, every entry keeps its
/// value, its recency and its dependencies, and nothing is counted.
pub proof fn refused_values_change_nothing<K, V>(
    cache: CacheModel<K, V>,
    key: K,
    value: V,
    bytes: u64,
    deps: Set<ResourceRef>,
    counters: CacheCounters,
)
    requires
        bytes > cache.budget.max_bytes || cache.budget.max_entries == 0,
    ensures
        cache.inserted(key, value, bytes, deps) == cache,
        cache.pushed_out(key, bytes) == Seq::<(K, V)>::empty(),
        cache.counted(counters, key, value, bytes, deps) == counters,
{
}

/// A value that can fit stays. It takes the place of what stood under its key
/// and is the most recent entry of all. Every other entry either stays as it is
/// or makes room. What makes room was used before everything that stays, leaves
/// in the order of its last use, and is no more than must be: with the last of
/// it still there the budget would be exceeded. The budget holds afterwards.
pub proof fn retained_values_make_room<K, V>(
    cache: CacheModel<K, V>,
    key: K,
    value: V,
    bytes: u64,
    deps: Set<ResourceRef>,
)
    requires
        cache.wf(),
        cache.tick < u64::MAX,
        bytes <= cache.budget.max_bytes,
        cache.budget.max_entries > 0,
    ensures
        ({
            let after = cache.inserted(key, value, bytes, deps);
            let entry = cache.next_entry(key, value, bytes, deps);
            let gone = cache.making_room(key, bytes);
            let stay = after.entries.drop_last();
            &&& after.budget == cache.budget
            &&& after.entries.len() <= after.budget.max_entries
            &&& total_bytes(after.entries) <= after.budget.max_bytes
            &&& after.entries == stay.push(entry)
            &&& forall|other: EntryModel<K, V>| #[trigger]
                stay.contains(other) ==> cache.entries.contains(other) && other.key != key
                    && other.used < entry.used
            &&& forall|other: EntryModel<K, V>| #[trigger]
                gone.contains(other) ==> cache.entries.contains(other) && other.key != key
            &&& forall|other: EntryModel<K, V>| #[trigger]
                cache.entries.contains(other) && other.key != key ==> gone.contains(other)
                    != stay.contains(other)
            &&& forall|i: int, j: int|
                0 <= i < gone.len() && 0 <= j < stay.len() ==> (#[trigger] gone[i]).used < (
                #[trigger] stay[j]).used
            &&& forall|i: int, j: int|
                0 <= i < j < gone.len() ==> (#[trigger] gone[i]).used < (#[trigger] gone[j]).used
            &&& gone.len() > 0 ==> after.entries.len() + 1 > cache.budget.max_entries
                || total_bytes(after.entries) + gone.last().bytes > cache.budget.max_bytes
        }),
{
    let others = without_key(cache.entries, key);
    let after = cache.inserted(key, value, bytes, deps);
    let entry = cache.next_entry(key, value, bytes, deps);
    let gone = cache.making_room(key, bytes);
    let stay = survivors(others, bytes, cache.budget);
    lemma_without_key(cache, key);
    eviction_makes_room(others, bytes, cache.budget);
    eviction_spares_the_recent(others, bytes, cache.budget);
    eviction_takes_no_more_than_it_must(others, bytes, cache.budget);
    lemma_total_push(stay, entry);
    assert(after.entries.drop_last() =~= stay);
    assert forall|other: EntryModel<K, V>| #[trigger] stay.contains(other) implies others.contains(
        other,
    ) by {
        let k = choose|k: int| 0 <= k < stay.len() && stay[k] == other;
        assert(others.contains(stay[k]));
    }
    assert forall|other: EntryModel<K, V>| #[trigger] gone.contains(other) implies others.contains(
        other,
    ) by {
        let k = choose|k: int| 0 <= k < gone.len() && gone[k] == other;
        assert(others.contains(gone[k]));
    }
    assert forall|other: EntryModel<K, V>| #[trigger] cache.entries.contains(
        other,
    ) implies other.used < entry.used by {
        let k = choose|k: int| 0 <= k < cache.entries.len() && cache.entries[k] == other;
        assert(cache.entries[k].used <= cache.tick);
    }
    assert forall|other: EntryModel<K, V>| #[trigger]
        cache.entries.contains(other) && other.key != key implies gone.contains(other)
        != stay.contains(other) by {
        assert(others.contains(other));
        if gone.contains(other) && stay.contains(other) {
            let i = choose|i: int| 0 <= i < gone.len() && gone[i] == other;
            let j = choose|j: int| 0 <= j < stay.len() && stay[j] == other;
            assert(gone[i].used < stay[j].used);
        }
    }
}

impl<K: Exact, V> StructuralCache<K, V> {
    /// The books of the cache are in order.
    pub closed spec fn wf(&self) -> bool {
        &&& self@.wf()
        &&& self.bytes == total_bytes(self@.entries)
    }

    /// The model of a well-formed cache is well-formed.
    pub proof fn lemma_wf(&self)
        requires
            self.wf(),
        ensures
            self@.wf(),
    {
    }

    pub fn new(budget: CacheBudget) -> (result: Self)
        ensures
            result.wf(),
            result@ == (CacheModel {
                budget,
                entries: Seq::<EntryModel<K, V>>::empty(),
                peak: 0,
                tick: 0,
            }),
    {
        let result = StructuralCache { budget, entries: Vec::new(), bytes: 0, peak: 0, tick: 0 };
        assert(result@.entries =~= Seq::<EntryModel<K, V>>::empty());
        result
    }

    pub fn len(&self) -> (result: usize)
        ensures
            result == self@.entries.len(),
    {
        self.entries.len()
    }

    pub fn live_bytes(&self) -> (result: u64)
        requires
            self.wf(),
        ensures
            result == total_bytes(self@.entries),
    {
        self.bytes
    }

    /// Takes the next tick.
    pub fn tick(&mut self) -> (result: u64)
        requires
            old(self).wf(),
            old(self)@.tick < u64::MAX,
        ensures
            final(self).wf(),
            result == old(self)@.tick + 1,
            final(self)@ == (CacheModel { tick: result, ..old(self)@ }),
    {
        self.tick += 1;
        self.tick
    }

    /// Writes what the cache holds now into the counters.
    pub fn report(&self, counters: &mut CacheCounters)
        requires
            self.wf(),
        ensures
            *final(counters) == self@.reported(*old(counters)),
    {
        counters.live_entries = self.entries.len() as u64;
        counters.live_bytes = self.bytes;
        counters.peak_bytes = self.peak;
    }

    fn position(&self, key: &K) -> (result: Option<usize>)
        requires
            self.wf(),
        ensures
            match result {
                Some(at) => at < self.entries@.len() && self.entries@[at as int].key == *key
                    && position_of(self@.entries, *key) == Some(at as int),
                None => position_of(self@.entries, *key) is None && forall|i: int|
                    0 <= i < self@.entries.len() ==> (#[trigger] self@.entries[i]).key != *key,
            },
    {
        let mut at: usize = 0;
        while at < self.entries.len()
            invariant
                at <= self.entries@.len(),
                forall|i: int| 0 <= i < at ==> (#[trigger] self@.entries[i]).key != *key,
            decreases self.entries@.len() - at,
        {
            if self.entries[at].key.same(key) {
                proof {
                    assert(self@.entries[at as int].key == *key);
                    lemma_position(self@.entries, *key, at as int);
                }
                return Some(at);
            }
            assert(self@.entries[at as int].key != *key);
            at += 1;
        }
        proof {
            lemma_no_position(self@.entries, *key);
        }
        None
    }

    /// Looks a key up. A hit makes the entry the most recently used one.
    pub fn get(&mut self, key: &K, counters: &mut CacheCounters) -> (result: Option<&V>)
        requires
            old(self).wf(),
            old(self)@.tick < u64::MAX,
            old(counters).hits < u64::MAX,
            old(counters).misses < u64::MAX,
        ensures
            final(self).wf(),
            match position_of(old(self)@.entries, *key) {
                Some(at) => {
                    &&& 0 <= at < old(self)@.entries.len()
                    &&& old(self)@.entries[at].key == *key
                    &&& result == Some(&old(self)@.entries[at].value)
                    &&& *final(counters) == (CacheCounters {
                        hits: (old(counters).hits + 1) as u64,
                        ..*old(counters)
                    })
                    &&& final(self)@ == (CacheModel {
                        tick: (old(self)@.tick + 1) as u64,
                        entries: old(self)@.entries.update(
                            at,
                            EntryModel {
                                used: (old(self)@.tick + 1) as u64,
                                ..old(self)@.entries[at]
                            },
                        ),
                        ..old(self)@
                    })
                },
                None => {
                    &&& result is None
                    &&& *final(counters) == (CacheCounters {
                        misses: (old(counters).misses + 1) as u64,
                        ..*old(counters)
                    })
                    &&& final(self)@ == (CacheModel {
                        tick: (old(self)@.tick + 1) as u64,
                        ..old(self)@
                    })
                },
            },
    {
        let now: u64 = self.tick();
        let ghost before = *self;
        match self.position(key) {
            Some(at) => {
                self.entries[at].used = now;
                counters.hits += 1;
                proof {
                    let touched = EntryModel { used: now, ..before@.entries[at as int] };
                    lemma_total_update(before@.entries, at as int, touched);
                    assert(self@.entries =~= before@.entries.update(at as int, touched));
                }
                Some(&self.entries[at].value)
            },
            None => {
                counters.misses += 1;
                None
            },
        }
    }

    fn oldest(&self) -> (result: usize)
        requires
            self.entries@.len() > 0,
        ensures
            result == least_recent(self@.entries),
            result < self.entries@.len(),
    {
        let mut best: usize = 0;
        let mut at: usize = 1;
        proof {
            assert(self@.entries.take(1).len() == 1);
        }
        while at < self.entries.len()
            invariant
                1 <= at <= self.entries@.len(),
                best < at,
                best == least_recent(self@.entries.take(at as int)),
            decreases self.entries@.len() - at,
        {
            proof {
                let longer = self@.entries.take(at + 1);
                assert(longer.drop_last() =~= self@.entries.take(at as int));
                assert(longer.last() == self@.entries[at as int]);
                assert(longer[best as int] == self@.entries[best as int]);
            }
            if self.entries[at].used < self.entries[best].used {
                best = at;
            }
            at += 1;
        }
        assert(self@.entries.take(at as int) =~= self@.entries);
        best
    }

    /// Inserts a value. An entry that had the key before leaves first, the
    /// entries that have to make room follow in the order of their last use.
    /// A value that can never fit is refused, and nothing changes.
    pub fn insert(
        &mut self,
        key: K,
        value: V,
        bytes: u64,
        deps: DependencySet,
        counters: &mut CacheCounters,
    ) -> (result: CacheMutation<K, V>)
        requires
            old(self).wf(),
            old(self)@.tick < u64::MAX,
            old(counters).created < u64::MAX,
            old(counters).evicted + old(self)@.entries.len() <= u64::MAX,
        ensures
            final(self).wf(),
            result.retained == !old(self)@.refuses(bytes),
            result.removed@ == old(self)@.pushed_out(key, bytes),
            final(self)@ == old(self)@.inserted(key, value, bytes, deps@),
            *final(counters) == old(self)@.counted(*old(counters), key, value, bytes, deps@),
    {
        if bytes > self.budget.max_bytes || self.budget.max_entries == 0 {
            return CacheMutation { removed: Vec::new(), retained: false };
        }
        let ghost start = *self;
        let ghost others = without_key(start@.entries, key);
        let ghost first: Seq<(K, V)> = match position_of(start@.entries, key) {
            Some(at) => seq![(key, start@.entries[at].value)],
            None => Seq::empty(),
        };
        let ghost budget = self.budget;
        let mut removed: Vec<(K, V)> = Vec::new();
        match self.position(&key) {
            Some(at) => {
                proof {
                    lemma_total_remove(start@.entries, at as int);
                }
                let prior = self.entries.remove(at);
                self.bytes -= prior.bytes;
                removed.push((prior.key, prior.value));
                assert(self@.entries =~= start@.entries.remove(at as int));
            },
            None => {},
        }
        assert(removed@ =~= first);
        let ghost mut gone: Seq<EntryModel<K, V>> = Seq::empty();
        assert(contents(gone) =~= Seq::<(K, V)>::empty());
        while self.entries.len() >= self.budget.max_entries || self.bytes > self.budget.max_bytes
            - bytes
            invariant
                self@.wf(),
                self.bytes == total_bytes(self@.entries),
                self.budget == budget,
                self.peak == start.peak,
                self.tick == start.tick,
                bytes <= budget.max_bytes,
                budget.max_entries > 0,
                removed@ == first + contents(gone),
                evicted(others, bytes, budget) == gone + evicted(self@.entries, bytes, budget),
                survivors(others, bytes, budget) == survivors(self@.entries, bytes, budget),
                forall|i: int| 0 <= i < self@.entries.len() ==> (#[trigger] self@.entries[i]).key
                    != key,
                *counters == (CacheCounters {
                    evicted: (old(counters).evicted + gone.len()) as u64,
                    ..*old(counters)
                }),
                gone.len() + self@.entries.len() <= start@.entries.len(),
                old(counters).evicted + start@.entries.len() <= u64::MAX,
            decreases self.entries@.len(),
        {
            let ghost was = *self;
            proof {
                if self@.entries.len() == 0 {
                    assert(total_bytes(self@.entries) == 0);
                }
                least_recent_is_least(self@.entries);
            }
            let victim: usize = self.oldest();
            proof {
                lemma_total_remove(was@.entries, victim as int);
            }
            let entry = self.entries.remove(victim);
            self.bytes -= entry.bytes;
            counters.evicted += 1;
            proof {
                let left = was@.entries[victim as int];
                assert(self@.entries =~= was@.entries.remove(victim as int));
                assert(evicted(was@.entries, bytes, budget) == seq![left] + evicted(
                    self@.entries,
                    bytes,
                    budget,
                ));
                assert(gone.push(left) + evicted(self@.entries, bytes, budget) =~= gone + (seq![left]
                    + evicted(self@.entries, bytes, budget)));
                assert((first + contents(gone)).push((left.key, left.value)) =~= first + contents(
                    gone.push(left),
                ));
                gone = gone.push(left);
            }
            removed.push((entry.key, entry.value));
        }
        proof {
            assert(fits(self@.entries, bytes, budget));
            assert(gone + Seq::<EntryModel<K, V>>::empty() =~= gone);
        }
        let now: u64 = self.tick();
        let ghost was = *self;
        self.entries.push(Entry { key, value, bytes, used: now, sequence: now, deps });
        proof {
            let entry = EntryModel {
                key,
                value,
                bytes,
                used: now,
                sequence: now,
                deps: deps@,
            };
            assert(self@.entries =~= was@.entries.push(entry));
            lemma_total_push(was@.entries, entry);
        }
        self.bytes += bytes;
        if self.peak < self.bytes {
            self.peak = self.bytes;
        }
        counters.created += 1;
        self.report(counters);
        CacheMutation { removed, retained: true }
    }

    /// Takes out every entry that depends on the resource, in the order of
    /// insertion.
    pub fn invalidate_resource(
        &mut self,
        resource: ResourceRef,
        counters: &mut CacheCounters,
    ) -> (result: Vec<(K, V)>)
        requires
            old(self).wf(),
            old(counters).invalidated + old(self)@.entries.len() <= u64::MAX,
        ensures
            final(self).wf(),
            result@ == contents(dependents(old(self)@.entries, resource)),
            final(self)@ == (CacheModel {
                entries: independents(old(self)@.entries, resource),
                ..old(self)@
            }),
            *final(counters) == final(self)@.reported(
                CacheCounters {
                    invalidated: (old(counters).invalidated + result@.len()) as u64,
                    ..*old(counters)
                },
            ),
    {
        let ghost start = self@.entries;
        let ghost uses = |entry: EntryModel<K, V>| entry.deps.contains(resource);
        let ghost spares = |entry: EntryModel<K, V>| !entry.deps.contains(resource);
        let ghost mut seen: int = 0;
        let mut result: Vec<(K, V)> = Vec::new();
        let mut at: usize = 0;
        proof {
            reveal(Seq::filter);
            assert(start.take(0).filter(spares) + start.skip(0) =~= start);
            assert(contents(start.take(0).filter(uses)) =~= Seq::<(K, V)>::empty());
        }
        while at < self.entries.len()
            invariant
                0 <= seen <= start.len(),
                at == start.take(seen).filter(spares).len(),
                self@.entries == start.take(seen).filter(spares) + start.skip(seen),
                result@ == contents(start.take(seen).filter(uses)),
                result@.len() + self@.entries.len() == start.len(),
                uses == (|entry: EntryModel<K, V>| entry.deps.contains(resource)),
                spares == (|entry: EntryModel<K, V>| !entry.deps.contains(resource)),
                start == old(self)@.entries,
                self@.wf(),
                self.bytes == total_bytes(self@.entries),
                self@ == (CacheModel { entries: self@.entries, ..old(self)@ }),
                *counters == (CacheCounters {
                    invalidated: (old(counters).invalidated + result@.len()) as u64,
                    ..*old(counters)
                }),
                old(counters).invalidated + start.len() <= u64::MAX,
            decreases self.entries@.len() - at,
        {
            let ghost was = *self;
            let ghost done = start.take(seen);
            let ghost next = start.take(seen + 1);
            let ghost current = start[seen];
            proof {
                assert(self@.entries[at as int] == current);
                assert(next.drop_last() =~= done);
                assert(next.last() == current);
                reveal(Seq::filter);
            }
            if self.entries[at].deps.contains(&resource) {
                proof {
                    lemma_total_remove(was@.entries, at as int);
                }
                let entry = self.entries.remove(at);
                self.bytes -= entry.bytes;
                counters.invalidated += 1;
                result.push((entry.key, entry.value));
                proof {
                    assert(self@.entries =~= was@.entries.remove(at as int));
                    assert(next.filter(uses) == done.filter(uses).push(current));
                    assert(next.filter(spares) == done.filter(spares));
                    assert(self@.entries =~= next.filter(spares) + start.skip(seen + 1));
                    assert(result@ =~= contents(next.filter(uses)));
                }
            } else {
                at += 1;
                proof {
                    assert(next.filter(uses) == done.filter(uses));
                    assert(next.filter(spares) == done.filter(spares).push(current));
                    assert(self@.entries =~= next.filter(spares) + start.skip(seen + 1));
                }
            }
            proof {
                seen = seen + 1;
            }
        }
        proof {
            assert(seen == start.len());
            assert(start.take(seen) =~= start);
            assert(self@.entries =~= start.filter(spares));
        }
        self.report(counters);
        result
    }

    /// Takes everything out, in the order of insertion.
    pub fn drain(&mut self, counters: &mut CacheCounters) -> (result: Vec<(K, V)>)
        requires
            old(self).wf(),
        ensures
            final(self).wf(),
            result@ == contents(old(self)@.entries),
            final(self)@ == (CacheModel { entries: Seq::empty(), ..old(self)@ }),
            *final(counters) == final(self)@.reported(*old(counters)),
    {
        let ghost start = *self;
        let mut result: Vec<(K, V)> = Vec::new();
        while self.entries.len() > 0
            invariant
                self@.budget == start@.budget,
                self@.peak == start@.peak,
                self@.tick == start@.tick,
                result@.len() <= start@.entries.len(),
                self@.entries == start@.entries.skip(result@.len() as int),
                result@ == contents(start@.entries.take(result@.len() as int)),
            decreases self.entries@.len(),
        {
            let ghost was = *self;
            let ghost n = result@.len() as int;
            assert(was@.entries.len() == was.entries@.len());
            assert(was@.entries[0] == start@.entries[n]);
            let entry = self.entries.remove(0);
            result.push((entry.key, entry.value));
            proof {
                assert(self@.entries =~= was@.entries.remove(0));
                assert(was@.entries.remove(0) =~= start@.entries.skip(n + 1));
                assert(result@ =~= contents(start@.entries.take(n + 1)));
            }
        }
        proof {
            assert(start@.entries.take(result@.len() as int) =~= start@.entries);
            assert(self@.entries =~= Seq::<EntryModel<K, V>>::empty());
        }
        self.bytes = 0;
        self.report(counters);
        result
    }

    /// Forgets everything.
    pub fn purge(&mut self, counters: &mut CacheCounters)
        requires
            old(self).wf(),
            old(counters).purged + old(self)@.entries.len() <= u64::MAX,
        ensures
            final(self).wf(),
            final(self)@ == (CacheModel { entries: Seq::empty(), ..old(self)@ }),
            *final(counters) == final(self)@.reported(
                CacheCounters {
                    purged: (old(counters).purged + old(self)@.entries.len()) as u64,
                    ..*old(counters)
                },
            ),
    {
        counters.purged += self.entries.len() as u64;
        self.entries = Vec::new();
        self.bytes = 0;
        assert(self@.entries =~= Seq::<EntryModel<K, V>>::empty());
        self.report(counters);
    }
}

} // verus!
