//! What is known of the driver, and which parts of that knowledge are void.

use vstd::prelude::*;
use crate::exact::Exact;

verus! {

/// Parts of a GL context that can be invalidated one by one.
#[derive(Clone, Copy, Debug, PartialEq, Eq, Structural)]
pub enum StateDomain {
    PassFramebuffer,
    RasterPipeline,
    Geometry,
    Bindings,
    Compute,
    PixelTransferCopy,
    Query,
    DerivedCaches,
}

/// How many domains there are.
pub const DOMAIN_COUNT: usize = 8;

impl StateDomain {
    /// The position of the domain in the list of all domains.
    pub open spec fn spec_index(self) -> u32 {
        match self {
            StateDomain::PassFramebuffer => 0,
            StateDomain::RasterPipeline => 1,
            StateDomain::Geometry => 2,
            StateDomain::Bindings => 3,
            StateDomain::Compute => 4,
            StateDomain::PixelTransferCopy => 5,
            StateDomain::Query => 6,
            StateDomain::DerivedCaches => 7,
        }
    }

    /// The mask bit of the domain.
    pub open spec fn spec_bit(self) -> u32 {
        1u32 << self.spec_index()
    }

    /// Every domain, in the order of `index`.
    pub fn all() -> (result: [StateDomain; 8])
        ensures
            forall|i: int| 0 <= i < 8 ==> (#[trigger] result@[i]).spec_index() == i,
            result@.len() == 8,
    {
        [
            StateDomain::PassFramebuffer,
            StateDomain::RasterPipeline,
            StateDomain::Geometry,
            StateDomain::Bindings,
            StateDomain::Compute,
            StateDomain::PixelTransferCopy,
            StateDomain::Query,
            StateDomain::DerivedCaches,
        ]
    }

    pub fn index(self) -> (result: usize)
        ensures
            result == self.spec_index(),
            result < DOMAIN_COUNT,
    {
        match self {
            StateDomain::PassFramebuffer => 0,
            StateDomain::RasterPipeline => 1,
            StateDomain::Geometry => 2,
            StateDomain::Bindings => 3,
            StateDomain::Compute => 4,
            StateDomain::PixelTransferCopy => 5,
            StateDomain::Query => 6,
            StateDomain::DerivedCaches => 7,
        }
    }

    pub fn bit(self) -> (result: u32)
        ensures
            result == self.spec_bit(),
    {
        1u32 << (self.index() as u32)
    }

    /// The name that diagnostics print.
    pub open spec fn spec_name(self) -> Seq<char> {
        match self {
            StateDomain::PassFramebuffer => "pass/framebuffer"@,
            StateDomain::RasterPipeline => "raster-pipeline"@,
            StateDomain::Geometry => "geometry"@,
            StateDomain::Bindings => "bindings"@,
            StateDomain::Compute => "compute"@,
            StateDomain::PixelTransferCopy => "pixel-transfer/copy"@,
            StateDomain::Query => "query"@,
            StateDomain::DerivedCaches => "derived-caches"@,
        }
    }

    pub fn name(self) -> (result: &'static str)
        ensures
            result@ == self.spec_name(),
    {
        match self {
            StateDomain::PassFramebuffer => "pass/framebuffer",
            StateDomain::RasterPipeline => "raster-pipeline",
            StateDomain::Geometry => "geometry",
            StateDomain::Bindings => "bindings",
            StateDomain::Compute => "compute",
            StateDomain::PixelTransferCopy => "pixel-transfer/copy",
            StateDomain::Query => "query",
            StateDomain::DerivedCaches => "derived-caches",
        }
    }
}

/// No two domains share a mask bit.
pub proof fn domain_bits_are_unique(left: StateDomain, right: StateDomain)
    ensures
        (left.spec_bit() & right.spec_bit() != 0) == (left == right),
{
    lemma_single_bits(left.spec_index(), right.spec_index());
}

proof fn lemma_single_bits(i: u32, j: u32)
    by (bit_vector)
    requires
        i < 8,
        j < 8,
    ensures
        (((1u32 << i) & (1u32 << j)) != 0) == (i == j),
        (1u32 << i) < 256,
{
}

proof fn lemma_mask_update(mask: u32, i: u32, j: u32)
    by (bit_vector)
    requires
        i < 8,
        j < 8,
        mask < 256,
    ensures
        (((mask | (1u32 << i)) & (1u32 << j)) != 0) == ((mask & (1u32 << j)) != 0 || i == j),
        (((mask & !(1u32 << i)) & (1u32 << j)) != 0) == ((mask & (1u32 << j)) != 0 && i != j),
        (mask | (1u32 << i)) < 256,
        (mask & !(1u32 << i)) < 256,
        ((255u32 & (1u32 << j)) != 0),
        ((0u32 & (1u32 << j)) == 0),
{
}

proof fn lemma_mask_union(left: u32, right: u32, j: u32)
    by (bit_vector)
    requires
        left < 256,
        right < 256,
        j < 8,
    ensures
        (((left | right) & (1u32 << j)) != 0) == ((left & (1u32 << j)) != 0 || (right & (1u32 << j))
            != 0),
        (left | right) < 256,
{
}

proof fn lemma_mask_extensional(left: u32, right: u32)
    by (bit_vector)
    requires
        left < 256,
        right < 256,
        ((left & (1u32 << 0u32)) != 0) == ((right & (1u32 << 0u32)) != 0),
        ((left & (1u32 << 1u32)) != 0) == ((right & (1u32 << 1u32)) != 0),
        ((left & (1u32 << 2u32)) != 0) == ((right & (1u32 << 2u32)) != 0),
        ((left & (1u32 << 3u32)) != 0) == ((right & (1u32 << 3u32)) != 0),
        ((left & (1u32 << 4u32)) != 0) == ((right & (1u32 << 4u32)) != 0),
        ((left & (1u32 << 5u32)) != 0) == ((right & (1u32 << 5u32)) != 0),
        ((left & (1u32 << 6u32)) != 0) == ((right & (1u32 << 6u32)) != 0),
        ((left & (1u32 << 7u32)) != 0) == ((right & (1u32 << 7u32)) != 0),
    ensures
        left == right,
{
}

/// Domains whose mirror values cannot be used to skip a command.
#[derive(Clone, Copy, Debug, PartialEq, Eq, Structural)]
pub struct DirtyDomains {
    mask: u32,
}

impl View for DirtyDomains {
    type V = Set<StateDomain>;

    closed spec fn view(&self) -> Set<StateDomain> {
        Set::new(|domain: StateDomain| self.mask & domain.spec_bit() != 0)
    }
}

impl DirtyDomains {
    #[verifier::type_invariant]
    spec fn known_bits_only(self) -> bool {
        self.mask < 256
    }

    /// No domain at all.
    pub fn empty() -> (result: Self)
        ensures
            result@ == Set::<StateDomain>::empty(),
    {
        let result = DirtyDomains { mask: 0 };
        proof {
            assert forall|domain: StateDomain| !result@.contains(domain) by {
                lemma_mask_update(0, 0, domain.spec_index());
            }
            assert(result@ =~= Set::<StateDomain>::empty());
        }
        result
    }

    /// Every domain.
    pub fn all() -> (result: Self)
        ensures
            result@ == Set::<StateDomain>::full(),
    {
        let result = DirtyDomains { mask: 255 };
        proof {
            assert forall|domain: StateDomain| result@.contains(domain) by {
                lemma_mask_update(0, 0, domain.spec_index());
            }
            assert(result@ =~= Set::<StateDomain>::full());
        }
        result
    }

    /// One domain.
    pub fn of(domain: StateDomain) -> (result: Self)
        ensures
            result@ == Set::<StateDomain>::empty().insert(domain),
    {
        proof {
            lemma_single_bits(domain.spec_index(), domain.spec_index());
        }
        let result = DirtyDomains { mask: domain.bit() };
        proof {
            assert forall|other: StateDomain| result@.contains(other) == (other == domain) by {
                domain_bits_are_unique(domain, other);
            }
            assert(result@ =~= Set::<StateDomain>::empty().insert(domain));
        }
        result
    }

    /// The mask, with the bit of each domain.
    pub fn bits(self) -> (result: u32)
        ensures
            result < 256,
            forall|domain: StateDomain|
                self@.contains(domain) == (result & #[trigger] domain.spec_bit() != 0),
    {
        proof {
            use_type_invariant(&self);
        }
        self.mask
    }

    pub fn contains(self, domain: StateDomain) -> (result: bool)
        ensures
            result == self@.contains(domain),
    {
        self.mask & domain.bit() != 0
    }

    pub fn insert(&mut self, domain: StateDomain)
        ensures
            final(self)@ == old(self)@.insert(domain),
    {
        proof {
            use_type_invariant(&*self);
            lemma_mask_update(self.mask, domain.spec_index(), 0);
        }
        let next: u32 = self.mask | domain.bit();
        self.mask = next;
        proof {
            assert forall|other: StateDomain|
                self@.contains(other) == old(self)@.insert(domain).contains(other) by {
                lemma_mask_update(old(self).mask, domain.spec_index(), other.spec_index());
            }
            assert(self@ =~= old(self)@.insert(domain));
        }
    }

    pub fn remove(&mut self, domain: StateDomain)
        ensures
            final(self)@ == old(self)@.remove(domain),
    {
        proof {
            use_type_invariant(&*self);
            lemma_mask_update(self.mask, domain.spec_index(), 0);
        }
        let next: u32 = self.mask & !domain.bit();
        self.mask = next;
        proof {
            assert forall|other: StateDomain|
                self@.contains(other) == old(self)@.remove(domain).contains(other) by {
                lemma_mask_update(old(self).mask, domain.spec_index(), other.spec_index());
            }
            assert(self@ =~= old(self)@.remove(domain));
        }
    }

    pub fn extend(&mut self, other: Self)
        ensures
            final(self)@ == old(self)@.union(other@),
    {
        proof {
            use_type_invariant(&*self);
            use_type_invariant(&other);
            lemma_mask_union(self.mask, other.mask, 0);
        }
        let next: u32 = self.mask | other.mask;
        self.mask = next;
        proof {
            assert forall|domain: StateDomain|
                self@.contains(domain) == old(self)@.union(other@).contains(domain) by {
                lemma_mask_union(old(self).mask, other.mask, domain.spec_index());
            }
            assert(self@ =~= old(self)@.union(other@));
        }
    }

    pub fn is_empty(self) -> (result: bool)
        ensures
            result == (self@ == Set::<StateDomain>::empty()),
    {
        proof {
            use_type_invariant(&self);
            if self.mask == 0 {
                assert forall|domain: StateDomain| !self@.contains(domain) by {
                    lemma_mask_update(0, 0, domain.spec_index());
                }
                assert(self@ =~= Set::<StateDomain>::empty());
            } else if self@ == Set::<StateDomain>::empty() {
                let none = DirtyDomains { mask: 0 };
                assert forall|domain: StateDomain| !none@.contains(domain) by {
                    lemma_mask_update(0, 0, domain.spec_index());
                }
                assert(none@ =~= Set::<StateDomain>::empty());
                lemma_same_members(self, none);
            }
        }
        self.mask == 0
    }

    /// The domains of the set, in the order of their index.
    pub fn iter(self) -> (result: Vec<StateDomain>)
        ensures
            forall|domain: StateDomain| result@.contains(domain) == self@.contains(domain),
            forall|i: int, j: int|
                0 <= i < j < result@.len() ==> (#[trigger] result@[i]).spec_index() < (
                #[trigger] result@[j]).spec_index(),
    {
        let domains = StateDomain::all();
        let mut result: Vec<StateDomain> = Vec::new();
        let mut next: usize = 0;
        while next < DOMAIN_COUNT
            invariant
                next <= DOMAIN_COUNT,
                domains@.len() == 8,
                forall|i: int| 0 <= i < 8 ==> (#[trigger] domains@[i]).spec_index() == i,
                forall|domain: StateDomain| #[trigger]
                    result@.contains(domain) == (self@.contains(domain) && domain.spec_index()
                        < next),
                forall|i: int|
                    0 <= i < result@.len() ==> (#[trigger] result@[i]).spec_index() < next,
                forall|i: int, j: int|
                    0 <= i < j < result@.len() ==> (#[trigger] result@[i]).spec_index() < (
                    #[trigger] result@[j]).spec_index(),
            decreases DOMAIN_COUNT - next,
        {
            let domain = domains[next];
            let ghost before = result@;
            if self.contains(domain) {
                result.push(domain);
                proof {
                    assert(result@[before.len() as int] == domain);
                    assert forall|other: StateDomain| #[trigger]
                        result@.contains(other) == (self@.contains(other) && other.spec_index() < next
                            + 1) by {
                        if before.contains(other) {
                            let k = choose|k: int| 0 <= k < before.len() && before[k] == other;
                            assert(result@[k] == other);
                        }
                        if result@.contains(other) && other != domain {
                            let k = choose|k: int| 0 <= k < result@.len() && result@[k] == other;
                            assert(before[k] == other);
                        }
                        if other.spec_index() == next {
                            assert(other == domain);
                        }
                    }
                }
            }
            next += 1;
        }
        result
    }
}

impl Default for DirtyDomains {
    fn default() -> (result: Self)
        ensures
            result@ == Set::<StateDomain>::empty(),
    {
        DirtyDomains::empty()
    }
}

proof fn lemma_same_members(left: DirtyDomains, right: DirtyDomains)
    requires
        left.mask < 256,
        right.mask < 256,
        left@ == right@,
    ensures
        left == right,
{
    assert forall|domain: StateDomain|
        (left.mask & domain.spec_bit() != 0) == (right.mask & domain.spec_bit() != 0) by {
        assert(left@.contains(domain) == (left.mask & domain.spec_bit() != 0));
        assert(right@.contains(domain) == (right.mask & domain.spec_bit() != 0));
    }
    assert(StateDomain::PassFramebuffer.spec_bit() == 1u32 << 0u32);
    assert(StateDomain::RasterPipeline.spec_bit() == 1u32 << 1u32);
    assert(StateDomain::Geometry.spec_bit() == 1u32 << 2u32);
    assert(StateDomain::Bindings.spec_bit() == 1u32 << 3u32);
    assert(StateDomain::Compute.spec_bit() == 1u32 << 4u32);
    assert(StateDomain::PixelTransferCopy.spec_bit() == 1u32 << 5u32);
    assert(StateDomain::Query.spec_bit() == 1u32 << 6u32);
    assert(StateDomain::DerivedCaches.spec_bit() == 1u32 << 7u32);
    lemma_mask_extensional(left.mask, right.mask);
}

/// A driver value can be used only after this library installed it itself.
#[derive(Debug, PartialEq, Eq)]
pub enum DriverKnowledge<T> {
    Unknown,
    Known(T),
}

impl<T> View for DriverKnowledge<T> {
    type V = Option<T>;

    open spec fn view(&self) -> Option<T> {
        match *self {
            DriverKnowledge::Unknown => None,
            DriverKnowledge::Known(value) => Some(value),
        }
    }
}

impl<T> DriverKnowledge<T> {
    pub fn is_known(&self) -> (result: bool)
        ensures
            result == (self@ is Some),
    {
        match self {
            DriverKnowledge::Unknown => false,
            DriverKnowledge::Known(_) => true,
        }
    }

    pub fn get(&self) -> (result: Option<&T>)
        ensures
            match result {
                Some(value) => self@ == Some(*value),
                None => self@ is None,
            },
    {
        match self {
            DriverKnowledge::Unknown => None,
            DriverKnowledge::Known(value) => Some(value),
        }
    }

    pub fn set(&mut self, value: T)
        ensures
            final(self)@ == Some(value),
    {
        *self = DriverKnowledge::Known(value);
    }

    pub fn invalidate(&mut self)
        ensures
            final(self)@ is None,
    {
        *self = DriverKnowledge::Unknown;
    }
}

impl<T: Exact> DriverKnowledge<T> {
    /// Whether the driver is known to hold exactly the desired value.
    pub fn agrees(&self, desired: &T) -> (result: bool)
        ensures
            result == (self@ == Some(*desired)),
    {
        match self {
            DriverKnowledge::Unknown => false,
            DriverKnowledge::Known(value) => value.same(desired),
        }
    }
}

/// Whether known state may be used to skip a request.
///
/// `Oracle` emits every request. `Optimized` emits only the requests whose
/// known driver value differs.
#[derive(Clone, Copy, Debug, PartialEq, Eq, Structural)]
pub enum ExecutionMode {
    Optimized,
    Oracle,
}

impl ExecutionMode {
    pub fn may_skip(self) -> (result: bool)
        ensures
            result == (self is Optimized),
    {
        match self {
            ExecutionMode::Optimized => true,
            ExecutionMode::Oracle => false,
        }
    }
}

} // verus!
