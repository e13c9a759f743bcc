//! The one authority on the mutable state of one real GL context.
//!
//! No handle of a browser or of GL and no address takes part in a decision:
//! only names and canonical blocks do. Native and browser owners hold exactly
//! one instance each.

use vstd::prelude::*;
use crate::api::error::ContextStateError;
use crate::api::identity::{BufferId, ObjectId, ProgramId, SamplerId};
use crate::assoc::Assoc;
use crate::exact::{Exact, Keep};
use crate::platform::object::GlObjectName;
use crate::state::cache::{DependencySet, ResourceRef};
use crate::state::event;
use crate::state::event::StateEvent;
use crate::state::knowledge::{DriverKnowledge, ExecutionMode, StateDomain};
use crate::table;
use crate::table::Table;

verus! {

/// The identity of an immutable block of state. It is assigned or structural,
/// never a hash that could collide.
#[derive(Clone, Copy, Debug, PartialEq, Eq, Structural)]
pub enum CanonicalBlockId {
    /// A block that a table numbered.
    Interned(u64),
    /// A linked program.
    Program(ProgramId),
    /// A sampler object.
    Sampler(SamplerId),
    /// A stretch of a uniform buffer.
    UniformRange { buffer: BufferId, offset: u32, size: u32 },
}

impl CanonicalBlockId {
    pub fn new(value: u64) -> (result: Self)
        ensures
            result == CanonicalBlockId::Interned(value),
    {
        CanonicalBlockId::Interned(value)
    }

    pub fn uniform_range(buffer: BufferId, offset: u32, size: u32) -> (result: Self)
        ensures
            result == (CanonicalBlockId::UniformRange { buffer, offset, size }),
    {
        CanonicalBlockId::UniformRange { buffer, offset, size }
    }
}

impl Exact for CanonicalBlockId {
    fn same(&self, other: &Self) -> (result: bool) {
        *self == *other
    }
}

/// The blocks that a pipeline installs one by one.
#[derive(Clone, Copy, Debug, PartialEq, Eq, Structural)]
pub struct RasterPipelineBlocks {
    pub program: CanonicalBlockId,
    pub raster: CanonicalBlockId,
    pub depth_stencil: CanonicalBlockId,
    pub blend: CanonicalBlockId,
    pub multisample: CanonicalBlockId,
}

/// An immutable pipeline. `identity` is the name of the pipeline object, so an
/// exact hit cannot be a collision.
#[derive(Clone, Copy, Debug, PartialEq, Eq, Structural)]
pub struct RasterPipelinePacket {
    pub identity: GlObjectName,
    pub blocks: RasterPipelineBlocks,
}

/// The framebuffer state of a pass. Read target, draw target and draw buffers
/// change one by one.
#[derive(Clone, Copy, Debug, PartialEq, Eq, Structural)]
pub struct PassPacket {
    pub draw_framebuffer: CanonicalBlockId,
    pub read_framebuffer: CanonicalBlockId,
    pub draw_buffers: CanonicalBlockId,
}

/// The pack and unpack settings and their buffers.
#[derive(Clone, Copy, Debug, PartialEq, Eq, Structural)]
pub struct PixelTransferPacket {
    pub pack: CanonicalBlockId,
    pub unpack: CanonicalBlockId,
    pub pack_buffer: CanonicalBlockId,
    pub unpack_buffer: CanonicalBlockId,
}

impl Exact for PixelTransferPacket {
    fn same(&self, other: &Self) -> (result: bool) {
        *self == *other
    }
}

/// The parts of a pipeline that have to be installed. An exact hit has none.
/// Geometry stays apart: a draw can replace it after a pipeline is bound.
#[derive(Clone, Copy, Debug, PartialEq, Eq, Structural)]
pub struct RasterPipelineDiff {
    pub program: bool,
    pub raster: bool,
    pub depth_stencil: bool,
    pub blend: bool,
    pub multisample: bool,
}

/// Nothing has to be installed.
pub open spec fn no_diff() -> RasterPipelineDiff {
    RasterPipelineDiff {
        program: false,
        raster: false,
        depth_stencil: false,
        blend: false,
        multisample: false,
    }
}

/// Everything has to be installed.
pub open spec fn full_diff() -> RasterPipelineDiff {
    RasterPipelineDiff {
        program: true,
        raster: true,
        depth_stencil: true,
        blend: true,
        multisample: true,
    }
}

impl RasterPipelineDiff {
    pub fn is_empty(self) -> (result: bool)
        ensures
            result == (self == no_diff()),
    {
        !self.program && !self.raster && !self.depth_stencil && !self.blend && !self.multisample
    }
}

impl Default for RasterPipelineDiff {
    fn default() -> (result: Self)
        ensures
            result == no_diff(),
    {
        RasterPipelineDiff {
            program: false,
            raster: false,
            depth_stencil: false,
            blend: false,
            multisample: false,
        }
    }
}

/// A bound group stays dirty until its owner has flushed it. Which resources
/// it uses is not binding state.
#[derive(Debug)]
pub struct BoundGroupPacket {
    pub group: ObjectId,
    pub name: GlObjectName,
    pub index: u32,
    pub dynamic_offsets: Vec<u32>,
    pub program_link_epoch: u64,
    pub dependencies: DependencySet,
}

/// A bound group, by value.
pub struct BoundGroup {
    pub group: ObjectId,
    pub name: GlObjectName,
    pub index: u32,
    pub dynamic_offsets: Seq<u32>,
    pub program_link_epoch: u64,
    pub dependencies: Set<ResourceRef>,
}

impl View for BoundGroupPacket {
    type V = BoundGroup;

    open spec fn view(&self) -> BoundGroup {
        BoundGroup {
            group: self.group,
            name: self.name,
            index: self.index,
            dynamic_offsets: self.dynamic_offsets@,
            program_link_epoch: self.program_link_epoch,
            dependencies: self.dependencies@,
        }
    }
}

fn same_offsets(left: &Vec<u32>, right: &Vec<u32>) -> (result: bool)
    ensures
        result == (left@ == right@),
{
    if left.len() != right.len() {
        return false;
    }
    let mut at: usize = 0;
    while at < left.len()
        invariant
            at <= left@.len(),
            left@.len() == right@.len(),
            forall|i: int| 0 <= i < at ==> left@[i] == right@[i],
        decreases left@.len() - at,
    {
        if left[at] != right[at] {
            return false;
        }
        at += 1;
    }
    assert(left@ =~= right@);
    true
}

fn copy_offsets(offsets: &Vec<u32>) -> (result: Vec<u32>)
    ensures
        result@ == offsets@,
{
    let mut result: Vec<u32> = Vec::new();
    let mut at: usize = 0;
    while at < offsets.len()
        invariant
            at <= offsets@.len(),
            result@ == offsets@.take(at as int),
        decreases offsets@.len() - at,
    {
        result.push(offsets[at]);
        at += 1;
        assert(result@ =~= offsets@.take(at as int));
    }
    assert(result@ =~= offsets@);
    result
}

impl BoundGroupPacket {
    /// Whether both packets bind the same.
    pub fn same(&self, other: &Self) -> (result: bool)
        ensures
            result == (self@ == other@),
    {
        self.group == other.group && self.name == other.name && self.index == other.index
            && self.program_link_epoch == other.program_link_epoch && same_offsets(
            &self.dynamic_offsets,
            &other.dynamic_offsets,
        ) && self.dependencies.same(&other.dependencies)
    }

    /// Another packet that binds the same.
    pub fn duplicate(&self) -> (result: Self)
        ensures
            result@ == self@,
    {
        BoundGroupPacket {
            group: self.group,
            name: self.name,
            index: self.index,
            dynamic_offsets: copy_offsets(&self.dynamic_offsets),
            program_link_epoch: self.program_link_epoch,
            dependencies: self.dependencies.duplicate(),
        }
    }
}

/// What has to be bound before a draw or a dispatch. The owner acknowledges it
/// only after all of it has reached GL.
#[derive(Debug)]
pub struct BindingFlush {
    pub groups: Vec<BoundGroupPacket>,
}

impl View for BindingFlush {
    type V = Seq<BoundGroup>;

    open spec fn view(&self) -> Seq<BoundGroup> {
        self.groups@.map_values(|packet: BoundGroupPacket| packet@)
    }
}

impl BindingFlush {
    pub fn is_empty(&self) -> (result: bool)
        ensures
            result == (self@.len() == 0),
    {
        self.groups.len() == 0
    }

    /// Whether both flushes bind the same, in the same order.
    pub fn same(&self, other: &Self) -> (result: bool)
        ensures
            result == (self@ == other@),
    {
        if self.groups.len() != other.groups.len() {
            assert(self@.len() != other@.len());
            return false;
        }
        let mut at: usize = 0;
        while at < self.groups.len()
            invariant
                at <= self.groups@.len(),
                self.groups@.len() == other.groups@.len(),
                forall|i: int| 0 <= i < at ==> self@[i] == other@[i],
            decreases self.groups@.len() - at,
        {
            if !self.groups[at].same(&other.groups[at]) {
                assert(self@[at as int] != other@[at as int]);
                return false;
            }
            at += 1;
        }
        assert(self@ =~= other@);
        true
    }
}

/// The key of a derived vertex array or framebuffer. It goes when what it
/// depends on goes.
#[derive(Clone, Copy, Debug, PartialEq, Eq, Structural)]
pub struct DerivedCacheKey {
    pub kind: DerivedCacheKind,
    pub canonical: CanonicalBlockId,
}

/// What was derived.
#[derive(Clone, Copy, Debug, PartialEq, Eq, Structural)]
pub enum DerivedCacheKind {
    VertexArray,
    DrawFramebuffer,
    ReadFramebuffer,
}

impl Exact for DerivedCacheKey {
    fn same(&self, other: &Self) -> (result: bool) {
        *self == *other
    }
}

/// What the authority knows: `None` and an absent key mean that the driver may
/// hold anything there.
#[verifier::ext_equal]
pub struct StateModel {
    pub mode: ExecutionMode,
    pub pass: Option<PassPacket>,
    pub pipeline: Option<RasterPipelinePacket>,
    pub current_program: Option<CanonicalBlockId>,
    pub geometry: Option<CanonicalBlockId>,
    pub compute: Option<CanonicalBlockId>,
    pub pixel_transfer: Option<PixelTransferPacket>,
    pub query: Option<CanonicalBlockId>,
    pub bindings: Map<u64, BoundGroup>,
    pub dirty_bindings: Set<u64>,
    pub active_texture: Option<u32>,
    pub texture_slots: Map<u64, CanonicalBlockId>,
    pub uniform_slots: Map<u64, CanonicalBlockId>,
    pub storage_slots: Map<u64, CanonicalBlockId>,
    pub image_slots: Map<u64, CanonicalBlockId>,
    pub sampler_slots: Map<u64, CanonicalBlockId>,
    pub pipeline_packets: Map<u64, RasterPipelineBlocks>,
    pub derived: Map<DerivedCacheKey, Set<ResourceRef>>,
}

/// The map without the entries whose set holds the resource.
pub open spec fn not_derived_from(
    derived: Map<DerivedCacheKey, Set<ResourceRef>>,
    resource: ResourceRef,
) -> Map<DerivedCacheKey, Set<ResourceRef>> {
    derived.restrict(
        Set::new(|key: DerivedCacheKey| derived.contains_key(key) && !derived[key].contains(resource)),
    )
}

/// The bound groups that do not depend on the resource.
pub open spec fn not_bound_to(bindings: Map<u64, BoundGroup>, resource: ResourceRef) -> Map<
    u64,
    BoundGroup,
> {
    bindings.restrict(
        Set::new(
            |index: u64|
                bindings.contains_key(index) && !bindings[index].dependencies.contains(resource),
        ),
    )
}

/// The bound groups with another name.
pub open spec fn not_named(bindings: Map<u64, BoundGroup>, name: GlObjectName) -> Map<
    u64,
    BoundGroup,
> {
    bindings.restrict(
        Set::new(|index: u64| bindings.contains_key(index) && bindings[index].name != name),
    )
}

impl StateModel {
    /// The state of a context of which nothing is known.
    pub open spec fn unknown(mode: ExecutionMode) -> StateModel {
        StateModel {
            mode,
            pass: None,
            pipeline: None,
            current_program: None,
            geometry: None,
            compute: None,
            pixel_transfer: None,
            query: None,
            bindings: Map::empty(),
            dirty_bindings: Set::empty(),
            active_texture: None,
            texture_slots: Map::empty(),
            uniform_slots: Map::empty(),
            storage_slots: Map::empty(),
            image_slots: Map::empty(),
            sampler_slots: Map::empty(),
            pipeline_packets: Map::empty(),
            derived: Map::empty(),
        }
    }

    /// Every dirty group is bound, and every group stands at its own index.
    pub open spec fn wf(self) -> bool {
        &&& self.dirty_bindings.subset_of(self.bindings.dom())
        &&& forall|index: u64| #[trigger]
            self.bindings.contains_key(index) ==> self.bindings[index].index == index
    }

    /// Whether known state may stand in for a command.
    pub open spec fn may_skip(self) -> bool {
        self.mode is Optimized
    }

    /// What has to be installed for a registered pipeline.
    pub open spec fn pipeline_diff(self, wanted: RasterPipelinePacket) -> RasterPipelineDiff {
        if !self.may_skip() {
            full_diff()
        } else if self.pipeline is Some && self.pipeline->0.identity == wanted.identity
            && self.current_program == Some(wanted.blocks.program) {
            no_diff()
        } else {
            let installed = self.pipeline;
            RasterPipelineDiff {
                program: self.current_program != Some(wanted.blocks.program),
                raster: installed is None || installed->0.blocks.raster != wanted.blocks.raster,
                depth_stencil: installed is None || installed->0.blocks.depth_stencil
                    != wanted.blocks.depth_stencil,
                blend: installed is None || installed->0.blocks.blend != wanted.blocks.blend,
                multisample: installed is None || installed->0.blocks.multisample
                    != wanted.blocks.multisample,
            }
        }
    }

    /// What asking for a pipeline gives.
    pub open spec fn prepared_pipeline(self, wanted: RasterPipelinePacket) -> Result<
        RasterPipelineDiff,
        ContextStateError,
    > {
        let key = wanted.identity@ as u64;
        if !self.pipeline_packets.contains_key(key) {
            Err(ContextStateError::UnknownPipeline)
        } else if self.pipeline_packets[key] != wanted.blocks {
            Err(ContextStateError::PipelineIdentityConflict)
        } else {
            Ok(self.pipeline_diff(wanted))
        }
    }

    /// The state in which the pipeline is installed.
    pub open spec fn with_pipeline(self, wanted: RasterPipelinePacket) -> StateModel {
        StateModel {
            pipeline: Some(wanted),
            current_program: Some(wanted.blocks.program),
            ..self
        }
    }

    /// The state in which a group is bound at its index.
    pub open spec fn with_group(self, packet: BoundGroup) -> StateModel {
        let index = packet.index as u64;
        let unchanged = self.bindings.contains_key(index) && self.bindings[index] == packet;
        StateModel {
            bindings: self.bindings.insert(index, packet),
            dirty_bindings: if unchanged && self.may_skip() {
                self.dirty_bindings
            } else {
                self.dirty_bindings.insert(index)
            },
            ..self
        }
    }

    /// The state after the domains became unknown.
    pub open spec fn without(self, domains: Set<StateDomain>) -> StateModel {
        let bindings = domains.contains(StateDomain::Bindings);
        let raster = domains.contains(StateDomain::RasterPipeline);
        let compute = domains.contains(StateDomain::Compute);
        StateModel {
            mode: self.mode,
            pass: if domains.contains(StateDomain::PassFramebuffer) {
                None
            } else {
                self.pass
            },
            pipeline: if raster {
                None
            } else {
                self.pipeline
            },
            current_program: if raster || compute {
                None
            } else {
                self.current_program
            },
            geometry: if domains.contains(StateDomain::Geometry) {
                None
            } else {
                self.geometry
            },
            compute: if compute {
                None
            } else {
                self.compute
            },
            pixel_transfer: if domains.contains(StateDomain::PixelTransferCopy) {
                None
            } else {
                self.pixel_transfer
            },
            query: if domains.contains(StateDomain::Query) {
                None
            } else {
                self.query
            },
            bindings: self.bindings,
            dirty_bindings: if bindings {
                self.bindings.dom()
            } else {
                self.dirty_bindings
            },
            active_texture: if bindings {
                None
            } else {
                self.active_texture
            },
            texture_slots: if bindings {
                Map::empty()
            } else {
                self.texture_slots
            },
            uniform_slots: if bindings {
                Map::empty()
            } else {
                self.uniform_slots
            },
            storage_slots: if bindings {
                Map::empty()
            } else {
                self.storage_slots
            },
            image_slots: if bindings {
                Map::empty()
            } else {
                self.image_slots
            },
            sampler_slots: if bindings {
                Map::empty()
            } else {
                self.sampler_slots
            },
            pipeline_packets: self.pipeline_packets,
            derived: if domains.contains(StateDomain::DerivedCaches) {
                Map::empty()
            } else {
                self.derived
            },
        }
    }

    /// The state after an object was retired: nothing that depends on it stays.
    pub open spec fn without_resource(self, resource: ResourceRef) -> StateModel {
        let bindings = not_bound_to(self.bindings, resource);
        let state = StateModel {
            derived: not_derived_from(self.derived, resource),
            bindings,
            dirty_bindings: self.dirty_bindings.intersect(bindings.dom()),
            ..self
        };
        match resource {
            ResourceRef::Program(_) => StateModel {
                pipeline: None,
                compute: None,
                current_program: None,
                ..state
            },
            ResourceRef::VertexArray(_) => StateModel { geometry: None, ..state },
            ResourceRef::Buffer(_) => StateModel { geometry: None, ..state },
            ResourceRef::Texture(_) => StateModel { pass: None, pixel_transfer: None, ..state },
            ResourceRef::Renderbuffer(_) => StateModel {
                pass: None,
                pixel_transfer: None,
                ..state
            },
            ResourceRef::Framebuffer(_) => StateModel { pass: None, pixel_transfer: None, ..state },
            ResourceRef::Query(_) => StateModel { query: None, ..state },
            ResourceRef::Sampler(_) => StateModel { pixel_transfer: None, ..state },
            ResourceRef::Shader(_) => state,
            ResourceRef::Sync(_) => state,
        }
    }

    /// The state after the groups with a name were retired.
    pub open spec fn without_group(self, name: GlObjectName) -> StateModel {
        let bindings = not_named(self.bindings, name);
        StateModel {
            bindings,
            dirty_bindings: self.dirty_bindings.intersect(bindings.dom()),
            ..self
        }
    }

    /// The state after the context was replaced: only the groups are kept, and
    /// all of them are dirty.
    pub open spec fn forgotten(self) -> StateModel {
        StateModel {
            bindings: self.bindings,
            dirty_bindings: self.bindings.dom(),
            ..StateModel::unknown(self.mode)
        }
    }

    /// The state after an event.
    pub open spec fn after(self, event: StateEvent) -> StateModel {
        match event {
            StateEvent::BufferRetired(id) => self.without_resource(ResourceRef::Buffer(id)),
            StateEvent::TextureRetired(id) => self.without_resource(ResourceRef::Texture(id)),
            StateEvent::RenderbufferRetired(id) => self.without_resource(
                ResourceRef::Renderbuffer(id),
            ),
            StateEvent::FramebufferRetired(id) => self.without_resource(
                ResourceRef::Framebuffer(id),
            ),
            StateEvent::QueryRetired(id) => self.without_resource(ResourceRef::Query(id)),
            StateEvent::SamplerRetired(id) => self.without_resource(ResourceRef::Sampler(id)),
            StateEvent::ProgramRetired(id) => self.without_resource(ResourceRef::Program(id)),
            StateEvent::VertexArrayRetired(id) => self.without_resource(
                ResourceRef::VertexArray(id),
            ),
            StateEvent::DomainFailed(domain) => self.without(event::only(domain)),
            StateEvent::ScopedRawAccess(access) => self.without(access@),
            StateEvent::ContextLost => self.forgotten(),
            StateEvent::ContextRestored(_) => self.forgotten(),
            StateEvent::DeviceReplaced(_) => self.forgotten(),
        }
    }
}

/// Whether a command that would install the value has to be emitted.
pub open spec fn must_emit<T>(mode: ExecutionMode, known: Option<T>, wanted: T) -> bool {
    !(mode is Optimized && known == Some(wanted))
}

/// What is known of a slot.
pub open spec fn slot_value(slots: Map<u64, CanonicalBlockId>, slot: u32) -> Option<
    CanonicalBlockId,
> {
    if slots.contains_key(slot as u64) {
        Some(slots[slot as u64])
    } else {
        None
    }
}

/// Whether the groups are the dirty ones, in ascending order of their index.
pub open spec fn flushes(
    bindings: Map<u64, BoundGroup>,
    dirty: Set<u64>,
    groups: Seq<BoundGroup>,
) -> bool {
    &&& forall|i: int, j: int|
        0 <= i < j < groups.len() ==> (#[trigger] groups[i]).index < (#[trigger] groups[j]).index
    &&& forall|i: int|
        0 <= i < groups.len() ==> dirty.contains((#[trigger] groups[i]).index as u64)
            && groups[i] == bindings[groups[i].index as u64]
    &&& forall|index: u64| #[trigger]
        dirty.contains(index) ==> exists|i: int|
            0 <= i < groups.len() && (#[trigger] groups[i]).index == index
}

/// The dirty groups, in ascending order of their index.
pub open spec fn flush_of(bindings: Map<u64, BoundGroup>, dirty: Set<u64>) -> Seq<BoundGroup> {
    choose|groups: Seq<BoundGroup>| flushes(bindings, dirty, groups)
}

proof fn lemma_flush_prefix(
    bindings: Map<u64, BoundGroup>,
    dirty: Set<u64>,
    left: Seq<BoundGroup>,
    right: Seq<BoundGroup>,
    count: int,
)
    requires
        flushes(bindings, dirty, left),
        flushes(bindings, dirty, right),
        0 <= count <= left.len(),
    ensures
        count <= right.len(),
        forall|i: int| 0 <= i < count ==> left[i] == right[i],
    decreases count,
{
    if count > 0 {
        let at = count - 1;
        lemma_flush_prefix(bindings, dirty, left, right, at);
        let index = left[at].index as u64;
        assert(dirty.contains(index));
        let other = choose|j: int| 0 <= j < right.len() && (#[trigger] right[j]).index == index;
        if other < at {
            assert(right[other] == left[other]);
            assert(left[other].index < left[at].index);
        }
        let found = right[at].index as u64;
        assert(dirty.contains(found));
        let back = choose|j: int| 0 <= j < left.len() && (#[trigger] left[j]).index == found;
        if back < at {
            assert(left[back] == right[back]);
            assert(right[back].index < right[at].index);
        }
        if other > at {
            assert(right[at].index < right[other].index);
            if back > at {
                assert(left[at].index < left[back].index);
            }
        }
    }
}

/// A flush is determined by what is bound and dirty.
pub proof fn flush_is_unique(
    bindings: Map<u64, BoundGroup>,
    dirty: Set<u64>,
    left: Seq<BoundGroup>,
    right: Seq<BoundGroup>,
)
    requires
        flushes(bindings, dirty, left),
        flushes(bindings, dirty, right),
    ensures
        left == right,
{
    lemma_flush_prefix(bindings, dirty, left, right, left.len() as int);
    lemma_flush_prefix(bindings, dirty, right, left, right.len() as int);
    assert(left =~= right);
}

/// The indices at which exactly one of the groups is bound.
pub open spec fn settled(bindings: Map<u64, BoundGroup>, groups: Seq<BoundGroup>) -> Set<u64> {
    Set::new(
        |index: u64|
            exists|i: int|
                0 <= i < groups.len() && (#[trigger] groups[i]).index == index
                    && bindings.contains_key(index) && bindings[index] == groups[i],
    )
}

impl StateModel {
    /// The state after a flush has reached GL. What was bound anew in the
    /// meantime waits for its own.
    pub open spec fn acknowledged(self, groups: Seq<BoundGroup>) -> StateModel {
        StateModel {
            dirty_bindings: self.dirty_bindings.difference(settled(self.bindings, groups)),
            ..self
        }
    }
}

/// The state authority of one real context.
pub struct ContextState {
    mode: ExecutionMode,
    pass: DriverKnowledge<PassPacket>,
    pipeline: DriverKnowledge<RasterPipelinePacket>,
    current_program: DriverKnowledge<CanonicalBlockId>,
    geometry: DriverKnowledge<CanonicalBlockId>,
    compute: DriverKnowledge<CanonicalBlockId>,
    pixel_transfer: DriverKnowledge<PixelTransferPacket>,
    query: DriverKnowledge<CanonicalBlockId>,
    bindings: Table<BoundGroupPacket>,
    dirty_bindings: Table<()>,
    active_texture: DriverKnowledge<u32>,
    texture_slots: Table<CanonicalBlockId>,
    uniform_slots: Table<CanonicalBlockId>,
    storage_slots: Table<CanonicalBlockId>,
    image_slots: Table<CanonicalBlockId>,
    sampler_slots: Table<CanonicalBlockId>,
    pipeline_packets: Table<RasterPipelineBlocks>,
    derived: Assoc<DerivedCacheKey, DependencySet>,
}

spec fn group_values(bindings: Map<u64, BoundGroupPacket>) -> Map<u64, BoundGroup> {
    bindings.map_values(|packet: BoundGroupPacket| packet@)
}

spec fn set_values(derived: Map<DerivedCacheKey, DependencySet>) -> Map<
    DerivedCacheKey,
    Set<ResourceRef>,
> {
    derived.map_values(|set: DependencySet| set@)
}

impl View for ContextState {
    type V = StateModel;

    closed spec fn view(&self) -> StateModel {
        StateModel {
            mode: self.mode,
            pass: self.pass@,
            pipeline: self.pipeline@,
            current_program: self.current_program@,
            geometry: self.geometry@,
            compute: self.compute@,
            pixel_transfer: self.pixel_transfer@,
            query: self.query@,
            bindings: group_values(self.bindings@),
            dirty_bindings: self.dirty_bindings@.dom(),
            active_texture: self.active_texture@,
            texture_slots: self.texture_slots@,
            uniform_slots: self.uniform_slots@,
            storage_slots: self.storage_slots@,
            image_slots: self.image_slots@,
            sampler_slots: self.sampler_slots@,
            pipeline_packets: self.pipeline_packets@,
            derived: set_values(self.derived@),
        }
    }
}

fn keys_of(bindings: &Table<BoundGroupPacket>) -> (result: Table<()>)
    requires
        bindings.wf(),
    ensures
        result.wf(),
        result@.dom() == bindings@.dom(),
{
    let mut result: Table<()> = Table::new();
    let mut at: usize = 0;
    proof {
        bindings.lemma_pairs();
    }
    while at < bindings.len()
        invariant
            at <= bindings.pairs().len(),
            result.wf(),
            bindings.wf(),
            forall|key: u64| #[trigger]
                result@.contains_key(key) == table::has_key(bindings.pairs().take(at as int), key),
        decreases bindings.pairs().len() - at,
    {
        let key: u64 = bindings.key_at(at);
        let ghost before = result@;
        let _ = result.insert(key, ());
        proof {
            let shorter = bindings.pairs().take(at as int);
            let longer = bindings.pairs().take(at + 1);
            assert forall|other: u64| #[trigger]
                result@.contains_key(other) == table::has_key(longer, other) by {
                if table::has_key(shorter, other) {
                    let k = choose|k: int| 0 <= k < shorter.len() && (#[trigger] shorter[k]).0 == other;
                    assert(longer[k].0 == other);
                }
                if table::has_key(longer, other) {
                    let k = choose|k: int| 0 <= k < longer.len() && (#[trigger] longer[k]).0 == other;
                    if k < at {
                        assert(shorter[k].0 == other);
                    }
                }
                assert(longer[at as int].0 == key);
                assert(before.contains_key(other) == table::has_key(shorter, other));
            }
        }
        at += 1;
    }
    proof {
        bindings.lemma_pairs();
        assert(bindings.pairs().take(at as int) =~= bindings.pairs());
        assert forall|key: u64| result@.dom().contains(key) == bindings@.dom().contains(key) by {
            assert(result@.contains_key(key) == table::has_key(bindings.pairs(), key));
            if table::has_key(bindings.pairs(), key) {
                let k = choose|k: int|
                    0 <= k < bindings.pairs().len() && (#[trigger] bindings.pairs()[k]).0 == key;
                assert(bindings@.contains_key(bindings.pairs()[k].0));
            }
        }
        assert(result@.dom() =~= bindings@.dom());
    }
    result
}

fn keys_within(keys: &Table<()>, bindings: &Table<BoundGroupPacket>) -> (result: Table<()>)
    requires
        keys.wf(),
        bindings.wf(),
    ensures
        result.wf(),
        result@.dom() == keys@.dom().intersect(bindings@.dom()),
{
    let mut result: Table<()> = Table::new();
    let mut at: usize = 0;
    proof {
        keys.lemma_pairs();
    }
    while at < keys.len()
        invariant
            at <= keys.pairs().len(),
            result.wf(),
            keys.wf(),
            bindings.wf(),
            forall|key: u64| #[trigger]
                result@.contains_key(key) == (table::has_key(keys.pairs().take(at as int), key)
                    && bindings@.contains_key(key)),
        decreases keys.pairs().len() - at,
    {
        let key: u64 = keys.key_at(at);
        let ghost before = result@;
        if bindings.contains_key(key) {
            let _ = result.insert(key, ());
        }
        proof {
            let shorter = keys.pairs().take(at as int);
            let longer = keys.pairs().take(at + 1);
            assert forall|other: u64| #[trigger]
                result@.contains_key(other) == (table::has_key(longer, other) && bindings@.contains_key(
                    other,
                )) by {
                if table::has_key(shorter, other) {
                    let k = choose|k: int| 0 <= k < shorter.len() && (#[trigger] shorter[k]).0 == other;
                    assert(longer[k].0 == other);
                }
                if table::has_key(longer, other) {
                    let k = choose|k: int| 0 <= k < longer.len() && (#[trigger] longer[k]).0 == other;
                    if k < at {
                        assert(shorter[k].0 == other);
                    }
                }
                assert(longer[at as int].0 == key);
                assert(before.contains_key(other) == (table::has_key(shorter, other)
                    && bindings@.contains_key(other)));
            }
        }
        at += 1;
    }
    proof {
        keys.lemma_pairs();
        assert(keys.pairs().take(at as int) =~= keys.pairs());
        assert forall|key: u64|
            result@.dom().contains(key) == keys@.dom().intersect(bindings@.dom()).contains(key) by {
            assert(result@.contains_key(key) == (table::has_key(keys.pairs(), key)
                && bindings@.contains_key(key)));
            if table::has_key(keys.pairs(), key) {
                let k = choose|k: int|
                    0 <= k < keys.pairs().len() && (#[trigger] keys.pairs()[k]).0 == key;
                assert(keys@.contains_key(keys.pairs()[k].0));
            }
        }
        assert(result@.dom() =~= keys@.dom().intersect(bindings@.dom()));
    }
    result
}

fn slot_holds(slots: &Table<CanonicalBlockId>, slot: u32, wanted: CanonicalBlockId) -> (result: bool)
    requires
        slots.wf(),
    ensures
        result == (slot_value(slots@, slot) == Some(wanted)),
{
    match slots.get(slot as u64) {
        Some(known) => *known == wanted,
        None => false,
    }
}

/// The values that do not depend on an object.
struct Unrelated {
    resource: ResourceRef,
}

impl Keep<DependencySet> for Unrelated {
    closed spec fn keeps(&self, value: DependencySet) -> bool {
        !value@.contains(self.resource)
    }

    fn test(&self, value: &DependencySet) -> (result: bool) {
        !value.contains(&self.resource)
    }
}

impl Keep<BoundGroupPacket> for Unrelated {
    closed spec fn keeps(&self, value: BoundGroupPacket) -> bool {
        !value.dependencies@.contains(self.resource)
    }

    fn test(&self, value: &BoundGroupPacket) -> (result: bool) {
        !value.dependencies.contains(&self.resource)
    }
}

/// The groups with another name.
struct NotNamed {
    name: GlObjectName,
}

impl Keep<BoundGroupPacket> for NotNamed {
    closed spec fn keeps(&self, value: BoundGroupPacket) -> bool {
        value.name != self.name
    }

    fn test(&self, value: &BoundGroupPacket) -> (result: bool) {
        value.name != self.name
    }
}

impl ContextState {
    /// The tables are in order, and so is the model.
    pub closed spec fn wf(&self) -> bool {
        &&& self.bindings.wf()
        &&& self.dirty_bindings.wf()
        &&& self.texture_slots.wf()
        &&& self.uniform_slots.wf()
        &&& self.storage_slots.wf()
        &&& self.image_slots.wf()
        &&& self.sampler_slots.wf()
        &&& self.pipeline_packets.wf()
        &&& self.derived.wf()
        &&& self@.wf()
    }

    /// The model of an authority that is in order is in order.
    pub proof fn lemma_wf(&self)
        requires
            self.wf(),
        ensures
            self@.wf(),
    {
    }

    pub fn new(mode: ExecutionMode) -> (result: Self)
        ensures
            result.wf(),
            result@ == StateModel::unknown(mode),
    {
        let result = ContextState {
            mode,
            pass: DriverKnowledge::Unknown,
            pipeline: DriverKnowledge::Unknown,
            current_program: DriverKnowledge::Unknown,
            geometry: DriverKnowledge::Unknown,
            compute: DriverKnowledge::Unknown,
            pixel_transfer: DriverKnowledge::Unknown,
            query: DriverKnowledge::Unknown,
            bindings: Table::new(),
            dirty_bindings: Table::new(),
            active_texture: DriverKnowledge::Unknown,
            texture_slots: Table::new(),
            uniform_slots: Table::new(),
            storage_slots: Table::new(),
            image_slots: Table::new(),
            sampler_slots: Table::new(),
            pipeline_packets: Table::new(),
            derived: Assoc::new(),
        };
        proof {
            assert(result@.bindings =~= Map::<u64, BoundGroup>::empty());
            assert(result@.dirty_bindings =~= Set::<u64>::empty());
            assert(result@.derived =~= Map::<DerivedCacheKey, Set<ResourceRef>>::empty());
        }
        result
    }

    /// A pass begin loads and clears, so it is a command and never skipped.
    pub fn prepare_pass(&self, pass: PassPacket) -> (result: bool)
        ensures
            result,
    {
        true
    }

    pub fn commit_pass(&mut self, pass: PassPacket)
        requires
            old(self).wf(),
        ensures
            final(self).wf(),
            final(self)@ == (StateModel { pass: Some(pass), ..old(self)@ }),
    {
        self.pass.set(pass);
    }

    pub fn pass_failed(&mut self)
        requires
            old(self).wf(),
        ensures
            final(self).wf(),
            final(self)@ == (StateModel { pass: None, ..old(self)@ }),
    {
        self.pass.invalidate();
    }

    pub fn end_pass(&mut self)
        requires
            old(self).wf(),
        ensures
            final(self).wf(),
            final(self)@ == (StateModel { pass: None, ..old(self)@ }),
    {
        self.pass.invalidate();
    }

    /// Whether a pass is known to be active.
    pub fn pass_is_known(&self) -> (result: bool)
        ensures
            result == (self@.pass is Some),
    {
        self.pass.is_known()
    }

    pub fn draw(&self) -> (result: bool)
        ensures
            result,
    {
        true
    }

    pub fn dispatch(&self) -> (result: bool)
        ensures
            result,
    {
        true
    }

    pub fn clear(&self) -> (result: bool)
        ensures
            result,
    {
        true
    }

    pub fn query_command(&self) -> (result: bool)
        ensures
            result,
    {
        true
    }

    pub fn barrier(&self) -> (result: bool)
        ensures
            result,
    {
        true
    }

    /// Registers a pipeline. The same identity can be registered again only
    /// with the same blocks.
    pub fn register_pipeline(&mut self, packet: RasterPipelinePacket) -> (result: Result<
        (),
        ContextStateError,
    >)
        requires
            old(self).wf(),
        ensures
            final(self).wf(),
            ({
                let key = packet.identity@ as u64;
                let known = old(self)@.pipeline_packets;
                if known.contains_key(key) && known[key] != packet.blocks {
                    &&& result == Err::<(), _>(ContextStateError::PipelineIdentityConflict)
                    &&& final(self)@ == old(self)@
                } else {
                    &&& result == Ok::<_, ContextStateError>(())
                    &&& final(self)@ == (StateModel {
                        pipeline_packets: known.insert(key, packet.blocks),
                        ..old(self)@
                    })
                }
            }),
    {
        let key: u64 = packet.identity.raw() as u64;
        match self.pipeline_packets.get(key) {
            None => {},
            Some(blocks) => {
                if *blocks == packet.blocks {
                    assert(self@.pipeline_packets =~= self@.pipeline_packets.insert(
                        key,
                        packet.blocks,
                    ));
                    return Ok(());
                } else {
                    return Err(ContextStateError::PipelineIdentityConflict);
                }
            },
        }
        let _ = self.pipeline_packets.insert(key, packet.blocks);
        Ok(())
    }

    /// What has to be installed for a pipeline.
    pub fn prepare_pipeline(&self, wanted: RasterPipelinePacket) -> (result: Result<
        RasterPipelineDiff,
        ContextStateError,
    >)
        requires
            self.wf(),
        ensures
            result == self@.prepared_pipeline(wanted),
    {
        match self.pipeline_packets.get(wanted.identity.raw() as u64) {
            None => {
                return Err(ContextStateError::UnknownPipeline);
            },
            Some(blocks) => {
                if *blocks != wanted.blocks {
                    return Err(ContextStateError::PipelineIdentityConflict);
                }
            },
        }
        if !self.mode.may_skip() {
            return Ok(
                RasterPipelineDiff {
                    program: true,
                    raster: true,
                    depth_stencil: true,
                    blend: true,
                    multisample: true,
                },
            );
        }
        // Compute and raster share the current program: it is compared on its
        // own, also where the pipeline itself is the installed one.
        let program = !self.current_program.agrees(&wanted.blocks.program);
        match self.pipeline.get() {
            None => Ok(
                RasterPipelineDiff {
                    program,
                    raster: true,
                    depth_stencil: true,
                    blend: true,
                    multisample: true,
                },
            ),
            Some(have) => {
                if have.identity == wanted.identity && !program {
                    Ok(RasterPipelineDiff::default())
                } else {
                    Ok(
                        RasterPipelineDiff {
                            program,
                            raster: have.blocks.raster != wanted.blocks.raster,
                            depth_stencil: have.blocks.depth_stencil
                                != wanted.blocks.depth_stencil,
                            blend: have.blocks.blend != wanted.blocks.blend,
                            multisample: have.blocks.multisample != wanted.blocks.multisample,
                        },
                    )
                }
            },
        }
    }

    pub fn commit_pipeline(&mut self, wanted: RasterPipelinePacket)
        requires
            old(self).wf(),
        ensures
            final(self).wf(),
            final(self)@ == old(self)@.with_pipeline(wanted),
    {
        self.current_program.set(wanted.blocks.program);
        self.pipeline.set(wanted);
    }

    /// To be called when installing a part of a pipeline failed.
    pub fn pipeline_failed(&mut self)
        requires
            old(self).wf(),
        ensures
            final(self).wf(),
            final(self)@ == (StateModel { pipeline: None, current_program: None, ..old(self)@ }),
    {
        self.pipeline.invalidate();
        self.current_program.invalidate();
    }

    pub fn prepare_geometry(&self, wanted: CanonicalBlockId) -> (result: bool)
        ensures
            result == must_emit(self@.mode, self@.geometry, wanted),
    {
        !(self.mode.may_skip() && self.geometry.agrees(&wanted))
    }

    pub fn commit_geometry(&mut self, wanted: CanonicalBlockId)
        requires
            old(self).wf(),
        ensures
            final(self).wf(),
            final(self)@ == (StateModel { geometry: Some(wanted), ..old(self)@ }),
    {
        self.geometry.set(wanted);
    }

    pub fn geometry_failed(&mut self)
        requires
            old(self).wf(),
        ensures
            final(self).wf(),
            final(self)@ == (StateModel { geometry: None, ..old(self)@ }),
    {
        self.geometry.invalidate();
    }

    pub fn prepare_compute_program(&self, wanted: CanonicalBlockId) -> (result: bool)
        ensures
            result == must_emit(self@.mode, self@.current_program, wanted),
    {
        !(self.mode.may_skip() && self.current_program.agrees(&wanted))
    }

    pub fn commit_compute_program(&mut self, wanted: CanonicalBlockId)
        requires
            old(self).wf(),
        ensures
            final(self).wf(),
            final(self)@ == (StateModel {
                current_program: Some(wanted),
                compute: Some(wanted),
                ..old(self)@
            }),
    {
        self.current_program.set(wanted);
        self.compute.set(wanted);
    }

    pub fn prepare_pixel_transfer(&self, wanted: PixelTransferPacket) -> (result: bool)
        ensures
            result == must_emit(self@.mode, self@.pixel_transfer, wanted),
    {
        !(self.mode.may_skip() && self.pixel_transfer.agrees(&wanted))
    }

    pub fn commit_pixel_transfer(&mut self, wanted: PixelTransferPacket)
        requires
            old(self).wf(),
        ensures
            final(self).wf(),
            final(self)@ == (StateModel { pixel_transfer: Some(wanted), ..old(self)@ }),
    {
        self.pixel_transfer.set(wanted);
    }

    /// The begin and the end of a query are commands and always emitted. What
    /// is tracked is the active target.
    pub fn prepare_query_command(&self, target: CanonicalBlockId) -> (result: bool)
        ensures
            result,
    {
        true
    }

    pub fn commit_query_begin(&mut self, target: CanonicalBlockId)
        requires
            old(self).wf(),
        ensures
            final(self).wf(),
            final(self)@ == (StateModel { query: Some(target), ..old(self)@ }),
    {
        self.query.set(target);
    }

    pub fn commit_query_end(&mut self)
        requires
            old(self).wf(),
        ensures
            final(self).wf(),
            final(self)@ == (StateModel { query: None, ..old(self)@ }),
    {
        self.query.invalidate();
    }

    pub fn query_failed(&mut self)
        requires
            old(self).wf(),
        ensures
            final(self).wf(),
            final(self)@ == (StateModel { query: None, ..old(self)@ }),
    {
        self.query.invalidate();
    }

    /// Binds a group. It is dirty unless the same group was bound before.
    pub fn stage_bind_group(&mut self, packet: BoundGroupPacket)
        requires
            old(self).wf(),
        ensures
            final(self).wf(),
            final(self)@ == old(self)@.with_group(packet@),
    {
        let index: u64 = packet.index as u64;
        let unchanged = match self.bindings.get(index) {
            Some(known) => known.same(&packet),
            None => false,
        };
        if !(unchanged && self.mode.may_skip()) {
            let _ = self.dirty_bindings.insert(index, ());
        }
        let ghost before = self.bindings@;
        let ghost value = packet@;
        let _ = self.bindings.insert(index, packet);
        proof {
            assert(group_values(self.bindings@) =~= group_values(before).insert(index, value));
            assert(self@.dirty_bindings =~= old(self)@.with_group(value).dirty_bindings);
        }
    }

    /// Whether the texture unit has to be made active, and whether the texture
    /// has to be bound to it.
    pub fn prepare_texture_slot(&self, unit: u32, binding: CanonicalBlockId) -> (result: (
        bool,
        bool,
    ))
        requires
            self.wf(),
        ensures
            result.0 == must_emit(self@.mode, self@.active_texture, unit),
            result.1 == must_emit(self@.mode, slot_value(self@.texture_slots, unit), binding),
    {
        (
            !(self.mode.may_skip() && self.active_texture.agrees(&unit)),
            !(self.mode.may_skip() && slot_holds(&self.texture_slots, unit, binding)),
        )
    }

    pub fn commit_texture_slot(&mut self, unit: u32, binding: CanonicalBlockId)
        requires
            old(self).wf(),
        ensures
            final(self).wf(),
            final(self)@ == (StateModel {
                active_texture: Some(unit),
                texture_slots: old(self)@.texture_slots.insert(unit as u64, binding),
                ..old(self)@
            }),
    {
        self.active_texture.set(unit);
        let _ = self.texture_slots.insert(unit as u64, binding);
    }

    pub fn prepare_uniform_slot(&self, index: u32, binding: CanonicalBlockId) -> (result: bool)
        requires
            self.wf(),
        ensures
            result == must_emit(self@.mode, slot_value(self@.uniform_slots, index), binding),
    {
        !(self.mode.may_skip() && slot_holds(&self.uniform_slots, index, binding))
    }

    pub fn commit_uniform_slot(&mut self, index: u32, binding: CanonicalBlockId)
        requires
            old(self).wf(),
        ensures
            final(self).wf(),
            final(self)@ == (StateModel {
                uniform_slots: old(self)@.uniform_slots.insert(index as u64, binding),
                ..old(self)@
            }),
    {
        let _ = self.uniform_slots.insert(index as u64, binding);
    }

    pub fn prepare_storage_slot(&self, index: u32, binding: CanonicalBlockId) -> (result: bool)
        requires
            self.wf(),
        ensures
            result == must_emit(self@.mode, slot_value(self@.storage_slots, index), binding),
    {
        !(self.mode.may_skip() && slot_holds(&self.storage_slots, index, binding))
    }

    pub fn commit_storage_slot(&mut self, index: u32, binding: CanonicalBlockId)
        requires
            old(self).wf(),
        ensures
            final(self).wf(),
            final(self)@ == (StateModel {
                storage_slots: old(self)@.storage_slots.insert(index as u64, binding),
                ..old(self)@
            }),
    {
        let _ = self.storage_slots.insert(index as u64, binding);
    }

    pub fn prepare_image_slot(&self, index: u32, binding: CanonicalBlockId) -> (result: bool)
        requires
            self.wf(),
        ensures
            result == must_emit(self@.mode, slot_value(self@.image_slots, index), binding),
    {
        !(self.mode.may_skip() && slot_holds(&self.image_slots, index, binding))
    }

    pub fn commit_image_slot(&mut self, index: u32, binding: CanonicalBlockId)
        requires
            old(self).wf(),
        ensures
            final(self).wf(),
            final(self)@ == (StateModel {
                image_slots: old(self)@.image_slots.insert(index as u64, binding),
                ..old(self)@
            }),
    {
        let _ = self.image_slots.insert(index as u64, binding);
    }

    pub fn prepare_sampler_slot(&self, index: u32, binding: CanonicalBlockId) -> (result: bool)
        requires
            self.wf(),
        ensures
            result == must_emit(self@.mode, slot_value(self@.sampler_slots, index), binding),
    {
        !(self.mode.may_skip() && slot_holds(&self.sampler_slots, index, binding))
    }

    pub fn commit_sampler_slot(&mut self, index: u32, binding: CanonicalBlockId)
        requires
            old(self).wf(),
        ensures
            final(self).wf(),
            final(self)@ == (StateModel {
                sampler_slots: old(self)@.sampler_slots.insert(index as u64, binding),
                ..old(self)@
            }),
    {
        let _ = self.sampler_slots.insert(index as u64, binding);
    }

    /// What has to be bound before the next draw or dispatch.
    pub fn binding_flush(&self) -> (result: BindingFlush)
        requires
            self.wf(),
        ensures
            flushes(self@.bindings, self@.dirty_bindings, result@),
            result@ == flush_of(self@.bindings, self@.dirty_bindings),
    {
        let mut groups: Vec<BoundGroupPacket> = Vec::new();
        let mut at: usize = 0;
        let ghost pairs = self.dirty_bindings.pairs();
        proof {
            self.dirty_bindings.lemma_pairs();
        }
        while at < self.dirty_bindings.len()
            invariant
                at <= pairs.len(),
                self.wf(),
                pairs == self.dirty_bindings.pairs(),
                table::ascending(pairs),
                forall|i: int|
                    0 <= i < pairs.len() ==> self.dirty_bindings@.contains_key(
                        (#[trigger] pairs[i]).0,
                    ),
                groups@.len() == at,
                forall|i: int|
                    0 <= i < at ==> (#[trigger] groups@[i]@) == self@.bindings[pairs[i].0]
                        && groups@[i]@.index == pairs[i].0,
            decreases pairs.len() - at,
        {
            let index: u64 = self.dirty_bindings.key_at(at);
            proof {
                assert(pairs[at as int].0 == index);
                assert(self@.dirty_bindings.contains(index));
                assert(self@.bindings.contains_key(index));
                assert(self.bindings@.contains_key(index));
                assert(self@.bindings[index] == self.bindings@[index]@);
            }
            match self.bindings.get(index) {
                Some(packet) => {
                    groups.push(packet.duplicate());
                },
                None => {
                    assert(false);
                },
            }
            at += 1;
        }
        let result = BindingFlush { groups };
        proof {
            assert forall|i: int| 0 <= i < result@.len() implies (#[trigger] result@[i]).index
                == pairs[i].0 && result@[i] == self@.bindings[pairs[i].0] by {
                assert(result@[i] == groups@[i]@);
            }
            assert forall|index: u64| #[trigger] self@.dirty_bindings.contains(index) implies exists|
                i: int,
            | 0 <= i < result@.len() && (#[trigger] result@[i]).index == index by {
                assert(self.dirty_bindings@.contains_key(index));
                self.dirty_bindings.lemma_pairs();
                let k = choose|k: int| 0 <= k < pairs.len() && (#[trigger] pairs[k]).0 == index;
                assert(result@[k].index == index);
            }
            assert(flushes(self@.bindings, self@.dirty_bindings, result@));
            flush_is_unique(
                self@.bindings,
                self@.dirty_bindings,
                result@,
                flush_of(self@.bindings, self@.dirty_bindings),
            );
        }
        result
    }

    /// Notes that a flush has reached GL. A group that was staged again with
    /// something else since then stays dirty.
    pub fn acknowledge_bindings(&mut self, flushed: &BindingFlush)
        requires
            old(self).wf(),
        ensures
            final(self).wf(),
            final(self)@ == old(self)@.acknowledged(flushed@),
    {
        let ghost start = *self;
        let mut at: usize = 0;
        proof {
            assert(self@.dirty_bindings =~= start@.dirty_bindings.difference(
                settled(start@.bindings, flushed@.take(0)),
            ));
        }
        while at < flushed.groups.len()
            invariant
                at <= flushed.groups@.len(),
                self.wf(),
                self@ == start@.acknowledged(flushed@.take(at as int)),
            decreases flushed.groups@.len() - at,
        {
            let index: u64 = flushed.groups[at].index as u64;
            let reached = match self.bindings.get(index) {
                Some(bound) => bound.same(&flushed.groups[at]),
                None => false,
            };
            if reached {
                let _ = self.dirty_bindings.remove(index);
            }
            proof {
                let shorter = flushed@.take(at as int);
                let longer = flushed@.take(at + 1);
                let bindings = start@.bindings;
                assert(longer[at as int] == flushed.groups@[at as int]@);
                assert(reached == (bindings.contains_key(index) && bindings[index]
                    == longer[at as int]));
                assert forall|other: u64|
                    settled(bindings, longer).contains(other) == (settled(
                        bindings,
                        shorter,
                    ).contains(other) || (reached && other == index)) by {
                    if settled(bindings, shorter).contains(other) {
                        let k = choose|k: int|
                            0 <= k < shorter.len() && (#[trigger] shorter[k]).index == other
                                && bindings.contains_key(other) && bindings[other] == shorter[k];
                        assert(longer[k].index == other);
                    }
                    if settled(bindings, longer).contains(other) {
                        let k = choose|k: int|
                            0 <= k < longer.len() && (#[trigger] longer[k]).index == other
                                && bindings.contains_key(other) && bindings[other] == longer[k];
                        if k < at {
                            assert(shorter[k].index == other);
                        }
                    }
                }
                assert(self@.dirty_bindings =~= start@.dirty_bindings.difference(
                    settled(bindings, longer),
                ));
            }
            at += 1;
        }
        assert(flushed@.take(at as int) =~= flushed@);
    }

    /// Notes what a derived object depends on.
    pub fn register_derived(&mut self, key: DerivedCacheKey, dependencies: DependencySet)
        requires
            old(self).wf(),
        ensures
            final(self).wf(),
            final(self)@ == (StateModel {
                derived: old(self)@.derived.insert(key, dependencies@),
                ..old(self)@
            }),
    {
        let ghost before = self.derived@;
        let ghost value = dependencies@;
        self.derived.insert(key, dependencies);
        assert(set_values(self.derived@) =~= set_values(before).insert(key, value));
    }

    /// Takes note of an event.
    pub fn event(&mut self, event: StateEvent)
        requires
            old(self).wf(),
        ensures
            final(self).wf(),
            final(self)@ == old(self)@.after(event),
    {
        match event {
            StateEvent::BufferRetired(id) => self.retire(ResourceRef::Buffer(id)),
            StateEvent::TextureRetired(id) => self.retire(ResourceRef::Texture(id)),
            StateEvent::RenderbufferRetired(id) => self.retire(ResourceRef::Renderbuffer(id)),
            StateEvent::FramebufferRetired(id) => self.retire(ResourceRef::Framebuffer(id)),
            StateEvent::QueryRetired(id) => self.retire(ResourceRef::Query(id)),
            StateEvent::SamplerRetired(id) => self.retire(ResourceRef::Sampler(id)),
            StateEvent::ProgramRetired(id) => self.retire(ResourceRef::Program(id)),
            StateEvent::VertexArrayRetired(id) => self.retire(ResourceRef::VertexArray(id)),
            StateEvent::DomainFailed(domain) => self.invalidate_domain(domain),
            StateEvent::ScopedRawAccess(access) => {
                let domains = access.domains().iter();
                let ghost start = self@;
                let mut at: usize = 0;
                proof {
                    lemma_without_nothing(start);
                    assert(domains@.take(0).to_set() =~= Set::<StateDomain>::empty());
                }
                while at < domains.len()
                    invariant
                        at <= domains@.len(),
                        self.wf(),
                        self@ == start.without(domains@.take(at as int).to_set()),
                    decreases domains@.len() - at,
                {
                    self.invalidate_domain(domains[at]);
                    proof {
                        let shorter = domains@.take(at as int);
                        let longer = domains@.take(at + 1);
                        assert(longer =~= shorter.push(domains@[at as int]));
                        assert forall|domain: StateDomain|
                            longer.to_set().contains(domain) == shorter.to_set().insert(
                                domains@[at as int],
                            ).contains(domain) by {
                            if shorter.contains(domain) {
                                let k = choose|k: int| 0 <= k < shorter.len() && shorter[k] == domain;
                                assert(longer[k] == domain);
                            }
                            assert(longer[at as int] == domains@[at as int]);
                        }
                        assert(longer.to_set() =~= shorter.to_set().insert(domains@[at as int]));
                        lemma_without_one_more(start, shorter.to_set(), domains@[at as int]);
                    }
                    at += 1;
                }
                proof {
                    assert(domains@.take(at as int) =~= domains@);
                    assert(domains@.to_set() =~= access@);
                }
            },
            StateEvent::ContextLost | StateEvent::ContextRestored(_)
            | StateEvent::DeviceReplaced(_) => self.forget_context(),
        }
    }

    /// Forgets everything that depends on an object.
    pub fn retire(&mut self, resource: ResourceRef)
        requires
            old(self).wf(),
        ensures
            final(self).wf(),
            final(self)@ == old(self)@.without_resource(resource),
    {
        let ghost start = *self;
        let unrelated = Unrelated { resource };
        self.derived.retain(&unrelated);
        // A retired resource must not turn up in a later flush.
        self.bindings.retain(&unrelated);
        let dirty = keys_within(&self.dirty_bindings, &self.bindings);
        self.dirty_bindings = dirty;
        proof {
            assert(set_values(self.derived@) =~= not_derived_from(start@.derived, resource));
            assert(group_values(self.bindings@) =~= not_bound_to(start@.bindings, resource));
            assert(self@.dirty_bindings =~= start@.dirty_bindings.intersect(
                not_bound_to(start@.bindings, resource).dom(),
            ));
        }
        match resource {
            ResourceRef::Program(_) => {
                self.pipeline.invalidate();
                self.compute.invalidate();
                self.current_program.invalidate();
            },
            ResourceRef::VertexArray(_) | ResourceRef::Buffer(_) => self.geometry.invalidate(),
            ResourceRef::Texture(_) | ResourceRef::Renderbuffer(_) | ResourceRef::Framebuffer(_) => {
                self.pass.invalidate();
                self.pixel_transfer.invalidate();
            },
            ResourceRef::Query(_) => self.query.invalidate(),
            ResourceRef::Sampler(_) => self.pixel_transfer.invalidate(),
            ResourceRef::Shader(_) | ResourceRef::Sync(_) => {},
        }
    }

    /// Forgets the bound groups with a name.
    pub fn retire_bind_group(&mut self, name: GlObjectName)
        requires
            old(self).wf(),
        ensures
            final(self).wf(),
            final(self)@ == old(self)@.without_group(name),
    {
        let ghost start = *self;
        self.bindings.retain(&NotNamed { name });
        let dirty = keys_within(&self.dirty_bindings, &self.bindings);
        self.dirty_bindings = dirty;
        proof {
            assert(group_values(self.bindings@) =~= not_named(start@.bindings, name));
            assert(self@.dirty_bindings =~= start@.dirty_bindings.intersect(
                not_named(start@.bindings, name).dom(),
            ));
        }
    }

    /// Forgets what is known of a domain.
    pub fn invalidate_domain(&mut self, domain: StateDomain)
        requires
            old(self).wf(),
        ensures
            final(self).wf(),
            final(self)@ == old(self)@.without(event::only(domain)),
    {
        match domain {
            StateDomain::PassFramebuffer => self.pass.invalidate(),
            StateDomain::RasterPipeline => {
                self.pipeline.invalidate();
                self.current_program.invalidate();
            },
            StateDomain::Geometry => self.geometry.invalidate(),
            StateDomain::Bindings => {
                let dirty = keys_of(&self.bindings);
                self.dirty_bindings = dirty;
                self.active_texture.invalidate();
                self.texture_slots.clear();
                self.uniform_slots.clear();
                self.storage_slots.clear();
                self.image_slots.clear();
                self.sampler_slots.clear();
                assert(self@.dirty_bindings =~= self@.bindings.dom());
            },
            StateDomain::Compute => {
                self.compute.invalidate();
                self.current_program.invalidate();
            },
            StateDomain::PixelTransferCopy => self.pixel_transfer.invalidate(),
            StateDomain::Query => self.query.invalidate(),
            StateDomain::DerivedCaches => {
                self.derived.clear();
                assert(self@.derived =~= Map::<DerivedCacheKey, Set<ResourceRef>>::empty());
            },
        }
    }

    /// Forgets everything but the bound groups, which all become dirty.
    pub fn forget_context(&mut self)
        requires
            old(self).wf(),
        ensures
            final(self).wf(),
            final(self)@ == old(self)@.forgotten(),
    {
        self.pass.invalidate();
        self.pipeline.invalidate();
        self.current_program.invalidate();
        self.geometry.invalidate();
        self.compute.invalidate();
        self.pixel_transfer.invalidate();
        self.query.invalidate();
        let dirty = keys_of(&self.bindings);
        self.dirty_bindings = dirty;
        self.derived.clear();
        self.pipeline_packets.clear();
        self.active_texture.invalidate();
        self.texture_slots.clear();
        self.uniform_slots.clear();
        self.storage_slots.clear();
        self.image_slots.clear();
        self.sampler_slots.clear();
        proof {
            assert(self@.dirty_bindings =~= self@.bindings.dom());
            assert(self@.derived =~= Map::<DerivedCacheKey, Set<ResourceRef>>::empty());
        }
    }
}

proof fn lemma_without_nothing(state: StateModel)
    ensures
        state.without(Set::empty()) == state,
{
}

proof fn lemma_without_one_more(state: StateModel, domains: Set<StateDomain>, domain: StateDomain)
    ensures
        state.without(domains).without(event::only(domain)) == state.without(domains.insert(domain)),
{
}

} // verus!
