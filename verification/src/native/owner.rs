//! What the owner thread of a native context remembers.
//!
//! Public names are positions in the tables here, never names of GL: so a name
//! from a lost context cannot reach an object of its replacement.

use vstd::prelude::*;
use std::sync::Arc;
use crate::api::error;
use crate::api::error::{
    CompletionFailure, DeviceLossInfo, GlContextLifecycle, GlError, RhiDetail, RhiError,
    RhiErrorKind,
};
use crate::api::format::{GlFormat, TextureFormat};
use crate::api::gl::{
    GlFenceLease, GlIndexBinding, GlRasterPipeline, GlSurfaceLease, GlTextureDesc,
    GlTextureTarget, GlVertexBufferBinding, RasterStateModel,
};
use crate::api::identity::{
    BufferId, ContextStamp, FramebufferId, ObjectId, ProgramId, QueryId, SamplerId, ShaderId,
    TextureId, VertexArrayId,
};
use crate::api::resource::{QueryType, ReadbackStatus, ReadbackTexelLayout, ReadbackTicket};
use crate::exact::Share;
use crate::native::link;
use crate::native::link::{
    CommandModel, NativeCommand, NativeLink, NativeObject, NativePlatformContext, NativeProvider,
    NativeStep,
};
use crate::platform::object;
use crate::platform::object::{GlBindGroupPacket, GlObjectName};
use crate::registry::{Matched, Registry};
use crate::shelf::Shelf;
use crate::state::context::{
    CanonicalBlockId, ContextState, RasterPipelinePacket, StateModel,
};
use crate::state::interner::{InternerModel, RasterPipelineBlockInterner};
use crate::state::knowledge::ExecutionMode;
use crate::table::Table;

verus! {

/// A view of a texture. It has no object of its own.
#[derive(Clone, Copy, Debug, PartialEq, Eq, Structural)]
pub struct NativeTextureView {
    pub texture: TextureId,
    pub target: GlTextureTarget,
    pub format: GlFormat,
    pub mip_level: u32,
    pub base_layer: u32,
    pub layer_count: u32,
}

/// A query set: one GL query for each of its indices.
#[derive(Debug)]
pub struct NativeQuerySet {
    pub ty: QueryType,
    pub queries: Vec<QueryId>,
}

/// A query set, by value.
#[verifier::ext_equal]
pub struct QuerySetModel {
    pub ty: QueryType,
    pub queries: Seq<QueryId>,
}

impl View for NativeQuerySet {
    type V = QuerySetModel;

    open spec fn view(&self) -> QuerySetModel {
        QuerySetModel { ty: self.ty, queries: self.queries@ }
    }
}

/// A raster pipeline and its place in the state authority.
#[derive(Debug)]
pub struct NativeRasterPipeline {
    pub pipeline: GlRasterPipeline,
    pub packet: RasterPipelinePacket,
}

/// A raster pipeline, by value.
#[verifier::ext_equal]
pub struct PipelineModel {
    pub program: ProgramId,
    pub vertex_array: VertexArrayId,
    pub state: RasterStateModel,
    pub packet: RasterPipelinePacket,
}

impl View for NativeRasterPipeline {
    type V = PipelineModel;

    open spec fn view(&self) -> PipelineModel {
        PipelineModel {
            program: self.pipeline.program,
            vertex_array: self.pipeline.vertex_array,
            state: self.pipeline.state@,
            packet: self.packet,
        }
    }
}

/// The vertex input of a draw. Equal geometry is recognised as equal.
#[derive(Debug)]
pub struct NativeGeometryKey {
    pub vertex_array: VertexArrayId,
    pub vertices: Arc<Vec<GlVertexBufferBinding>>,
    pub index: Option<GlIndexBinding>,
}

/// The vertex input of a draw, by value.
#[verifier::ext_equal]
pub struct GeometryModel {
    pub vertex_array: VertexArrayId,
    pub vertices: Seq<GlVertexBufferBinding>,
    pub index: Option<GlIndexBinding>,
}

impl View for NativeGeometryKey {
    type V = GeometryModel;

    open spec fn view(&self) -> GeometryModel {
        GeometryModel {
            vertex_array: self.vertex_array,
            vertices: self.vertices@,
            index: self.index,
        }
    }
}

impl Matched for NativeGeometryKey {
    fn matches(&self, other: &Self) -> (result: bool) {
        if self.vertex_array != other.vertex_array || self.index != other.index
            || self.vertices.len() != other.vertices.len() {
            return false;
        }
        let mut at: usize = 0;
        while at < self.vertices.len()
            invariant
                at <= self.vertices@.len(),
                self.vertices@.len() == other.vertices@.len(),
                forall|i: int| 0 <= i < at ==> self.vertices@[i] == other.vertices@[i],
            decreases self.vertices@.len() - at,
        {
            if self.vertices[at] != other.vertices[at] {
                return false;
            }
            at += 1;
        }
        assert(self.vertices@ =~= other.vertices@);
        true
    }
}

/// Bytes that are handed over once the fence of their submission is reached.
#[derive(Debug)]
pub struct PendingReadback {
    pub ticket: ReadbackTicket,
    pub bytes: Arc<Vec<u8>>,
    pub layout: Option<ReadbackTexelLayout>,
}

/// How far a submission has come.
#[derive(Debug)]
pub enum NativeCompletion {
    Pending { fence: GlFenceLease, readbacks: Vec<PendingReadback>, waiters: Vec<u64> },
    Complete,
    /// The context was lost after the submission was accepted. This is no
    /// failure: the whole device has to be replaced.
    DeviceLost(DeviceLossInfo),
    Failed(CompletionFailure),
}

/// How far a submission has come, by value.
#[verifier::ext_equal]
pub enum CompletionModel {
    Pending { fence: GlFenceLease, readbacks: Seq<PendingReadback>, waiters: Seq<u64> },
    Complete,
    DeviceLost(DeviceLossInfo),
    Failed(CompletionFailure),
}

impl View for NativeCompletion {
    type V = CompletionModel;

    open spec fn view(&self) -> CompletionModel {
        match *self {
            NativeCompletion::Pending { fence, readbacks, waiters } => CompletionModel::Pending {
                fence,
                readbacks: readbacks@,
                waiters: waiters@,
            },
            NativeCompletion::Complete => CompletionModel::Complete,
            NativeCompletion::DeviceLost(info) => CompletionModel::DeviceLost(info),
            NativeCompletion::Failed(failure) => CompletionModel::Failed(failure),
        }
    }
}

/// Whether a presented frame reached its display.
#[derive(Debug)]
pub enum PresentState {
    Pending,
    Accepted,
    Failed(RhiDetail),
    DeviceLost(DeviceLossInfo),
}

impl Share for PresentState {
    fn share(&self) -> (result: Self) {
        match self {
            PresentState::Pending => PresentState::Pending,
            PresentState::Accepted => PresentState::Accepted,
            PresentState::Failed(detail) => PresentState::Failed(detail.share()),
            PresentState::DeviceLost(info) => PresentState::DeviceLost(info.share()),
        }
    }
}

/// What somebody outside has to be told.
#[derive(Debug)]
pub enum Notice {
    /// The bytes of a readback are there.
    Publish { ticket: ReadbackTicket, bytes: Arc<Vec<u8>>, layout: Option<ReadbackTexelLayout> },
    /// A readback ended without its bytes.
    Status { ticket: ReadbackTicket, status: ReadbackStatus },
    /// A waiter has to be woken.
    Wake { waiter: u64 },
}

/// A configured drawable: the frame that is acquired, if one is, by its serial
/// and its image.
pub type AcquiredImage = Option<(u64, GlSurfaceLease)>;

/// Everything that the owner thread remembers, by value.
#[verifier::ext_equal]
pub struct Owner {
    pub log: Seq<NativeStep>,
    pub texture_formats: Map<u64, TextureFormat>,
    pub views: Map<u64, NativeTextureView>,
    pub bind_groups: Map<u64, Arc<GlBindGroupPacket>>,
    pub query_sets: Map<u64, QuerySetModel>,
    pub raster_pipelines: Map<u64, PipelineModel>,
    pub compute_pipelines: Map<u64, ProgramId>,
    pub next_virtual: u32,
    pub next_canonical: u64,
    pub pipeline_blocks: InternerModel,
    pub geometry_blocks: Map<GeometryModel, CanonicalBlockId>,
    pub state: StateModel,
    pub active_framebuffer: Option<FramebufferId>,
    pub completions: Seq<CompletionModel>,
    pub next_lease: u64,
    pub next_frame: u64,
    pub target: Option<ObjectId>,
    pub leases: Map<u64, AcquiredImage>,
    pub presents: Map<u64, PresentState>,
    pub notices: Seq<Notice>,
}

/// The error of the portable interface for an error of the GL seam.
pub open spec fn mapped(error: GlError, operation: &'static str) -> RhiError {
    RhiError {
        kind: match error {
            GlError::ContextLost { .. } | GlError::Disposed { .. } | GlError::Poisoned { .. } => {
                RhiErrorKind::DeviceLost
            },
            GlError::InvalidLifecycle { lifecycle, .. } => match lifecycle {
                GlContextLifecycle::Active | GlContextLifecycle::Suspended => {
                    RhiErrorKind::BackendFailure
                },
                _ => RhiErrorKind::DeviceLost,
            },
            GlError::Unsupported { .. } => RhiErrorKind::Unsupported,
            GlError::OutOfMemory { .. } => RhiErrorKind::OutOfMemory,
            GlError::WrongContext { .. } | GlError::StaleObject { .. } => {
                RhiErrorKind::WrongDevice
            },
            _ => RhiErrorKind::BackendFailure,
        },
        detail: RhiDetail::Gl { operation, error },
        operation: None,
    }
}

/// Translates an error of the GL seam.
pub fn map_gl(error: GlError, operation: &'static str) -> (result: RhiError)
    ensures
        result == mapped(error, operation),
{
    let kind = match &error {
        GlError::ContextLost { .. } => RhiErrorKind::DeviceLost,
        GlError::Disposed { .. } => RhiErrorKind::DeviceLost,
        GlError::Poisoned { .. } => RhiErrorKind::DeviceLost,
        GlError::InvalidLifecycle { operation: _, lifecycle } => match lifecycle {
            GlContextLifecycle::Active | GlContextLifecycle::Suspended => {
                RhiErrorKind::BackendFailure
            },
            _ => RhiErrorKind::DeviceLost,
        },
        GlError::Unsupported { .. } => RhiErrorKind::Unsupported,
        GlError::OutOfMemory { .. } => RhiErrorKind::OutOfMemory,
        GlError::WrongContext { .. } => RhiErrorKind::WrongDevice,
        GlError::StaleObject { .. } => RhiErrorKind::WrongDevice,
        _ => RhiErrorKind::BackendFailure,
    };
    RhiError { kind, detail: RhiDetail::Gl { operation, error }, operation: None }
}

/// What looking up the position behind a name gives.
pub open spec fn slot_of(name: GlObjectName, operation: &'static str) -> Result<u32, RhiError> {
    if name@ == 0 {
        Err(
            error::rhi_error_at(
                RhiErrorKind::WrongDevice,
                "native GL object carrier is invalid",
                operation,
            ),
        )
    } else {
        Ok((name@ - 1) as u32)
    }
}

/// The name for a position. The last position has none.
pub open spec fn name_of(slot: u32, operation: &'static str) -> Result<GlObjectName, RhiError> {
    if slot == u32::MAX {
        Err(
            error::rhi_error_at(
                RhiErrorKind::BackendFailure,
                "native GL object slot cannot be encoded",
                operation,
            ),
        )
    } else {
        Ok(object::named((slot + 1) as u32))
    }
}

/// A position that has a name is found again behind it.
pub proof fn names_lead_back_to_slots(slot: u32, operation: &'static str)
    requires
        slot < u32::MAX,
    ensures
        slot_of(name_of(slot, operation)->Ok_0, operation) == Ok::<u32, RhiError>(slot),
{
    broadcast use object::names_have_their_values;

}

/// The name for a position.
pub fn name(slot: u32, operation: &'static str) -> (result: Result<GlObjectName, RhiError>)
    ensures
        result == name_of(slot, operation),
{
    if slot == u32::MAX {
        return Err(
            RhiError::new(RhiErrorKind::BackendFailure, "native GL object slot cannot be encoded").at(
                operation,
            ),
        );
    }
    GlObjectName::new(slot + 1, operation)
}

/// The position behind a name.
pub fn slot(name: GlObjectName, operation: &'static str) -> (result: Result<u32, RhiError>)
    ensures
        result == slot_of(name, operation),
{
    let raw: u32 = name.raw();
    Ok(raw - 1)
}

impl Owner {
    /// The answer to the next question, according to a record.
    pub open spec fn next(self, o: Seq<NativeStep>) -> NativeStep {
        o[self.log.len() as int]
    }

    /// The owner after one more question.
    pub open spec fn asked(self, step: NativeStep) -> Owner {
        Owner { log: self.log.push(step), ..self }
    }

    pub open spec fn make_current(self, operation: &'static str, o: Seq<NativeStep>) -> (
        Owner,
        Result<(), RhiError>,
    ) {
        let reply = self.next(o)->Current_reply;
        (self.asked(NativeStep::Current { operation, reply }), reply)
    }

    pub open spec fn assert_ready(self, operation: &'static str, o: Seq<NativeStep>) -> (
        Owner,
        Result<(), GlError>,
    ) {
        let reply = self.next(o)->Ready_reply;
        (self.asked(NativeStep::Ready { operation, reply }), reply)
    }

    /// Making the context current and asking whether it takes commands.
    pub open spec fn ready(self, operation: &'static str, o: Seq<NativeStep>) -> (
        Owner,
        Result<(), RhiError>,
    ) {
        let (current, result) = self.make_current(operation, o);
        match result {
            Err(error) => (current, Err(error)),
            Ok(_) => {
                let (asked, result) = current.assert_ready(operation, o);
                match result {
                    Ok(_) => (asked, Ok(())),
                    Err(error) => (
                        asked,
                        Err(
                            RhiError {
                                kind: RhiErrorKind::BackendFailure,
                                detail: RhiDetail::Gl { operation, error },
                                operation: None,
                            },
                        ),
                    ),
                }
            },
        }
    }

    pub open spec fn stamp(self, o: Seq<NativeStep>) -> (Owner, ContextStamp) {
        let reply = self.next(o)->Stamp_reply;
        (self.asked(NativeStep::Stamp { reply }), reply)
    }

    pub open spec fn find(
        self,
        operation: &'static str,
        object: NativeObject,
        o: Seq<NativeStep>,
    ) -> (Owner, Result<(), RhiError>) {
        let reply = self.next(o)->Find_reply;
        (
            self.asked(NativeStep::Find { operation, object, reply }),
            match reply {
                Ok(_) => Ok(()),
                Err(error) => Err(mapped(error, operation)),
            },
        )
    }

    pub open spec fn find_texture(
        self,
        operation: &'static str,
        id: TextureId,
        o: Seq<NativeStep>,
    ) -> (Owner, Result<GlTextureDesc, RhiError>) {
        let reply = self.next(o)->FindTexture_reply;
        (
            self.asked(NativeStep::FindTexture { operation, id, reply }),
            match reply {
                Ok(desc) => Ok(desc),
                Err(error) => Err(mapped(error, operation)),
            },
        )
    }

    /// Giving a command, with the error as the seam reports it.
    pub open spec fn command(self, command: CommandModel, o: Seq<NativeStep>) -> (
        Owner,
        Result<(), GlError>,
    ) {
        let reply = self.next(o)->Command_reply;
        (self.asked(NativeStep::Command { command, reply }), reply)
    }

    /// Giving a command that holds no list.
    pub open spec fn plain(
        self,
        command: NativeCommand,
        operation: &'static str,
        o: Seq<NativeStep>,
    ) -> (Owner, Result<(), RhiError>) {
        let (after, result) = self.command(CommandModel::Plain(command), o);
        (
            after,
            match result {
                Ok(_) => Ok(()),
                Err(error) => Err(mapped(error, operation)),
            },
        )
    }

    /// The buffer behind a name, if it is alive.
    pub open spec fn buffer_id(
        self,
        name: GlObjectName,
        operation: &'static str,
        o: Seq<NativeStep>,
    ) -> (Owner, Result<BufferId, RhiError>) {
        let (asked, stamp) = self.stamp(o);
        match slot_of(name, operation) {
            Err(error) => (asked, Err(error)),
            Ok(slot) => {
                let id = BufferId { stamp, slot, generation: 0 };
                let (found, result) = asked.find(operation, NativeObject::Buffer(id), o);
                match result {
                    Err(error) => (found, Err(error)),
                    Ok(_) => (found, Ok(id)),
                }
            },
        }
    }

    /// The shader behind a name, if it is alive.
    pub open spec fn shader_id(
        self,
        name: GlObjectName,
        operation: &'static str,
        o: Seq<NativeStep>,
    ) -> (Owner, Result<ShaderId, RhiError>) {
        let (asked, stamp) = self.stamp(o);
        match slot_of(name, operation) {
            Err(error) => (asked, Err(error)),
            Ok(slot) => {
                let id = ShaderId { stamp, slot, generation: 0 };
                let (found, result) = asked.find(operation, NativeObject::Shader(id), o);
                match result {
                    Err(error) => (found, Err(error)),
                    Ok(_) => (found, Ok(id)),
                }
            },
        }
    }

    /// The handle of the sampler behind a name, alive or not.
    pub open spec fn sampler_handle(
        self,
        name: GlObjectName,
        operation: &'static str,
        o: Seq<NativeStep>,
    ) -> (Owner, Result<SamplerId, RhiError>) {
        let (asked, stamp) = self.stamp(o);
        match slot_of(name, operation) {
            Err(error) => (asked, Err(error)),
            Ok(slot) => (asked, Ok(SamplerId { stamp, slot, generation: 0 })),
        }
    }

    /// The sampler behind a name, if it is alive.
    pub open spec fn sampler_id(
        self,
        name: GlObjectName,
        operation: &'static str,
        o: Seq<NativeStep>,
    ) -> (Owner, Result<SamplerId, RhiError>) {
        let (asked, handle) = self.sampler_handle(name, operation, o);
        match handle {
            Err(error) => (asked, Err(error)),
            Ok(id) => {
                let (found, result) = asked.find(operation, NativeObject::Sampler(id), o);
                match result {
                    Err(error) => (found, Err(error)),
                    Ok(_) => (found, Ok(id)),
                }
            },
        }
    }

    /// The texture behind a name and what it was made as, if it is alive.
    pub open spec fn texture_id(
        self,
        name: GlObjectName,
        operation: &'static str,
        o: Seq<NativeStep>,
    ) -> (Owner, Result<TextureId, RhiError>) {
        let (asked, stamp) = self.stamp(o);
        match slot_of(name, operation) {
            Err(error) => (asked, Err(error)),
            Ok(slot) => {
                let id = TextureId { stamp, slot, generation: 0 };
                let (found, result) = asked.find_texture(operation, id, o);
                match result {
                    Err(error) => (found, Err(error)),
                    Ok(_) => (found, Ok(id)),
                }
            },
        }
    }

    /// One query of a set, if it is alive and of the expected type.
    pub open spec fn query_id(
        self,
        set: GlObjectName,
        index: u32,
        expected: Option<QueryType>,
        operation: &'static str,
        o: Seq<NativeStep>,
    ) -> (Owner, Result<(QueryId, QueryType), RhiError>) {
        let key = set@ as u64;
        if !self.query_sets.contains_key(key) {
            (
                self,
                Err(
                    error::rhi_error_at(
                        RhiErrorKind::WrongDevice,
                        "native GL query-set backing is not live",
                        operation,
                    ),
                ),
            )
        } else {
            let record = self.query_sets[key];
            if expected is Some && record.ty != expected->0 {
                (
                    self,
                    Err(
                        error::rhi_error_at(
                            RhiErrorKind::InvalidUsage,
                            "native GL query operation does not match query-set type",
                            operation,
                        ),
                    ),
                )
            } else if index >= record.queries.len() {
                (
                    self,
                    Err(
                        error::rhi_error_at(
                            RhiErrorKind::InvalidUsage,
                            "native GL query index is outside its set",
                            operation,
                        ),
                    ),
                )
            } else {
                let query = record.queries[index as int];
                let (found, result) = self.find(operation, NativeObject::Query(query), o);
                match result {
                    Err(error) => (found, Err(error)),
                    Ok(_) => (found, Ok((query, record.ty))),
                }
            }
        }
    }

    /// A number for a block of state that was never numbered before.
    pub open spec fn canonical(self, operation: &'static str) -> (
        Owner,
        Result<CanonicalBlockId, RhiError>,
    ) {
        if self.next_canonical == u64::MAX {
            (
                self,
                Err(
                    error::rhi_error_at(
                        RhiErrorKind::BackendFailure,
                        "native GL canonical state namespace exhausted",
                        operation,
                    ),
                ),
            )
        } else {
            (
                Owner { next_canonical: (self.next_canonical + 1) as u64, ..self },
                Ok(CanonicalBlockId::Interned(self.next_canonical)),
            )
        }
    }

    /// The number of some geometry.
    pub open spec fn geometry_canonical(self, key: GeometryModel, operation: &'static str) -> (
        Owner,
        Result<CanonicalBlockId, RhiError>,
    ) {
        if self.geometry_blocks.contains_key(key) {
            (self, Ok(self.geometry_blocks[key]))
        } else {
            let (after, result) = self.canonical(operation);
            match result {
                Err(error) => (after, Err(error)),
                Ok(id) => (
                    Owner { geometry_blocks: after.geometry_blocks.insert(key, id), ..after },
                    Ok(id),
                ),
            }
        }
    }

    /// A name that no virtual object has had.
    pub open spec fn virtual_name(self, operation: &'static str) -> (
        Owner,
        Result<GlObjectName, RhiError>,
    ) {
        if self.next_virtual == u32::MAX {
            (
                self,
                Err(
                    error::rhi_error_at(
                        RhiErrorKind::BackendFailure,
                        "native GL virtual carrier namespace exhausted",
                        operation,
                    ),
                ),
            )
        } else {
            (
                Owner { next_virtual: (self.next_virtual + 1) as u32, ..self },
                Ok(object::named(self.next_virtual)),
            )
        }
    }

    /// Virtual names are never zero, no number stands for two geometries, and
    /// the state authority is consistent.
    pub open spec fn wf(self) -> bool {
        &&& self.next_virtual != 0
        &&& numbered(self.geometry_blocks, self.next_canonical)
        &&& self.pipeline_blocks.wf()
        &&& self.state.wf()
    }
}

/// Whether every geometry has a number of its own, below the next one.
pub open spec fn numbered(blocks: Map<GeometryModel, CanonicalBlockId>, next: u64) -> bool {
    &&& forall|key: GeometryModel| #[trigger]
        blocks.contains_key(key) ==> blocks[key] is Interned && blocks[key]->Interned_0 < next
    &&& forall|one: GeometryModel, other: GeometryModel|
        #![trigger blocks.contains_key(one), blocks.contains_key(other)]
        blocks.contains_key(one) && blocks.contains_key(other) && blocks[one] == blocks[other]
            ==> one == other
}

/// A platform context, the executor on it, and what their owner remembers.
pub struct NativeOwnedProvider<C, P> {
    pub link: NativeLink<C, P>,
    pub texture_formats: Table<TextureFormat>,
    pub views: Table<NativeTextureView>,
    pub bind_groups: Table<Arc<GlBindGroupPacket>>,
    pub query_sets: Shelf<NativeQuerySet>,
    pub raster_pipelines: Shelf<NativeRasterPipeline>,
    pub compute_pipelines: Table<ProgramId>,
    pub next_virtual: u32,
    pub next_canonical: u64,
    pub pipeline_blocks: RasterPipelineBlockInterner,
    pub geometry_blocks: Registry<NativeGeometryKey, CanonicalBlockId>,
    pub context_state: ContextState,
    pub active_raster_framebuffer: Option<FramebufferId>,
    pub completions: Vec<NativeCompletion>,
    pub next_lease: u64,
    pub next_frame: u64,
    pub target: Option<ObjectId>,
    pub leases: Table<AcquiredImage>,
    pub presents: Table<PresentState>,
    pub notices: Vec<Notice>,
}

/// The completions, by value.
pub open spec fn seen_completions(completions: Seq<NativeCompletion>) -> Seq<CompletionModel> {
    completions.map_values(|completion: NativeCompletion| completion@)
}

impl<C, P> View for NativeOwnedProvider<C, P> {
    type V = Owner;

    open spec fn view(&self) -> Owner {
        Owner {
            log: self.link@,
            texture_formats: self.texture_formats@,
            views: self.views@,
            bind_groups: self.bind_groups@,
            query_sets: self.query_sets@,
            raster_pipelines: self.raster_pipelines@,
            compute_pipelines: self.compute_pipelines@,
            next_virtual: self.next_virtual,
            next_canonical: self.next_canonical,
            pipeline_blocks: self.pipeline_blocks@,
            geometry_blocks: self.geometry_blocks@,
            state: self.context_state@,
            active_framebuffer: self.active_raster_framebuffer,
            completions: seen_completions(self.completions@),
            next_lease: self.next_lease,
            next_frame: self.next_frame,
            target: self.target,
            leases: self.leases@,
            presents: self.presents@,
            notices: self.notices@,
        }
    }
}

impl<C: NativePlatformContext, P: NativeProvider> NativeOwnedProvider<C, P> {
    pub open spec fn wf(&self) -> bool {
        &&& self.texture_formats.wf()
        &&& self.views.wf()
        &&& self.bind_groups.wf()
        &&& self.query_sets.wf()
        &&& self.raster_pipelines.wf()
        &&& self.compute_pipelines.wf()
        &&& self.pipeline_blocks.wf()
        &&& self.geometry_blocks.wf()
        &&& self.context_state.wf()
        &&& self.leases.wf()
        &&& self.presents.wf()
        &&& self.next_virtual != 0
        &&& numbered(self.geometry_blocks@, self.next_canonical)
    }

    pub fn new(context: C, provider: P) -> (result: Self)
        ensures
            result.wf(),
            result@.log == Seq::<NativeStep>::empty(),
            result@.next_virtual == 1 && result@.next_canonical == 1,
            result@.texture_formats == Map::<u64, TextureFormat>::empty(),
            result@.views == Map::<u64, NativeTextureView>::empty(),
            result@.bind_groups == Map::<u64, Arc<GlBindGroupPacket>>::empty(),
            result@.query_sets == Map::<u64, QuerySetModel>::empty(),
            result@.raster_pipelines == Map::<u64, PipelineModel>::empty(),
            result@.compute_pipelines == Map::<u64, ProgramId>::empty(),
            result@.geometry_blocks == Map::<GeometryModel, CanonicalBlockId>::empty(),
            result@.state == StateModel::unknown(ExecutionMode::Optimized),
            result@.active_framebuffer is None,
            result@.completions.len() == 0,
            result@.next_lease == 1 && result@.next_frame == 1,
            result@.target is None,
            result@.leases == Map::<u64, AcquiredImage>::empty(),
            result@.presents == Map::<u64, PresentState>::empty(),
            result@.notices.len() == 0,
    {
        NativeOwnedProvider {
            link: NativeLink::new(context, provider),
            texture_formats: Table::new(),
            views: Table::new(),
            bind_groups: Table::new(),
            query_sets: Shelf::new(),
            raster_pipelines: Shelf::new(),
            compute_pipelines: Table::new(),
            next_virtual: 1,
            next_canonical: 1,
            pipeline_blocks: RasterPipelineBlockInterner::new(),
            geometry_blocks: Registry::new(),
            context_state: ContextState::new(ExecutionMode::Optimized),
            active_raster_framebuffer: None,
            completions: Vec::new(),
            next_lease: 1,
            next_frame: 1,
            target: None,
            leases: Table::new(),
            presents: Table::new(),
            notices: Vec::new(),
        }
    }

    pub fn canonical(&mut self, operation: &'static str) -> (result: Result<
        CanonicalBlockId,
        RhiError,
    >)
        requires
            old(self).wf(),
        ensures
            final(self).wf(),
            (final(self)@, result) == old(self)@.canonical(operation),
    {
        let value: u64 = self.next_canonical;
        if value == u64::MAX {
            return Err(
                RhiError::new(
                    RhiErrorKind::BackendFailure,
                    "native GL canonical state namespace exhausted",
                ).at(operation),
            );
        }
        self.next_canonical = value + 1;
        Ok(CanonicalBlockId::new(value))
    }

    pub fn geometry_canonical(&mut self, key: NativeGeometryKey, operation: &'static str) -> (result:
        Result<CanonicalBlockId, RhiError>)
        requires
            old(self).wf(),
        ensures
            final(self).wf(),
            (final(self)@, result) == old(self)@.geometry_canonical(key@, operation),
    {
        match self.geometry_blocks.get(&key) {
            Some(canonical) => Ok(canonical),
            None => match self.canonical(operation) {
                Err(error) => Err(error),
                Ok(canonical) => {
                    self.geometry_blocks.insert(key, canonical);
                    Ok(canonical)
                },
            },
        }
    }

    pub fn virtual_name(&mut self, operation: &'static str) -> (result: Result<
        GlObjectName,
        RhiError,
    >)
        requires
            old(self).wf(),
        ensures
            final(self).wf(),
            (final(self)@, result) == old(self)@.virtual_name(operation),
    {
        let value: u32 = self.next_virtual;
        if value == u32::MAX {
            return Err(
                RhiError::new(
                    RhiErrorKind::BackendFailure,
                    "native GL virtual carrier namespace exhausted",
                ).at(operation),
            );
        }
        self.next_virtual = value + 1;
        GlObjectName::new(value, operation)
    }

    /// Makes the context current and asks whether it takes commands.
    pub fn ready(&mut self, operation: &'static str) -> (result: Result<(), RhiError>)
        requires
            old(self).wf(),
        ensures
            final(self).wf(),
            link::grows(old(self)@.log, final(self)@.log),
            forall|o: Seq<NativeStep>|
                link::grows(final(self)@.log, o) ==> #[trigger] old(self)@.ready(operation, o) == (
                    final(self)@,
                    result,
                ),
    {
        match self.link.make_current(operation) {
            Ok(()) => {},
            Err(error) => {
                return Err(error);
            },
        }
        match self.link.assert_ready(operation) {
            Ok(()) => Ok(()),
            Err(error) => Err(
                RhiError {
                    kind: RhiErrorKind::BackendFailure,
                    detail: RhiDetail::Gl { operation, error },
                    operation: None,
                },
            ),
        }
    }

    pub fn find(&mut self, operation: &'static str, object: NativeObject) -> (result: Result<
        (),
        RhiError,
    >)
        requires
            old(self).wf(),
        ensures
            final(self).wf(),
            link::grows(old(self)@.log, final(self)@.log),
            forall|o: Seq<NativeStep>|
                link::grows(final(self)@.log, o) ==> #[trigger] old(self)@.find(
                    operation,
                    object,
                    o,
                ) == (final(self)@, result),
    {
        match self.link.find(operation, object) {
            Ok(()) => Ok(()),
            Err(error) => Err(map_gl(error, operation)),
        }
    }

    pub fn find_texture(&mut self, operation: &'static str, id: TextureId) -> (result: Result<
        GlTextureDesc,
        RhiError,
    >)
        requires
            old(self).wf(),
        ensures
            final(self).wf(),
            link::grows(old(self)@.log, final(self)@.log),
            forall|o: Seq<NativeStep>|
                link::grows(final(self)@.log, o) ==> #[trigger] old(self)@.find_texture(
                    operation,
                    id,
                    o,
                ) == (final(self)@, result),
    {
        match self.link.texture(operation, id) {
            Ok(desc) => Ok(desc),
            Err(error) => Err(map_gl(error, operation)),
        }
    }

    pub fn command(&mut self, command: &NativeCommand) -> (result: Result<(), GlError>)
        requires
            old(self).wf(),
        ensures
            final(self).wf(),
            link::grows(old(self)@.log, final(self)@.log),
            forall|o: Seq<NativeStep>|
                link::grows(final(self)@.log, o) ==> #[trigger] old(self)@.command(command@, o) == (
                    final(self)@,
                    result,
                ),
    {
        self.link.command(command)
    }

    /// Gives a command that holds no list, and hands back the error as the
    /// seam reports it.
    pub fn give(&mut self, command: NativeCommand) -> (result: Result<(), GlError>)
        requires
            old(self).wf(),
            command@ == CommandModel::Plain(command),
        ensures
            final(self).wf(),
            link::grows(old(self)@.log, final(self)@.log),
            forall|o: Seq<NativeStep>|
                link::grows(final(self)@.log, o) ==> #[trigger] old(self)@.command(
                    CommandModel::Plain(command),
                    o,
                ) == (final(self)@, result),
    {
        self.link.command(&command)
    }

    /// Gives a command that holds no list.
    pub fn plain(&mut self, command: NativeCommand, operation: &'static str) -> (result: Result<
        (),
        RhiError,
    >)
        requires
            old(self).wf(),
            command@ == CommandModel::Plain(command),
        ensures
            final(self).wf(),
            link::grows(old(self)@.log, final(self)@.log),
            forall|o: Seq<NativeStep>|
                link::grows(final(self)@.log, o) ==> #[trigger] old(self)@.plain(
                    command,
                    operation,
                    o,
                ) == (final(self)@, result),
    {
        match self.give(command) {
            Ok(()) => Ok(()),
            Err(error) => Err(map_gl(error, operation)),
        }
    }

    pub fn buffer_id(&mut self, name: GlObjectName, operation: &'static str) -> (result: Result<
        BufferId,
        RhiError,
    >)
        requires
            old(self).wf(),
        ensures
            final(self).wf(),
            link::grows(old(self)@.log, final(self)@.log),
            forall|o: Seq<NativeStep>|
                link::grows(final(self)@.log, o) ==> #[trigger] old(self)@.buffer_id(
                    name,
                    operation,
                    o,
                ) == (final(self)@, result),
    {
        let stamp = self.link.context_stamp();
        let slot = match slot(name, operation) {
            Ok(slot) => slot,
            Err(error) => {
                return Err(error);
            },
        };
        let id = BufferId::new(stamp, slot, 0);
        match self.find(operation, NativeObject::Buffer(id)) {
            Ok(()) => Ok(id),
            Err(error) => Err(error),
        }
    }

    pub fn shader_id(&mut self, name: GlObjectName, operation: &'static str) -> (result: Result<
        ShaderId,
        RhiError,
    >)
        requires
            old(self).wf(),
        ensures
            final(self).wf(),
            link::grows(old(self)@.log, final(self)@.log),
            forall|o: Seq<NativeStep>|
                link::grows(final(self)@.log, o) ==> #[trigger] old(self)@.shader_id(
                    name,
                    operation,
                    o,
                ) == (final(self)@, result),
    {
        let stamp = self.link.context_stamp();
        let slot = match slot(name, operation) {
            Ok(slot) => slot,
            Err(error) => {
                return Err(error);
            },
        };
        let id = ShaderId::new(stamp, slot, 0);
        match self.find(operation, NativeObject::Shader(id)) {
            Ok(()) => Ok(id),
            Err(error) => Err(error),
        }
    }

    pub fn sampler_handle(&mut self, name: GlObjectName, operation: &'static str) -> (result:
        Result<SamplerId, RhiError>)
        requires
            old(self).wf(),
        ensures
            final(self).wf(),
            link::grows(old(self)@.log, final(self)@.log),
            forall|o: Seq<NativeStep>|
                link::grows(final(self)@.log, o) ==> #[trigger] old(self)@.sampler_handle(
                    name,
                    operation,
                    o,
                ) == (final(self)@, result),
    {
        let stamp = self.link.context_stamp();
        match slot(name, operation) {
            Ok(slot) => Ok(SamplerId::new(stamp, slot, 0)),
            Err(error) => Err(error),
        }
    }

    pub fn sampler_id(&mut self, name: GlObjectName, operation: &'static str) -> (result: Result<
        SamplerId,
        RhiError,
    >)
        requires
            old(self).wf(),
        ensures
            final(self).wf(),
            link::grows(old(self)@.log, final(self)@.log),
            forall|o: Seq<NativeStep>|
                link::grows(final(self)@.log, o) ==> #[trigger] old(self)@.sampler_id(
                    name,
                    operation,
                    o,
                ) == (final(self)@, result),
    {
        let id = match self.sampler_handle(name, operation) {
            Ok(id) => id,
            Err(error) => {
                return Err(error);
            },
        };
        match self.find(operation, NativeObject::Sampler(id)) {
            Ok(()) => Ok(id),
            Err(error) => Err(error),
        }
    }

    pub fn texture_id(&mut self, name: GlObjectName, operation: &'static str) -> (result: Result<
        TextureId,
        RhiError,
    >)
        requires
            old(self).wf(),
        ensures
            final(self).wf(),
            link::grows(old(self)@.log, final(self)@.log),
            forall|o: Seq<NativeStep>|
                link::grows(final(self)@.log, o) ==> #[trigger] old(self)@.texture_id(
                    name,
                    operation,
                    o,
                ) == (final(self)@, result),
    {
        let stamp = self.link.context_stamp();
        let slot = match slot(name, operation) {
            Ok(slot) => slot,
            Err(error) => {
                return Err(error);
            },
        };
        let id = TextureId::new(stamp, slot, 0);
        match self.find_texture(operation, id) {
            Ok(_) => Ok(id),
            Err(error) => Err(error),
        }
    }

    pub fn query_id(
        &mut self,
        set: GlObjectName,
        index: u32,
        expected: Option<QueryType>,
        operation: &'static str,
    ) -> (result: Result<(QueryId, QueryType), RhiError>)
        requires
            old(self).wf(),
        ensures
            final(self).wf(),
            link::grows(old(self)@.log, final(self)@.log),
            forall|o: Seq<NativeStep>|
                link::grows(final(self)@.log, o) ==> #[trigger] old(self)@.query_id(
                    set,
                    index,
                    expected,
                    operation,
                    o,
                ) == (final(self)@, result),
    {
        let (query, ty) = match self.query_sets.get(set.raw() as u64) {
            None => {
                return Err(
                    RhiError::new(
                        RhiErrorKind::WrongDevice,
                        "native GL query-set backing is not live",
                    ).at(operation),
                );
            },
            Some(record) => {
                match expected {
                    Some(expected) => {
                        if record.ty != expected {
                            return Err(
                                RhiError::new(
                                    RhiErrorKind::InvalidUsage,
                                    "native GL query operation does not match query-set type",
                                ).at(operation),
                            );
                        }
                    },
                    None => {},
                }
                if index as u64 >= record.queries.len() as u64 {
                    return Err(
                        RhiError::new(
                            RhiErrorKind::InvalidUsage,
                            "native GL query index is outside its set",
                        ).at(operation),
                    );
                }
                (record.queries[index as usize], record.ty)
            },
        };
        match self.find(operation, NativeObject::Query(query)) {
            Ok(()) => Ok((query, ty)),
            Err(error) => Err(error),
        }
    }
}

} // verus!
