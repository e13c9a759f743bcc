//! Carrying out a submission that was lowered completely.
//!
//! Once the first command is given, GL may have accepted work. So an error no
//! longer refuses the submission: it becomes its final state.

use vstd::prelude::*;
use std::sync::Arc;
use crate::api::command::PlanPoint;
use crate::api::error;
use crate::api::error::{CompletionFailure, DeviceLossInfo, RhiDetail, RhiError, RhiErrorKind};
use crate::api::gl::{
    GlBufferRange, GlColorAttachment, GlDepthStencilAttachment, GlDispatchGroups, GlDrawCommand,
    GlFramebufferDescriptor, GlIndexBinding, GlIndirectCommandRange, GlPassAttachmentView,
    GlPixelLayout, GlRasterPipeline, GlRenderPassDescriptor, GlRenderTarget, GlTextureRegion,
    GlTextureView, GlVertexBufferBinding, RasterStateModel,
};
use crate::api::identity::{FramebufferId, ProgramId, QueryId, VertexArrayId};
use crate::api::resource::{QueryType, ReadbackStatus, ReadbackTexelLayout, ReadbackTicket};
use crate::exact::Share;
use crate::native::link;
use crate::native::link::{
    CommandModel, FramebufferModel, NativeCommand, NativeObject, NativePlatformContext,
    NativeProvider, NativeStep, TexelRead,
};
use crate::native::owner;
use crate::native::owner::{
    map_gl, CompletionModel, NativeCompletion, NativeOwnedProvider, Notice, Owner, PendingReadback,
};
use crate::platform::object::{
    GlBindGroupEntry, GlBindGroupPacket, GlBindingResource, GlBufferSpan, GlSamplerRef,
    GlTextureViewRef,
};
use crate::state::context;
use crate::state::context::{
    BindingFlush, BoundGroup, BoundGroupPacket, CanonicalBlockId, PassPacket, RasterPipelinePacket,
    StateModel,
};
use crate::state::event::StateEvent;
use crate::state::knowledge::StateDomain;

verus! {

/// The begin of a pass. Without a framebuffer it renders to the drawable,
/// which nobody allocates.
#[derive(Debug)]
pub struct NativeRasterBeginAction {
    pub framebuffer: Option<GlFramebufferDescriptor>,
    pub descriptor: GlRenderPassDescriptor,
    pub pass: PassPacket,
}

/// A draw. The pipeline carries the dynamic values of the draw, and the packet
/// the pipeline as it was made: if they differ, the packet must not count as
/// installed.
#[derive(Debug)]
pub struct NativeRasterDrawAction {
    pub pipeline: GlRasterPipeline,
    pub packet: RasterPipelinePacket,
    pub has_dynamic_state: bool,
    pub draw: GlDrawCommand,
    pub geometry: Arc<Vec<GlVertexBufferBinding>>,
    pub index: Option<GlIndexBinding>,
    pub geometry_key: CanonicalBlockId,
    pub bind_groups: Vec<BoundGroupPacket>,
}

/// Work that was lowered completely. It holds handles and numbers only, never
/// a portable object.
#[derive(Debug)]
pub enum NativePhaseBAction {
    CopyBuffer { source: GlBufferRange, destination: GlBufferRange },
    CopyTexture { source: GlTextureRegion, destination: GlTextureRegion },
    UploadBuffer { destination: GlBufferRange, bytes: Arc<Vec<u8>> },
    UploadTexture { destination: GlTextureRegion, layout: GlPixelLayout, bytes: Arc<Vec<u8>> },
    ReadBuffer { source: GlBufferRange, ticket: ReadbackTicket },
    ReadTexture { source: GlTextureRegion, layout: GlPixelLayout, ticket: ReadbackTicket },
    RasterBegin(NativeRasterBeginAction),
    RasterDraw(NativeRasterDrawAction),
    /// One indirect record. Counted and repeated records have no route.
    RasterIndirect { draw: NativeRasterDrawAction, command: GlIndirectCommandRange },
    RasterEnd,
    ComputeDispatch {
        program: ProgramId,
        program_key: CanonicalBlockId,
        groups: GlDispatchGroups,
        bind_groups: Vec<BoundGroupPacket>,
    },
    QueryBegin { query: QueryId, ty: QueryType, state_key: CanonicalBlockId },
    QueryEnd { ty: QueryType },
    Timestamp(QueryId),
}

/// Bound groups, by value.
pub open spec fn seen_groups(groups: Seq<BoundGroupPacket>) -> Seq<BoundGroup> {
    groups.map_values(|group: BoundGroupPacket| group@)
}

/// The begin of a pass, by value.
#[verifier::ext_equal]
pub struct BeginModel {
    pub framebuffer: Option<FramebufferModel>,
    pub target: GlRenderTarget,
    pub colors: Seq<GlColorAttachment>,
    pub depth_stencil: Option<GlDepthStencilAttachment>,
    pub pass: PassPacket,
}

impl View for NativeRasterBeginAction {
    type V = BeginModel;

    open spec fn view(&self) -> BeginModel {
        BeginModel {
            framebuffer: match self.framebuffer {
                Some(framebuffer) => Some(framebuffer@),
                None => None,
            },
            target: self.descriptor.target,
            colors: self.descriptor.color_attachments@,
            depth_stencil: self.descriptor.depth_stencil_attachment,
            pass: self.pass,
        }
    }
}

/// A draw, by value.
#[verifier::ext_equal]
pub struct DrawModel {
    pub program: ProgramId,
    pub vertex_array: VertexArrayId,
    pub state: RasterStateModel,
    pub packet: RasterPipelinePacket,
    pub has_dynamic_state: bool,
    pub draw: GlDrawCommand,
    pub geometry: Seq<GlVertexBufferBinding>,
    pub index: Option<GlIndexBinding>,
    pub geometry_key: CanonicalBlockId,
    pub bind_groups: Seq<BoundGroup>,
}

impl View for NativeRasterDrawAction {
    type V = DrawModel;

    open spec fn view(&self) -> DrawModel {
        DrawModel {
            program: self.pipeline.program,
            vertex_array: self.pipeline.vertex_array,
            state: self.pipeline.state@,
            packet: self.packet,
            has_dynamic_state: self.has_dynamic_state,
            draw: self.draw,
            geometry: self.geometry@,
            index: self.index,
            geometry_key: self.geometry_key,
            bind_groups: seen_groups(self.bind_groups@),
        }
    }
}

/// Lowered work, by value.
#[verifier::ext_equal]
pub enum ActionModel {
    CopyBuffer { source: GlBufferRange, destination: GlBufferRange },
    CopyTexture { source: GlTextureRegion, destination: GlTextureRegion },
    UploadBuffer { destination: GlBufferRange, bytes: Arc<Vec<u8>> },
    UploadTexture { destination: GlTextureRegion, layout: GlPixelLayout, bytes: Arc<Vec<u8>> },
    ReadBuffer { source: GlBufferRange, ticket: ReadbackTicket },
    ReadTexture { source: GlTextureRegion, layout: GlPixelLayout, ticket: ReadbackTicket },
    RasterBegin(BeginModel),
    RasterDraw(DrawModel),
    RasterIndirect { draw: DrawModel, command: GlIndirectCommandRange },
    RasterEnd,
    ComputeDispatch {
        program: ProgramId,
        program_key: CanonicalBlockId,
        groups: GlDispatchGroups,
        bind_groups: Seq<BoundGroup>,
    },
    QueryBegin { query: QueryId, ty: QueryType, state_key: CanonicalBlockId },
    QueryEnd { ty: QueryType },
    Timestamp(QueryId),
}

impl View for NativePhaseBAction {
    type V = ActionModel;

    open spec fn view(&self) -> ActionModel {
        match *self {
            NativePhaseBAction::CopyBuffer { source, destination } => ActionModel::CopyBuffer {
                source,
                destination,
            },
            NativePhaseBAction::CopyTexture { source, destination } => ActionModel::CopyTexture {
                source,
                destination,
            },
            NativePhaseBAction::UploadBuffer { destination, bytes } => ActionModel::UploadBuffer {
                destination,
                bytes,
            },
            NativePhaseBAction::UploadTexture { destination, layout, bytes } => {
                ActionModel::UploadTexture { destination, layout, bytes }
            },
            NativePhaseBAction::ReadBuffer { source, ticket } => ActionModel::ReadBuffer {
                source,
                ticket,
            },
            NativePhaseBAction::ReadTexture { source, layout, ticket } => {
                ActionModel::ReadTexture { source, layout, ticket }
            },
            NativePhaseBAction::RasterBegin(action) => ActionModel::RasterBegin(action@),
            NativePhaseBAction::RasterDraw(action) => ActionModel::RasterDraw(action@),
            NativePhaseBAction::RasterIndirect { draw, command } => ActionModel::RasterIndirect {
                draw: draw@,
                command,
            },
            NativePhaseBAction::RasterEnd => ActionModel::RasterEnd,
            NativePhaseBAction::ComputeDispatch { program, program_key, groups, bind_groups } => {
                ActionModel::ComputeDispatch {
                    program,
                    program_key,
                    groups,
                    bind_groups: seen_groups(bind_groups@),
                }
            },
            NativePhaseBAction::QueryBegin { query, ty, state_key } => ActionModel::QueryBegin {
                query,
                ty,
                state_key,
            },
            NativePhaseBAction::QueryEnd { ty } => ActionModel::QueryEnd { ty },
            NativePhaseBAction::Timestamp(query) => ActionModel::Timestamp(query),
        }
    }
}

/// The work of a submission, by value.
pub open spec fn seen_actions(actions: Seq<NativePhaseBAction>) -> Seq<ActionModel> {
    actions.map_values(|action: NativePhaseBAction| action@)
}

/// What accepting a submission hands out: the serial under which it completes,
/// also for each of its points.
#[derive(Debug)]
pub struct SubmissionOutcome {
    pub completion: u64,
    pub points: Vec<(PlanPoint, u64)>,
}

/// Every point completes under the serial.
pub open spec fn points_at(points: Seq<PlanPoint>, serial: u64) -> Seq<(PlanPoint, u64)> {
    points.map_values(|point: PlanPoint| (point, serial))
}

/// The attachments, each with the view at its place.
pub open spec fn attached(
    colors: Seq<GlColorAttachment>,
    views: Seq<GlTextureView>,
) -> Seq<GlColorAttachment> {
    Seq::new(
        colors.len(),
        |i: int|
            if i < views.len() {
                GlColorAttachment { view: GlPassAttachmentView::Allocated(views[i]), ..colors[i] }
            } else {
                colors[i]
            },
    )
}

/// The dynamic offset at a position. Where there is none, it is zero.
pub open spec fn offset_at(offsets: Seq<u32>, at: int) -> u32 {
    if 0 <= at < offsets.len() {
        offsets[at]
    } else {
        0
    }
}

/// How many dynamic offsets are used up after one more was asked for.
pub open spec fn advanced(offsets: Seq<u32>, used: int) -> int {
    if used < offsets.len() {
        used + 1
    } else {
        used
    }
}

/// The slot some places after another.
pub open spec fn slot_after(slot: u32, places: int) -> u32 {
    slot.wrapping_add(places as u32)
}

impl Owner {
    /// The owner with another state of the context.
    pub open spec fn knowing(self, state: StateModel) -> Owner {
        Owner { state, ..self }
    }

    /// The owner after one domain became unknown.
    pub open spec fn doubting(self, domain: StateDomain) -> Owner {
        self.knowing(self.state.after(StateEvent::DomainFailed(domain)))
    }

    /// Making a framebuffer.
    pub open spec fn create_framebuffer(
        self,
        framebuffer: FramebufferModel,
        operation: &'static str,
        o: Seq<NativeStep>,
    ) -> (Owner, Result<FramebufferId, RhiError>) {
        let reply = self.next(o)->CreateFramebuffer_reply;
        (
            self.asked(NativeStep::CreateFramebuffer { framebuffer, reply }),
            match reply {
                Ok(id) => Ok(id),
                Err(error) => Err(owner::mapped(error, operation)),
            },
        )
    }

    /// Asking GL to begin a pass. If it fails, the framebuffer goes.
    pub open spec fn enter_pass(
        self,
        framebuffer: Option<FramebufferId>,
        target: GlRenderTarget,
        colors: Seq<GlColorAttachment>,
        depth_stencil: Option<GlDepthStencilAttachment>,
        pass: PassPacket,
        o: Seq<NativeStep>,
    ) -> (Owner, Result<(), RhiError>) {
        let (begun, result) = self.command(
            CommandModel::BeginPass { target, colors, depth_stencil },
            o,
        );
        match result {
            Ok(_) => (
                Owner {
                    state: StateModel { pass: Some(pass), ..begun.state },
                    active_framebuffer: framebuffer,
                    ..begun
                },
                Ok(()),
            ),
            Err(error) => {
                let failed = begun.knowing(StateModel { pass: None, ..begun.state });
                let error = owner::mapped(error, "NativeProviderOwner::submit raster-begin");
                match framebuffer {
                    None => (failed, Err(error)),
                    Some(id) => {
                        let (gone, _) = failed.command(
                            CommandModel::Plain(
                                NativeCommand::Destroy(NativeObject::Framebuffer(id)),
                            ),
                            o,
                        );
                        (gone, Err(error))
                    },
                }
            },
        }
    }

    pub open spec fn execute_raster_begin(self, action: BeginModel, o: Seq<NativeStep>) -> (
        Owner,
        Result<(), RhiError>,
    ) {
        match action.framebuffer {
            None => self.enter_pass(
                None,
                action.target,
                action.colors,
                action.depth_stencil,
                action.pass,
                o,
            ),
            Some(framebuffer) => {
                let operation = "NativeProviderOwner::submit raster-begin";
                let (made, outcome) = self.create_framebuffer(framebuffer, operation, o);
                match outcome {
                    Err(error) => (made, Err(error)),
                    Ok(id) => if action.depth_stencil is Some && framebuffer.depth_stencil is None {
                        (
                            made,
                            Err(
                                error::rhi_error_at(
                                    RhiErrorKind::BackendFailure,
                                    "native raster depth attachment disappeared",
                                    operation,
                                ),
                            ),
                        )
                    } else {
                        made.enter_pass(
                            Some(id),
                            GlRenderTarget::Offscreen(id),
                            attached(action.colors, framebuffer.colors),
                            match action.depth_stencil {
                                None => None,
                                Some(depth) => Some(
                                    GlDepthStencilAttachment {
                                        view: framebuffer.depth_stencil->0,
                                        ..depth
                                    },
                                ),
                            },
                            action.pass,
                            o,
                        )
                    },
                }
            },
        }
    }

    pub open spec fn execute_raster_end(self, o: Seq<NativeStep>) -> (Owner, Result<(), RhiError>) {
        let operation = "NativeProviderOwner::submit raster-end";
        let (ended, result) = self.command(CommandModel::Plain(NativeCommand::EndPass), o);
        match result {
            Err(error) => (
                ended.knowing(StateModel { pass: None, ..ended.state }),
                Err(owner::mapped(error, operation)),
            ),
            Ok(_) => match ended.active_framebuffer {
                None => (ended.knowing(StateModel { pass: None, ..ended.state }), Ok(())),
                Some(id) => {
                    let (gone, result) = Owner { active_framebuffer: None, ..ended }.plain(
                        NativeCommand::Destroy(NativeObject::Framebuffer(id)),
                        operation,
                        o,
                    );
                    match result {
                        Err(error) => (gone, Err(error)),
                        Ok(_) => (gone.knowing(StateModel { pass: None, ..gone.state }), Ok(())),
                    }
                },
            },
        }
    }

    /// Binds a stretch of a uniform buffer, unless it is bound already.
    pub open spec fn flush_uniform(
        self,
        slot: u32,
        span: GlBufferSpan,
        dynamic: u32,
        o: Seq<NativeStep>,
    ) -> (Owner, Result<(), RhiError>) {
        let operation = "NativeProviderOwner::submit bind uniform";
        let offset = span.offset + dynamic;
        if offset > u64::MAX {
            (
                self,
                Err(
                    error::rhi_error_at(
                        RhiErrorKind::InvalidUsage,
                        "native GL dynamic buffer offset overflow",
                        operation,
                    ),
                ),
            )
        } else if offset > u32::MAX {
            (
                self,
                Err(
                    error::rhi_error_at(
                        RhiErrorKind::Unsupported,
                        "native GL uniform offset exceeds u32",
                        operation,
                    ),
                ),
            )
        } else if span.size > u32::MAX {
            (
                self,
                Err(
                    error::rhi_error_at(
                        RhiErrorKind::Unsupported,
                        "native GL uniform range exceeds u32",
                        operation,
                    ),
                ),
            )
        } else {
            let offset = offset as u32;
            let size = span.size as u32;
            let (found, outcome) = self.buffer_id(span.buffer.name, operation, o);
            match outcome {
                Err(error) => (found, Err(error)),
                Ok(id) => {
                    let key = CanonicalBlockId::UniformRange { buffer: id, offset, size };
                    if context::must_emit(
                        found.state.mode,
                        context::slot_value(found.state.uniform_slots, slot),
                        key,
                    ) {
                        let (bound, outcome) = found.plain(NativeCommand::BindUniform { slot, buffer: id, offset, size }, operation, o);
                        match outcome {
                            Err(error) => (bound, Err(error)),
                            Ok(_done) => {
                                (
                                    bound.knowing(
                                        StateModel {
                                            uniform_slots: bound.state.uniform_slots.insert(slot as u64, key),
                                            ..bound.state
                                        },
                                    ),
                                    Ok(()),
                                )
                            },
                        }
                    } else {
                        (found, Ok(()))
                    }
                },
            }
        }
    }

    /// Binds a texture view to a unit, unless it is bound already.
    pub open spec fn flush_texture(self, unit: u32, view: GlTextureViewRef, o: Seq<NativeStep>) -> (
        Owner,
        Result<(), RhiError>,
    ) {
        let operation = "NativeProviderOwner::submit bind texture";
        if !self.views.contains_key(view.name@ as u64) {
            (
                self,
                Err(
                    error::rhi_error_at(
                        RhiErrorKind::WrongDevice,
                        "native GL texture view backing is not live",
                        operation,
                    ),
                ),
            )
        } else {
            let record = self.views[view.name@ as u64];
            let key = CanonicalBlockId::Interned(view.name@ as u64);
            let active = context::must_emit(self.state.mode, self.state.active_texture, unit);
            let bind = context::must_emit(
                self.state.mode,
                context::slot_value(self.state.texture_slots, unit),
                key,
            );
            let (ready, outcome) = if active {
                self.plain(NativeCommand::ActiveTexture { unit }, operation, o)
            } else {
                (self, Ok(()))
            };
            match outcome {
                Err(error) => (ready, Err(error)),
                Ok(_) => {
                    let (bound, outcome) = if bind {
                        ready.plain(
                            NativeCommand::BindTexture {
                                unit,
                                target: record.target,
                                texture: record.texture,
                            },
                            operation,
                            o,
                        )
                    } else {
                        (ready, Ok(()))
                    };
                    match outcome {
                        Err(error) => (bound, Err(error)),
                        Ok(_) => if active || bind {
                            (
                                bound.knowing(
                                    StateModel {
                                        active_texture: Some(unit),
                                        texture_slots: bound.state.texture_slots.insert(
                                            unit as u64,
                                            key,
                                        ),
                                        ..bound.state
                                    },
                                ),
                                Ok(()),
                            )
                        } else {
                            (bound, Ok(()))
                        },
                    }
                },
            }
        }
    }

    /// Binds a sampler to a unit, unless it is bound already.
    pub open spec fn flush_sampler(self, unit: u32, sampler: GlSamplerRef, o: Seq<NativeStep>) -> (
        Owner,
        Result<(), RhiError>,
    ) {
        let operation = "NativeProviderOwner::submit bind sampler";
        let (found, outcome) = self.sampler_id(sampler.name, operation, o);
        match outcome {
            Err(error) => (found, Err(error)),
            Ok(id) => {
                let key = CanonicalBlockId::Sampler(id);
                if context::must_emit(
                    found.state.mode,
                    context::slot_value(found.state.sampler_slots, unit),
                    key,
                ) {
                    let (bound, outcome) = found.plain(NativeCommand::BindSampler { unit, sampler: id }, operation, o);
                    match outcome {
                        Err(error) => (bound, Err(error)),
                        Ok(_done) => {
                            (
                                bound.knowing(
                                    StateModel {
                                        sampler_slots: bound.state.sampler_slots.insert(unit as u64, key),
                                        ..bound.state
                                    },
                                ),
                                Ok(()),
                            )
                        },
                    }
                } else {
                    (found, Ok(()))
                }
            },
        }
    }

    /// Binds the buffers of an array from a position on. Each takes the next
    /// dynamic offset.
    pub open spec fn flush_uniforms(
        self,
        slot: u32,
        spans: Seq<GlBufferSpan>,
        at: int,
        offsets: Seq<u32>,
        used: int,
        o: Seq<NativeStep>,
    ) -> (Owner, Result<int, RhiError>)
        decreases spans.len() - at,
    {
        if at >= spans.len() {
            (self, Ok(used))
        } else {
            let (bound, outcome) = self.flush_uniform(
                slot_after(slot, at),
                spans[at],
                offset_at(offsets, used),
                o,
            );
            match outcome {
                Err(error) => (bound, Err(error)),
                Ok(_) => bound.flush_uniforms(
                    slot,
                    spans,
                    at + 1,
                    offsets,
                    advanced(offsets, used),
                    o,
                ),
            }
        }
    }

    /// Binds the views of an array from a position on.
    pub open spec fn flush_textures(
        self,
        slot: u32,
        views: Seq<GlTextureViewRef>,
        at: int,
        o: Seq<NativeStep>,
    ) -> (Owner, Result<(), RhiError>)
        decreases views.len() - at,
    {
        if at >= views.len() {
            (self, Ok(()))
        } else {
            let (bound, outcome) = self.flush_texture(slot_after(slot, at), views[at], o);
            match outcome {
                Err(error) => (bound, Err(error)),
                Ok(_) => bound.flush_textures(slot, views, at + 1, o),
            }
        }
    }

    /// Binds the samplers of an array from a position on.
    pub open spec fn flush_samplers(
        self,
        slot: u32,
        samplers: Seq<GlSamplerRef>,
        at: int,
        o: Seq<NativeStep>,
    ) -> (Owner, Result<(), RhiError>)
        decreases samplers.len() - at,
    {
        if at >= samplers.len() {
            (self, Ok(()))
        } else {
            let (bound, outcome) = self.flush_sampler(slot_after(slot, at), samplers[at], o);
            match outcome {
                Err(error) => (bound, Err(error)),
                Ok(_) => bound.flush_samplers(slot, samplers, at + 1, o),
            }
        }
    }

    /// Binds what stands at one slot. The result counts the dynamic offsets
    /// that are used up.
    pub open spec fn flush_entry(
        self,
        entry: GlBindGroupEntry,
        offsets: Seq<u32>,
        used: int,
        o: Seq<NativeStep>,
    ) -> (Owner, Result<int, RhiError>) {
        match entry.resource {
            GlBindingResource::Buffer(span) => {
                let (bound, outcome) = self.flush_uniform(
                    entry.slot,
                    span,
                    offset_at(offsets, used),
                    o,
                );
                match outcome {
                    Err(error) => (bound, Err(error)),
                    Ok(_) => (bound, Ok(advanced(offsets, used))),
                }
            },
            GlBindingResource::BufferArray(spans) => self.flush_uniforms(
                entry.slot,
                spans@,
                0,
                offsets,
                used,
                o,
            ),
            GlBindingResource::Texture(view) => {
                let (bound, outcome) = self.flush_texture(entry.slot, view, o);
                match outcome {
                    Err(error) => (bound, Err(error)),
                    Ok(_) => (bound, Ok(used)),
                }
            },
            GlBindingResource::TextureArray(views) => {
                let (bound, outcome) = self.flush_textures(entry.slot, views@, 0, o);
                match outcome {
                    Err(error) => (bound, Err(error)),
                    Ok(_) => (bound, Ok(used)),
                }
            },
            GlBindingResource::Sampler(sampler) => {
                let (bound, outcome) = self.flush_sampler(entry.slot, sampler, o);
                match outcome {
                    Err(error) => (bound, Err(error)),
                    Ok(_) => (bound, Ok(used)),
                }
            },
            GlBindingResource::SamplerArray(samplers) => {
                let (bound, outcome) = self.flush_samplers(entry.slot, samplers@, 0, o);
                match outcome {
                    Err(error) => (bound, Err(error)),
                    Ok(_) => (bound, Ok(used)),
                }
            },
        }
    }

    /// Binds the slots of a group from a position on.
    pub open spec fn flush_entries(
        self,
        entries: Seq<GlBindGroupEntry>,
        at: int,
        offsets: Seq<u32>,
        used: int,
        o: Seq<NativeStep>,
    ) -> (Owner, Result<int, RhiError>)
        decreases entries.len() - at,
    {
        if at >= entries.len() {
            (self, Ok(used))
        } else {
            let (bound, outcome) = self.flush_entry(entries[at], offsets, used, o);
            match outcome {
                Err(error) => (bound, Err(error)),
                Ok(used) => bound.flush_entries(entries, at + 1, offsets, used, o),
            }
        }
    }

    /// Binds one group.
    pub open spec fn flush_group(self, group: BoundGroup, o: Seq<NativeStep>) -> (
        Owner,
        Result<(), RhiError>,
    ) {
        let key = group.name@ as u64;
        if !self.bind_groups.contains_key(key) {
            (
                self,
                Err(
                    error::rhi_error(
                        RhiErrorKind::WrongDevice,
                        "native GL bind group backing is no longer live",
                    ),
                ),
            )
        } else {
            let (bound, outcome) = self.flush_entries((*self.bind_groups[key]).entries@, 0, group.dynamic_offsets, 0, o);
            match outcome {
                Err(error) => (bound, Err(error)),
                Ok(used) => {
                    if used < group.dynamic_offsets.len() {
                        (
                            bound,
                            Err(
                                error::rhi_error(
                                    RhiErrorKind::InvalidUsage,
                                    "native GL bind group has unused dynamic offsets",
                                ),
                            ),
                        )
                    } else {
                        (bound, Ok(()))
                    }
                },
            }
        }
    }

    /// Binds the groups of a flush from a position on.
    pub open spec fn flush_bindings(self, groups: Seq<BoundGroup>, at: int, o: Seq<NativeStep>) -> (
        Owner,
        Result<(), RhiError>,
    )
        decreases groups.len() - at,
    {
        if at >= groups.len() {
            (self, Ok(()))
        } else {
            let (bound, outcome) = self.flush_group(groups[at], o);
            match outcome {
                Err(error) => (bound, Err(error)),
                Ok(_) => bound.flush_bindings(groups, at + 1, o),
            }
        }
    }

    /// The state with the groups staged, from a position on.
    pub open spec fn staging(state: StateModel, groups: Seq<BoundGroup>, at: int) -> StateModel
        decreases groups.len() - at,
    {
        if at >= groups.len() {
            state
        } else {
            Owner::staging(state.with_group(groups[at]), groups, at + 1)
        }
    }

    /// Binds what is dirty. What was bound counts as bound only if all of it
    /// was.
    pub open spec fn settle_bindings(self, o: Seq<NativeStep>) -> (Owner, Result<(), RhiError>) {
        let groups = context::flush_of(self.state.bindings, self.state.dirty_bindings);
        if groups.len() == 0 {
            (self, Ok(()))
        } else {
            let (bound, outcome) = self.flush_bindings(groups, 0, o);
            match outcome {
                Err(error) => (bound.doubting(StateDomain::Bindings), Err(error)),
                Ok(_) => (bound.knowing(bound.state.acknowledged(groups)), Ok(())),
            }
        }
    }

    /// Installs a pipeline where it differs from what is installed.
    pub open spec fn settle_pipeline(self, action: DrawModel, o: Seq<NativeStep>) -> (
        Owner,
        Result<(), RhiError>,
    ) {
        let operation = "NativeProviderOwner::submit raster-draw";
        match self.state.prepared_pipeline(action.packet) {
            Err(refusal) => (
                self,
                Err(
                    RhiError {
                        kind: RhiErrorKind::BackendFailure,
                        detail: RhiDetail::State(refusal),
                        operation: Some(operation),
                    },
                ),
            ),
            Ok(diff) => if diff == context::no_diff() {
                (self, Ok(()))
            } else {
                let (applied, result) = self.command(
                    CommandModel::ApplyPipeline {
                        program: action.program,
                        vertex_array: action.vertex_array,
                        state: action.state,
                        diff,
                    },
                    o,
                );
                match result {
                    Err(error) => (
                        applied.knowing(
                            StateModel { pipeline: None, current_program: None, ..applied.state },
                        ),
                        Err(owner::mapped(error, operation)),
                    ),
                    Ok(_) => (
                        applied.knowing(applied.state.with_pipeline(action.packet)),
                        Ok(()),
                    ),
                }
            },
        }
    }

    /// Binds the geometry of a draw, unless it is bound already.
    pub open spec fn settle_geometry(self, action: DrawModel, o: Seq<NativeStep>) -> (
        Owner,
        Result<(), RhiError>,
    ) {
        if context::must_emit(self.state.mode, self.state.geometry, action.geometry_key) {
            let (bound, result) = self.command(
                CommandModel::BindVertices {
                    vertex_array: action.vertex_array,
                    vertices: action.geometry,
                    index: action.index,
                },
                o,
            );
            match result {
                Err(error) => (
                    bound.knowing(StateModel { geometry: None, ..bound.state }),
                    Err(owner::mapped(error, "NativeProviderOwner::submit raster-draw")),
                ),
                Ok(_) => (
                    bound.knowing(
                        StateModel { geometry: Some(action.geometry_key), ..bound.state },
                    ),
                    Ok(()),
                ),
            }
        } else {
            (self, Ok(()))
        }
    }

    /// Everything that a draw needs: pipeline, bindings and geometry, in this
    /// order. Dynamic values make the installed pipeline unknown before, and
    /// again once they are installed with it.
    pub open spec fn prepare_raster_draw(self, action: DrawModel, o: Seq<NativeStep>) -> (
        Owner,
        Result<(), RhiError>,
    ) {
        let start = if action.has_dynamic_state {
            self.doubting(StateDomain::RasterPipeline)
        } else {
            self
        };
        let (installed, outcome) = start.settle_pipeline(action, o);
        match outcome {
            Err(error) => (installed, Err(error)),
            Ok(_installed) => {
                let left = if action.has_dynamic_state {
                    installed.doubting(StateDomain::RasterPipeline)
                } else {
                    installed
                };
                let staged = left.knowing(Owner::staging(left.state, action.bind_groups, 0));
                let (bound, outcome) = staged.settle_bindings(o);
                match outcome {
                    Err(error) => (bound, Err(error)),
                    Ok(_bound) => {
                        bound.settle_geometry(action, o)
                    },
                }
            },
        }
    }

    pub open spec fn execute_raster_draw(self, action: DrawModel, o: Seq<NativeStep>) -> (
        Owner,
        Result<(), RhiError>,
    ) {
        let (prepared, outcome) = self.prepare_raster_draw(action, o);
        match outcome {
            Err(error) => (prepared, Err(error)),
            Ok(_prepared) => {
                let (drawn, result) = prepared.command(CommandModel::Plain(NativeCommand::Draw(action.draw)), o);
                match result {
                    Ok(_) => (drawn, Ok(())),
                    Err(error) => (
                        drawn.knowing(StateModel { pipeline: None, current_program: None, ..drawn.state }),
                        Err(owner::mapped(error, "NativeProviderOwner::submit raster-draw")),
                    ),
                }
            },
        }
    }

    pub open spec fn execute_raster_indirect(
        self,
        action: DrawModel,
        command: GlIndirectCommandRange,
        o: Seq<NativeStep>,
    ) -> (Owner, Result<(), RhiError>) {
        let (prepared, outcome) = self.prepare_raster_draw(action, o);
        match outcome {
            Err(error) => (prepared, Err(error)),
            Ok(_prepared) => {
                let (drawn, result) = prepared.command(
                    CommandModel::Plain(NativeCommand::DrawIndirect(command)),
                    o,
                );
                match result {
                    Ok(_) => (drawn, Ok(())),
                    Err(error) => (
                        drawn.knowing(StateModel { pipeline: None, current_program: None, ..drawn.state }),
                        Err(owner::mapped(error, "NativeProviderOwner::submit raster-indirect")),
                    ),
                }
            },
        }
    }

    /// Selects a compute program, unless it is selected already.
    pub open spec fn settle_compute(
        self,
        program: ProgramId,
        program_key: CanonicalBlockId,
        o: Seq<NativeStep>,
    ) -> (Owner, Result<(), RhiError>) {
        if context::must_emit(self.state.mode, self.state.current_program, program_key) {
            let (used, result) = self.command(
                CommandModel::Plain(NativeCommand::UseComputeProgram(program)),
                o,
            );
            match result {
                Err(error) => (
                    used.doubting(StateDomain::Compute),
                    Err(owner::mapped(error, "NativeProviderOwner::submit compute-dispatch")),
                ),
                Ok(_) => (
                    used.knowing(
                        StateModel {
                            current_program: Some(program_key),
                            compute: Some(program_key),
                            ..used.state
                        },
                    ),
                    Ok(()),
                ),
            }
        } else {
            (self, Ok(()))
        }
    }

    pub open spec fn execute_compute_dispatch(
        self,
        program: ProgramId,
        program_key: CanonicalBlockId,
        groups: GlDispatchGroups,
        bind_groups: Seq<BoundGroup>,
        o: Seq<NativeStep>,
    ) -> (Owner, Result<(), RhiError>) {
        let (selected, outcome) = self.settle_compute(program, program_key, o);
        match outcome {
            Err(error) => (selected, Err(error)),
            Ok(_selected) => {
                let staged = selected.knowing(Owner::staging(selected.state, bind_groups, 0));
                let (bound, outcome) = staged.settle_bindings(o);
                match outcome {
                    Err(error) => (bound, Err(error)),
                    Ok(_bound) => {
                        let (done, result) = bound.command(
                            CommandModel::Plain(NativeCommand::Dispatch(groups)),
                            o,
                        );
                        match result {
                            Ok(_) => (done, Ok(())),
                            Err(error) => (
                                done.doubting(StateDomain::Compute),
                                Err(owner::mapped(error, "NativeProviderOwner::submit compute-dispatch")),
                            ),
                        }
                    },
                }
            },
        }
    }

    pub open spec fn execute_query_begin(
        self,
        query: QueryId,
        ty: QueryType,
        state_key: CanonicalBlockId,
        o: Seq<NativeStep>,
    ) -> (Owner, Result<(), RhiError>) {
        let operation = "NativeProviderOwner::submit query-begin";
        match ty {
            QueryType::PipelineStatistics => {
                (
                    self,
                    Err(
                        error::rhi_error_at(
                            RhiErrorKind::Unsupported,
                            "native GL has no pipeline-statistics query lowering",
                            operation,
                        ),
                    ),
                )
            },
            QueryType::Timestamp => {
                (
                    self,
                    Err(
                        error::rhi_error_at(
                            RhiErrorKind::InvalidUsage,
                            "timestamp queries use write_timestamp rather than begin/end",
                            operation,
                        ),
                    ),
                )
            },
            QueryType::Occlusion => {
                let (begun, result) = self.command(
                    CommandModel::Plain(NativeCommand::BeginOcclusionQuery(query)),
                    o,
                );
                match result {
                    Err(error) => (
                        begun.knowing(StateModel { query: None, ..begun.state }),
                        Err(owner::mapped(error, operation)),
                    ),
                    Ok(_) => (
                        begun.knowing(StateModel { query: Some(state_key), ..begun.state }),
                        Ok(()),
                    ),
                }
            },
        }
    }

    pub open spec fn execute_query_end(self, ty: QueryType, o: Seq<NativeStep>) -> (
        Owner,
        Result<(), RhiError>,
    ) {
        let operation = "NativeProviderOwner::submit query-end";
        match ty {
            QueryType::PipelineStatistics => {
                (
                    self,
                    Err(
                        error::rhi_error_at(
                            RhiErrorKind::Unsupported,
                            "native GL has no pipeline-statistics query lowering",
                            operation,
                        ),
                    ),
                )
            },
            QueryType::Timestamp => {
                (
                    self,
                    Err(
                        error::rhi_error_at(
                            RhiErrorKind::InvalidUsage,
                            "timestamp queries have no end command",
                            operation,
                        ),
                    ),
                )
            },
            QueryType::Occlusion => {
                let (ended, result) = self.command(
                    CommandModel::Plain(NativeCommand::EndOcclusionQuery),
                    o,
                );
                (
                    ended.knowing(StateModel { query: None, ..ended.state }),
                    match result {
                        Ok(_) => Ok(()),
                        Err(error) => Err(owner::mapped(error, operation)),
                    },
                )
            },
        }
    }

    pub open spec fn execute_timestamp(self, query: QueryId, o: Seq<NativeStep>) -> (
        Owner,
        Result<(), RhiError>,
    ) {
        let (written, result) = self.command(
            CommandModel::Plain(NativeCommand::WriteTimestamp(query)),
            o,
        );
        match result {
            Ok(_) => (written, Ok(())),
            Err(error) => (
                written.knowing(StateModel { query: None, ..written.state }),
                Err(owner::mapped(error, "NativeProviderOwner::submit timestamp")),
            ),
        }
    }

    /// Reading bytes of a buffer.
    pub open spec fn read_buffer(
        self,
        source: GlBufferRange,
        operation: &'static str,
        o: Seq<NativeStep>,
    ) -> (Owner, Result<Arc<Vec<u8>>, RhiError>) {
        let reply = self.next(o)->ReadBuffer_reply;
        (
            self.asked(NativeStep::ReadBuffer { source, reply }),
            match reply {
                Ok(bytes) => Ok(bytes),
                Err(error) => Err(owner::mapped(error, operation)),
            },
        )
    }

    /// Reading texels.
    pub open spec fn read_texture(
        self,
        source: GlTextureRegion,
        layout: GlPixelLayout,
        operation: &'static str,
        o: Seq<NativeStep>,
    ) -> (Owner, Result<TexelRead, RhiError>) {
        let reply = self.next(o)->ReadTexture_reply;
        (
            self.asked(NativeStep::ReadTexture { source, layout, reply }),
            match reply {
                Ok(read) => Ok(read),
                Err(error) => Err(owner::mapped(error, operation)),
            },
        )
    }

    /// Carries out one piece of work. A readback yields bytes that wait for
    /// the fence.
    pub open spec fn execute_action(self, action: ActionModel, o: Seq<NativeStep>) -> (
        Owner,
        Result<Option<PendingReadback>, RhiError>,
    ) {
        match action {
            ActionModel::ReadBuffer { source, ticket } => {
                let (read, outcome) = self.read_buffer(source, "NativeProviderOwner::submit read-buffer", o);
                match outcome {
                    Err(error) => (read, Err(error)),
                    Ok(bytes) => {
                        (read, Ok(Some(PendingReadback { ticket, bytes, layout: None })))
                    },
                }
            },
            ActionModel::ReadTexture { source, layout, ticket } => {
                let (read, outcome) = self.read_texture(source, layout, "NativeProviderOwner::submit read-texture", o);
                match outcome {
                    Err(error) => (read, Err(error)),
                    Ok(texels) => {
                        (
                            read,
                            Ok(
                                Some(
                                    PendingReadback {
                                        ticket,
                                        bytes: texels.bytes,
                                        layout: Some(
                                            ReadbackTexelLayout {
                                                bytes_per_row: texels.layout.bytes_per_row,
                                                rows_per_image: texels.layout.rows_per_image,
                                                total_size: texels.bytes@.len() as u64,
                                            },
                                        ),
                                    },
                                ),
                            ),
                        )
                    },
                }
            },
            _ => {
                let (done, outcome) = self.execute_plain_action(action, o);
                match outcome {
                    Err(error) => (done, Err(error)),
                    Ok(_) => (done, Ok(None)),
                }
            },
        }
    }

    /// Carries out one piece of work that reads nothing back.
    pub open spec fn execute_plain_action(self, action: ActionModel, o: Seq<NativeStep>) -> (
        Owner,
        Result<(), RhiError>,
    ) {
        match action {
            ActionModel::CopyBuffer { source, destination } => self.plain(
                NativeCommand::CopyBuffer { source, destination },
                "NativeProviderOwner::submit copy-buffer",
                o,
            ),
            ActionModel::CopyTexture { source, destination } => self.plain(
                NativeCommand::CopyTexture { source, destination },
                "NativeProviderOwner::submit copy-texture",
                o,
            ),
            ActionModel::UploadBuffer { destination, bytes } => self.plain(
                NativeCommand::UploadBuffer { destination, bytes },
                "NativeProviderOwner::submit upload-buffer",
                o,
            ),
            ActionModel::UploadTexture { destination, layout, bytes } => self.plain(
                NativeCommand::UploadTexture { destination, layout, bytes },
                "NativeProviderOwner::submit upload-texture",
                o,
            ),
            ActionModel::RasterBegin(action) => self.execute_raster_begin(action, o),
            ActionModel::RasterDraw(action) => self.execute_raster_draw(action, o),
            ActionModel::RasterIndirect { draw, command } => self.execute_raster_indirect(
                draw,
                command,
                o,
            ),
            ActionModel::RasterEnd => self.execute_raster_end(o),
            ActionModel::ComputeDispatch { program, program_key, groups, bind_groups } => {
                self.execute_compute_dispatch(program, program_key, groups, bind_groups, o)
            },
            ActionModel::QueryBegin { query, ty, state_key } => self.execute_query_begin(
                query,
                ty,
                state_key,
                o,
            ),
            ActionModel::QueryEnd { ty } => self.execute_query_end(ty, o),
            ActionModel::Timestamp(query) => self.execute_timestamp(query, o),
            _ => (self, Ok(())),
        }
    }

    /// Carries out the work from a position on.
    pub open spec fn execute_actions(
        self,
        actions: Seq<ActionModel>,
        at: int,
        readbacks: Seq<PendingReadback>,
        o: Seq<NativeStep>,
    ) -> (Owner, Result<Seq<PendingReadback>, RhiError>)
        decreases actions.len() - at,
    {
        if at >= actions.len() {
            (self, Ok(readbacks))
        } else {
            let (done, outcome) = self.execute_action(actions[at], o);
            match outcome {
                Err(error) => (done, Err(error)),
                Ok(None) => done.execute_actions(actions, at + 1, readbacks, o),
                Ok(Some(readback)) => done.execute_actions(
                    actions,
                    at + 1,
                    readbacks.push(readback),
                    o,
                ),
            }
        }
    }

    /// Making a fence and flushing, after which the submission is pending.
    pub open spec fn accept_submission(
        self,
        readbacks: Seq<PendingReadback>,
        o: Seq<NativeStep>,
    ) -> (Owner, Result<(), RhiError>) {
        let operation = "NativeProviderOwner::submit phase B";
        let reply = self.next(o)->CreateFence_reply;
        let fenced = self.asked(NativeStep::CreateFence { reply });
        match reply {
            Err(error) => (fenced, Err(owner::mapped(error, operation))),
            Ok(fence) => {
                let (flushed, result) = fenced.plain(NativeCommand::Flush, operation, o);
                match result {
                    Err(error) => (flushed, Err(error)),
                    Ok(_) => (
                        Owner {
                            completions: flushed.completions.push(
                                CompletionModel::Pending {
                                    fence,
                                    readbacks,
                                    waiters: Seq::empty(),
                                },
                            ),
                            ..flushed
                        },
                        Ok(()),
                    ),
                }
            },
        }
    }

    /// The whole of a submission that was lowered.
    pub open spec fn execute_submission_after_commit(
        self,
        actions: Seq<ActionModel>,
        o: Seq<NativeStep>,
    ) -> (Owner, Result<(), RhiError>) {
        let (done, outcome) = self.execute_actions(actions, 0, Seq::empty(), o);
        match outcome {
            Err(error) => (done, Err(error)),
            Ok(readbacks) => {
                done.accept_submission(readbacks, o)
            },
        }
    }

    /// Ends a submission that failed half way: nobody waits for its readbacks
    /// any longer, and its serial has a final state.
    pub open spec fn fail_submission_after_commit(
        self,
        tickets: Seq<ReadbackTicket>,
        error: RhiError,
    ) -> Owner {
        let lost = error.kind == RhiErrorKind::DeviceLost;
        Owner {
            completions: self.completions.push(ended_by(error)),
            notices: self.notices + statuses(tickets, if_lost(lost)),
            ..self
        }
    }
}

/// The final state that an error gives a submission.
pub open spec fn ended_by(error: RhiError) -> CompletionModel {
    if error.kind == RhiErrorKind::DeviceLost {
        CompletionModel::DeviceLost(DeviceLossInfo { cause: error.detail })
    } else {
        CompletionModel::Failed(CompletionFailure::Cause(error.detail))
    }
}

/// How a readback ends.
pub open spec fn if_lost(lost: bool) -> ReadbackStatus {
    if lost {
        ReadbackStatus::DeviceLost
    } else {
        ReadbackStatus::Failed
    }
}

/// A notice of the same end for every ticket.
pub open spec fn statuses(tickets: Seq<ReadbackTicket>, status: ReadbackStatus) -> Seq<Notice> {
    tickets.map_values(|ticket: ReadbackTicket| Notice::Status { ticket, status })
}

/// The tickets of the readbacks among the work.
pub open spec fn readback_tickets(actions: Seq<ActionModel>) -> Seq<ReadbackTicket>
    decreases actions.len(),
{
    if actions.len() == 0 {
        Seq::empty()
    } else {
        let before = readback_tickets(actions.drop_last());
        match actions.last() {
            ActionModel::ReadBuffer { ticket, .. } => before.push(ticket),
            ActionModel::ReadTexture { ticket, .. } => before.push(ticket),
            _ => before,
        }
    }
}

/// Collects the tickets of all readbacks, also of those that may never be
/// reached.
pub fn native_readback_tickets(actions: &Vec<NativePhaseBAction>) -> (result: Vec<ReadbackTicket>)
    ensures
        result@ == readback_tickets(seen_actions(actions@)),
{
    let mut result: Vec<ReadbackTicket> = Vec::new();
    let mut at: usize = 0;
    let ghost all = seen_actions(actions@);
    while at < actions.len()
        invariant
            at <= actions@.len(),
            all == seen_actions(actions@),
            result@ == readback_tickets(all.take(at as int)),
        decreases actions@.len() - at,
    {
        proof {
            assert(all.take(at + 1).drop_last() =~= all.take(at as int));
            assert(all.take(at + 1).last() == actions@[at as int]@);
        }
        match &actions[at] {
            NativePhaseBAction::ReadBuffer { source: _, ticket } => {
                result.push(*ticket);
            },
            NativePhaseBAction::ReadTexture { source: _, layout: _, ticket } => {
                result.push(*ticket);
            },
            _ => {},
        }
        at += 1;
    }
    assert(all.take(at as int) =~= all);
    result
}

impl<C: NativePlatformContext, P: NativeProvider> NativeOwnedProvider<C, P> {
    pub fn create_framebuffer(
        &mut self,
        framebuffer: &GlFramebufferDescriptor,
        operation: &'static str,
    ) -> (result: Result<FramebufferId, RhiError>)
        requires
            old(self).wf(),
        ensures
            final(self).wf(),
            link::grows(old(self)@.log, final(self)@.log),
            forall|o: Seq<NativeStep>|
                link::grows(final(self)@.log, o) ==> #[trigger] old(self)@.create_framebuffer(framebuffer@, operation, o) == (
                    final(self)@,
                    result,
                ),
    {
        match self.link.create_framebuffer(framebuffer) {
            Ok(id) => Ok(id),
            Err(error) => Err(map_gl(error, operation)),
        }
    }

    fn enter_pass(
        &mut self,
        framebuffer: Option<FramebufferId>,
        descriptor: GlRenderPassDescriptor,
        pass: PassPacket,
    ) -> (result: Result<(), RhiError>)
        requires
            old(self).wf(),
        ensures
            final(self).wf(),
            link::grows(old(self)@.log, final(self)@.log),
            forall|o: Seq<NativeStep>|
                link::grows(final(self)@.log, o) ==> #[trigger] old(self)@.enter_pass(framebuffer, descriptor.target, descriptor.color_attachments@, descriptor.depth_stencil_attachment, pass, o) == (
                    final(self)@,
                    result,
                ),
    {
        let _ = self.context_state.prepare_pass(pass);
        let command = NativeCommand::BeginPass(descriptor);
        assert(command@ == CommandModel::BeginPass {
            target: descriptor.target,
            colors: descriptor.color_attachments@,
            depth_stencil: descriptor.depth_stencil_attachment,
        });
        match self.command(&command) {
            Ok(()) => {
                self.context_state.commit_pass(pass);
                self.active_raster_framebuffer = framebuffer;
                Ok(())
            },
            Err(error) => {
                self.context_state.pass_failed();
                match framebuffer {
                    Some(id) => {
                        let _ = self.give(
                            NativeCommand::Destroy(NativeObject::Framebuffer(id)),
                        );
                    },
                    None => {},
                }
                Err(map_gl(error, "NativeProviderOwner::submit raster-begin"))
            },
        }
    }

    pub fn execute_raster_begin(&mut self, action: &NativeRasterBeginAction) -> (result: Result<
        (),
        RhiError,
    >)
        requires
            old(self).wf(),
        ensures
            final(self).wf(),
            link::grows(old(self)@.log, final(self)@.log),
            forall|o: Seq<NativeStep>|
                link::grows(final(self)@.log, o) ==> #[trigger] old(self)@.execute_raster_begin(action@, o) == (
                    final(self)@,
                    result,
                ),
    {
        let operation = "NativeProviderOwner::submit raster-begin";
        let source = &action.descriptor;
        match &action.framebuffer {
            None => {
                let nothing: Vec<GlTextureView> = Vec::new();
                let colors = attach(&source.color_attachments, &nothing);
                assert(colors@ =~= action@.colors);
                let descriptor = GlRenderPassDescriptor {
                    target: source.target,
                    color_attachments: colors,
                    depth_stencil_attachment: source.depth_stencil_attachment,
                };
                assert(descriptor.color_attachments@ == action@.colors);
                self.enter_pass(None, descriptor, action.pass)
            },
            Some(framebuffer) => {
                assert(action@.framebuffer == Some(framebuffer@));
                let id = match self.create_framebuffer(framebuffer, operation) {
                    Ok(value) => value,
                    Err(error) => {
                        return Err(error);
                    },
                };
                let colors = attach(&source.color_attachments, &framebuffer.color_attachments);
                let depth_stencil_attachment = match source.depth_stencil_attachment {
                    None => None,
                    Some(depth) => match framebuffer.depth_stencil_attachment {
                        Some(view) => Some(
                            GlDepthStencilAttachment {
                                view,
                                depth_load: depth.depth_load,
                                depth_store: depth.depth_store,
                                stencil_load: depth.stencil_load,
                                stencil_store: depth.stencil_store,
                                clear: depth.clear,
                            },
                        ),
                        None => {
                            return Err(
                                RhiError::new(
                                    RhiErrorKind::BackendFailure,
                                    "native raster depth attachment disappeared",
                                ).at(operation),
                            );
                        },
                    },
                };
                let descriptor = GlRenderPassDescriptor {
                    target: GlRenderTarget::Offscreen(id),
                    color_attachments: colors,
                    depth_stencil_attachment,
                };
                assert(descriptor.color_attachments@ == attached(
                    action@.colors,
                    framebuffer@.colors,
                ));
                self.enter_pass(Some(id), descriptor, action.pass)
            },
        }
    }

    pub fn execute_raster_end(&mut self) -> (result: Result<(), RhiError>)
        requires
            old(self).wf(),
        ensures
            final(self).wf(),
            link::grows(old(self)@.log, final(self)@.log),
            forall|o: Seq<NativeStep>|
                link::grows(final(self)@.log, o) ==> #[trigger] old(self)@.execute_raster_end(o) == (
                    final(self)@,
                    result,
                ),
    {
        let operation = "NativeProviderOwner::submit raster-end";
        match self.give(NativeCommand::EndPass) {
            Ok(()) => {},
            Err(error) => {
                self.context_state.pass_failed();
                return Err(map_gl(error, operation));
            },
        }
        match self.active_raster_framebuffer {
            Some(id) => {
                self.active_raster_framebuffer = None;
                match self.plain(NativeCommand::Destroy(NativeObject::Framebuffer(id)), operation) {
                    Ok(()) => {},
                    Err(error) => {
                        return Err(error);
                    },
                }
            },
            None => {},
        }
        self.context_state.end_pass();
        Ok(())
    }

    pub fn flush_uniform(&mut self, slot: u32, span: GlBufferSpan, dynamic: u32) -> (result: Result<
        (),
        RhiError,
    >)
        requires
            old(self).wf(),
        ensures
            final(self).wf(),
            link::grows(old(self)@.log, final(self)@.log),
            forall|o: Seq<NativeStep>|
                link::grows(final(self)@.log, o) ==> #[trigger] old(self)@.flush_uniform(slot, span, dynamic, o) == (
                    final(self)@,
                    result,
                ),
    {
        let operation = "NativeProviderOwner::submit bind uniform";
        let offset: u64 = match span.offset.checked_add(dynamic as u64) {
            Some(offset) => offset,
            None => {
                return Err(
                    RhiError::new(
                        RhiErrorKind::InvalidUsage,
                        "native GL dynamic buffer offset overflow",
                    ).at(operation),
                );
            },
        };
        if offset > 0xffff_ffff {
            return Err(
                RhiError::new(
                    RhiErrorKind::Unsupported,
                    "native GL uniform offset exceeds u32",
                ).at(operation),
            );
        }
        if span.size > 0xffff_ffff {
            return Err(
                RhiError::new(
                    RhiErrorKind::Unsupported,
                    "native GL uniform range exceeds u32",
                ).at(operation),
            );
        }
        let offset: u32 = offset as u32;
        let size: u32 = span.size as u32;
        let id = match self.buffer_id(span.buffer.name, operation) {
            Ok(value) => value,
            Err(error) => {
                return Err(error);
            },
        };
        let key = CanonicalBlockId::uniform_range(id, offset, size);
        if self.context_state.prepare_uniform_slot(slot, key) {
            match self.plain(NativeCommand::BindUniform { slot, buffer: id, offset, size }, operation) {
                Ok(()) => {},
                Err(error) => {
                    return Err(error);
                },
            }
            self.context_state.commit_uniform_slot(slot, key);
        }
        Ok(())
    }

    pub fn flush_texture(&mut self, unit: u32, view: GlTextureViewRef) -> (result: Result<
        (),
        RhiError,
    >)
        requires
            old(self).wf(),
        ensures
            final(self).wf(),
            link::grows(old(self)@.log, final(self)@.log),
            forall|o: Seq<NativeStep>|
                link::grows(final(self)@.log, o) ==> #[trigger] old(self)@.flush_texture(unit, view, o) == (
                    final(self)@,
                    result,
                ),
    {
        let operation = "NativeProviderOwner::submit bind texture";
        let raw: u64 = view.name.raw() as u64;
        let record = match self.views.get(raw) {
            Some(record) => *record,
            None => {
                return Err(
                    RhiError::new(
                        RhiErrorKind::WrongDevice,
                        "native GL texture view backing is not live",
                    ).at(operation),
                );
            },
        };
        let key = CanonicalBlockId::new(raw);
        let (active, bind) = self.context_state.prepare_texture_slot(unit, key);
        if active {
            match self.plain(NativeCommand::ActiveTexture { unit }, operation) {
                Ok(()) => {},
                Err(error) => {
                    return Err(error);
                },
            }
        }
        if bind {
            match self.plain(NativeCommand::BindTexture { unit, target: record.target, texture: record.texture }, operation) {
                Ok(()) => {},
                Err(error) => {
                    return Err(error);
                },
            }
        }
        if active || bind {
            self.context_state.commit_texture_slot(unit, key);
        }
        Ok(())
    }

    pub fn flush_sampler(&mut self, unit: u32, sampler: GlSamplerRef) -> (result: Result<
        (),
        RhiError,
    >)
        requires
            old(self).wf(),
        ensures
            final(self).wf(),
            link::grows(old(self)@.log, final(self)@.log),
            forall|o: Seq<NativeStep>|
                link::grows(final(self)@.log, o) ==> #[trigger] old(self)@.flush_sampler(unit, sampler, o) == (
                    final(self)@,
                    result,
                ),
    {
        let operation = "NativeProviderOwner::submit bind sampler";
        let id = match self.sampler_id(sampler.name, operation) {
            Ok(value) => value,
            Err(error) => {
                return Err(error);
            },
        };
        let key = CanonicalBlockId::Sampler(id);
        if self.context_state.prepare_sampler_slot(unit, key) {
            match self.plain(NativeCommand::BindSampler { unit, sampler: id }, operation) {
                Ok(()) => {},
                Err(error) => {
                    return Err(error);
                },
            }
            self.context_state.commit_sampler_slot(unit, key);
        }
        Ok(())
    }
}

impl<C: NativePlatformContext, P: NativeProvider> NativeOwnedProvider<C, P> {
    fn flush_uniforms(
        &mut self,
        slot: u32,
        spans: &Vec<GlBufferSpan>,
        offsets: &Vec<u32>,
        used: usize,
    ) -> (result: Result<usize, RhiError>)
        requires
            old(self).wf(),
        ensures
            final(self).wf(),
            link::grows(old(self)@.log, final(self)@.log),
            forall|o: Seq<NativeStep>|
                link::grows(final(self)@.log, o) ==> #[trigger] old(self)@.flush_uniforms(
                    slot,
                    spans@,
                    0,
                    offsets@,
                    used as int,
                    o,
                ) == (final(self)@, counted(result)),
    {
        let mut at: usize = 0;
        let mut now: usize = used;
        while at < spans.len()
            invariant
                at <= spans@.len(),
                self.wf(),
                link::grows(old(self)@.log, self@.log),
                forall|o: Seq<NativeStep>|
                    link::grows(self@.log, o) ==> #[trigger] old(self)@.flush_uniforms(
                        slot,
                        spans@,
                        0,
                        offsets@,
                        used as int,
                        o,
                    ) == self@.flush_uniforms(slot, spans@, at as int, offsets@, now as int, o),
            decreases spans@.len() - at,
        {
            let dynamic: u32 = offset_or_zero(offsets, now);
            match self.flush_uniform(slot.wrapping_add(at as u32), spans[at], dynamic) {
                Ok(()) => {},
                Err(error) => {
                    return Err(error);
                },
            }
            if now < offsets.len() {
                now += 1;
            }
            at += 1;
        }
        Ok(now)
    }

    fn flush_textures(&mut self, slot: u32, views: &Vec<GlTextureViewRef>) -> (result: Result<
        (),
        RhiError,
    >)
        requires
            old(self).wf(),
        ensures
            final(self).wf(),
            link::grows(old(self)@.log, final(self)@.log),
            forall|o: Seq<NativeStep>|
                link::grows(final(self)@.log, o) ==> #[trigger] old(self)@.flush_textures(slot, views@, 0, o) == (
                    final(self)@,
                    result,
                ),
    {
        let mut at: usize = 0;
        while at < views.len()
            invariant
                at <= views@.len(),
                self.wf(),
                link::grows(old(self)@.log, self@.log),
                forall|o: Seq<NativeStep>|
                    link::grows(self@.log, o) ==> #[trigger] old(self)@.flush_textures(
                        slot,
                        views@,
                        0,
                        o,
                    ) == self@.flush_textures(slot, views@, at as int, o),
            decreases views@.len() - at,
        {
            match self.flush_texture(slot.wrapping_add(at as u32), views[at]) {
                Ok(()) => {},
                Err(error) => {
                    return Err(error);
                },
            }
            at += 1;
        }
        Ok(())
    }

    fn flush_samplers(&mut self, slot: u32, samplers: &Vec<GlSamplerRef>) -> (result: Result<
        (),
        RhiError,
    >)
        requires
            old(self).wf(),
        ensures
            final(self).wf(),
            link::grows(old(self)@.log, final(self)@.log),
            forall|o: Seq<NativeStep>|
                link::grows(final(self)@.log, o) ==> #[trigger] old(self)@.flush_samplers(slot, samplers@, 0, o) == (
                    final(self)@,
                    result,
                ),
    {
        let mut at: usize = 0;
        while at < samplers.len()
            invariant
                at <= samplers@.len(),
                self.wf(),
                link::grows(old(self)@.log, self@.log),
                forall|o: Seq<NativeStep>|
                    link::grows(self@.log, o) ==> #[trigger] old(self)@.flush_samplers(
                        slot,
                        samplers@,
                        0,
                        o,
                    ) == self@.flush_samplers(slot, samplers@, at as int, o),
            decreases samplers@.len() - at,
        {
            match self.flush_sampler(slot.wrapping_add(at as u32), samplers[at]) {
                Ok(()) => {},
                Err(error) => {
                    return Err(error);
                },
            }
            at += 1;
        }
        Ok(())
    }

    fn flush_entry(&mut self, entry: &GlBindGroupEntry, offsets: &Vec<u32>, used: usize) -> (result:
        Result<usize, RhiError>)
        requires
            old(self).wf(),
        ensures
            final(self).wf(),
            link::grows(old(self)@.log, final(self)@.log),
            forall|o: Seq<NativeStep>|
                link::grows(final(self)@.log, o) ==> #[trigger] old(self)@.flush_entry(
                    *entry,
                    offsets@,
                    used as int,
                    o,
                ) == (final(self)@, counted(result)),
    {
        match &entry.resource {
            GlBindingResource::Buffer(span) => {
                let dynamic: u32 = offset_or_zero(offsets, used);
                match self.flush_uniform(entry.slot, *span, dynamic) {
                    Ok(()) => {},
                    Err(error) => {
                        return Err(error);
                    },
                }
                if used < offsets.len() {
                    Ok(used + 1)
                } else {
                    Ok(used)
                }
            },
            GlBindingResource::BufferArray(spans) => self.flush_uniforms(
                entry.slot,
                spans,
                offsets,
                used,
            ),
            GlBindingResource::Texture(view) => {
                match self.flush_texture(entry.slot, *view) {
                    Ok(()) => {},
                    Err(error) => {
                        return Err(error);
                    },
                }
                Ok(used)
            },
            GlBindingResource::TextureArray(views) => {
                match self.flush_textures(entry.slot, views) {
                    Ok(()) => {},
                    Err(error) => {
                        return Err(error);
                    },
                }
                Ok(used)
            },
            GlBindingResource::Sampler(sampler) => {
                match self.flush_sampler(entry.slot, *sampler) {
                    Ok(()) => {},
                    Err(error) => {
                        return Err(error);
                    },
                }
                Ok(used)
            },
            GlBindingResource::SamplerArray(samplers) => {
                match self.flush_samplers(entry.slot, samplers) {
                    Ok(()) => {},
                    Err(error) => {
                        return Err(error);
                    },
                }
                Ok(used)
            },
        }
    }

    fn flush_entries(&mut self, entries: &Vec<GlBindGroupEntry>, offsets: &Vec<u32>) -> (result:
        Result<usize, RhiError>)
        requires
            old(self).wf(),
        ensures
            final(self).wf(),
            link::grows(old(self)@.log, final(self)@.log),
            forall|o: Seq<NativeStep>|
                link::grows(final(self)@.log, o) ==> #[trigger] old(self)@.flush_entries(
                    entries@,
                    0,
                    offsets@,
                    0,
                    o,
                ) == (final(self)@, counted(result)),
    {
        let mut at: usize = 0;
        let mut used: usize = 0;
        while at < entries.len()
            invariant
                at <= entries@.len(),
                self.wf(),
                link::grows(old(self)@.log, self@.log),
                forall|o: Seq<NativeStep>|
                    link::grows(self@.log, o) ==> #[trigger] old(self)@.flush_entries(
                        entries@,
                        0,
                        offsets@,
                        0,
                        o,
                    ) == self@.flush_entries(entries@, at as int, offsets@, used as int, o),
            decreases entries@.len() - at,
        {
            match self.flush_entry(&entries[at], offsets, used) {
                Ok(now) => {
                    used = now;
                },
                Err(error) => {
                    return Err(error);
                },
            }
            at += 1;
        }
        Ok(used)
    }

    fn flush_group(&mut self, group: &BoundGroupPacket) -> (result: Result<(), RhiError>)
        requires
            old(self).wf(),
        ensures
            final(self).wf(),
            link::grows(old(self)@.log, final(self)@.log),
            forall|o: Seq<NativeStep>|
                link::grows(final(self)@.log, o) ==> #[trigger] old(self)@.flush_group(group@, o) == (
                    final(self)@,
                    result,
                ),
    {
        let packet: Arc<GlBindGroupPacket> = match self.bind_groups.get(group.name.raw() as u64) {
            Some(packet) => Arc::clone(packet),
            None => {
                return Err(
                    RhiError::new(
                        RhiErrorKind::WrongDevice,
                        "native GL bind group backing is no longer live",
                    ),
                );
            },
        };
        let used = match self.flush_entries(&packet.entries, &group.dynamic_offsets) {
            Ok(value) => value,
            Err(error) => {
                return Err(error);
            },
        };
        if used < group.dynamic_offsets.len() {
            return Err(
                RhiError::new(
                    RhiErrorKind::InvalidUsage,
                    "native GL bind group has unused dynamic offsets",
                ),
            );
        }
        Ok(())
    }

    /// Binds the groups of a flush.
    pub fn flush_bindings(&mut self, flush: &BindingFlush) -> (result: Result<(), RhiError>)
        requires
            old(self).wf(),
        ensures
            final(self).wf(),
            link::grows(old(self)@.log, final(self)@.log),
            forall|o: Seq<NativeStep>|
                link::grows(final(self)@.log, o) ==> #[trigger] old(self)@.flush_bindings(flush@, 0, o) == (
                    final(self)@,
                    result,
                ),
    {
        let mut at: usize = 0;
        while at < flush.groups.len()
            invariant
                at <= flush.groups@.len(),
                self.wf(),
                link::grows(old(self)@.log, self@.log),
                forall|o: Seq<NativeStep>|
                    link::grows(self@.log, o) ==> #[trigger] old(self)@.flush_bindings(
                        flush@,
                        0,
                        o,
                    ) == self@.flush_bindings(flush@, at as int, o),
            decreases flush.groups@.len() - at,
        {
            assert(flush@[at as int] == flush.groups@[at as int]@);
            match self.flush_group(&flush.groups[at]) {
                Ok(()) => {},
                Err(error) => {
                    return Err(error);
                },
            }
            at += 1;
        }
        Ok(())
    }

    fn stage_groups(&mut self, groups: &Vec<BoundGroupPacket>)
        requires
            old(self).wf(),
        ensures
            final(self).wf(),
            final(self)@ == old(self)@.knowing(
                Owner::staging(old(self)@.state, seen_groups(groups@), 0),
            ),
    {
        let mut at: usize = 0;
        let ghost all = seen_groups(groups@);
        while at < groups.len()
            invariant
                at <= groups@.len(),
                all == seen_groups(groups@),
                self.wf(),
                self@ == old(self)@.knowing(self@.state),
                Owner::staging(old(self)@.state, all, 0) == Owner::staging(
                    self@.state,
                    all,
                    at as int,
                ),
            decreases groups@.len() - at,
        {
            assert(all[at as int] == groups@[at as int]@);
            self.context_state.stage_bind_group(groups[at].duplicate());
            at += 1;
        }
    }

    fn settle_bindings(&mut self) -> (result: Result<(), RhiError>)
        requires
            old(self).wf(),
        ensures
            final(self).wf(),
            link::grows(old(self)@.log, final(self)@.log),
            forall|o: Seq<NativeStep>|
                link::grows(final(self)@.log, o) ==> #[trigger] old(self)@.settle_bindings(o) == (
                    final(self)@,
                    result,
                ),
    {
        let flush = self.context_state.binding_flush();
        if !flush.is_empty() {
            match self.flush_bindings(&flush) {
                Ok(()) => {
                    self.context_state.acknowledge_bindings(&flush);
                },
                Err(error) => {
                    self.context_state.event(StateEvent::DomainFailed(StateDomain::Bindings));
                    return Err(error);
                },
            }
        }
        Ok(())
    }

    fn settle_pipeline(&mut self, action: &NativeRasterDrawAction) -> (result: Result<(), RhiError>)
        requires
            old(self).wf(),
        ensures
            final(self).wf(),
            link::grows(old(self)@.log, final(self)@.log),
            forall|o: Seq<NativeStep>|
                link::grows(final(self)@.log, o) ==> #[trigger] old(self)@.settle_pipeline(action@, o) == (
                    final(self)@,
                    result,
                ),
    {
        let operation = "NativeProviderOwner::submit raster-draw";
        let diff = match self.context_state.prepare_pipeline(action.packet) {
            Ok(diff) => diff,
            Err(refusal) => {
                return Err(
                    RhiError::because(RhiErrorKind::BackendFailure, RhiDetail::State(refusal)).at(
                        operation,
                    ),
                );
            },
        };
        if !diff.is_empty() {
            let command = NativeCommand::ApplyPipeline { pipeline: action.pipeline.share(), diff };
            assert(command@ == CommandModel::ApplyPipeline {
                program: action@.program,
                vertex_array: action@.vertex_array,
                state: action@.state,
                diff,
            });
            match self.command(&command) {
                Ok(()) => {},
                Err(error) => {
                    self.context_state.pipeline_failed();
                    return Err(map_gl(error, operation));
                },
            }
            self.context_state.commit_pipeline(action.packet);
        }
        Ok(())
    }

    fn settle_geometry(&mut self, action: &NativeRasterDrawAction) -> (result: Result<(), RhiError>)
        requires
            old(self).wf(),
        ensures
            final(self).wf(),
            link::grows(old(self)@.log, final(self)@.log),
            forall|o: Seq<NativeStep>|
                link::grows(final(self)@.log, o) ==> #[trigger] old(self)@.settle_geometry(action@, o) == (
                    final(self)@,
                    result,
                ),
    {
        if self.context_state.prepare_geometry(action.geometry_key) {
            let command = NativeCommand::BindVertices {
                vertex_array: action.pipeline.vertex_array,
                vertices: Arc::clone(&action.geometry),
                index: action.index,
            };
            assert(command@ == CommandModel::BindVertices {
                vertex_array: action@.vertex_array,
                vertices: action@.geometry,
                index: action@.index,
            });
            match self.command(&command) {
                Ok(()) => {},
                Err(error) => {
                    self.context_state.geometry_failed();
                    return Err(map_gl(error, "NativeProviderOwner::submit raster-draw"));
                },
            }
            self.context_state.commit_geometry(action.geometry_key);
        }
        Ok(())
    }

    /// Installs what direct and indirect draws have in common, so that neither
    /// gets around the comparisons of the state authority.
    pub fn prepare_raster_draw(&mut self, action: &NativeRasterDrawAction) -> (result: Result<
        (),
        RhiError,
    >)
        requires
            old(self).wf(),
        ensures
            final(self).wf(),
            link::grows(old(self)@.log, final(self)@.log),
            forall|o: Seq<NativeStep>|
                link::grows(final(self)@.log, o) ==> #[trigger] old(self)@.prepare_raster_draw(action@, o) == (
                    final(self)@,
                    result,
                ),
    {
        if action.has_dynamic_state {
            self.context_state.event(StateEvent::DomainFailed(StateDomain::RasterPipeline));
        }
        match self.settle_pipeline(action) {
            Ok(()) => {},
            Err(error) => {
                return Err(error);
            },
        }
        if action.has_dynamic_state {
            self.context_state.event(StateEvent::DomainFailed(StateDomain::RasterPipeline));
        }
        self.stage_groups(&action.bind_groups);
        match self.settle_bindings() {
            Ok(()) => {},
            Err(error) => {
                return Err(error);
            },
        }
        self.settle_geometry(action)
    }

    pub fn execute_raster_draw(&mut self, action: &NativeRasterDrawAction) -> (result: Result<
        (),
        RhiError,
    >)
        requires
            old(self).wf(),
        ensures
            final(self).wf(),
            link::grows(old(self)@.log, final(self)@.log),
            forall|o: Seq<NativeStep>|
                link::grows(final(self)@.log, o) ==> #[trigger] old(self)@.execute_raster_draw(action@, o) == (
                    final(self)@,
                    result,
                ),
    {
        match self.prepare_raster_draw(action) {
            Ok(()) => {},
            Err(error) => {
                return Err(error);
            },
        }
        match self.give(NativeCommand::Draw(action.draw)) {
            Ok(()) => Ok(()),
            Err(error) => {
                self.context_state.pipeline_failed();
                Err(map_gl(error, "NativeProviderOwner::submit raster-draw"))
            },
        }
    }

    pub fn execute_raster_indirect(
        &mut self,
        action: &NativeRasterDrawAction,
        command: GlIndirectCommandRange,
    ) -> (result: Result<(), RhiError>)
        requires
            old(self).wf(),
        ensures
            final(self).wf(),
            link::grows(old(self)@.log, final(self)@.log),
            forall|o: Seq<NativeStep>|
                link::grows(final(self)@.log, o) ==> #[trigger] old(self)@.execute_raster_indirect(action@, command, o) == (
                    final(self)@,
                    result,
                ),
    {
        match self.prepare_raster_draw(action) {
            Ok(()) => {},
            Err(error) => {
                return Err(error);
            },
        }
        match self.give(NativeCommand::DrawIndirect(command)) {
            Ok(()) => Ok(()),
            Err(error) => {
                self.context_state.pipeline_failed();
                Err(map_gl(error, "NativeProviderOwner::submit raster-indirect"))
            },
        }
    }

    fn settle_compute(&mut self, program: ProgramId, program_key: CanonicalBlockId) -> (result:
        Result<(), RhiError>)
        requires
            old(self).wf(),
        ensures
            final(self).wf(),
            link::grows(old(self)@.log, final(self)@.log),
            forall|o: Seq<NativeStep>|
                link::grows(final(self)@.log, o) ==> #[trigger] old(self)@.settle_compute(program, program_key, o) == (
                    final(self)@,
                    result,
                ),
    {
        if self.context_state.prepare_compute_program(program_key) {
            match self.give(NativeCommand::UseComputeProgram(program)) {
                Ok(()) => {},
                Err(error) => {
                    self.context_state.event(StateEvent::DomainFailed(StateDomain::Compute));
                    return Err(map_gl(error, "NativeProviderOwner::submit compute-dispatch"));
                },
            }
            self.context_state.commit_compute_program(program_key);
        }
        Ok(())
    }

    pub fn execute_compute_dispatch(
        &mut self,
        program: ProgramId,
        program_key: CanonicalBlockId,
        groups: GlDispatchGroups,
        bind_groups: &Vec<BoundGroupPacket>,
    ) -> (result: Result<(), RhiError>)
        requires
            old(self).wf(),
        ensures
            final(self).wf(),
            link::grows(old(self)@.log, final(self)@.log),
            forall|o: Seq<NativeStep>|
                link::grows(final(self)@.log, o) ==> #[trigger] old(self)@.execute_compute_dispatch(program, program_key, groups, seen_groups(bind_groups@), o) == (
                    final(self)@,
                    result,
                ),
    {
        match self.settle_compute(program, program_key) {
            Ok(()) => {},
            Err(error) => {
                return Err(error);
            },
        }
        self.stage_groups(bind_groups);
        match self.settle_bindings() {
            Ok(()) => {},
            Err(error) => {
                return Err(error);
            },
        }
        match self.give(NativeCommand::Dispatch(groups)) {
            Ok(()) => Ok(()),
            Err(error) => {
                self.context_state.event(StateEvent::DomainFailed(StateDomain::Compute));
                Err(map_gl(error, "NativeProviderOwner::submit compute-dispatch"))
            },
        }
    }

    pub fn execute_query_begin(
        &mut self,
        query: QueryId,
        ty: QueryType,
        state_key: CanonicalBlockId,
    ) -> (result: Result<(), RhiError>)
        requires
            old(self).wf(),
        ensures
            final(self).wf(),
            link::grows(old(self)@.log, final(self)@.log),
            forall|o: Seq<NativeStep>|
                link::grows(final(self)@.log, o) ==> #[trigger] old(self)@.execute_query_begin(query, ty, state_key, o) == (
                    final(self)@,
                    result,
                ),
    {
        let operation = "NativeProviderOwner::submit query-begin";
        match ty {
            QueryType::Occlusion => {},
            // An elapsed time is no stand-in: its unit and its life differ.
            QueryType::PipelineStatistics => {
                return Err(
                    RhiError::new(
                        RhiErrorKind::Unsupported,
                        "native GL has no pipeline-statistics query lowering",
                    ).at(operation),
                );
            },
            QueryType::Timestamp => {
                return Err(
                    RhiError::new(
                        RhiErrorKind::InvalidUsage,
                        "timestamp queries use write_timestamp rather than begin/end",
                    ).at(operation),
                );
            },
        }
        match self.give(NativeCommand::BeginOcclusionQuery(query)) {
            Ok(()) => {},
            Err(error) => {
                self.context_state.query_failed();
                return Err(map_gl(error, operation));
            },
        }
        self.context_state.commit_query_begin(state_key);
        Ok(())
    }

    pub fn execute_query_end(&mut self, ty: QueryType) -> (result: Result<(), RhiError>)
        requires
            old(self).wf(),
        ensures
            final(self).wf(),
            link::grows(old(self)@.log, final(self)@.log),
            forall|o: Seq<NativeStep>|
                link::grows(final(self)@.log, o) ==> #[trigger] old(self)@.execute_query_end(ty, o) == (
                    final(self)@,
                    result,
                ),
    {
        let operation = "NativeProviderOwner::submit query-end";
        match ty {
            QueryType::Occlusion => {},
            QueryType::PipelineStatistics => {
                return Err(
                    RhiError::new(
                        RhiErrorKind::Unsupported,
                        "native GL has no pipeline-statistics query lowering",
                    ).at(operation),
                );
            },
            QueryType::Timestamp => {
                return Err(
                    RhiError::new(
                        RhiErrorKind::InvalidUsage,
                        "timestamp queries have no end command",
                    ).at(operation),
                );
            },
        }
        match self.give(NativeCommand::EndOcclusionQuery) {
            Ok(()) => {},
            Err(error) => {
                self.context_state.query_failed();
                return Err(map_gl(error, operation));
            },
        }
        self.context_state.commit_query_end();
        Ok(())
    }

    pub fn execute_timestamp(&mut self, query: QueryId) -> (result: Result<(), RhiError>)
        requires
            old(self).wf(),
        ensures
            final(self).wf(),
            link::grows(old(self)@.log, final(self)@.log),
            forall|o: Seq<NativeStep>|
                link::grows(final(self)@.log, o) ==> #[trigger] old(self)@.execute_timestamp(query, o) == (
                    final(self)@,
                    result,
                ),
    {
        match self.give(NativeCommand::WriteTimestamp(query)) {
            Ok(()) => Ok(()),
            Err(error) => {
                self.context_state.query_failed();
                Err(map_gl(error, "NativeProviderOwner::submit timestamp"))
            },
        }
    }

    fn read_buffer(&mut self, source: GlBufferRange, operation: &'static str) -> (result: Result<
        Arc<Vec<u8>>,
        RhiError,
    >)
        requires
            old(self).wf(),
        ensures
            final(self).wf(),
            link::grows(old(self)@.log, final(self)@.log),
            forall|o: Seq<NativeStep>|
                link::grows(final(self)@.log, o) ==> #[trigger] old(self)@.read_buffer(source, operation, o) == (
                    final(self)@,
                    result,
                ),
    {
        match self.link.read_buffer(source) {
            Ok(bytes) => Ok(bytes),
            Err(error) => Err(map_gl(error, operation)),
        }
    }

    fn read_texture(
        &mut self,
        source: GlTextureRegion,
        layout: GlPixelLayout,
        operation: &'static str,
    ) -> (result: Result<TexelRead, RhiError>)
        requires
            old(self).wf(),
        ensures
            final(self).wf(),
            link::grows(old(self)@.log, final(self)@.log),
            forall|o: Seq<NativeStep>|
                link::grows(final(self)@.log, o) ==> #[trigger] old(self)@.read_texture(source, layout, operation, o) == (
                    final(self)@,
                    result,
                ),
    {
        match self.link.read_texture(source, layout) {
            Ok(read) => Ok(read),
            Err(error) => Err(map_gl(error, operation)),
        }
    }

    fn execute_plain_action(&mut self, action: &NativePhaseBAction) -> (result: Result<
        (),
        RhiError,
    >)
        requires
            old(self).wf(),
        ensures
            final(self).wf(),
            link::grows(old(self)@.log, final(self)@.log),
            forall|o: Seq<NativeStep>|
                link::grows(final(self)@.log, o) ==> #[trigger] old(self)@.execute_plain_action(action@, o) == (
                    final(self)@,
                    result,
                ),
    {
        match action {
            NativePhaseBAction::CopyBuffer { source, destination } => self.plain(
                NativeCommand::CopyBuffer { source: *source, destination: *destination },
                "NativeProviderOwner::submit copy-buffer",
            ),
            NativePhaseBAction::CopyTexture { source, destination } => self.plain(
                NativeCommand::CopyTexture { source: *source, destination: *destination },
                "NativeProviderOwner::submit copy-texture",
            ),
            NativePhaseBAction::UploadBuffer { destination, bytes } => self.plain(
                NativeCommand::UploadBuffer {
                    destination: *destination,
                    bytes: Arc::clone(bytes),
                },
                "NativeProviderOwner::submit upload-buffer",
            ),
            NativePhaseBAction::UploadTexture { destination, layout, bytes } => self.plain(
                NativeCommand::UploadTexture {
                    destination: *destination,
                    layout: *layout,
                    bytes: Arc::clone(bytes),
                },
                "NativeProviderOwner::submit upload-texture",
            ),
            NativePhaseBAction::RasterBegin(action) => self.execute_raster_begin(action),
            NativePhaseBAction::RasterDraw(action) => self.execute_raster_draw(action),
            NativePhaseBAction::RasterIndirect { draw, command } => self.execute_raster_indirect(
                draw,
                *command,
            ),
            NativePhaseBAction::RasterEnd => self.execute_raster_end(),
            NativePhaseBAction::ComputeDispatch { program, program_key, groups, bind_groups } => {
                self.execute_compute_dispatch(*program, *program_key, *groups, bind_groups)
            },
            NativePhaseBAction::QueryBegin { query, ty, state_key } => self.execute_query_begin(
                *query,
                *ty,
                *state_key,
            ),
            NativePhaseBAction::QueryEnd { ty } => self.execute_query_end(*ty),
            NativePhaseBAction::Timestamp(query) => self.execute_timestamp(*query),
            _ => Ok(()),
        }
    }

    fn execute_action(&mut self, action: &NativePhaseBAction) -> (result: Result<
        Option<PendingReadback>,
        RhiError,
    >)
        requires
            old(self).wf(),
        ensures
            final(self).wf(),
            link::grows(old(self)@.log, final(self)@.log),
            forall|o: Seq<NativeStep>|
                link::grows(final(self)@.log, o) ==> #[trigger] old(self)@.execute_action(action@, o) == (
                    final(self)@,
                    result,
                ),
    {
        match action {
            NativePhaseBAction::ReadBuffer { source, ticket } => {
                let bytes = match self.read_buffer(*source, "NativeProviderOwner::submit read-buffer") {
                    Ok(value) => value,
                    Err(error) => {
                        return Err(error);
                    },
                };
                Ok(Some(PendingReadback { ticket: *ticket, bytes, layout: None }))
            },
            NativePhaseBAction::ReadTexture { source, layout, ticket } => {
                let read = match self.read_texture(*source, *layout, "NativeProviderOwner::submit read-texture") {
                    Ok(value) => value,
                    Err(error) => {
                        return Err(error);
                    },
                };
                let TexelRead { bytes, layout } = read;
                let total_size: u64 = bytes.len() as u64;
                Ok(
                    Some(
                        PendingReadback {
                            ticket: *ticket,
                            layout: Some(
                                ReadbackTexelLayout {
                                    bytes_per_row: layout.bytes_per_row,
                                    rows_per_image: layout.rows_per_image,
                                    total_size,
                                },
                            ),
                            bytes,
                        },
                    ),
                )
            },
            _ => {
                match self.execute_plain_action(action) {
                    Ok(()) => {},
                    Err(error) => {
                        return Err(error);
                    },
                }
                Ok(None)
            },
        }
    }

    fn accept_submission(&mut self, readbacks: Vec<PendingReadback>) -> (result: Result<
        (),
        RhiError,
    >)
        requires
            old(self).wf(),
        ensures
            final(self).wf(),
            link::grows(old(self)@.log, final(self)@.log),
            forall|o: Seq<NativeStep>|
                link::grows(final(self)@.log, o) ==> #[trigger] old(self)@.accept_submission(readbacks@, o) == (
                    final(self)@,
                    result,
                ),
    {
        let operation = "NativeProviderOwner::submit phase B";
        let fence = match self.link.create_fence() {
            Ok(fence) => fence,
            Err(error) => {
                return Err(map_gl(error, operation));
            },
        };
        match self.plain(NativeCommand::Flush, operation) {
            Ok(()) => {},
            Err(error) => {
                return Err(error);
            },
        }
        let ghost before = self.completions@;
        let completion = NativeCompletion::Pending { fence, readbacks, waiters: Vec::new() };
        let ghost model = completion@;
        self.completions.push(completion);
        proof {
            assert(model =~= CompletionModel::Pending {
                fence,
                readbacks: readbacks@,
                waiters: Seq::empty(),
            });
            assert(owner::seen_completions(self.completions@) =~= owner::seen_completions(
                before,
            ).push(model));
        }
        Ok(())
    }

    /// Carries out a submission that was lowered completely.
    pub fn execute_submission_after_commit(&mut self, actions: &Vec<NativePhaseBAction>) -> (result:
        Result<(), RhiError>)
        requires
            old(self).wf(),
        ensures
            final(self).wf(),
            link::grows(old(self)@.log, final(self)@.log),
            forall|o: Seq<NativeStep>|
                link::grows(final(self)@.log, o) ==> #[trigger] old(self)@.execute_submission_after_commit(seen_actions(actions@), o) == (
                    final(self)@,
                    result,
                ),
    {
        let mut readbacks: Vec<PendingReadback> = Vec::new();
        let mut at: usize = 0;
        let ghost all = seen_actions(actions@);
        assert(readbacks@ =~= Seq::<PendingReadback>::empty());
        while at < actions.len()
            invariant
                at <= actions@.len(),
                all == seen_actions(actions@),
                self.wf(),
                link::grows(old(self)@.log, self@.log),
                forall|o: Seq<NativeStep>|
                    link::grows(self@.log, o) ==> #[trigger] old(self)@.execute_actions(
                        all,
                        0,
                        Seq::empty(),
                        o,
                    ) == self@.execute_actions(all, at as int, readbacks@, o),
            decreases actions@.len() - at,
        {
            assert(all[at as int] == actions@[at as int]@);
            match self.execute_action(&actions[at]) {
                Ok(None) => {},
                Ok(Some(readback)) => {
                    readbacks.push(readback);
                },
                Err(error) => {
                    return Err(error);
                },
            }
            at += 1;
        }
        self.accept_submission(readbacks)
    }

    /// Ends a submission that failed after GL may have accepted work.
    pub fn fail_submission_after_commit(&mut self, tickets: &Vec<ReadbackTicket>, error: RhiError)
        requires
            old(self).wf(),
        ensures
            final(self).wf(),
            final(self)@ == old(self)@.fail_submission_after_commit(tickets@, error),
    {
        let lost = error.kind() == RhiErrorKind::DeviceLost;
        let status = if lost {
            ReadbackStatus::DeviceLost
        } else {
            ReadbackStatus::Failed
        };
        push_statuses(&mut self.notices, tickets, status);
        let ghost model = ended_by(error);
        let completion = if lost {
            NativeCompletion::DeviceLost(DeviceLossInfo::because(error.detail))
        } else {
            NativeCompletion::Failed(CompletionFailure::Cause(error.detail))
        };
        let ghost before = self.completions@;
        assert(completion@ == model);
        self.completions.push(completion);
        assert(owner::seen_completions(self.completions@) =~= owner::seen_completions(before).push(
            model,
        ));
    }
}

pub(crate) fn push_statuses(
    notices: &mut Vec<Notice>,
    tickets: &Vec<ReadbackTicket>,
    status: ReadbackStatus,
)
    ensures
        final(notices)@ == old(notices)@ + statuses(tickets@, status),
{
    let mut at: usize = 0;
    assert(notices@ =~= old(notices)@ + statuses(tickets@, status).take(0));
    while at < tickets.len()
        invariant
            at <= tickets@.len(),
            notices@ == old(notices)@ + statuses(tickets@, status).take(at as int),
        decreases tickets@.len() - at,
    {
        notices.push(Notice::Status { ticket: tickets[at], status });
        at += 1;
        assert(notices@ =~= old(notices)@ + statuses(tickets@, status).take(at as int));
    }
    assert(statuses(tickets@, status).take(at as int) =~= statuses(tickets@, status));
}

/// A count as a mathematical integer.
pub open spec fn counted(result: Result<usize, RhiError>) -> Result<int, RhiError> {
    match result {
        Ok(count) => Ok(count as int),
        Err(error) => Err(error),
    }
}

fn offset_or_zero(offsets: &Vec<u32>, at: usize) -> (result: u32)
    ensures
        result == offset_at(offsets@, at as int),
{
    if at < offsets.len() {
        offsets[at]
    } else {
        0
    }
}

fn attach(colors: &Vec<GlColorAttachment>, views: &Vec<GlTextureView>) -> (result: Vec<
    GlColorAttachment,
>)
    ensures
        result@ == attached(colors@, views@),
{
    let mut result: Vec<GlColorAttachment> = Vec::new();
    let mut at: usize = 0;
    while at < colors.len()
        invariant
            at <= colors@.len(),
            result@ == attached(colors@, views@).take(at as int),
        decreases colors@.len() - at,
    {
        let color = colors[at];
        if at < views.len() {
            result.push(
                GlColorAttachment {
                    view: GlPassAttachmentView::Allocated(views[at]),
                    resolve_target: color.resolve_target,
                    load: color.load,
                    store: color.store,
                    clear: color.clear,
                },
            );
        } else {
            result.push(color);
        }
        at += 1;
        assert(result@ =~= attached(colors@, views@).take(at as int));
    }
    assert(result@ =~= attached(colors@, views@));
    result
}

} // verus!
