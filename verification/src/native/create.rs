//! Making and destroying objects.

use vstd::prelude::*;
use std::sync::Arc;
use crate::api::error;
use crate::api::error::{ContextStateError, GlError, RhiDetail, RhiError, RhiErrorKind};
use crate::api::gl::{
    GlProgramDescriptor, GlProgramKind, GlRasterPipeline, GlTextureDimension, GlTextureTarget,
    GlVertexLayout, GlViewport,
};
use crate::api::identity::{ProgramId, QueryId, VertexArrayId};
use crate::api::pipeline::{ComputePipelineDescriptor, RasterPipelineDescriptor};
use crate::api::resource::{
    BufferDescriptor, QuerySetDescriptor, QueryType, SamplerDescriptor, TextureDescriptor,
    TextureViewDescriptor,
};
use crate::api::shader::ShaderArtifact;
use crate::native::link;
use crate::native::link::{
    unsupported, CommandModel, NativeCommand, NativeObject, NativePlatformContext, NativeProvider,
    NativeStep, ProgramModel, VertexLayoutModel,
};
use crate::native::owner;
use crate::native::owner::{
    map_gl, name, NativeOwnedProvider, NativeQuerySet, NativeRasterPipeline, NativeTextureView,
    Owner, PipelineModel, QuerySetModel,
};
use crate::platform::object::{
    GlBindGroupEntry, GlBindGroupPacket, GlBindingResource, GlBufferSpan, GlObjectName,
    GlSamplerRef, GlShaderRef, GlTextureRef, GlTextureViewRef,
};
use crate::state::context::{RasterPipelinePacket, StateModel};

use crate::translate;
use crate::translate_raster;
use crate::translate_raster::{GlRasterPipelinePacket, RasterPacketModel};

verus! {

/// The target that textures of a dimension are bound to. There is no route for
/// one dimension only.
pub open spec fn target_of(dimension: GlTextureDimension) -> Result<GlTextureTarget, RhiError> {
    match dimension {
        GlTextureDimension::D2 => Ok(GlTextureTarget::D2),
        GlTextureDimension::D2Array => Ok(GlTextureTarget::D2Array),
        GlTextureDimension::Cube => Ok(GlTextureTarget::Cube),
        GlTextureDimension::D3 => Ok(GlTextureTarget::D3),
        GlTextureDimension::D1 => Err(
            error::rhi_error_at(
                RhiErrorKind::Unsupported,
                "native GL binding route has no verified 1D texture target",
                "GL::create_texture_view",
            ),
        ),
    }
}

pub fn binding_target(dimension: GlTextureDimension) -> (result: Result<GlTextureTarget, RhiError>)
    ensures
        result == target_of(dimension),
{
    match dimension {
        GlTextureDimension::D2 => Ok(GlTextureTarget::D2),
        GlTextureDimension::D2Array => Ok(GlTextureTarget::D2Array),
        GlTextureDimension::Cube => Ok(GlTextureTarget::Cube),
        GlTextureDimension::D3 => Ok(GlTextureTarget::D3),
        GlTextureDimension::D1 => Err(
            RhiError::new(
                RhiErrorKind::Unsupported,
                "native GL binding route has no verified 1D texture target",
            ).at("GL::create_texture_view"),
        ),
    }
}

/// The viewport of a pipeline until a draw sets one: a pixel, and all depths.
pub open spec fn unit_viewport() -> GlViewport {
    GlViewport { x: 0, y: 0, width: 1, height: 1, min_depth: 0, max_depth: 0x3f80_0000 }
}

impl Owner {
    /// The error of the seam, as the operation reports it.
    pub open spec fn reported<T>(result: Result<T, GlError>, operation: &'static str) -> Result<
        T,
        RhiError,
    > {
        match result {
            Ok(value) => Ok(value),
            Err(error) => Err(owner::mapped(error, operation)),
        }
    }

    pub open spec fn create_buffer(self, desc: BufferDescriptor, o: Seq<NativeStep>) -> (
        Owner,
        Result<GlObjectName, RhiError>,
    ) {
        let operation = "NativeProviderOwner::create_buffer";
        let (current, outcome) = self.ready(operation, o);
        match outcome {
            Err(error) => (current, Err(error)),
            Ok(_ready) => {
                match translate::translated_buffer(desc) {
                    Err(error) => (current, Err(error)),
                    Ok(desc) => {
                        let reply = current.next(o)->CreateBuffer_reply;
                        let made = current.asked(NativeStep::CreateBuffer { desc, reply });
                        match Owner::reported(reply, operation) {
                            Err(error) => (made, Err(error)),
                            Ok(id) => (made, owner::name_of(id.slot, operation)),
                        }
                    },
                }
            },
        }
    }

    pub open spec fn create_texture(self, desc: TextureDescriptor, o: Seq<NativeStep>) -> (
        Owner,
        Result<GlObjectName, RhiError>,
    ) {
        let operation = "NativeProviderOwner::create_texture";
        let (current, outcome) = self.ready(operation, o);
        match outcome {
            Err(error) => (current, Err(error)),
            Ok(_ready) => {
                match translate::translated_texture(desc) {
                    Err(error) => (current, Err(error)),
                    Ok(allocation) => {
                        let reply = current.next(o)->CreateTexture_reply;
                        let made = current.asked(NativeStep::CreateTexture { desc: allocation, reply });
                        match Owner::reported(reply, operation) {
                            Err(error) => (made, Err(error)),
                            Ok(id) => (
                                Owner {
                                    texture_formats: made.texture_formats.insert(
                                        id.slot as u64,
                                        desc.format,
                                    ),
                                    ..made
                                },
                                owner::name_of(id.slot, operation),
                            ),
                        }
                    },
                }
            },
        }
    }

    /// A view is remembered, not made: it keeps the identity of its texture.
    pub open spec fn create_texture_view(
        self,
        texture: GlTextureRef,
        desc: TextureViewDescriptor,
        o: Seq<NativeStep>,
    ) -> (Owner, Result<GlObjectName, RhiError>) {
        let operation = "NativeProviderOwner::create_texture_view";
        let (current, outcome) = self.ready(operation, o);
        match outcome {
            Err(error) => (current, Err(error)),
            Ok(_ready) => {
                let (found, outcome) = current.texture_id(texture.name, operation, o);
                match outcome {
                    Err(error) => (found, Err(error)),
                    Ok(id) => {
                        let (looked, outcome) = found.find_texture(operation, id, o);
                        match outcome {
                            Err(error) => (looked, Err(error)),
                            Ok(base) => {
                                if !looked.texture_formats.contains_key(id.slot as u64) {
                                    (
                                        looked,
                                        Err(
                                            error::rhi_error_at(
                                                RhiErrorKind::BackendFailure,
                                                "native GL texture format carrier is missing",
                                                operation,
                                            ),
                                        ),
                                    )
                                } else {
                                    let format = looked.texture_formats[id.slot as u64];
                                    match translate::whole_view(desc, format, base) {
                                        Err(error) => (looked, Err(error)),
                                        Ok(dimension) => {
                                            let (named, outcome) = looked.virtual_name(operation);
                                            match outcome {
                                                Err(error) => (named, Err(error)),
                                                Ok(name) => match (
                                                    target_of(dimension),
                                                    translate::translated_format(translate::viewed_format(desc, format)),
                                                ) {
                                                    (Err(error), _) => (named, Err(error)),
                                                    (_, Err(error)) => (named, Err(error)),
                                                    (Ok(target), Ok(format)) => (
                                                        Owner {
                                                            views: named.views.insert(
                                                                name@ as u64,
                                                                NativeTextureView {
                                                                    texture: id,
                                                                    target,
                                                                    format,
                                                                    mip_level: desc.base_mip,
                                                                    base_layer: desc.base_layer,
                                                                    layer_count: desc.layer_count,
                                                                },
                                                            ),
                                                            ..named
                                                        },
                                                        Ok(name),
                                                    ),
                                                },
                                            }
                                        },
                                    }
                                }
                            },
                        }
                    },
                }
            },
        }
    }

    pub open spec fn create_sampler(self, desc: SamplerDescriptor, o: Seq<NativeStep>) -> (
        Owner,
        Result<GlObjectName, RhiError>,
    ) {
        let operation = "NativeProviderOwner::create_sampler";
        let (current, outcome) = self.ready(operation, o);
        match outcome {
            Err(error) => (current, Err(error)),
            Ok(_ready) => {
                match translate::translated_sampler(desc) {
                    Err(error) => (current, Err(error)),
                    Ok(desc) => {
                        let reply = current.next(o)->CreateSampler_reply;
                        let made = current.asked(NativeStep::CreateSampler { desc, reply });
                        match Owner::reported(reply, operation) {
                            Err(error) => (made, Err(error)),
                            Ok(id) => (made, owner::name_of(id.slot, operation)),
                        }
                    },
                }
            },
        }
    }

    /// Destroys queries from a position on, whatever comes of it.
    pub open spec fn discard_queries(self, queries: Seq<QueryId>, at: int, o: Seq<NativeStep>) -> Owner
        decreases queries.len() - at,
    {
        if at >= queries.len() {
            self
        } else {
            let (gone, _) = self.command(
                CommandModel::Plain(NativeCommand::Destroy(NativeObject::Query(queries[at]))),
                o,
            );
            gone.discard_queries(queries, at + 1, o)
        }
    }

    /// Makes queries until there are enough. If one fails, all go.
    pub open spec fn create_queries(
        self,
        made: Seq<QueryId>,
        count: u32,
        operation: &'static str,
        o: Seq<NativeStep>,
    ) -> (Owner, Result<Seq<QueryId>, RhiError>)
        decreases count - made.len(),
    {
        if made.len() >= count {
            (self, Ok(made))
        } else {
            let reply = self.next(o)->CreateQuery_reply;
            let asked = self.asked(NativeStep::CreateQuery { reply });
            match reply {
                Ok(query) => asked.create_queries(made.push(query), count, operation, o),
                Err(error) => (
                    asked.discard_queries(made, 0, o),
                    Err(owner::mapped(error, operation)),
                ),
            }
        }
    }

    pub open spec fn create_query_set(self, desc: QuerySetDescriptor, o: Seq<NativeStep>) -> (
        Owner,
        Result<GlObjectName, RhiError>,
    ) {
        let operation = "NativeProviderOwner::create_query_set";
        let (current, outcome) = self.ready(operation, o);
        match outcome {
            Err(error) => (current, Err(error)),
            Ok(_ready) => {
                if desc.ty == QueryType::PipelineStatistics {
                    (current, Err(link::unsupported_at(operation)))
                } else {
                    let (made, outcome) = current.create_queries(Seq::empty(), desc.count, operation, o);
                    match outcome {
                        Err(error) => (made, Err(error)),
                        Ok(queries) => {
                            let (named, outcome) = made.virtual_name(operation);
                            match outcome {
                                Err(error) => (named, Err(error)),
                                Ok(name) => (
                                    Owner {
                                        query_sets: named.query_sets.insert(
                                            name@ as u64,
                                            QuerySetModel { ty: desc.ty, queries },
                                        ),
                                        ..named
                                    },
                                    Ok(name),
                                ),
                            }
                        },
                    }
                }
            },
        }
    }

    pub open spec fn create_shader(self, artifact: ShaderArtifact, o: Seq<NativeStep>) -> (
        Owner,
        Result<GlObjectName, RhiError>,
    ) {
        let operation = "NativeProviderOwner::create_shader";
        let (current, outcome) = self.ready(operation, o);
        match outcome {
            Err(error) => (current, Err(error)),
            Ok(_ready) => {
                match translate::translated_shader(artifact) {
                    Err(error) => (current, Err(error)),
                    Ok(source) => {
                        let reply = current.next(o)->CreateShader_reply;
                        let made = current.asked(NativeStep::CreateShader { source, reply });
                        match Owner::reported(reply, operation) {
                            Err(error) => (made, Err(error)),
                            Ok(id) => (made, owner::name_of(id.slot, operation)),
                        }
                    },
                }
            },
        }
    }

    /// Whether the buffers of an array, from a position on, are alive.
    pub open spec fn check_spans(
        self,
        spans: Seq<GlBufferSpan>,
        at: int,
        operation: &'static str,
        o: Seq<NativeStep>,
    ) -> (Owner, Result<(), RhiError>)
        decreases spans.len() - at,
    {
        if at >= spans.len() {
            (self, Ok(()))
        } else {
            let (found, outcome) = self.buffer_id(spans[at].buffer.name, operation, o);
            match outcome {
                Err(error) => (found, Err(error)),
                Ok(_) => found.check_spans(spans, at + 1, operation, o),
            }
        }
    }

    /// Whether a view and its texture are alive.
    pub open spec fn check_view(
        self,
        view: GlTextureViewRef,
        operation: &'static str,
        o: Seq<NativeStep>,
    ) -> (Owner, Result<(), RhiError>) {
        if !self.views.contains_key(view.name@ as u64) {
            (
                self,
                Err(
                    error::rhi_error_at(
                        RhiErrorKind::WrongDevice,
                        "native GL texture view is not live",
                        operation,
                    ),
                ),
            )
        } else {
            let (found, outcome) = self.find_texture(
                operation,
                self.views[view.name@ as u64].texture,
                o,
            );
            match outcome {
                Err(error) => (found, Err(error)),
                Ok(_) => (found, Ok(())),
            }
        }
    }

    /// Whether the views of an array, from a position on, are alive.
    pub open spec fn check_views(
        self,
        views: Seq<GlTextureViewRef>,
        at: int,
        operation: &'static str,
        o: Seq<NativeStep>,
    ) -> (Owner, Result<(), RhiError>)
        decreases views.len() - at,
    {
        if at >= views.len() {
            (self, Ok(()))
        } else {
            let (found, outcome) = self.check_view(views[at], operation, o);
            match outcome {
                Err(error) => (found, Err(error)),
                Ok(_) => found.check_views(views, at + 1, operation, o),
            }
        }
    }

    /// Whether the samplers of an array, from a position on, are alive.
    pub open spec fn check_samplers(
        self,
        samplers: Seq<GlSamplerRef>,
        at: int,
        operation: &'static str,
        o: Seq<NativeStep>,
    ) -> (Owner, Result<(), RhiError>)
        decreases samplers.len() - at,
    {
        if at >= samplers.len() {
            (self, Ok(()))
        } else {
            let (found, outcome) = self.sampler_id(samplers[at].name, operation, o);
            match outcome {
                Err(error) => (found, Err(error)),
                Ok(_) => found.check_samplers(samplers, at + 1, operation, o),
            }
        }
    }

    /// Whether what stands at one slot of a group is alive.
    pub open spec fn check_entry(
        self,
        entry: GlBindGroupEntry,
        operation: &'static str,
        o: Seq<NativeStep>,
    ) -> (Owner, Result<(), RhiError>) {
        match entry.resource {
            GlBindingResource::Buffer(span) => {
                let (found, outcome) = self.buffer_id(span.buffer.name, operation, o);
                match outcome {
                    Err(error) => (found, Err(error)),
                    Ok(_) => (found, Ok(())),
                }
            },
            GlBindingResource::Texture(view) => self.check_view(view, operation, o),
            GlBindingResource::Sampler(sampler) => {
                let (found, outcome) = self.sampler_id(sampler.name, operation, o);
                match outcome {
                    Err(error) => (found, Err(error)),
                    Ok(_) => (found, Ok(())),
                }
            },
            GlBindingResource::BufferArray(spans) => self.check_spans(spans@, 0, operation, o),
            GlBindingResource::TextureArray(views) => self.check_views(views@, 0, operation, o),
            GlBindingResource::SamplerArray(samplers) => self.check_samplers(
                samplers@,
                0,
                operation,
                o,
            ),
        }
    }

    /// Whether everything that a group binds, from a position on, is alive.
    pub open spec fn check_entries(
        self,
        entries: Seq<GlBindGroupEntry>,
        at: int,
        operation: &'static str,
        o: Seq<NativeStep>,
    ) -> (Owner, Result<(), RhiError>)
        decreases entries.len() - at,
    {
        if at >= entries.len() {
            (self, Ok(()))
        } else {
            let (found, outcome) = self.check_entry(entries[at], operation, o);
            match outcome {
                Err(error) => (found, Err(error)),
                Ok(_) => found.check_entries(entries, at + 1, operation, o),
            }
        }
    }

    pub open spec fn create_bind_group(
        self,
        packet: Arc<GlBindGroupPacket>,
        o: Seq<NativeStep>,
    ) -> (Owner, Result<GlObjectName, RhiError>) {
        let operation = "NativeProviderOwner::create_bind_group";
        let (current, outcome) = self.ready(operation, o);
        match outcome {
            Err(error) => (current, Err(error)),
            Ok(_ready) => {
                let (found, outcome) = current.check_entries((*packet).entries@, 0, operation, o);
                match outcome {
                    Err(error) => (found, Err(error)),
                    Ok(_alive) => {
                        let (named, outcome) = found.virtual_name(operation);
                        match outcome {
                            Err(error) => (named, Err(error)),
                            Ok(name) => {
                                (Owner { bind_groups: named.bind_groups.insert(name@ as u64, packet), ..named }, Ok(name))
                            },
                        }
                    },
                }
            },
        }
    }

    pub open spec fn create_program(
        self,
        program: ProgramModel,
        operation: &'static str,
        o: Seq<NativeStep>,
    ) -> (Owner, Result<ProgramId, RhiError>) {
        let reply = self.next(o)->CreateProgram_reply;
        (
            self.asked(NativeStep::CreateProgram { program, reply }),
            Owner::reported(reply, operation),
        )
    }

    /// Makes the vertex array of a pipeline. If that fails, the program goes.
    pub open spec fn create_vertex_array(
        self,
        program: ProgramId,
        layout: VertexLayoutModel,
        operation: &'static str,
        o: Seq<NativeStep>,
    ) -> (Owner, Result<VertexArrayId, RhiError>) {
        let reply = self.next(o)->CreateVertexArray_reply;
        let asked = self.asked(NativeStep::CreateVertexArray { layout, reply });
        match reply {
            Ok(id) => (asked, Ok(id)),
            Err(error) => {
                let (gone, _) = asked.command(
                    CommandModel::Plain(NativeCommand::Destroy(NativeObject::Program(program))),
                    o,
                );
                (gone, Err(owner::mapped(error, operation)))
            },
        }
    }

    /// Numbers and registers a pipeline under a name of its own.
    pub open spec fn install_pipeline(
        self,
        program: ProgramId,
        vertex_array: VertexArrayId,
        state: crate::api::gl::RasterStateModel,
        operation: &'static str,
    ) -> (Owner, Result<GlObjectName, RhiError>) {
        let (named, outcome) = self.virtual_name(operation);
        match outcome {
            Err(error) => (named, Err(error)),
            Ok(name) => {
                let (blocks, interned) = named.pipeline_blocks.interned(program, state);
                let numbered = Owner { pipeline_blocks: blocks, ..named };
                match interned {
                    None => {
                        (
                            numbered,
                            Err(
                                error::rhi_error_at(
                                    RhiErrorKind::BackendFailure,
                                    "native GL canonical pipeline namespace exhausted",
                                    operation,
                                ),
                            ),
                        )
                    },
                    Some(blocks) => {
                        let packet = RasterPipelinePacket { identity: name, blocks };
                        let key = name@ as u64;
                        let known = numbered.state.pipeline_packets;
                        if known.contains_key(key) && known[key] != blocks {
                            (
                                numbered,
                                Err(
                                    RhiError {
                                        kind: RhiErrorKind::BackendFailure,
                                        detail: RhiDetail::State(
                                            ContextStateError::PipelineIdentityConflict,
                                        ),
                                        operation: Some(operation),
                                    },
                                ),
                            )
                        } else {
                            (
                                Owner {
                                    state: StateModel {
                                        pipeline_packets: known.insert(key, blocks),
                                        ..numbered.state
                                    },
                                    raster_pipelines: numbered.raster_pipelines.insert(
                                        key,
                                        PipelineModel { program, vertex_array, state, packet },
                                    ),
                                    ..numbered
                                },
                                Ok(name),
                            )
                        }
                    },
                }
            },
        }
    }

    /// Links and installs a pipeline that was translated.
    pub open spec fn link_pipeline(
        self,
        packet: RasterPacketModel,
        operation: &'static str,
        o: Seq<NativeStep>,
    ) -> (Owner, Result<GlObjectName, RhiError>) {
        let (linked, outcome) = self.create_program(ProgramModel { kind: GlProgramKind::Raster { vertex: packet.vertex, fragment: packet.fragment }, bindings: 0, debug_name: packet.debug_name }, operation, o);
        match outcome {
            Err(error) => (linked, Err(error)),
            Ok(program) => {
                let (made, outcome) = linked.create_vertex_array(program, VertexLayoutModel { buffers: packet.buffers, attributes: packet.attributes }, operation, o);
                match outcome {
                    Err(error) => (made, Err(error)),
                    Ok(vertex_array) => {
                        made.install_pipeline(program, vertex_array, packet.state, operation)
                    },
                }
            },
        }
    }

    pub open spec fn create_raster_pipeline(
        self,
        desc: RasterPipelineDescriptor,
        vertex: GlShaderRef,
        fragment: Option<GlShaderRef>,
        o: Seq<NativeStep>,
    ) -> (Owner, Result<GlObjectName, RhiError>) {
        let operation = "NativeProviderOwner::create_raster_pipeline";
        let (current, outcome) = self.ready(operation, o);
        match outcome {
            Err(error) => (current, Err(error)),
            Ok(_ready) => {
                let (found, outcome) = current.shader_id(vertex.name, operation, o);
                match outcome {
                    Err(error) => (found, Err(error)),
                    Ok(_vertex) => {
                        let (both, outcome) = match fragment {
                            None => (found, Ok(())),
                            Some(fragment) => {
                                let (also, outcome) = found.shader_id(fragment.name, operation, o);
                                (
                                    also,
                                    match outcome {
                                        Ok(_) => Ok(()),
                                        Err(error) => Err(error),
                                    },
                                )
                            },
                        };
                        match outcome {
                            Err(error) => (both, Err(error)),
                            Ok(_) => match translate_raster::translated_pipeline(desc, unit_viewport()) {
                                Err(error) => (both, Err(error)),
                                Ok(packet) => both.link_pipeline(packet, operation, o),
                            },
                        }
                    },
                }
            },
        }
    }

    pub open spec fn create_compute_pipeline(
        self,
        desc: ComputePipelineDescriptor,
        shader: GlShaderRef,
        o: Seq<NativeStep>,
    ) -> (Owner, Result<GlObjectName, RhiError>) {
        let operation = "NativeProviderOwner::create_compute_pipeline";
        let (current, outcome) = self.ready(operation, o);
        match outcome {
            Err(error) => (current, Err(error)),
            Ok(_ready) => {
                let (found, outcome) = current.shader_id(shader.name, operation, o);
                match outcome {
                    Err(error) => (found, Err(error)),
                    Ok(_shader) => {
                        match translate::translated_shader(*desc.shader.artifact) {
                            Err(error) => (found, Err(error)),
                            Ok(source) => match translate::layout_refusal(
                                desc.interface.declared@,
                                seq![desc.shader.artifact],
                            ) {
                                Some(detail) => (
                                    found,
                                    Err(
                                        RhiError {
                                            kind: RhiErrorKind::Unsupported,
                                            detail,
                                            operation: Some("GL::pipeline_layout_from_artifacts"),
                                        },
                                    ),
                                ),
                                None => {
                                    let (linked, outcome) = found.create_program(
                                        ProgramModel {
                                            kind: GlProgramKind::Compute { shader: source },
                                            bindings: 0,
                                            debug_name: desc.label,
                                        },
                                        operation,
                                        o,
                                    );
                                    match outcome {
                                        Err(error) => (linked, Err(error)),
                                        Ok(program) => {
                                            let (named, outcome) = linked.virtual_name(operation);
                                            match outcome {
                                                Err(error) => (named, Err(error)),
                                                Ok(name) => (
                                                    Owner {
                                                        compute_pipelines: named.compute_pipelines.insert(
                                                            name@ as u64,
                                                            program,
                                                        ),
                                                        ..named
                                                    },
                                                    Ok(name),
                                                ),
                                            }
                                        },
                                    }
                                },
                            },
                        }
                    },
                }
            },
        }
    }

    /// Waits until GL has done everything.
    pub open spec fn wait_idle(self, o: Seq<NativeStep>) -> (Owner, Result<(), RhiError>) {
        let operation = "NativeProviderOwner::wait_idle";
        let (current, outcome) = self.ready(operation, o);
        match outcome {
            Err(error) => (current, Err(error)),
            Ok(_ready) => {
                current.plain(NativeCommand::Finish { operation }, operation, o)
            },
        }
    }
}

impl<C: NativePlatformContext, P: NativeProvider> NativeOwnedProvider<C, P> {
    pub fn create_buffer(&mut self, desc: &BufferDescriptor) -> (result: Result<
        GlObjectName,
        RhiError,
    >)
        requires
            old(self).wf(),
        ensures
            final(self).wf(),
            link::grows(old(self)@.log, final(self)@.log),
            forall|o: Seq<NativeStep>|
                link::grows(final(self)@.log, o) ==> #[trigger] old(self)@.create_buffer(*desc, o) == (
                    final(self)@,
                    result,
                ),
    {
        let operation = "NativeProviderOwner::create_buffer";
        match self.ready(operation) {
            Ok(()) => {},
            Err(error) => {
                return Err(error);
            },
        }
        let allocation = match translate::buffer_descriptor(desc) {
            Ok(value) => value,
            Err(error) => {
                return Err(error);
            },
        };
        match self.link.create_buffer_resource(allocation) {
            Ok(id) => name(id.slot, operation),
            Err(error) => Err(map_gl(error, operation)),
        }
    }

    pub fn create_texture(&mut self, desc: &TextureDescriptor) -> (result: Result<
        GlObjectName,
        RhiError,
    >)
        requires
            old(self).wf(),
        ensures
            final(self).wf(),
            link::grows(old(self)@.log, final(self)@.log),
            forall|o: Seq<NativeStep>|
                link::grows(final(self)@.log, o) ==> #[trigger] old(self)@.create_texture(*desc, o) == (
                    final(self)@,
                    result,
                ),
    {
        let operation = "NativeProviderOwner::create_texture";
        match self.ready(operation) {
            Ok(()) => {},
            Err(error) => {
                return Err(error);
            },
        }
        let allocation = match translate::texture_descriptor(desc) {
            Ok(value) => value,
            Err(error) => {
                return Err(error);
            },
        };
        match self.link.create_texture_resource(allocation) {
            Ok(id) => {
                let _ = self.texture_formats.insert(id.slot as u64, desc.format);
                name(id.slot, operation)
            },
            Err(error) => Err(map_gl(error, operation)),
        }
    }

    pub fn create_texture_view(&mut self, texture: GlTextureRef, desc: &TextureViewDescriptor) -> (
    result: Result<GlObjectName, RhiError>)
        requires
            old(self).wf(),
        ensures
            final(self).wf(),
            link::grows(old(self)@.log, final(self)@.log),
            forall|o: Seq<NativeStep>|
                link::grows(final(self)@.log, o) ==> #[trigger] old(self)@.create_texture_view(texture, *desc, o) == (
                    final(self)@,
                    result,
                ),
    {
        let operation = "NativeProviderOwner::create_texture_view";
        match self.ready(operation) {
            Ok(()) => {},
            Err(error) => {
                return Err(error);
            },
        }
        let id = match self.texture_id(texture.name, operation) {
            Ok(value) => value,
            Err(error) => {
                return Err(error);
            },
        };
        let base = match self.find_texture(operation, id) {
            Ok(value) => value,
            Err(error) => {
                return Err(error);
            },
        };
        let format = match self.texture_formats.get(id.slot as u64) {
            Some(format) => *format,
            None => {
                return Err(
                    RhiError::new(
                        RhiErrorKind::BackendFailure,
                        "native GL texture format carrier is missing",
                    ).at(operation),
                );
            },
        };
        let dimension = match translate::whole_compatible_virtual_view(desc, format, base) {
            Ok(value) => value,
            Err(error) => {
                return Err(error);
            },
        };
        let name = match self.virtual_name(operation) {
            Ok(value) => value,
            Err(error) => {
                return Err(error);
            },
        };
        let target = match binding_target(dimension) {
            Ok(value) => value,
            Err(error) => {
                return Err(error);
            },
        };
        let viewed = match translate::view_format(desc, format) {
            Ok(value) => value,
            Err(error) => {
                return Err(error);
            },
        };
        let _ = self.views.insert(
            name.raw() as u64,
            NativeTextureView {
                texture: id,
                target,
                format: viewed,
                mip_level: desc.base_mip,
                base_layer: desc.base_layer,
                layer_count: desc.layer_count,
            },
        );
        Ok(name)
    }

    pub fn create_sampler(&mut self, desc: &SamplerDescriptor) -> (result: Result<
        GlObjectName,
        RhiError,
    >)
        requires
            old(self).wf(),
        ensures
            final(self).wf(),
            link::grows(old(self)@.log, final(self)@.log),
            forall|o: Seq<NativeStep>|
                link::grows(final(self)@.log, o) ==> #[trigger] old(self)@.create_sampler(*desc, o) == (
                    final(self)@,
                    result,
                ),
    {
        let operation = "NativeProviderOwner::create_sampler";
        match self.ready(operation) {
            Ok(()) => {},
            Err(error) => {
                return Err(error);
            },
        }
        let sampler = match translate::sampler_descriptor(desc) {
            Ok(value) => value,
            Err(error) => {
                return Err(error);
            },
        };
        match self.link.create_sampler(sampler) {
            Ok(id) => name(id.slot, operation),
            Err(error) => Err(map_gl(error, operation)),
        }
    }

    fn discard_queries(&mut self, queries: &Vec<QueryId>)
        requires
            old(self).wf(),
        ensures
            final(self).wf(),
            link::grows(old(self)@.log, final(self)@.log),
            forall|o: Seq<NativeStep>|
                link::grows(final(self)@.log, o) ==> #[trigger] old(self)@.discard_queries(
                    queries@,
                    0,
                    o,
                ) == final(self)@,
    {
        let mut at: usize = 0;
        while at < queries.len()
            invariant
                at <= queries@.len(),
                self.wf(),
                link::grows(old(self)@.log, self@.log),
                forall|o: Seq<NativeStep>|
                    link::grows(self@.log, o) ==> #[trigger] old(self)@.discard_queries(
                        queries@,
                        0,
                        o,
                    ) == self@.discard_queries(queries@, at as int, o),
            decreases queries@.len() - at,
        {
            let _ = self.give(NativeCommand::Destroy(NativeObject::Query(queries[at])));
            at += 1;
        }
    }

    fn create_queries(&mut self, count: u32, operation: &'static str) -> (result: Result<
        Vec<QueryId>,
        RhiError,
    >)
        requires
            old(self).wf(),
        ensures
            final(self).wf(),
            link::grows(old(self)@.log, final(self)@.log),
            forall|o: Seq<NativeStep>|
                link::grows(final(self)@.log, o) ==> #[trigger] old(self)@.create_queries(
                    Seq::empty(),
                    count,
                    operation,
                    o,
                ) == (
                    final(self)@,
                    match result {
                        Ok(queries) => Ok(queries@),
                        Err(error) => Err(error),
                    },
                ),
    {
        let mut queries: Vec<QueryId> = Vec::new();
        let mut made: u32 = 0;
        assert(queries@ =~= Seq::<QueryId>::empty());
        while made < count
            invariant
                made <= count,
                made == queries@.len(),
                self.wf(),
                link::grows(old(self)@.log, self@.log),
                forall|o: Seq<NativeStep>|
                    link::grows(self@.log, o) ==> #[trigger] old(self)@.create_queries(
                        Seq::empty(),
                        count,
                        operation,
                        o,
                    ) == self@.create_queries(queries@, count, operation, o),
            decreases count - made,
        {
            match self.link.create_query() {
                Ok(query) => {
                    queries.push(query);
                },
                Err(error) => {
                    self.discard_queries(&queries);
                    return Err(map_gl(error, operation));
                },
            }
            made += 1;
        }
        Ok(queries)
    }

    pub fn create_query_set(&mut self, desc: &QuerySetDescriptor) -> (result: Result<
        GlObjectName,
        RhiError,
    >)
        requires
            old(self).wf(),
        ensures
            final(self).wf(),
            link::grows(old(self)@.log, final(self)@.log),
            forall|o: Seq<NativeStep>|
                link::grows(final(self)@.log, o) ==> #[trigger] old(self)@.create_query_set(*desc, o) == (
                    final(self)@,
                    result,
                ),
    {
        let operation = "NativeProviderOwner::create_query_set";
        match self.ready(operation) {
            Ok(()) => {},
            Err(error) => {
                return Err(error);
            },
        }
        // Unrelated counters of GL are no stand-in for pipeline statistics.
        if desc.ty == QueryType::PipelineStatistics {
            return Err(unsupported(operation));
        }
        let queries = match self.create_queries(desc.count, operation) {
            Ok(value) => value,
            Err(error) => {
                return Err(error);
            },
        };
        let name = match self.virtual_name(operation) {
            Ok(value) => value,
            Err(error) => {
                return Err(error);
            },
        };
        let set = NativeQuerySet { ty: desc.ty, queries };
        assert(set@ == QuerySetModel { ty: desc.ty, queries: queries@ });
        self.query_sets.insert(name.raw() as u64, set);
        Ok(name)
    }

    pub fn create_shader(&mut self, artifact: &ShaderArtifact) -> (result: Result<
        GlObjectName,
        RhiError,
    >)
        requires
            old(self).wf(),
        ensures
            final(self).wf(),
            link::grows(old(self)@.log, final(self)@.log),
            forall|o: Seq<NativeStep>|
                link::grows(final(self)@.log, o) ==> #[trigger] old(self)@.create_shader(*artifact, o) == (
                    final(self)@,
                    result,
                ),
    {
        let operation = "NativeProviderOwner::create_shader";
        match self.ready(operation) {
            Ok(()) => {},
            Err(error) => {
                return Err(error);
            },
        }
        let source = match translate::shader_source(artifact) {
            Ok(value) => value,
            Err(error) => {
                return Err(error);
            },
        };
        match self.link.create_shader(&source) {
            Ok(id) => name(id.slot, operation),
            Err(error) => Err(map_gl(error, operation)),
        }
    }

    fn check_spans(&mut self, spans: &Vec<GlBufferSpan>, operation: &'static str) -> (result:
        Result<(), RhiError>)
        requires
            old(self).wf(),
        ensures
            final(self).wf(),
            link::grows(old(self)@.log, final(self)@.log),
            forall|o: Seq<NativeStep>|
                link::grows(final(self)@.log, o) ==> #[trigger] old(self)@.check_spans(spans@, 0, operation, o) == (
                    final(self)@,
                    result,
                ),
    {
        let mut at: usize = 0;
        while at < spans.len()
            invariant
                at <= spans@.len(),
                self.wf(),
                link::grows(old(self)@.log, self@.log),
                forall|o: Seq<NativeStep>|
                    link::grows(self@.log, o) ==> #[trigger] old(self)@.check_spans(
                        spans@,
                        0,
                        operation,
                        o,
                    ) == self@.check_spans(spans@, at as int, operation, o),
            decreases spans@.len() - at,
        {
            let _id = match self.buffer_id(spans[at].buffer.name, operation) {
                Ok(value) => value,
                Err(error) => {
                    return Err(error);
                },
            };
            at += 1;
        }
        Ok(())
    }

    fn check_view(&mut self, view: GlTextureViewRef, operation: &'static str) -> (result: Result<
        (),
        RhiError,
    >)
        requires
            old(self).wf(),
        ensures
            final(self).wf(),
            link::grows(old(self)@.log, final(self)@.log),
            forall|o: Seq<NativeStep>|
                link::grows(final(self)@.log, o) ==> #[trigger] old(self)@.check_view(view, operation, o) == (
                    final(self)@,
                    result,
                ),
    {
        let texture = match self.views.get(view.name.raw() as u64) {
            Some(record) => record.texture,
            None => {
                return Err(
                    RhiError::new(
                        RhiErrorKind::WrongDevice,
                        "native GL texture view is not live",
                    ).at(operation),
                );
            },
        };
        match self.find_texture(operation, texture) {
            Ok(_) => Ok(()),
            Err(error) => Err(error),
        }
    }

    fn check_views(&mut self, views: &Vec<GlTextureViewRef>, operation: &'static str) -> (result:
        Result<(), RhiError>)
        requires
            old(self).wf(),
        ensures
            final(self).wf(),
            link::grows(old(self)@.log, final(self)@.log),
            forall|o: Seq<NativeStep>|
                link::grows(final(self)@.log, o) ==> #[trigger] old(self)@.check_views(views@, 0, operation, o) == (
                    final(self)@,
                    result,
                ),
    {
        let mut at: usize = 0;
        while at < views.len()
            invariant
                at <= views@.len(),
                self.wf(),
                link::grows(old(self)@.log, self@.log),
                forall|o: Seq<NativeStep>|
                    link::grows(self@.log, o) ==> #[trigger] old(self)@.check_views(
                        views@,
                        0,
                        operation,
                        o,
                    ) == self@.check_views(views@, at as int, operation, o),
            decreases views@.len() - at,
        {
            match self.check_view(views[at], operation) {
                Ok(()) => {},
                Err(error) => {
                    return Err(error);
                },
            }
            at += 1;
        }
        Ok(())
    }

    fn check_samplers(&mut self, samplers: &Vec<GlSamplerRef>, operation: &'static str) -> (result:
        Result<(), RhiError>)
        requires
            old(self).wf(),
        ensures
            final(self).wf(),
            link::grows(old(self)@.log, final(self)@.log),
            forall|o: Seq<NativeStep>|
                link::grows(final(self)@.log, o) ==> #[trigger] old(self)@.check_samplers(samplers@, 0, operation, o) == (
                    final(self)@,
                    result,
                ),
    {
        let mut at: usize = 0;
        while at < samplers.len()
            invariant
                at <= samplers@.len(),
                self.wf(),
                link::grows(old(self)@.log, self@.log),
                forall|o: Seq<NativeStep>|
                    link::grows(self@.log, o) ==> #[trigger] old(self)@.check_samplers(
                        samplers@,
                        0,
                        operation,
                        o,
                    ) == self@.check_samplers(samplers@, at as int, operation, o),
            decreases samplers@.len() - at,
        {
            let _id = match self.sampler_id(samplers[at].name, operation) {
                Ok(value) => value,
                Err(error) => {
                    return Err(error);
                },
            };
            at += 1;
        }
        Ok(())
    }

    fn check_entry(&mut self, entry: &GlBindGroupEntry, operation: &'static str) -> (result: Result<
        (),
        RhiError,
    >)
        requires
            old(self).wf(),
        ensures
            final(self).wf(),
            link::grows(old(self)@.log, final(self)@.log),
            forall|o: Seq<NativeStep>|
                link::grows(final(self)@.log, o) ==> #[trigger] old(self)@.check_entry(*entry, operation, o) == (
                    final(self)@,
                    result,
                ),
    {
        match &entry.resource {
            GlBindingResource::Buffer(span) => {
                let _id = match self.buffer_id(span.buffer.name, operation) {
                    Ok(value) => value,
                    Err(error) => {
                        return Err(error);
                    },
                };
                Ok(())
            },
            GlBindingResource::Texture(view) => self.check_view(*view, operation),
            GlBindingResource::Sampler(sampler) => {
                let _id = match self.sampler_id(sampler.name, operation) {
                    Ok(value) => value,
                    Err(error) => {
                        return Err(error);
                    },
                };
                Ok(())
            },
            GlBindingResource::BufferArray(spans) => self.check_spans(spans, operation),
            GlBindingResource::TextureArray(views) => self.check_views(views, operation),
            GlBindingResource::SamplerArray(samplers) => self.check_samplers(samplers, operation),
        }
    }

    /// Looks up everything that a group binds.
    pub fn validate_bind_packet(
        &mut self,
        packet: &GlBindGroupPacket,
        operation: &'static str,
    ) -> (result: Result<(), RhiError>)
        requires
            old(self).wf(),
        ensures
            final(self).wf(),
            link::grows(old(self)@.log, final(self)@.log),
            forall|o: Seq<NativeStep>|
                link::grows(final(self)@.log, o) ==> #[trigger] old(self)@.check_entries(packet.entries@, 0, operation, o) == (
                    final(self)@,
                    result,
                ),
    {
        let mut at: usize = 0;
        while at < packet.entries.len()
            invariant
                at <= packet.entries@.len(),
                self.wf(),
                link::grows(old(self)@.log, self@.log),
                forall|o: Seq<NativeStep>|
                    link::grows(self@.log, o) ==> #[trigger] old(self)@.check_entries(
                        packet.entries@,
                        0,
                        operation,
                        o,
                    ) == self@.check_entries(packet.entries@, at as int, operation, o),
            decreases packet.entries@.len() - at,
        {
            match self.check_entry(&packet.entries[at], operation) {
                Ok(()) => {},
                Err(error) => {
                    return Err(error);
                },
            }
            at += 1;
        }
        Ok(())
    }

    pub fn create_bind_group(&mut self, packet: Arc<GlBindGroupPacket>) -> (result: Result<
        GlObjectName,
        RhiError,
    >)
        requires
            old(self).wf(),
        ensures
            final(self).wf(),
            link::grows(old(self)@.log, final(self)@.log),
            forall|o: Seq<NativeStep>|
                link::grows(final(self)@.log, o) ==> #[trigger] old(self)@.create_bind_group(packet, o) == (
                    final(self)@,
                    result,
                ),
    {
        let operation = "NativeProviderOwner::create_bind_group";
        match self.ready(operation) {
            Ok(()) => {},
            Err(error) => {
                return Err(error);
            },
        }
        match self.validate_bind_packet(&packet, operation) {
            Ok(()) => {},
            Err(error) => {
                return Err(error);
            },
        }
        let name = match self.virtual_name(operation) {
            Ok(value) => value,
            Err(error) => {
                return Err(error);
            },
        };
        let _ = self.bind_groups.insert(name.raw() as u64, packet);
        Ok(name)
    }

    fn create_program(&mut self, program: &GlProgramDescriptor, operation: &'static str) -> (result:
        Result<ProgramId, RhiError>)
        requires
            old(self).wf(),
        ensures
            final(self).wf(),
            link::grows(old(self)@.log, final(self)@.log),
            forall|o: Seq<NativeStep>|
                link::grows(final(self)@.log, o) ==> #[trigger] old(self)@.create_program(program@, operation, o) == (
                    final(self)@,
                    result,
                ),
    {
        match self.link.create_program(program) {
            Ok(id) => Ok(id),
            Err(error) => Err(map_gl(error, operation)),
        }
    }

    fn create_vertex_array(
        &mut self,
        program: ProgramId,
        layout: &GlVertexLayout,
        operation: &'static str,
    ) -> (result: Result<VertexArrayId, RhiError>)
        requires
            old(self).wf(),
        ensures
            final(self).wf(),
            link::grows(old(self)@.log, final(self)@.log),
            forall|o: Seq<NativeStep>|
                link::grows(final(self)@.log, o) ==> #[trigger] old(self)@.create_vertex_array(program, layout@, operation, o) == (
                    final(self)@,
                    result,
                ),
    {
        match self.link.create_vertex_array(layout) {
            Ok(id) => Ok(id),
            Err(error) => {
                let _ = self.give(NativeCommand::Destroy(NativeObject::Program(program)));
                Err(map_gl(error, operation))
            },
        }
    }

    fn install_pipeline(&mut self, pipeline: GlRasterPipeline, operation: &'static str) -> (result:
        Result<GlObjectName, RhiError>)
        requires
            old(self).wf(),
        ensures
            final(self).wf(),
            (final(self)@, result) == old(self)@.install_pipeline(
                pipeline.program,
                pipeline.vertex_array,
                pipeline.state@,
                operation,
            ),
    {
        let name = match self.virtual_name(operation) {
            Ok(value) => value,
            Err(error) => {
                return Err(error);
            },
        };
        let blocks = match self.pipeline_blocks.intern(&pipeline) {
            Some(blocks) => blocks,
            None => {
                return Err(
                    RhiError::new(
                        RhiErrorKind::BackendFailure,
                        "native GL canonical pipeline namespace exhausted",
                    ).at(operation),
                );
            },
        };
        let packet = RasterPipelinePacket { identity: name, blocks };
        match self.context_state.register_pipeline(packet) {
            Ok(()) => {},
            Err(refusal) => {
                return Err(
                    RhiError::because(RhiErrorKind::BackendFailure, RhiDetail::State(refusal)).at(
                        operation,
                    ),
                );
            },
        }
        let record = NativeRasterPipeline { pipeline, packet };
        assert(record@ == PipelineModel {
            program: pipeline.program,
            vertex_array: pipeline.vertex_array,
            state: pipeline.state@,
            packet,
        });
        self.raster_pipelines.insert(name.raw() as u64, record);
        Ok(name)
    }

    fn link_pipeline(
        &mut self,
        packet: GlRasterPipelinePacket,
        operation: &'static str,
        Ghost(model): Ghost<RasterPacketModel>,
    ) -> (result: Result<GlObjectName, RhiError>)
        requires
            old(self).wf(),
            packet.is(model),
        ensures
            final(self).wf(),
            link::grows(old(self)@.log, final(self)@.log),
            forall|o: Seq<NativeStep>|
                link::grows(final(self)@.log, o) ==> #[trigger] old(self)@.link_pipeline(model, operation, o) == (
                    final(self)@,
                    result,
                ),
    {
        let GlRasterPipelinePacket { program, vertex_layout, state } = packet;
        assert(program@ == ProgramModel {
            kind: GlProgramKind::Raster { vertex: model.vertex, fragment: model.fragment },
            bindings: 0,
            debug_name: model.debug_name,
        });
        let program = match self.create_program(&program, operation) {
            Ok(value) => value,
            Err(error) => {
                return Err(error);
            },
        };
        assert(vertex_layout@ == VertexLayoutModel {
            buffers: model.buffers,
            attributes: model.attributes,
        });
        let vertex_array = match self.create_vertex_array(program, &vertex_layout, operation) {
            Ok(value) => value,
            Err(error) => {
                return Err(error);
            },
        };
        self.install_pipeline(GlRasterPipeline { program, vertex_array, state }, operation)
    }

    pub fn create_raster_pipeline(
        &mut self,
        desc: &RasterPipelineDescriptor,
        vertex: GlShaderRef,
        fragment: Option<GlShaderRef>,
    ) -> (result: Result<GlObjectName, RhiError>)
        requires
            old(self).wf(),
        ensures
            final(self).wf(),
            link::grows(old(self)@.log, final(self)@.log),
            forall|o: Seq<NativeStep>|
                link::grows(final(self)@.log, o) ==> #[trigger] old(self)@.create_raster_pipeline(*desc, vertex, fragment, o) == (
                    final(self)@,
                    result,
                ),
    {
        let operation = "NativeProviderOwner::create_raster_pipeline";
        match self.ready(operation) {
            Ok(()) => {},
            Err(error) => {
                return Err(error);
            },
        }
        let _vertex = match self.shader_id(vertex.name, operation) {
            Ok(value) => value,
            Err(error) => {
                return Err(error);
            },
        };
        match fragment {
            Some(fragment) => {
                let _fragment = match self.shader_id(fragment.name, operation) {
                    Ok(value) => value,
                    Err(error) => {
                        return Err(error);
                    },
                };
            },
            None => {},
        }
        let viewport = GlViewport {
            x: 0,
            y: 0,
            width: 1,
            height: 1,
            min_depth: 0,
            max_depth: 0x3f80_0000,
        };
        let packet = match translate_raster::raster_pipeline_packet(desc, viewport) {
            Ok(value) => value,
            Err(error) => {
                return Err(error);
            },
        };
        let ghost model = translate_raster::translated_pipeline(*desc, unit_viewport())->Ok_0;
        self.link_pipeline(packet, operation, Ghost(model))
    }

    pub fn create_compute_pipeline(
        &mut self,
        desc: &ComputePipelineDescriptor,
        shader: GlShaderRef,
    ) -> (result: Result<GlObjectName, RhiError>)
        requires
            old(self).wf(),
        ensures
            final(self).wf(),
            link::grows(old(self)@.log, final(self)@.log),
            forall|o: Seq<NativeStep>|
                link::grows(final(self)@.log, o) ==> #[trigger] old(self)@.create_compute_pipeline(*desc, shader, o) == (
                    final(self)@,
                    result,
                ),
    {
        let operation = "NativeProviderOwner::create_compute_pipeline";
        match self.ready(operation) {
            Ok(()) => {},
            Err(error) => {
                return Err(error);
            },
        }
        let _shader = match self.shader_id(shader.name, operation) {
            Ok(value) => value,
            Err(error) => {
                return Err(error);
            },
        };
        let source = match translate::shader_source(&desc.shader.artifact) {
            Ok(value) => value,
            Err(error) => {
                return Err(error);
            },
        };
        let mut artifacts: Vec<Arc<ShaderArtifact>> = Vec::new();
        artifacts.push(Arc::clone(&desc.shader.artifact));
        assert(artifacts@ =~= seq![desc.shader.artifact]);
        let layout = match translate::pipeline_layout_from_artifacts(&desc.interface, &artifacts) {
            Ok(value) => value,
            Err(error) => {
                return Err(error);
            },
        };
        let program = GlProgramDescriptor {
            kind: GlProgramKind::Compute { shader: source },
            layout,
            debug_name: match &desc.label {
                Some(label) => Some(Arc::clone(label)),
                None => None,
            },
        };
        assert(program@ == ProgramModel {
            kind: GlProgramKind::Compute { shader: source },
            bindings: 0,
            debug_name: desc.label,
        });
        let program = match self.create_program(&program, operation) {
            Ok(value) => value,
            Err(error) => {
                return Err(error);
            },
        };
        let name = match self.virtual_name(operation) {
            Ok(value) => value,
            Err(error) => {
                return Err(error);
            },
        };
        let _ = self.compute_pipelines.insert(name.raw() as u64, program);
        Ok(name)
    }

    /// Waits until GL has done everything. Submissions wait for fences instead.
    pub fn wait_idle(&mut self) -> (result: Result<(), RhiError>)
        requires
            old(self).wf(),
        ensures
            final(self).wf(),
            link::grows(old(self)@.log, final(self)@.log),
            forall|o: Seq<NativeStep>|
                link::grows(final(self)@.log, o) ==> #[trigger] old(self)@.wait_idle(o) == (
                    final(self)@,
                    result,
                ),
    {
        let operation = "NativeProviderOwner::wait_idle";
        match self.ready(operation) {
            Ok(()) => {},
            Err(error) => {
                return Err(error);
            },
        }
        self.plain(NativeCommand::Finish { operation }, operation)
    }
}

} // verus!
