//! The seam to a native GL context: what the owner asks it, and what it
//! answers.
//!
//! Nothing is assumed of the answers. What was asked and answered is recorded
//! as a ghost, so that contracts can speak of it. A step is recorded exactly when
//! its call was made.

use vstd::prelude::*;
use std::sync::Arc;
use crate::api::error::{GlError, RhiError, RhiErrorKind};
use crate::api::error;
use crate::api::gl::{
    GlBufferDesc, GlBufferRange, GlColorAttachment,
    GlDepthStencilAttachment, GlDispatchGroups, GlDrawCommand, GlFenceLease,
    GlFenceStatus, GlFramebufferDescriptor, GlIndexBinding, GlIndirectCommandRange, GlPixelLayout,
    GlProgramDescriptor, GlProgramKind, GlRasterPipeline, GlRenderPassDescriptor, GlRenderTarget,
    GlSamplerDesc, GlShaderSource, GlSurfaceAcquire, GlSurfaceLease, GlSurfaceSize, GlTextureDesc,
    GlTextureRegion, GlTextureTarget, GlTextureView, GlVertexAttribute, GlVertexBufferBinding,
    GlVertexBufferLayout, GlVertexLayout, RasterStateModel,
};
use crate::api::identity::{
    BufferId, ContextStamp, FramebufferId, ProgramId, QueryId, SamplerId, ShaderId, TextureId,
    VertexArrayId,
};
use crate::api::resource::Extent2d;
use crate::state::context::RasterPipelineDiff;

verus! {

/// An object that can be looked up or destroyed.
#[derive(Clone, Copy, Debug, PartialEq, Eq, Structural)]
pub enum NativeObject {
    Buffer(BufferId),
    Texture(TextureId),
    Sampler(SamplerId),
    Shader(ShaderId),
    Query(QueryId),
    Program(ProgramId),
    VertexArray(VertexArrayId),
    Framebuffer(FramebufferId),
    Fence(GlFenceLease),
}

/// Texels that were read, and how they lie.
#[derive(Debug)]
pub struct TexelRead {
    pub bytes: Arc<Vec<u8>>,
    pub layout: GlPixelLayout,
}

/// A command that only succeeds or fails.
#[derive(Debug)]
pub enum NativeCommand {
    CopyBuffer { source: GlBufferRange, destination: GlBufferRange },
    CopyTexture { source: GlTextureRegion, destination: GlTextureRegion },
    UploadBuffer { destination: GlBufferRange, bytes: Arc<Vec<u8>> },
    UploadTexture { destination: GlTextureRegion, layout: GlPixelLayout, bytes: Arc<Vec<u8>> },
    BeginPass(GlRenderPassDescriptor),
    EndPass,
    ApplyPipeline { pipeline: GlRasterPipeline, diff: RasterPipelineDiff },
    BindVertices {
        vertex_array: VertexArrayId,
        vertices: Arc<Vec<GlVertexBufferBinding>>,
        index: Option<GlIndexBinding>,
    },
    Draw(GlDrawCommand),
    DrawIndirect(GlIndirectCommandRange),
    UseComputeProgram(ProgramId),
    Dispatch(GlDispatchGroups),
    BeginOcclusionQuery(QueryId),
    EndOcclusionQuery,
    WriteTimestamp(QueryId),
    ActiveTexture { unit: u32 },
    BindTexture { unit: u32, target: GlTextureTarget, texture: TextureId },
    BindSampler { unit: u32, sampler: SamplerId },
    BindUniform { slot: u32, buffer: BufferId, offset: u32, size: u32 },
    Flush,
    Finish { operation: &'static str },
    ContextLost,
    ResizeSurface(GlSurfaceSize),
    PresentSurface(GlSurfaceLease),
    ConsumeSurface { operation: &'static str, lease: GlSurfaceLease },
    Destroy(NativeObject),
}

/// A command, by value.
#[verifier::ext_equal]
pub enum CommandModel {
    /// A command that holds no list.
    Plain(NativeCommand),
    BeginPass {
        target: GlRenderTarget,
        colors: Seq<GlColorAttachment>,
        depth_stencil: Option<GlDepthStencilAttachment>,
    },
    ApplyPipeline {
        program: ProgramId,
        vertex_array: VertexArrayId,
        state: RasterStateModel,
        diff: RasterPipelineDiff,
    },
    BindVertices {
        vertex_array: VertexArrayId,
        vertices: Seq<GlVertexBufferBinding>,
        index: Option<GlIndexBinding>,
    },
}

impl View for NativeCommand {
    type V = CommandModel;

    open spec fn view(&self) -> CommandModel {
        match *self {
            NativeCommand::BeginPass(pass) => CommandModel::BeginPass {
                target: pass.target,
                colors: pass.color_attachments@,
                depth_stencil: pass.depth_stencil_attachment,
            },
            NativeCommand::ApplyPipeline { pipeline, diff } => CommandModel::ApplyPipeline {
                program: pipeline.program,
                vertex_array: pipeline.vertex_array,
                state: pipeline.state@,
                diff,
            },
            NativeCommand::BindVertices { vertex_array, vertices, index } => {
                CommandModel::BindVertices { vertex_array, vertices: vertices@, index }
            },
            _ => CommandModel::Plain(*self),
        }
    }
}

/// A program, by value.
pub struct ProgramModel {
    pub kind: GlProgramKind,
    /// How many resources are bound by name.
    pub bindings: nat,
    pub debug_name: Option<Arc<String>>,
}

impl View for GlProgramDescriptor {
    type V = ProgramModel;

    open spec fn view(&self) -> ProgramModel {
        ProgramModel {
            kind: self.kind,
            bindings: self.layout.bindings@.len(),
            debug_name: self.debug_name,
        }
    }
}

/// A vertex layout, by value.
#[verifier::ext_equal]
pub struct VertexLayoutModel {
    pub buffers: Seq<GlVertexBufferLayout>,
    pub attributes: Seq<GlVertexAttribute>,
}

impl View for GlVertexLayout {
    type V = VertexLayoutModel;

    open spec fn view(&self) -> VertexLayoutModel {
        VertexLayoutModel { buffers: self.buffers@, attributes: self.attributes@ }
    }
}

/// A framebuffer, by value.
#[verifier::ext_equal]
pub struct FramebufferModel {
    pub colors: Seq<GlTextureView>,
    pub depth_stencil: Option<GlTextureView>,
    pub draw_buffers: Seq<u32>,
}

impl View for GlFramebufferDescriptor {
    type V = FramebufferModel;

    open spec fn view(&self) -> FramebufferModel {
        FramebufferModel {
            colors: self.color_attachments@,
            depth_stencil: self.depth_stencil_attachment,
            draw_buffers: self.draw_buffers@,
        }
    }
}

/// One question to the context, and its answer.
#[allow(inconsistent_fields)]
pub enum NativeStep {
    /// In this step the context was made current.
    Current { operation: &'static str, reply: Result<(), RhiError> },
    /// In this step the size of the drawable was asked for.
    Extent { reply: Result<Option<Extent2d>, RhiError> },
    /// In this step the drawable was shown.
    Flip { reply: Result<(), RhiError> },
    /// In this step whether the drawable can be shown was asked for.
    Presentable { reply: bool },
    /// In this step the provider was asked whether it takes commands.
    Ready { operation: &'static str, reply: Result<(), GlError> },
    /// In this step the context generation was asked for.
    Stamp { reply: ContextStamp },
    /// In this step an object was looked up.
    Find { operation: &'static str, object: NativeObject, reply: Result<(), GlError> },
    /// In this step a texture was looked up.
    FindTexture { operation: &'static str, id: TextureId, reply: Result<GlTextureDesc, GlError> },
    /// In this step the size of the surface was asked for.
    SurfaceExtent { reply: Option<GlSurfaceSize> },
    /// In this step an image of the surface was acquired.
    AcquireSurface { reply: Result<GlSurfaceAcquire, GlError> },
    /// In this step a buffer was made.
    CreateBuffer { desc: GlBufferDesc, reply: Result<BufferId, GlError> },
    /// In this step a texture was made.
    CreateTexture { desc: GlTextureDesc, reply: Result<TextureId, GlError> },
    /// In this step a sampler was made.
    CreateSampler { desc: GlSamplerDesc, reply: Result<SamplerId, GlError> },
    /// In this step a query was made.
    CreateQuery { reply: Result<QueryId, GlError> },
    /// In this step a shader was compiled.
    CreateShader { source: GlShaderSource, reply: Result<ShaderId, GlError> },
    /// In this step a program was linked.
    CreateProgram { program: ProgramModel, reply: Result<ProgramId, GlError> },
    /// In this step a vertex array was made.
    CreateVertexArray { layout: VertexLayoutModel, reply: Result<VertexArrayId, GlError> },
    /// In this step a framebuffer was made.
    CreateFramebuffer { framebuffer: FramebufferModel, reply: Result<FramebufferId, GlError> },
    /// In this step a fence was made.
    CreateFence { reply: Result<GlFenceLease, GlError> },
    /// In this step a fence was asked for its status.
    PollFence { fence: GlFenceLease, reply: Result<GlFenceStatus, GlError> },
    /// In this step bytes of a buffer were read.
    ReadBuffer { source: GlBufferRange, reply: Result<Arc<Vec<u8>>, GlError> },
    /// In this step texels were read.
    ReadTexture { source: GlTextureRegion, layout: GlPixelLayout, reply: Result<TexelRead, GlError> },
    /// In this step a command was given.
    Command { command: CommandModel, reply: Result<(), GlError> },
}

/// Whether the second record begins with the first.
pub open spec fn grows(before: Seq<NativeStep>, after: Seq<NativeStep>) -> bool {
    before.len() <= after.len() && forall|i: int|
        0 <= i < before.len() ==> before[i] == #[trigger] after[i]
}

/// A platform context that can be made current. Its owner implements it; the
/// library only asks.
pub trait NativePlatformContext: Sized {
    fn make_current(&mut self, operation: &'static str) -> Result<(), RhiError>;

    /// Whether the drawable can be shown.
    fn supports_presentation(&mut self) -> (reply: bool)
        default_ensures
            *final(self) == *old(self),
            !reply,
    {
        false
    }

    /// The size of the drawable. Without one, or with one of nothing, acquiring
    /// waits.
    fn drawable_extent(&mut self) -> (reply: Result<Option<Extent2d>, RhiError>)
        default_ensures
            *final(self) == *old(self),
            reply == Ok::<Option<Extent2d>, RhiError>(None),
    {
        Ok(None)
    }

    /// Shows the drawable, after the commands of its frame were flushed.
    fn present(&mut self) -> (reply: Result<(), RhiError>)
        default_ensures
            *final(self) == *old(self),
            reply == Err::<(), _>(unsupported_at("native GL platform presentation")),
    {
        Err(unsupported("native GL platform presentation"))
    }
}

/// The executor of one native context, with its tables of objects.
pub trait NativeProvider {
    fn assert_ready(&mut self, operation: &'static str) -> Result<(), GlError>;

    fn context_stamp(&mut self) -> ContextStamp;

    fn find(&mut self, operation: &'static str, object: NativeObject) -> Result<(), GlError>;

    fn texture(&mut self, operation: &'static str, id: TextureId) -> Result<GlTextureDesc, GlError>;

    fn surface_extent(&mut self) -> Option<GlSurfaceSize>;

    fn acquire_surface_image(&mut self) -> Result<GlSurfaceAcquire, GlError>;

    fn create_buffer_resource(&mut self, desc: GlBufferDesc) -> Result<BufferId, GlError>;

    fn create_texture_resource(&mut self, desc: GlTextureDesc) -> Result<TextureId, GlError>;

    fn create_sampler(&mut self, desc: GlSamplerDesc) -> Result<SamplerId, GlError>;

    fn create_query(&mut self) -> Result<QueryId, GlError>;

    fn create_shader(&mut self, source: &GlShaderSource) -> Result<ShaderId, GlError>;

    fn create_program(&mut self, program: &GlProgramDescriptor) -> Result<ProgramId, GlError>;

    fn create_vertex_array(&mut self, layout: &GlVertexLayout) -> Result<VertexArrayId, GlError>;

    fn create_framebuffer(&mut self, framebuffer: &GlFramebufferDescriptor) -> Result<FramebufferId, GlError>;

    fn create_fence(&mut self) -> Result<GlFenceLease, GlError>;

    fn poll_fence(&mut self, fence: GlFenceLease) -> Result<GlFenceStatus, GlError>;

    fn read_buffer(&mut self, source: GlBufferRange) -> Result<Arc<Vec<u8>>, GlError>;

    fn read_texture(&mut self, source: GlTextureRegion, layout: GlPixelLayout) -> Result<TexelRead, GlError>;

    fn command(&mut self, command: &NativeCommand) -> Result<(), GlError>;
}

/// The refusal of an operation that the owner has no route for.
pub open spec fn unsupported_at(operation: &'static str) -> RhiError {
    error::rhi_error_at(
        RhiErrorKind::Unsupported,
        "native WGL/EGL owner has no verified lowering for this operation",
        operation,
    )
}

pub fn unsupported(operation: &'static str) -> (result: RhiError)
    ensures
        result == unsupported_at(operation),
{
    RhiError::new(
        RhiErrorKind::Unsupported,
        "native WGL/EGL owner has no verified lowering for this operation",
    ).at(operation)
}

/// A platform context and the executor on it, with the record of what they
/// were asked.
pub struct NativeLink<C, P> {
    provider: P,
    context: C,
    log: Ghost<Seq<NativeStep>>,
}

impl<C, P> View for NativeLink<C, P> {
    type V = Seq<NativeStep>;

    closed spec fn view(&self) -> Seq<NativeStep> {
        self.log@
    }
}

impl<C: NativePlatformContext, P: NativeProvider> NativeLink<C, P> {
    /// The platform context that is asked.
    pub closed spec fn spec_context(&self) -> C {
        self.context
    }

    /// The executor that is asked.
    pub closed spec fn spec_provider(&self) -> P {
        self.provider
    }

    pub fn new(context: C, provider: P) -> (result: Self)
        ensures
            result.spec_context() == context,
            result.spec_provider() == provider,
            result@ == Seq::<NativeStep>::empty(),
    {
        NativeLink { provider, context, log: Ghost(Seq::empty()) }
    }

    pub fn make_current(&mut self, operation: &'static str) -> (reply: Result<(), RhiError>)
        ensures
            exists|asked: &mut C|
                {
                    &&& *asked == old(self).spec_context()
                    &&& *final(asked) == final(self).spec_context()
                    &&& #[trigger] call_ensures(C::make_current, (asked, operation), reply)
                },
            final(self).spec_provider() == old(self).spec_provider(),
            final(self)@ == old(self)@.push(NativeStep::Current { operation, reply }),
    {
        let reply = self.context.make_current(operation);
        proof {
            self.log@ = self.log@.push(NativeStep::Current { operation, reply });
        }
        reply
    }

    pub fn drawable_extent(&mut self) -> (reply: Result<Option<Extent2d>, RhiError>)
        ensures
            exists|asked: &mut C|
                {
                    &&& *asked == old(self).spec_context()
                    &&& *final(asked) == final(self).spec_context()
                    &&& #[trigger] call_ensures(C::drawable_extent, (asked,), reply)
                },
            final(self).spec_provider() == old(self).spec_provider(),
            final(self)@ == old(self)@.push(NativeStep::Extent { reply }),
    {
        let reply = self.context.drawable_extent();
        proof {
            self.log@ = self.log@.push(NativeStep::Extent { reply });
        }
        reply
    }

    pub fn present(&mut self) -> (reply: Result<(), RhiError>)
        ensures
            exists|asked: &mut C|
                {
                    &&& *asked == old(self).spec_context()
                    &&& *final(asked) == final(self).spec_context()
                    &&& #[trigger] call_ensures(C::present, (asked,), reply)
                },
            final(self).spec_provider() == old(self).spec_provider(),
            final(self)@ == old(self)@.push(NativeStep::Flip { reply }),
    {
        let reply = self.context.present();
        proof {
            self.log@ = self.log@.push(NativeStep::Flip { reply });
        }
        reply
    }

    pub fn supports_presentation(&mut self) -> (reply: bool)
        ensures
            exists|asked: &mut C|
                {
                    &&& *asked == old(self).spec_context()
                    &&& *final(asked) == final(self).spec_context()
                    &&& #[trigger] call_ensures(C::supports_presentation, (asked,), reply)
                },
            final(self).spec_provider() == old(self).spec_provider(),
            final(self)@ == old(self)@.push(NativeStep::Presentable { reply }),
    {
        let reply = self.context.supports_presentation();
        proof {
            self.log@ = self.log@.push(NativeStep::Presentable { reply });
        }
        reply
    }

    pub fn assert_ready(&mut self, operation: &'static str) -> (reply: Result<(), GlError>)
        ensures
            exists|asked: &mut P|
                {
                    &&& *asked == old(self).spec_provider()
                    &&& *final(asked) == final(self).spec_provider()
                    &&& #[trigger] call_ensures(P::assert_ready, (asked, operation), reply)
                },
            final(self).spec_context() == old(self).spec_context(),
            final(self)@ == old(self)@.push(NativeStep::Ready { operation, reply }),
    {
        let reply = self.provider.assert_ready(operation);
        proof {
            self.log@ = self.log@.push(NativeStep::Ready { operation, reply });
        }
        reply
    }

    pub fn context_stamp(&mut self) -> (reply: ContextStamp)
        ensures
            exists|asked: &mut P|
                {
                    &&& *asked == old(self).spec_provider()
                    &&& *final(asked) == final(self).spec_provider()
                    &&& #[trigger] call_ensures(P::context_stamp, (asked,), reply)
                },
            final(self).spec_context() == old(self).spec_context(),
            final(self)@ == old(self)@.push(NativeStep::Stamp { reply }),
    {
        let reply = self.provider.context_stamp();
        proof {
            self.log@ = self.log@.push(NativeStep::Stamp { reply });
        }
        reply
    }

    pub fn find(&mut self, operation: &'static str, object: NativeObject) -> (reply: Result<(), GlError>)
        ensures
            exists|asked: &mut P|
                {
                    &&& *asked == old(self).spec_provider()
                    &&& *final(asked) == final(self).spec_provider()
                    &&& #[trigger] call_ensures(P::find, (asked, operation, object), reply)
                },
            final(self).spec_context() == old(self).spec_context(),
            final(self)@ == old(self)@.push(NativeStep::Find { operation, object, reply }),
    {
        let reply = self.provider.find(operation, object);
        proof {
            self.log@ = self.log@.push(NativeStep::Find { operation, object, reply });
        }
        reply
    }

    pub fn texture(&mut self, operation: &'static str, id: TextureId) -> (reply: Result<GlTextureDesc, GlError>)
        ensures
            exists|asked: &mut P|
                {
                    &&& *asked == old(self).spec_provider()
                    &&& *final(asked) == final(self).spec_provider()
                    &&& #[trigger] call_ensures(P::texture, (asked, operation, id), reply)
                },
            final(self).spec_context() == old(self).spec_context(),
            final(self)@ == old(self)@.push(NativeStep::FindTexture { operation, id, reply }),
    {
        let reply = self.provider.texture(operation, id);
        proof {
            self.log@ = self.log@.push(NativeStep::FindTexture { operation, id, reply });
        }
        reply
    }

    pub fn surface_extent(&mut self) -> (reply: Option<GlSurfaceSize>)
        ensures
            exists|asked: &mut P|
                {
                    &&& *asked == old(self).spec_provider()
                    &&& *final(asked) == final(self).spec_provider()
                    &&& #[trigger] call_ensures(P::surface_extent, (asked,), reply)
                },
            final(self).spec_context() == old(self).spec_context(),
            final(self)@ == old(self)@.push(NativeStep::SurfaceExtent { reply }),
    {
        let reply = self.provider.surface_extent();
        proof {
            self.log@ = self.log@.push(NativeStep::SurfaceExtent { reply });
        }
        reply
    }

    pub fn acquire_surface_image(&mut self) -> (reply: Result<GlSurfaceAcquire, GlError>)
        ensures
            exists|asked: &mut P|
                {
                    &&& *asked == old(self).spec_provider()
                    &&& *final(asked) == final(self).spec_provider()
                    &&& #[trigger] call_ensures(P::acquire_surface_image, (asked,), reply)
                },
            final(self).spec_context() == old(self).spec_context(),
            final(self)@ == old(self)@.push(NativeStep::AcquireSurface { reply }),
    {
        let reply = self.provider.acquire_surface_image();
        proof {
            self.log@ = self.log@.push(NativeStep::AcquireSurface { reply });
        }
        reply
    }

    pub fn create_buffer_resource(&mut self, desc: GlBufferDesc) -> (reply: Result<BufferId, GlError>)
        ensures
            exists|asked: &mut P|
                {
                    &&& *asked == old(self).spec_provider()
                    &&& *final(asked) == final(self).spec_provider()
                    &&& #[trigger] call_ensures(P::create_buffer_resource, (asked, desc), reply)
                },
            final(self).spec_context() == old(self).spec_context(),
            final(self)@ == old(self)@.push(NativeStep::CreateBuffer { desc, reply }),
    {
        let reply = self.provider.create_buffer_resource(desc);
        proof {
            self.log@ = self.log@.push(NativeStep::CreateBuffer { desc, reply });
        }
        reply
    }

    pub fn create_texture_resource(&mut self, desc: GlTextureDesc) -> (reply: Result<TextureId, GlError>)
        ensures
            exists|asked: &mut P|
                {
                    &&& *asked == old(self).spec_provider()
                    &&& *final(asked) == final(self).spec_provider()
                    &&& #[trigger] call_ensures(P::create_texture_resource, (asked, desc), reply)
                },
            final(self).spec_context() == old(self).spec_context(),
            final(self)@ == old(self)@.push(NativeStep::CreateTexture { desc, reply }),
    {
        let reply = self.provider.create_texture_resource(desc);
        proof {
            self.log@ = self.log@.push(NativeStep::CreateTexture { desc, reply });
        }
        reply
    }

    pub fn create_sampler(&mut self, desc: GlSamplerDesc) -> (reply: Result<SamplerId, GlError>)
        ensures
            exists|asked: &mut P|
                {
                    &&& *asked == old(self).spec_provider()
                    &&& *final(asked) == final(self).spec_provider()
                    &&& #[trigger] call_ensures(P::create_sampler, (asked, desc), reply)
                },
            final(self).spec_context() == old(self).spec_context(),
            final(self)@ == old(self)@.push(NativeStep::CreateSampler { desc, reply }),
    {
        let reply = self.provider.create_sampler(desc);
        proof {
            self.log@ = self.log@.push(NativeStep::CreateSampler { desc, reply });
        }
        reply
    }

    pub fn create_query(&mut self) -> (reply: Result<QueryId, GlError>)
        ensures
            exists|asked: &mut P|
                {
                    &&& *asked == old(self).spec_provider()
                    &&& *final(asked) == final(self).spec_provider()
                    &&& #[trigger] call_ensures(P::create_query, (asked,), reply)
                },
            final(self).spec_context() == old(self).spec_context(),
            final(self)@ == old(self)@.push(NativeStep::CreateQuery { reply }),
    {
        let reply = self.provider.create_query();
        proof {
            self.log@ = self.log@.push(NativeStep::CreateQuery { reply });
        }
        reply
    }

    pub fn create_shader(&mut self, source: &GlShaderSource) -> (reply: Result<ShaderId, GlError>)
        ensures
            exists|asked: &mut P|
                {
                    &&& *asked == old(self).spec_provider()
                    &&& *final(asked) == final(self).spec_provider()
                    &&& #[trigger] call_ensures(P::create_shader, (asked, source), reply)
                },
            final(self).spec_context() == old(self).spec_context(),
            final(self)@ == old(self)@.push(NativeStep::CreateShader { source: *source, reply }),
    {
        let reply = self.provider.create_shader(source);
        proof {
            self.log@ = self.log@.push(NativeStep::CreateShader { source: *source, reply });
        }
        reply
    }

    pub fn create_program(&mut self, program: &GlProgramDescriptor) -> (reply: Result<ProgramId, GlError>)
        ensures
            exists|asked: &mut P|
                {
                    &&& *asked == old(self).spec_provider()
                    &&& *final(asked) == final(self).spec_provider()
                    &&& #[trigger] call_ensures(P::create_program, (asked, program), reply)
                },
            final(self).spec_context() == old(self).spec_context(),
            final(self)@ == old(self)@.push(NativeStep::CreateProgram { program: program@, reply }),
    {
        let reply = self.provider.create_program(program);
        proof {
            self.log@ = self.log@.push(NativeStep::CreateProgram { program: program@, reply });
        }
        reply
    }

    pub fn create_vertex_array(&mut self, layout: &GlVertexLayout) -> (reply: Result<VertexArrayId, GlError>)
        ensures
            exists|asked: &mut P|
                {
                    &&& *asked == old(self).spec_provider()
                    &&& *final(asked) == final(self).spec_provider()
                    &&& #[trigger] call_ensures(P::create_vertex_array, (asked, layout), reply)
                },
            final(self).spec_context() == old(self).spec_context(),
            final(self)@ == old(self)@.push(NativeStep::CreateVertexArray { layout: layout@, reply }),
    {
        let reply = self.provider.create_vertex_array(layout);
        proof {
            self.log@ = self.log@.push(NativeStep::CreateVertexArray { layout: layout@, reply });
        }
        reply
    }

    pub fn create_framebuffer(&mut self, framebuffer: &GlFramebufferDescriptor) -> (reply: Result<FramebufferId, GlError>)
        ensures
            exists|asked: &mut P|
                {
                    &&& *asked == old(self).spec_provider()
                    &&& *final(asked) == final(self).spec_provider()
                    &&& #[trigger] call_ensures(P::create_framebuffer, (asked, framebuffer), reply)
                },
            final(self).spec_context() == old(self).spec_context(),
            final(self)@ == old(self)@.push(NativeStep::CreateFramebuffer { framebuffer: framebuffer@, reply }),
    {
        let reply = self.provider.create_framebuffer(framebuffer);
        proof {
            self.log@ = self.log@.push(NativeStep::CreateFramebuffer { framebuffer: framebuffer@, reply });
        }
        reply
    }

    pub fn create_fence(&mut self) -> (reply: Result<GlFenceLease, GlError>)
        ensures
            exists|asked: &mut P|
                {
                    &&& *asked == old(self).spec_provider()
                    &&& *final(asked) == final(self).spec_provider()
                    &&& #[trigger] call_ensures(P::create_fence, (asked,), reply)
                },
            final(self).spec_context() == old(self).spec_context(),
            final(self)@ == old(self)@.push(NativeStep::CreateFence { reply }),
    {
        let reply = self.provider.create_fence();
        proof {
            self.log@ = self.log@.push(NativeStep::CreateFence { reply });
        }
        reply
    }

    pub fn poll_fence(&mut self, fence: GlFenceLease) -> (reply: Result<GlFenceStatus, GlError>)
        ensures
            exists|asked: &mut P|
                {
                    &&& *asked == old(self).spec_provider()
                    &&& *final(asked) == final(self).spec_provider()
                    &&& #[trigger] call_ensures(P::poll_fence, (asked, fence), reply)
                },
            final(self).spec_context() == old(self).spec_context(),
            final(self)@ == old(self)@.push(NativeStep::PollFence { fence, reply }),
    {
        let reply = self.provider.poll_fence(fence);
        proof {
            self.log@ = self.log@.push(NativeStep::PollFence { fence, reply });
        }
        reply
    }

    pub fn read_buffer(&mut self, source: GlBufferRange) -> (reply: Result<Arc<Vec<u8>>, GlError>)
        ensures
            exists|asked: &mut P|
                {
                    &&& *asked == old(self).spec_provider()
                    &&& *final(asked) == final(self).spec_provider()
                    &&& #[trigger] call_ensures(P::read_buffer, (asked, source), reply)
                },
            final(self).spec_context() == old(self).spec_context(),
            final(self)@ == old(self)@.push(NativeStep::ReadBuffer { source, reply }),
    {
        let reply = self.provider.read_buffer(source);
        proof {
            self.log@ = self.log@.push(NativeStep::ReadBuffer { source, reply });
        }
        reply
    }

    pub fn read_texture(&mut self, source: GlTextureRegion, layout: GlPixelLayout) -> (reply: Result<TexelRead, GlError>)
        ensures
            exists|asked: &mut P|
                {
                    &&& *asked == old(self).spec_provider()
                    &&& *final(asked) == final(self).spec_provider()
                    &&& #[trigger] call_ensures(P::read_texture, (asked, source, layout), reply)
                },
            final(self).spec_context() == old(self).spec_context(),
            final(self)@ == old(self)@.push(NativeStep::ReadTexture { source, layout, reply }),
    {
        let reply = self.provider.read_texture(source, layout);
        proof {
            self.log@ = self.log@.push(NativeStep::ReadTexture { source, layout, reply });
        }
        reply
    }

    pub fn command(&mut self, command: &NativeCommand) -> (reply: Result<(), GlError>)
        ensures
            exists|asked: &mut P|
                {
                    &&& *asked == old(self).spec_provider()
                    &&& *final(asked) == final(self).spec_provider()
                    &&& #[trigger] call_ensures(P::command, (asked, command), reply)
                },
            final(self).spec_context() == old(self).spec_context(),
            final(self)@ == old(self)@.push(NativeStep::Command { command: command@, reply }),
    {
        let reply = self.provider.command(command);
        proof {
            self.log@ = self.log@.push(NativeStep::Command { command: command@, reply });
        }
        reply
    }
}

} // verus!
