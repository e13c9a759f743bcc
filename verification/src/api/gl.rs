//! The vocabulary of the GL family, below the portable interface.

use vstd::prelude::*;
use std::sync::Arc;
use crate::api::format::GlFormat;
use crate::api::identity::{
    BufferId, ContextStamp, FramebufferId, ProgramId, RenderbufferId, SyncId, TextureId, VertexArrayId,
};
use crate::api::resource;
use crate::exact::{Exact, Share};

verus! {

/// A version of GL or GLES.
#[derive(Clone, Copy, Debug, PartialEq, Eq, Structural)]
pub struct GlVersion {
    pub major: u8,
    pub minor: u8,
}

impl GlVersion {
    pub fn new(major: u8, minor: u8) -> (result: Self)
        ensures
            result == (GlVersion { major, minor }),
    {
        GlVersion { major, minor }
    }

    /// Whether the actual version is at least this one.
    pub open spec fn spec_is_met_by(self, actual: GlVersion) -> bool {
        actual.major > self.major || (actual.major == self.major && actual.minor >= self.minor)
    }

    pub fn is_met_by(self, actual: GlVersion) -> (result: bool)
        ensures
            result == self.spec_is_met_by(actual),
    {
        actual.major > self.major || (actual.major == self.major && actual.minor >= self.minor)
    }
}

/// The family and the version of a context.
#[derive(Clone, Copy, Debug, PartialEq, Eq, Structural)]
pub enum GlFamilyProfile {
    Desktop { major: u8, minor: u8 },
    Embedded { major: u8, minor: u8 },
    WebGl2,
}

impl GlFamilyProfile {
    /// Whether the profile reaches the floor of its own family. A family
    /// without a floor is not met.
    pub open spec fn spec_meets(
        self,
        desktop: Option<GlVersion>,
        embedded: Option<GlVersion>,
    ) -> bool {
        match self {
            GlFamilyProfile::Desktop { major, minor } => desktop is Some
                && desktop->0.spec_is_met_by(GlVersion { major, minor }),
            GlFamilyProfile::Embedded { major, minor } => embedded is Some
                && embedded->0.spec_is_met_by(GlVersion { major, minor }),
            GlFamilyProfile::WebGl2 => false,
        }
    }

    pub fn meets(self, desktop: Option<GlVersion>, embedded: Option<GlVersion>) -> (result: bool)
        ensures
            result == self.spec_meets(desktop, embedded),
    {
        match self {
            GlFamilyProfile::Desktop { major, minor } => match desktop {
                Some(floor) => floor.is_met_by(GlVersion { major, minor }),
                None => false,
            },
            GlFamilyProfile::Embedded { major, minor } => match embedded {
                Some(floor) => floor.is_met_by(GlVersion { major, minor }),
                None => false,
            },
            GlFamilyProfile::WebGl2 => false,
        }
    }
}

/// The shape of a texture allocation.
#[derive(Clone, Copy, Debug, PartialEq, Eq, Structural)]
pub enum GlTextureDimension {
    D1,
    D2,
    D2Array,
    Cube,
    D3,
}

/// A target that textures are bound to.
#[derive(Clone, Copy, Debug, PartialEq, Eq, Structural)]
pub enum GlTextureTarget {
    D2,
    D2Array,
    Cube,
    D3,
}

/// The size of a texture allocation or of a part of one.
#[derive(Clone, Copy, Debug, PartialEq, Eq, Structural)]
pub struct GlExtent3d {
    pub width: u32,
    pub height: u32,
    pub depth_or_layers: u32,
}

/// What a buffer allocation is used for.
#[derive(Clone, Copy, Debug, PartialEq, Eq, Structural)]
pub struct GlBufferUsage {
    pub copy_source: bool,
    pub copy_destination: bool,
    pub vertex: bool,
    pub index: bool,
    pub uniform: bool,
    pub storage: bool,
    pub indirect: bool,
    pub map_read: bool,
    pub map_write: bool,
}

impl GlBufferUsage {
    /// No flag at all.
    pub open spec fn spec_none() -> GlBufferUsage {
        GlBufferUsage { copy_source: false, copy_destination: false, vertex: false, index: false, uniform: false, storage: false, indirect: false, map_read: false, map_write: false }
    }

    /// No flag at all.
    pub fn none() -> (result: Self)
        ensures
            result == GlBufferUsage::spec_none(),
    {
        GlBufferUsage { copy_source: false, copy_destination: false, vertex: false, index: false, uniform: false, storage: false, indirect: false, map_read: false, map_write: false }
    }
}

/// A buffer allocation.
#[derive(Clone, Copy, Debug, PartialEq, Eq, Structural)]
pub struct GlBufferDesc {
    pub size: u64,
    pub usage: GlBufferUsage,
}

/// What a texture allocation is used for.
#[derive(Clone, Copy, Debug, PartialEq, Eq, Structural)]
pub struct GlTextureUsage {
    pub copy_source: bool,
    pub copy_destination: bool,
    pub sampled: bool,
    pub storage_binding: bool,
    pub render_attachment: bool,
}

impl GlTextureUsage {
    /// No flag at all.
    pub open spec fn spec_none() -> GlTextureUsage {
        GlTextureUsage { copy_source: false, copy_destination: false, sampled: false, storage_binding: false, render_attachment: false }
    }

    /// No flag at all.
    pub fn none() -> (result: Self)
        ensures
            result == GlTextureUsage::spec_none(),
    {
        GlTextureUsage { copy_source: false, copy_destination: false, sampled: false, storage_binding: false, render_attachment: false }
    }
}

/// A texture allocation.
#[derive(Clone, Copy, Debug, PartialEq, Eq, Structural)]
pub struct GlTextureDesc {
    pub dimension: GlTextureDimension,
    pub extent: GlExtent3d,
    pub mip_level_count: u32,
    pub sample_count: u32,
    pub format: GlFormat,
    pub usage: GlTextureUsage,
}

impl GlTextureDesc {
    /// The size of a mip level, if the allocation has it.
    pub open spec fn spec_mip_extent(self, level: u32) -> Option<GlExtent3d> {
        if level < self.mip_level_count {
            Some(
                GlExtent3d {
                    width: resource::mip_side(self.extent.width, level),
                    height: resource::mip_side(self.extent.height, level),
                    depth_or_layers: if self.dimension is D3 {
                        resource::mip_side(self.extent.depth_or_layers, level)
                    } else {
                        self.extent.depth_or_layers
                    },
                },
            )
        } else {
            None
        }
    }

    pub fn mip_extent(&self, level: u32) -> (result: Option<GlExtent3d>)
        ensures
            result == self.spec_mip_extent(level),
    {
        if level < self.mip_level_count {
            let whole = resource::mip_extent(
                resource::Extent3d {
                    width: self.extent.width,
                    height: self.extent.height,
                    depth: self.extent.depth_or_layers,
                },
                match self.dimension {
                    GlTextureDimension::D3 => resource::TextureDimension::D3,
                    _ => resource::TextureDimension::D2,
                },
                level,
            );
            Some(GlExtent3d { width: whole.width, height: whole.height, depth_or_layers: whole.depth })
        } else {
            None
        }
    }
}

/// A renderbuffer allocation.
#[derive(Clone, Copy, Debug, PartialEq, Eq, Structural)]
pub struct GlRenderbufferDesc {
    pub format: GlFormat,
    pub width: u32,
    pub height: u32,
    pub samples: u32,
}

/// How coordinates outside a texture are read.
#[derive(Clone, Copy, Debug, PartialEq, Eq, Structural)]
pub enum GlAddressMode {
    ClampToEdge,
    Repeat,
    MirroredRepeat,
}

/// How texels are blended.
#[derive(Clone, Copy, Debug, PartialEq, Eq, Structural)]
pub enum GlFilterMode {
    Nearest,
    Linear,
}

/// How mip levels are blended.
#[derive(Clone, Copy, Debug, PartialEq, Eq, Structural)]
pub enum GlMipmapFilterMode {
    Nearest,
    Linear,
}

/// How a sampler compares.
#[derive(Clone, Copy, Debug, PartialEq, Eq, Structural)]
pub enum GlCompareFunction {
    Never,
    Less,
    Equal,
    LessEqual,
    Greater,
    NotEqual,
    GreaterEqual,
    Always,
}

/// A sampler object. Numbers are bit patterns.
#[derive(Clone, Copy, Debug, PartialEq, Eq, Structural)]
pub struct GlSamplerDesc {
    pub address_mode_u: GlAddressMode,
    pub address_mode_v: GlAddressMode,
    pub address_mode_w: GlAddressMode,
    pub mag_filter: GlFilterMode,
    pub min_filter: GlFilterMode,
    pub mipmap_filter: GlMipmapFilterMode,
    pub lod_min_bits: u32,
    pub lod_max_bits: u32,
    pub compare: Option<GlCompareFunction>,
    pub max_anisotropy_bits: Option<u32>,
}

/// The stage that a shader runs in.
#[derive(Clone, Copy, Debug, PartialEq, Eq, Structural)]
pub enum GlShaderStage {
    Vertex,
    Fragment,
    Compute,
}

/// The language of a shader.
#[derive(Clone, Copy, Debug, PartialEq, Eq, Structural)]
pub enum GlShaderDialect {
    Desktop { version: u16 },
    Embedded { version: u16 },
}

/// A shader that GL can compile.
#[derive(Debug)]
pub struct GlShaderSource {
    pub stage: GlShaderStage,
    pub dialect: GlShaderDialect,
    pub entry_point: Arc<String>,
    pub source_hash: u64,
    pub text: Arc<String>,
    pub debug_name: Option<Arc<String>>,
}

/// A resource of a program, by the name that GL reflects.
#[derive(Debug)]
pub struct GlLogicalBinding {
    pub name: Arc<String>,
    pub group: u32,
    pub slot: u32,
}

/// The resources of a program.
#[derive(Debug)]
pub struct GlPipelineLayout {
    pub bindings: Vec<GlLogicalBinding>,
}

/// The shaders of a program.
#[derive(Debug)]
pub enum GlProgramKind {
    Raster { vertex: GlShaderSource, fragment: GlShaderSource },
    Compute { shader: GlShaderSource },
}

/// A program to link.
#[derive(Debug)]
pub struct GlProgramDescriptor {
    pub kind: GlProgramKind,
    pub layout: GlPipelineLayout,
    pub debug_name: Option<Arc<String>>,
}

/// The format of a vertex attribute.
#[derive(Clone, Copy, Debug, PartialEq, Eq, Structural)]
pub enum GlVertexFormat {
    Uint8x2,
    Uint8x4,
    Sint8x2,
    Sint8x4,
    Unorm8x2,
    Unorm8x4,
    Snorm8x2,
    Snorm8x4,
    Uint16x2,
    Uint16x4,
    Sint16x2,
    Sint16x4,
    Unorm16x2,
    Unorm16x4,
    Snorm16x2,
    Snorm16x4,
    Float16x2,
    Float16x4,
    Float32,
    Float32x2,
    Float32x3,
    Float32x4,
    Uint32,
    Uint32x2,
    Uint32x3,
    Uint32x4,
    Sint32,
    Sint32x2,
    Sint32x3,
    Sint32x4,
}

/// The format of indices.
#[derive(Clone, Copy, Debug, PartialEq, Eq, Structural)]
pub enum GlIndexFormat {
    Uint16,
    Uint32,
}

/// When a vertex buffer advances.
#[derive(Clone, Copy, Debug, PartialEq, Eq, Structural)]
pub enum GlVertexStepMode {
    Vertex,
    Instance,
}

/// The layout of one vertex buffer.
#[derive(Clone, Copy, Debug, PartialEq, Eq, Structural)]
pub struct GlVertexBufferLayout {
    pub slot: u32,
    pub stride: u32,
    pub step_mode: GlVertexStepMode,
}

/// One vertex attribute.
#[derive(Clone, Copy, Debug, PartialEq, Eq, Structural)]
pub struct GlVertexAttribute {
    pub location: u32,
    pub buffer_slot: u32,
    pub format: GlVertexFormat,
    pub offset: u32,
}

/// The layout of all vertex buffers.
#[derive(Debug)]
pub struct GlVertexLayout {
    pub buffers: Vec<GlVertexBufferLayout>,
    pub attributes: Vec<GlVertexAttribute>,
}

/// A vertex buffer at a slot.
#[derive(Clone, Copy, Debug, PartialEq, Eq, Structural)]
pub struct GlVertexBufferBinding {
    pub slot: u32,
    pub buffer: BufferId,
    pub offset: u64,
}

/// An index buffer.
#[derive(Clone, Copy, Debug, PartialEq, Eq, Structural)]
pub struct GlIndexBinding {
    pub buffer: BufferId,
    pub format: GlIndexFormat,
    pub offset: u64,
}

/// How vertices form primitives.
#[derive(Clone, Copy, Debug, PartialEq, Eq, Structural)]
pub enum GlPrimitiveTopology {
    Points,
    Lines,
    LineStrip,
    Triangles,
    TriangleStrip,
}

/// Which faces are dropped.
#[derive(Clone, Copy, Debug, PartialEq, Eq, Structural)]
pub enum GlCullMode {
    Neither,
    Front,
    Back,
}

/// Which winding is the front.
#[derive(Clone, Copy, Debug, PartialEq, Eq, Structural)]
pub enum GlFrontFace {
    CounterClockwise,
    Clockwise,
}

/// How depth and stencil values are compared.
#[derive(Clone, Copy, Debug, PartialEq, Eq, Structural)]
pub enum GlDepthCompareFunction {
    Never,
    Less,
    Equal,
    LessEqual,
    Greater,
    NotEqual,
    GreaterEqual,
    Always,
}

/// What happens to a stencil value.
#[derive(Clone, Copy, Debug, PartialEq, Eq, Structural)]
pub enum GlStencilOperation {
    Keep,
    Zero,
    Replace,
    IncrementClamp,
    DecrementClamp,
    Invert,
    IncrementWrap,
    DecrementWrap,
}

/// The stencil test of one face.
#[derive(Clone, Copy, Debug, PartialEq, Eq, Structural)]
pub struct GlStencilFaceState {
    pub compare: GlDepthCompareFunction,
    pub fail_op: GlStencilOperation,
    pub depth_fail_op: GlStencilOperation,
    pub pass_op: GlStencilOperation,
    pub read_mask: u32,
    pub write_mask: u32,
}

/// The depth bias, as bit patterns.
#[derive(Clone, Copy, Debug, PartialEq, Eq, Structural)]
pub struct GlDepthBias {
    pub factor: u32,
    pub units: u32,
    pub clamp: u32,
}

/// The depth and stencil tests.
#[derive(Clone, Copy, Debug, PartialEq, Eq, Structural)]
pub struct GlDepthStencilState {
    pub depth_write_enabled: bool,
    pub depth_compare: GlDepthCompareFunction,
    pub depth_bias: GlDepthBias,
    pub stencil_front: GlStencilFaceState,
    pub stencil_back: GlStencilFaceState,
    pub stencil_reference: u32,
}

/// A factor of the blend equation.
#[derive(Clone, Copy, Debug, PartialEq, Eq, Structural)]
pub enum GlBlendFactor {
    Zero,
    One,
    Src,
    OneMinusSrc,
    SrcAlpha,
    OneMinusSrcAlpha,
    Dst,
    OneMinusDst,
    DstAlpha,
    OneMinusDstAlpha,
    Constant,
    OneMinusConstant,
    SrcAlphaSaturated,
}

/// An operation of the blend equation.
#[derive(Clone, Copy, Debug, PartialEq, Eq, Structural)]
pub enum GlBlendOperation {
    Add,
    Subtract,
    ReverseSubtract,
    Min,
    Max,
}

/// The blend equation of color or alpha.
#[derive(Clone, Copy, Debug, PartialEq, Eq, Structural)]
pub struct GlBlendComponent {
    pub src_factor: GlBlendFactor,
    pub dst_factor: GlBlendFactor,
    pub operation: GlBlendOperation,
}

/// The blend equations of a target.
#[derive(Clone, Copy, Debug, PartialEq, Eq, Structural)]
pub struct GlBlendState {
    pub color: GlBlendComponent,
    pub alpha: GlBlendComponent,
}

/// What is written to a color target.
#[derive(Clone, Copy, Debug, PartialEq, Eq, Structural)]
pub struct GlColorTargetState {
    pub write_mask: u8,
    pub blend: Option<GlBlendState>,
}

/// The samples of a pipeline.
#[derive(Clone, Copy, Debug, PartialEq, Eq, Structural)]
pub struct GlMultisampleState {
    pub sample_count: u32,
    pub alpha_to_coverage_enabled: bool,
    pub sample_mask: u32,
}

/// A viewport. The depths are bit patterns.
#[derive(Clone, Copy, Debug, PartialEq, Eq, Structural)]
pub struct GlViewport {
    pub x: u32,
    pub y: u32,
    pub width: u32,
    pub height: u32,
    pub min_depth: u32,
    pub max_depth: u32,
}

/// A scissor rectangle.
#[derive(Clone, Copy, Debug, PartialEq, Eq, Structural)]
pub struct GlScissorRect {
    pub x: u32,
    pub y: u32,
    pub width: u32,
    pub height: u32,
}

/// Four channels, as bit patterns.
#[derive(Clone, Copy, Debug, PartialEq, Eq, Structural)]
pub struct GlColorBits {
    pub red: u32,
    pub green: u32,
    pub blue: u32,
    pub alpha: u32,
}

/// The fixed state of a raster pipeline.
#[derive(Debug)]
pub struct GlRasterState {
    pub topology: GlPrimitiveTopology,
    pub cull_mode: GlCullMode,
    pub front_face: GlFrontFace,
    pub depth_stencil: Option<GlDepthStencilState>,
    pub color_targets: Arc<Vec<GlColorTargetState>>,
    pub multisample: GlMultisampleState,
    pub viewport: GlViewport,
    pub scissor: Option<GlScissorRect>,
    pub blend_constant: GlColorBits,
}

/// Raster state, by value.
#[verifier::ext_equal]
pub struct RasterStateModel {
    pub topology: GlPrimitiveTopology,
    pub cull_mode: GlCullMode,
    pub front_face: GlFrontFace,
    pub depth_stencil: Option<GlDepthStencilState>,
    pub color_targets: Seq<GlColorTargetState>,
    pub multisample: GlMultisampleState,
    pub viewport: GlViewport,
    pub scissor: Option<GlScissorRect>,
    pub blend_constant: GlColorBits,
}

impl View for GlRasterState {
    type V = RasterStateModel;

    open spec fn view(&self) -> RasterStateModel {
        RasterStateModel {
            topology: self.topology,
            cull_mode: self.cull_mode,
            front_face: self.front_face,
            depth_stencil: self.depth_stencil,
            color_targets: self.color_targets@,
            multisample: self.multisample,
            viewport: self.viewport,
            scissor: self.scissor,
            blend_constant: self.blend_constant,
        }
    }
}

impl Share for GlRasterState {
    fn share(&self) -> (result: Self) {
        GlRasterState {
            topology: self.topology,
            cull_mode: self.cull_mode,
            front_face: self.front_face,
            depth_stencil: self.depth_stencil,
            color_targets: Arc::clone(&self.color_targets),
            multisample: self.multisample,
            viewport: self.viewport,
            scissor: self.scissor,
            blend_constant: self.blend_constant,
        }
    }
}

/// A raster pipeline, by its objects.
#[derive(Debug)]
pub struct GlRasterPipeline {
    pub program: ProgramId,
    pub vertex_array: VertexArrayId,
    pub state: GlRasterState,
}

impl Share for GlRasterPipeline {
    fn share(&self) -> (result: Self) {
        GlRasterPipeline {
            program: self.program,
            vertex_array: self.vertex_array,
            state: self.state.share(),
        }
    }
}

/// A draw without indices.
#[derive(Clone, Copy, Debug, PartialEq, Eq, Structural)]
pub struct GlNonIndexedDraw {
    pub first_vertex: u32,
    pub vertex_count: u32,
    pub instance_count: u32,
}

/// A draw with indices.
#[derive(Clone, Copy, Debug, PartialEq, Eq, Structural)]
pub struct GlIndexedDraw {
    pub first_index: u32,
    pub index_count: u32,
    pub instance_count: u32,
}

/// A draw.
#[derive(Clone, Copy, Debug, PartialEq, Eq, Structural)]
pub enum GlDrawCommand {
    NonIndexed(GlNonIndexedDraw),
    Indexed(GlIndexedDraw),
}

/// A draw that may start elsewhere than at zero.
#[derive(Clone, Copy, Debug, PartialEq, Eq, Structural)]
pub struct GlAdvancedDrawCommand {
    pub draw: GlDrawCommand,
    pub base_vertex: i32,
    pub first_instance: u32,
}

/// Where a draw may start.
#[derive(Clone, Copy, Debug, PartialEq, Eq, Structural)]
pub struct GlAdvancedRasterCapabilities {
    pub base_vertex: bool,
    pub first_instance: bool,
}

impl GlAdvancedDrawCommand {
    /// Whether the draw asks for nothing that is missing.
    pub open spec fn spec_is_within(self, capabilities: GlAdvancedRasterCapabilities) -> bool {
        (self.base_vertex == 0 || capabilities.base_vertex) && (self.first_instance == 0
            || capabilities.first_instance)
    }

    pub fn is_within(&self, capabilities: GlAdvancedRasterCapabilities) -> (result: bool)
        ensures
            result == self.spec_is_within(capabilities),
    {
        (self.base_vertex == 0 || capabilities.base_vertex) && (self.first_instance == 0
            || capabilities.first_instance)
    }
}

/// A stretch of a buffer.
#[derive(Clone, Copy, Debug, PartialEq, Eq, Structural)]
pub struct GlBufferRange {
    pub buffer: BufferId,
    pub offset: u64,
    pub size: u64,
}

/// One plane of a texture.
#[derive(Clone, Copy, Debug, PartialEq, Eq, Structural)]
pub enum GlTextureAspect {
    Color,
    DepthOnly,
    StencilOnly,
}

/// Some layers of one mip level.
#[derive(Clone, Copy, Debug, PartialEq, Eq, Structural)]
pub struct GlTextureSubresource {
    pub texture: TextureId,
    pub aspect: GlTextureAspect,
    pub mip_level: u32,
    pub base_layer: u32,
    pub layer_count: u32,
}

/// A position in a texture.
#[derive(Clone, Copy, Debug, PartialEq, Eq, Structural)]
pub struct GlOrigin {
    pub x: u32,
    pub y: u32,
    pub z: u32,
}

/// A part of a texture.
#[derive(Clone, Copy, Debug, PartialEq, Eq, Structural)]
pub struct GlTextureRegion {
    pub subresource: GlTextureSubresource,
    pub origin: GlOrigin,
    pub extent: GlExtent3d,
}

/// The format of pixels in memory.
#[derive(Clone, Copy, Debug, PartialEq, Eq, Structural)]
pub enum GlPixelFormat {
    Rgba8,
}

/// How pixels lie in memory, and how many bytes a repacking may take.
#[derive(Clone, Copy, Debug, PartialEq, Eq, Structural)]
pub struct GlPixelLayout {
    pub format: GlPixelFormat,
    pub bytes_per_row: u32,
    pub rows_per_image: u32,
    pub offset: u64,
    pub alignment: u32,
    pub repack_limit: u64,
}

/// What an attachment is backed by.
#[derive(Clone, Copy, Debug, PartialEq, Eq, Structural)]
pub enum GlAttachmentTarget {
    Texture(TextureId),
    Renderbuffer(RenderbufferId),
}

/// An attachment of a framebuffer.
#[derive(Clone, Copy, Debug, PartialEq, Eq, Structural)]
pub struct GlTextureView {
    pub target: GlAttachmentTarget,
    pub format: GlFormat,
    pub mip_level: u32,
    pub array_layer: u32,
    pub layer_count: u32,
    pub width: u32,
    pub height: u32,
    pub sample_count: u32,
}

/// A framebuffer.
#[derive(Debug)]
pub struct GlFramebufferDescriptor {
    pub color_attachments: Vec<GlTextureView>,
    pub depth_stencil_attachment: Option<GlTextureView>,
    pub draw_buffers: Vec<u32>,
}

/// The drawable of one acquired frame.
#[derive(Clone, Copy, Debug, PartialEq, Eq, Structural)]
pub struct GlDefaultFramebufferTarget {
    pub frame_serial: u64,
    pub context: ContextStamp,
    pub width: u32,
    pub height: u32,
    pub sample_count: u32,
    pub color_format: GlFormat,
}

/// What a pass renders to.
#[derive(Clone, Copy, Debug, PartialEq, Eq, Structural)]
pub enum GlRenderTarget {
    Offscreen(FramebufferId),
    Default(GlDefaultFramebufferTarget),
}

/// What a color attachment of a pass is.
#[derive(Clone, Copy, Debug, PartialEq, Eq, Structural)]
pub enum GlPassAttachmentView {
    Allocated(GlTextureView),
    DefaultColor(GlDefaultFramebufferTarget),
}

/// What happens to an attachment when a pass begins.
#[derive(Clone, Copy, Debug, PartialEq, Eq, Structural)]
pub enum GlLoadOp {
    Load,
    Clear,
}

/// What happens to an attachment when a pass ends.
#[derive(Clone, Copy, Debug, PartialEq, Eq, Structural)]
pub enum GlStoreOp {
    Store,
    Discard,
}

/// A color attachment of a pass.
#[derive(Clone, Copy, Debug, PartialEq, Eq, Structural)]
pub struct GlColorAttachment {
    pub view: GlPassAttachmentView,
    pub resolve_target: Option<GlTextureView>,
    pub load: GlLoadOp,
    pub store: GlStoreOp,
    pub clear: GlColorBits,
}

/// The clear values. The depth is a bit pattern.
#[derive(Clone, Copy, Debug, PartialEq, Eq, Structural)]
pub struct GlDepthStencilClear {
    pub depth: u32,
    pub stencil: u32,
}

/// The depth and stencil attachment of a pass.
#[derive(Clone, Copy, Debug, PartialEq, Eq, Structural)]
pub struct GlDepthStencilAttachment {
    pub view: GlTextureView,
    pub depth_load: GlLoadOp,
    pub depth_store: GlStoreOp,
    pub stencil_load: GlLoadOp,
    pub stencil_store: GlStoreOp,
    pub clear: GlDepthStencilClear,
}

/// A pass.
#[derive(Debug)]
pub struct GlRenderPassDescriptor {
    pub target: GlRenderTarget,
    pub color_attachments: Vec<GlColorAttachment>,
    pub depth_stencil_attachment: Option<GlDepthStencilAttachment>,
}

/// The workgroups of a dispatch.
#[derive(Clone, Copy, Debug, PartialEq, Eq, Structural)]
pub struct GlDispatchGroups {
    pub x: u32,
    pub y: u32,
    pub z: u32,
}

/// The shape of an indirect record.
#[derive(Clone, Copy, Debug, PartialEq, Eq, Structural)]
pub enum GlIndirectAbi {
    NonIndexed,
    Indexed,
}

/// Indirect draw records.
#[derive(Clone, Copy, Debug, PartialEq, Eq, Structural)]
pub struct GlIndirectCommandRange {
    pub range: GlBufferRange,
    pub command_offset: u64,
    pub draw_count: u32,
    pub stride: u32,
    pub abi: GlIndirectAbi,
}

/// A fence that somebody has to destroy.
#[derive(Clone, Copy, Debug, PartialEq, Eq, Structural)]
pub struct GlFenceLease {
    pub fence: SyncId,
}

/// What a fence reports.
#[derive(Clone, Copy, Debug, PartialEq, Eq, Structural)]
pub enum GlFenceStatus {
    Pending,
    Complete,
    Failed,
    Unknown,
}

/// The size of a surface.
#[derive(Clone, Copy, Debug, PartialEq, Eq, Structural)]
pub struct GlSurfaceSize {
    pub width: u32,
    pub height: u32,
}

/// An acquired image of a surface.
#[derive(Clone, Copy, Debug, PartialEq, Eq, Structural)]
pub struct GlSurfaceLease {
    pub image: u64,
    pub size: GlSurfaceSize,
}

/// What acquiring a surface image gives.
#[derive(Clone, Copy, Debug, PartialEq, Eq, Structural)]
pub enum GlSurfaceAcquire {
    Lease(GlSurfaceLease),
    Suspended,
}

impl Exact for GlVertexBufferBinding {
    fn same(&self, other: &Self) -> (result: bool) {
        *self == *other
    }
}

} // verus!
