//! Recorded commands of the portable interface.

use vstd::prelude::*;
use std::sync::Arc;
use crate::api::format::TextureFormat;
use crate::api::gl::GlColorBits;
use crate::api::resource::{
    BindGroup, Buffer, BufferRange, BufferUploadDescriptor, ComputePipeline, Extent2d, Extent3d,
    Origin3d, QuerySet, RasterPipeline, ReadbackTicket, Texture, TextureSubresourceLayers,
    TextureUploadDescriptor, TextureView,
};

verus! {

/// The format of indices.
#[derive(Clone, Copy, Debug, PartialEq, Eq, Structural)]
pub enum IndexFormat {
    Uint16,
    Uint32,
}

/// A command as capture tools see it.
#[derive(Clone, Copy, Debug, PartialEq, Eq, Structural)]
pub enum PortableCommand {
    SetRasterPipeline,
    SetComputePipeline,
    SetMeshPipeline,
    SetRayTracingPipeline,
    SetBindGroup,
    Draw,
    DrawIndexed,
    DrawIndirect,
    Dispatch,
    DispatchIndirect,
    DispatchMesh,
    DispatchMeshIndirect,
    BeginRaster,
    EndRaster,
    BeginCompute,
    EndCompute,
    BeginRayTracing,
    EndRayTracing,
    TraceRays,
    BuildAccelerationStructure,
    CopyAccelerationStructure,
    WriteAccelerationStructureCompactedSize,
    Copy,
    Upload,
    Readback,
    Query,
    DebugMarker,
}

/// How a command touches a resource.
#[derive(Clone, Copy, Debug, PartialEq, Eq, Structural)]
pub struct AccessMask {
    pub shader_read: bool,
    pub shader_write: bool,
}

/// A resource that a command touches.
#[derive(Clone, Copy, Debug, PartialEq, Eq, Structural)]
pub enum ResourceUse {
    Buffer(AccessMask),
    Texture(AccessMask),
    Frame,
    AccelerationStructure,
}

/// A copy between buffers.
#[derive(Clone, Copy, Debug, PartialEq, Eq, Structural)]
pub struct BufferCopy {
    pub src: Buffer,
    pub dst: Buffer,
    pub src_offset: u64,
    pub dst_offset: u64,
    pub size: u64,
}

/// A copy between textures.
#[derive(Clone, Copy, Debug, PartialEq, Eq, Structural)]
pub struct TextureCopy {
    pub src: Texture,
    pub dst: Texture,
    pub src_subresource: TextureSubresourceLayers,
    pub dst_subresource: TextureSubresourceLayers,
    pub src_origin: Origin3d,
    pub dst_origin: Origin3d,
    pub extent: Extent3d,
}

/// A copy.
#[derive(Clone, Copy, Debug, PartialEq, Eq, Structural)]
pub enum CopyRecord {
    Buffer(BufferCopy),
    Texture(TextureCopy),
    /// A copy between a buffer and a texture.
    Mixed,
}

/// An upload.
#[derive(Debug)]
pub enum UploadDescriptor {
    Buffer(BufferUploadDescriptor),
    Texture(TextureUploadDescriptor),
}

/// A configured drawable.
#[derive(Clone, Copy, Debug, PartialEq, Eq, Structural)]
pub struct GlPresentationLease {
    pub id: u64,
}

/// An acquired frame of a drawable. It is no texture.
#[derive(Clone, Copy, Debug, PartialEq, Eq, Structural)]
pub struct GlAcquiredFramebuffer {
    pub serial: u64,
    pub extent: Extent2d,
    pub suboptimal: bool,
    pub lease: GlPresentationLease,
    pub framebuffer: u32,
}

/// A portable frame. It has a drawable only if GL backs it.
#[derive(Clone, Copy, Debug, PartialEq, Eq, Structural)]
pub struct FrameAttachment {
    pub native: Option<GlAcquiredFramebuffer>,
    pub extent: Extent3d,
    pub sample_count: u32,
    pub format: TextureFormat,
}

/// What a color attachment shows.
#[derive(Clone, Copy, Debug, PartialEq, Eq, Structural)]
pub enum ColorAttachmentView {
    Texture(TextureView),
    Frame(FrameAttachment),
}

/// A clear value. Channels are bit patterns.
#[derive(Clone, Copy, Debug, PartialEq, Eq, Structural)]
pub enum ColorClearValue {
    Float(GlColorBits),
    Sint(GlColorBits),
    Uint(GlColorBits),
}

/// What happens to an attachment when a pass begins.
#[derive(Clone, Copy, Debug, PartialEq, Eq, Structural)]
pub enum LoadOp {
    Load,
    Clear(ColorClearValue),
}

/// What happens to an attachment when a pass ends.
#[derive(Clone, Copy, Debug, PartialEq, Eq, Structural)]
pub enum StoreOp {
    Store,
    Discard,
}

/// A color attachment of a pass.
#[derive(Clone, Copy, Debug, PartialEq, Eq, Structural)]
pub struct ColorAttachment {
    pub view: ColorAttachmentView,
    pub resolve: Option<TextureView>,
    pub load: LoadOp,
    pub store: StoreOp,
}

/// A color attachment and its location.
#[derive(Clone, Copy, Debug, PartialEq, Eq, Structural)]
pub struct LocatedColor {
    pub location: u32,
    pub attachment: ColorAttachment,
}

/// The begin of a raster pass.
#[derive(Debug)]
pub struct RasterBegin {
    pub colors: Vec<LocatedColor>,
    pub depth_stencil: Option<TextureView>,
}

/// A bind group of a draw or a dispatch.
#[derive(Debug)]
pub struct BoundGroupUse {
    pub index: u32,
    pub group: BindGroup,
    pub dynamic_offsets: Vec<u32>,
}

/// A vertex buffer of a draw.
#[derive(Clone, Copy, Debug, PartialEq, Eq, Structural)]
pub struct VertexBufferUse {
    pub slot: u32,
    pub buffer: Buffer,
    pub range: BufferRange,
}

/// The index buffer of a draw.
#[derive(Clone, Copy, Debug, PartialEq, Eq, Structural)]
pub struct IndexBufferUse {
    pub buffer: Buffer,
    pub range: BufferRange,
    pub format: IndexFormat,
}

/// A viewport, as bit patterns.
#[derive(Clone, Copy, Debug, PartialEq, Eq, Structural)]
pub struct Viewport {
    pub x: u32,
    pub y: u32,
    pub width: u32,
    pub height: u32,
    pub min_depth: u32,
    pub max_depth: u32,
}

/// A scissor rectangle.
#[derive(Clone, Copy, Debug, PartialEq, Eq, Structural)]
pub struct ScissorRect {
    pub x: u32,
    pub y: u32,
    pub width: u32,
    pub height: u32,
}

/// A span of vertices, indices or instances.
#[derive(Clone, Copy, Debug, PartialEq, Eq, Structural)]
pub struct IndexSpan {
    pub start: u32,
    pub end: u32,
}

/// What direct and indirect draws have in common.
#[derive(Debug)]
pub struct DrawInputs {
    pub pipeline: RasterPipeline,
    pub groups: Arc<Vec<BoundGroupUse>>,
    pub vertex_buffers: Vec<VertexBufferUse>,
    pub index: Option<IndexBufferUse>,
    pub viewport: Option<Viewport>,
    pub scissor: Option<ScissorRect>,
    pub blend_constant: GlColorBits,
    pub stencil_reference: u32,
}

/// A draw.
#[derive(Debug)]
pub struct RasterDraw {
    pub inputs: DrawInputs,
    pub range: IndexSpan,
    pub instances: IndexSpan,
    pub base_vertex: i32,
}

/// An indirect draw.
#[derive(Debug)]
pub struct RasterIndirect {
    pub inputs: DrawInputs,
    pub arguments: Buffer,
    pub arguments_offset: u64,
    pub draw_count: u32,
    pub stride: u32,
    pub count: Option<Buffer>,
}

/// A dispatch.
#[derive(Debug)]
pub struct ComputeDispatch {
    pub pipeline: ComputePipeline,
    pub groups: Arc<Vec<BoundGroupUse>>,
    pub x: u32,
    pub y: u32,
    pub z: u32,
    pub immediates: Arc<Vec<u8>>,
}

/// One query of a set.
#[derive(Clone, Copy, Debug, PartialEq, Eq, Structural)]
pub struct QueryPoint {
    pub set: QuerySet,
    pub index: u32,
}

/// What a recorded command does.
#[derive(Debug)]
pub enum RecordedPayload {
    Copy(CopyRecord),
    Upload(UploadDescriptor),
    Readback(ReadbackTicket),
    RasterBegin(RasterBegin),
    RasterEnd,
    RasterDraw(RasterDraw),
    RasterIndirect(RasterIndirect),
    ComputeBegin,
    ComputeEnd,
    ComputeDispatch(ComputeDispatch),
    ComputeIndirect,
    QueryBegin(QueryPoint),
    QueryEnd(QueryPoint),
    TimestampWrite(QueryPoint),
    QueryResolve,
    DebugPush,
    DebugPop,
    DebugMarker,
    MeshDispatch,
    MeshIndirect,
    RayTracingBegin,
    RayTracingDispatch,
    RayTracingEnd,
    AccelerationStructure,
}

/// A recorded command and the resources that it touches.
#[derive(Debug)]
pub struct RecordedCommand {
    pub uses: Vec<ResourceUse>,
    pub payload: RecordedPayload,
}

/// A point of a submission that completes together.
#[derive(Clone, Copy, Debug, PartialEq, Eq, Structural)]
pub struct PlanPoint {
    pub value: u64,
}

/// The commands up to a point.
#[derive(Clone, Debug)]
pub struct GlSubmissionBatch {
    pub point: PlanPoint,
    pub commands: Vec<Arc<RecordedCommand>>,
}

/// A submission as the driver gets it.
#[derive(Clone, Debug)]
pub struct GlSubmissionPlan {
    pub batches: Vec<GlSubmissionBatch>,
}

/// The commands up to a point, by value.
#[verifier::ext_equal]
pub struct BatchModel {
    pub point: PlanPoint,
    pub commands: Seq<Arc<RecordedCommand>>,
}

impl View for GlSubmissionBatch {
    type V = BatchModel;

    open spec fn view(&self) -> BatchModel {
        BatchModel { point: self.point, commands: self.commands@ }
    }
}

impl View for GlSubmissionPlan {
    type V = Seq<BatchModel>;

    open spec fn view(&self) -> Seq<BatchModel> {
        self.batches@.map_values(|batch: GlSubmissionBatch| batch@)
    }
}

/// Recorded commands that are submitted together.
#[derive(Debug)]
pub struct RecordedWork {
    pub commands: Vec<Arc<RecordedCommand>>,
}

/// The work up to a point.
#[derive(Debug)]
pub struct SubmissionBatch {
    pub point: PlanPoint,
    pub work: Vec<RecordedWork>,
}

/// A submission as the portable interface hands it over.
#[derive(Debug)]
pub struct SubmissionRequest {
    pub batches: Vec<SubmissionBatch>,
}

} // verus!
