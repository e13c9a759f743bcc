//! Buffers, textures, views and samplers of the portable interface.

use vstd::prelude::*;
use std::sync::Arc;
use crate::api::format::{TextureAspects, TextureFormat};
use crate::api::identity::ObjectId;
use crate::platform::object::GlObjectName;

verus! {

/// What a buffer is used for.
#[derive(Clone, Copy, Debug, PartialEq, Eq, Structural)]
pub struct BufferUsage {
    pub copy_src: bool,
    pub copy_dst: bool,
    pub vertex: bool,
    pub index: bool,
    pub uniform: bool,
    pub storage: bool,
    pub indirect: bool,
    pub map_read: bool,
    pub map_write: bool,
    pub query_resolve: bool,
    pub blas_input: bool,
    pub tlas_input: bool,
    pub acceleration_structure_scratch: bool,
}

impl BufferUsage {
    /// No flag at all.
    pub open spec fn spec_none() -> BufferUsage {
        BufferUsage { copy_src: false, copy_dst: false, vertex: false, index: false, uniform: false, storage: false, indirect: false, map_read: false, map_write: false, query_resolve: false, blas_input: false, tlas_input: false, acceleration_structure_scratch: false }
    }

    /// No flag at all.
    pub fn none() -> (result: Self)
        ensures
            result == BufferUsage::spec_none(),
    {
        BufferUsage { copy_src: false, copy_dst: false, vertex: false, index: false, uniform: false, storage: false, indirect: false, map_read: false, map_write: false, query_resolve: false, blas_input: false, tlas_input: false, acceleration_structure_scratch: false }
    }
}

/// The shape of a buffer.
#[derive(Clone, Copy, Debug, PartialEq, Eq, Structural)]
pub struct BufferDescriptor {
    pub size: u64,
    pub usage: BufferUsage,
}

impl BufferDescriptor {
    pub fn new(size: u64, usage: BufferUsage) -> (result: Self)
        ensures
            result == (BufferDescriptor { size, usage }),
    {
        BufferDescriptor { size, usage }
    }
}

/// A stretch of a buffer.
#[derive(Clone, Copy, Debug, PartialEq, Eq, Structural)]
pub struct BufferRange {
    pub offset: u64,
    pub size: u64,
}

/// The dimension of a texture.
#[derive(Clone, Copy, Debug, PartialEq, Eq, Structural)]
pub enum TextureDimension {
    D1,
    D2,
    D3,
}

/// What a texture is used for.
#[derive(Clone, Copy, Debug, PartialEq, Eq, Structural)]
pub struct TextureUsage {
    pub copy_src: bool,
    pub copy_dst: bool,
    pub sampled: bool,
    pub storage: bool,
    pub color_attachment: bool,
    pub depth_stencil_attachment: bool,
}

impl TextureUsage {
    /// No flag at all.
    pub open spec fn spec_none() -> TextureUsage {
        TextureUsage { copy_src: false, copy_dst: false, sampled: false, storage: false, color_attachment: false, depth_stencil_attachment: false }
    }

    /// No flag at all.
    pub fn none() -> (result: Self)
        ensures
            result == TextureUsage::spec_none(),
    {
        TextureUsage { copy_src: false, copy_dst: false, sampled: false, storage: false, color_attachment: false, depth_stencil_attachment: false }
    }
}

/// The size of a texture or of a part of one.
#[derive(Clone, Copy, Debug, PartialEq, Eq, Structural)]
pub struct Extent3d {
    pub width: u32,
    pub height: u32,
    pub depth: u32,
}

/// The size of a drawable.
#[derive(Clone, Copy, Debug, PartialEq, Eq, Structural)]
pub struct Extent2d {
    pub width: u32,
    pub height: u32,
}

/// A position in a texture.
#[derive(Clone, Copy, Debug, PartialEq, Eq, Structural)]
pub struct Origin3d {
    pub x: u32,
    pub y: u32,
    pub z: u32,
}

/// The shape of a texture.
#[derive(Clone, Copy, Debug, PartialEq, Eq, Structural)]
pub struct TextureDescriptor {
    pub dimension: TextureDimension,
    pub extent: Extent3d,
    pub array_layers: u32,
    pub mip_levels: u32,
    pub sample_count: u32,
    pub format: TextureFormat,
    pub usage: TextureUsage,
}

impl TextureDescriptor {
    /// One level, one layer, one sample.
    pub fn new_2d(width: u32, height: u32, format: TextureFormat, usage: TextureUsage) -> (result:
        Self)
        ensures
            result == (TextureDescriptor {
                dimension: TextureDimension::D2,
                extent: Extent3d { width, height, depth: 1 },
                array_layers: 1,
                mip_levels: 1,
                sample_count: 1,
                format,
                usage,
            }),
    {
        TextureDescriptor {
            dimension: TextureDimension::D2,
            extent: Extent3d { width, height, depth: 1 },
            array_layers: 1,
            mip_levels: 1,
            sample_count: 1,
            format,
            usage,
        }
    }

    pub fn with_array_layers(self, array_layers: u32) -> (result: Self)
        ensures
            result == (TextureDescriptor { array_layers, ..self }),
    {
        TextureDescriptor { array_layers, ..self }
    }
}

/// One side of a mip level: halved once per level, and never below one.
pub open spec fn mip_side(side: u32, level: u32) -> u32 {
    let halved = side >> level;
    if level >= 32 || halved == 0 {
        1
    } else {
        halved
    }
}

fn shrink(side: u32, level: u32) -> (result: u32)
    ensures
        result == mip_side(side, level),
{
    if level >= 32 {
        1
    } else {
        let halved: u32 = side >> level;
        if halved == 0 {
            1
        } else {
            halved
        }
    }
}

/// The size of a mip level. Only a 3D texture gets shallower.
pub open spec fn spec_mip_extent(extent: Extent3d, dimension: TextureDimension, level: u32) -> Extent3d {
    Extent3d {
        width: mip_side(extent.width, level),
        height: if dimension is D1 {
            extent.height
        } else {
            mip_side(extent.height, level)
        },
        depth: if dimension is D3 {
            mip_side(extent.depth, level)
        } else {
            extent.depth
        },
    }
}

pub fn mip_extent(extent: Extent3d, dimension: TextureDimension, level: u32) -> (result: Extent3d)
    ensures
        result == spec_mip_extent(extent, dimension, level),
{
    Extent3d {
        width: shrink(extent.width, level),
        height: match dimension {
            TextureDimension::D1 => extent.height,
            _ => shrink(extent.height, level),
        },
        depth: match dimension {
            TextureDimension::D3 => shrink(extent.depth, level),
            _ => extent.depth,
        },
    }
}

/// The dimension of a view.
#[derive(Clone, Copy, Debug, PartialEq, Eq, Structural)]
pub enum TextureViewDimension {
    D1,
    D2,
    D2Array,
    Cube,
    CubeArray,
    D3,
}

/// The shape of a view.
#[derive(Clone, Copy, Debug, PartialEq, Eq, Structural)]
pub struct TextureViewDescriptor {
    pub dimension: TextureViewDimension,
    pub aspects: TextureAspects,
    pub format: Option<TextureFormat>,
    pub base_mip: u32,
    pub mip_count: u32,
    pub base_layer: u32,
    pub layer_count: u32,
}

impl TextureViewDescriptor {
    pub fn new(
        dimension: TextureViewDimension,
        aspects: TextureAspects,
        base_mip: u32,
        mip_count: u32,
        base_layer: u32,
        layer_count: u32,
    ) -> (result: Self)
        ensures
            result == (TextureViewDescriptor {
                dimension,
                aspects,
                format: None,
                base_mip,
                mip_count,
                base_layer,
                layer_count,
            }),
    {
        TextureViewDescriptor {
            dimension,
            aspects,
            format: None,
            base_mip,
            mip_count,
            base_layer,
            layer_count,
        }
    }

    /// The same view, read as another format.
    pub fn with_format(self, format: TextureFormat) -> (result: Self)
        ensures
            result == (TextureViewDescriptor { format: Some(format), ..self }),
    {
        TextureViewDescriptor { format: Some(format), ..self }
    }
}

/// One plane of a texture.
#[derive(Clone, Copy, Debug, PartialEq, Eq, Structural)]
pub enum TextureAspect {
    Color,
    Depth,
    Stencil,
    Plane0,
    Plane1,
    Plane2,
}

/// Some layers of one mip level.
#[derive(Clone, Copy, Debug, PartialEq, Eq, Structural)]
pub struct TextureSubresourceLayers {
    pub aspect: TextureAspect,
    pub mip_level: u32,
    pub base_layer: u32,
    pub layer_count: u32,
}

/// How coordinates outside a texture are read.
#[derive(Clone, Copy, Debug, PartialEq, Eq, Structural)]
pub enum AddressMode {
    ClampToEdge,
    Repeat,
    MirrorRepeat,
    ClampToBorder,
}

/// How texels are blended.
#[derive(Clone, Copy, Debug, PartialEq, Eq, Structural)]
pub enum FilterMode {
    Nearest,
    Linear,
}

/// How two values are compared.
#[derive(Clone, Copy, Debug, PartialEq, Eq, Structural)]
pub enum CompareFunction {
    Never,
    Less,
    Equal,
    LessEqual,
    Greater,
    NotEqual,
    GreaterEqual,
    Always,
}

/// The shape of a sampler. The level bounds are bit patterns.
#[derive(Clone, Copy, Debug, PartialEq, Eq, Structural)]
pub struct SamplerDescriptor {
    pub address_u: AddressMode,
    pub address_v: AddressMode,
    pub address_w: AddressMode,
    pub mag_filter: FilterMode,
    pub min_filter: FilterMode,
    pub mip_filter: FilterMode,
    pub lod_min_bits: u32,
    pub lod_max_bits: u32,
    pub compare: Option<CompareFunction>,
    pub max_anisotropy: u16,
}

/// What a query counts.
#[derive(Clone, Copy, Debug, PartialEq, Eq, Structural)]
pub enum QueryType {
    Occlusion,
    Timestamp,
    PipelineStatistics,
}

/// The shape of a query set.
#[derive(Clone, Copy, Debug, PartialEq, Eq, Structural)]
pub struct QuerySetDescriptor {
    pub ty: QueryType,
    pub count: u32,
}

/// A portable buffer. It has a name only if GL backs it.
#[derive(Clone, Copy, Debug, PartialEq, Eq, Structural)]
pub struct Buffer {
    pub descriptor: BufferDescriptor,
    pub native: Option<GlObjectName>,
}

/// A portable texture. It has a name only if GL backs it.
#[derive(Clone, Copy, Debug, PartialEq, Eq, Structural)]
pub struct Texture {
    pub descriptor: TextureDescriptor,
    pub native: Option<GlObjectName>,
}

/// A portable texture view. It has a name only if GL backs it.
#[derive(Clone, Copy, Debug, PartialEq, Eq, Structural)]
pub struct TextureView {
    pub native: Option<GlObjectName>,
}

/// A portable sampler. It has a name only if GL backs it.
#[derive(Clone, Copy, Debug, PartialEq, Eq, Structural)]
pub struct Sampler {
    pub native: Option<GlObjectName>,
}

/// A portable bind group. It has a name only if GL backs it.
#[derive(Clone, Copy, Debug, PartialEq, Eq, Structural)]
pub struct BindGroup {
    pub id: ObjectId,
    pub native: Option<GlObjectName>,
}

/// A portable compute pipeline. It has a name only if GL backs it.
#[derive(Clone, Copy, Debug, PartialEq, Eq, Structural)]
pub struct ComputePipeline {
    pub native: Option<GlObjectName>,
}

/// A portable raster pipeline. It has a name only if GL backs it.
#[derive(Clone, Copy, Debug, PartialEq, Eq, Structural)]
pub struct RasterPipeline {
    pub native: Option<GlObjectName>,
}

/// A portable query set. It has a name only if GL backs it.
#[derive(Clone, Copy, Debug, PartialEq, Eq, Structural)]
pub struct QuerySet {
    pub native: Option<GlObjectName>,
}

/// How the bytes of an upload are laid out.
#[derive(Clone, Copy, Debug, PartialEq, Eq, Structural)]
pub struct TexelLayout {
    pub bytes_per_row: u32,
    pub rows_per_image: u32,
}

/// Bytes for a stretch of a buffer.
#[derive(Debug)]
pub struct BufferUploadDescriptor {
    pub dst: Buffer,
    pub dst_offset: u64,
    pub bytes: Arc<Vec<u8>>,
}

/// Bytes for a part of a texture.
#[derive(Debug)]
pub struct TextureUploadDescriptor {
    pub dst: Texture,
    pub subresource: TextureSubresourceLayers,
    pub origin: Origin3d,
    pub extent: Extent3d,
    pub source_layout: TexelLayout,
    pub bytes: Arc<Vec<u8>>,
}

/// What is read back.
#[derive(Clone, Copy, Debug, PartialEq, Eq, Structural)]
pub enum ReadbackRequest {
    Buffer { src: Buffer, range: BufferRange },
    Texture { src: Texture, subresource: TextureSubresourceLayers, origin: Origin3d, extent: Extent3d },
}

/// Somebody waits for a readback. The number tells whom to notify.
#[derive(Clone, Copy, Debug, PartialEq, Eq, Structural)]
pub struct ReadbackTicket {
    pub id: u64,
    pub request: ReadbackRequest,
}

/// How a texture that was read back is laid out.
#[derive(Clone, Copy, Debug, PartialEq, Eq, Structural)]
pub struct ReadbackTexelLayout {
    pub bytes_per_row: u32,
    pub rows_per_image: u32,
    pub total_size: u64,
}

/// How a readback ended without its bytes.
#[derive(Clone, Copy, Debug, PartialEq, Eq, Structural)]
pub enum ReadbackStatus {
    DeviceLost,
    Failed,
}

/// What a mapping of a buffer is for.
#[derive(Clone, Copy, Debug, PartialEq, Eq, Structural)]
pub enum MapMode {
    Read,
    Write,
}

/// A stretch of a buffer that is bound.
#[derive(Clone, Copy, Debug, PartialEq, Eq, Structural)]
pub struct BufferBinding {
    pub buffer: Buffer,
    pub range: BufferRange,
}

/// What a bind group binds at one slot.
#[derive(Debug)]
pub enum BindingResource {
    Buffer(BufferBinding),
    Texture(TextureView),
    Sampler(Sampler),
    BufferArray(Vec<BufferBinding>),
    TextureArray(Vec<TextureView>),
    SamplerArray(Vec<Sampler>),
    AccelerationStructure,
    AccelerationStructureArray,
    ExternalTexture,
}

/// One slot of a bind group.
#[derive(Debug)]
pub struct BindGroupEntry {
    pub slot: u32,
    pub resource: BindingResource,
}

/// A bind group.
#[derive(Debug)]
pub struct BindGroupDescriptor {
    pub entries: Vec<BindGroupEntry>,
}

} // verus!
