//! What translation keeps: the meaning of every word, from the portable
//! vocabulary to the tokens of GL.

use vstd::prelude::*;
use crate::api::command::{DrawInputs, IndexFormat, IndexSpan};
use crate::api::gl::{GlCompareFunction, GlDrawCommand, GlShaderDialect, GlVertexAttribute};
use crate::api::pipeline::{
    BlendFactor, BlendOperation, ColorTargetState, CullMode, DepthStencilState, FrontFace,
    PrimitiveTopology, StencilFaceState, StencilOperation, VertexAttribute, VertexBufferLayout,
    VertexFormat, VertexStepMode,
};
use crate::api::resource;
use crate::api::resource::{
    AddressMode, BufferDescriptor, CompareFunction, SamplerDescriptor, TextureDescriptor,
    TextureUploadDescriptor, TextureViewDescriptor,
};
use crate::api::shader::{ShaderArtifact, ShaderCode};
use crate::format_laws;
use crate::native::exec_raster;
use crate::native::exec_vertex;
use crate::native::meaning;
use crate::native::meaning::{Channel, Scalar};
use crate::translate;
use crate::translate_raster;

verus! {

/// Whether a value passes a test against a stored one.
pub open spec fn holds(compare: CompareFunction, value: int, stored: int) -> bool {
    match compare {
        CompareFunction::Never => false,
        CompareFunction::Less => value < stored,
        CompareFunction::Equal => value == stored,
        CompareFunction::LessEqual => value <= stored,
        CompareFunction::Greater => value > stored,
        CompareFunction::NotEqual => value != stored,
        CompareFunction::GreaterEqual => value >= stored,
        CompareFunction::Always => true,
    }
}

/// Whether a value passes the test of a sampler object.
pub open spec fn sampled_as(compare: GlCompareFunction, value: int, stored: int) -> bool {
    match compare {
        GlCompareFunction::Never => false,
        GlCompareFunction::Less => value < stored,
        GlCompareFunction::Equal => value == stored,
        GlCompareFunction::LessEqual => value <= stored,
        GlCompareFunction::Greater => value > stored,
        GlCompareFunction::NotEqual => value != stored,
        GlCompareFunction::GreaterEqual => value >= stored,
        GlCompareFunction::Always => true,
    }
}

/// A comparison compares the same two numbers in the same way after it became a
/// token, and after it became one of a sampler object.
pub proof fn comparisons_are_kept(compare: CompareFunction, value: int, stored: int)
    ensures
        meaning::passes(
            exec_raster::comparison_of(translate_raster::gl_compare(compare)),
            value,
            stored,
        ) == holds(compare, value, stored),
        sampled_as(translate::translated_compare(compare), value, stored) == holds(
            compare,
            value,
            stored,
        ),
        meaning::holds(translate_raster::gl_compare(compare), value, stored) == holds(
            compare,
            value,
            stored,
        ),
{
}

/// What becomes of a stencil value of eight bits.
pub open spec fn changed(operation: StencilOperation, stored: int, reference: int) -> int {
    match operation {
        StencilOperation::Keep => stored,
        StencilOperation::Zero => 0,
        StencilOperation::Replace => reference,
        StencilOperation::IncrementClamp => if stored < 255 {
            stored + 1
        } else {
            255
        },
        StencilOperation::DecrementClamp => if stored > 0 {
            stored - 1
        } else {
            0
        },
        StencilOperation::Invert => 255 - stored,
        StencilOperation::IncrementWrap => (stored + 1) % 256,
        StencilOperation::DecrementWrap => (stored - 1) % 256,
    }
}

/// A stencil operation changes a value in the same way after it became a token.
pub proof fn stencil_operations_are_kept(
    operation: StencilOperation,
    stored: int,
    reference: int,
)
    ensures
        0 <= stored <= 255 ==> meaning::stencil_after(
            exec_raster::stencil_token(translate_raster::gl_stencil_op(operation)),
            stored,
            reference,
        ) == changed(operation, stored, reference),
        0 <= stored <= 255 ==> meaning::changed(
            translate_raster::gl_stencil_op(operation),
            stored,
            reference,
        ) == changed(operation, stored, reference),
{
}

/// How much a color counts in a blend, where one source is enough to tell.
pub open spec fn counted(factor: BlendFactor, c: Channel) -> Option<int> {
    match factor {
        BlendFactor::Zero => Some(0),
        BlendFactor::One => Some(c.one),
        BlendFactor::Src => Some(c.src),
        BlendFactor::OneMinusSrc => Some(c.one - c.src),
        BlendFactor::SrcAlpha => Some(c.src_alpha),
        BlendFactor::OneMinusSrcAlpha => Some(c.one - c.src_alpha),
        BlendFactor::Dst => Some(c.dst),
        BlendFactor::OneMinusDst => Some(c.one - c.dst),
        BlendFactor::DstAlpha => Some(c.dst_alpha),
        BlendFactor::OneMinusDstAlpha => Some(c.one - c.dst_alpha),
        BlendFactor::Constant => Some(c.constant),
        BlendFactor::OneMinusConstant => Some(c.one - c.constant),
        BlendFactor::SrcAlphaSaturated => Some(
            if c.src_alpha < c.one - c.dst_alpha {
                c.src_alpha
            } else {
                c.one - c.dst_alpha
            },
        ),
        _ => None,
    }
}

/// What two weighed colors become.
pub open spec fn combined(operation: BlendOperation, src: int, dst: int) -> int {
    match operation {
        BlendOperation::Add => src + dst,
        BlendOperation::Subtract => src - dst,
        BlendOperation::ReverseSubtract => dst - src,
        BlendOperation::Min => if src < dst {
            src
        } else {
            dst
        },
        BlendOperation::Max => if src < dst {
            dst
        } else {
            src
        },
    }
}

/// Colors count as much, and mix in the same way, after the words of a blend
/// became tokens. A factor of a second source is refused.
pub proof fn blends_are_kept(
    factor: BlendFactor,
    operation: BlendOperation,
    c: Channel,
    src: int,
    dst: int,
)
    ensures
        translate_raster::gl_blend_factor(factor) is Ok <==> counted(factor, c) is Some,
        counted(factor, c) is Some ==> meaning::weight(
            exec_raster::factor_token(translate_raster::gl_blend_factor(factor)->Ok_0),
            c,
        ) == counted(factor, c)->0,
        meaning::mixed(
            exec_raster::blend_token(translate_raster::gl_blend_operation(operation)),
            src,
            dst,
        ) == combined(operation, src, dst),
{
}

/// How many primitives some vertices make.
pub open spec fn primitives(topology: PrimitiveTopology, vertices: nat) -> nat {
    match topology {
        PrimitiveTopology::PointList => vertices,
        PrimitiveTopology::LineList => vertices / 2,
        PrimitiveTopology::LineStrip => if vertices < 2 {
            0
        } else {
            (vertices - 1) as nat
        },
        PrimitiveTopology::TriangleList => vertices / 3,
        PrimitiveTopology::TriangleStrip => if vertices < 3 {
            0
        } else {
            (vertices - 2) as nat
        },
    }
}

/// Vertices make as many primitives after the topology became a token; indices
/// are as wide; buffers advance with what they advanced with; the faces that
/// are dropped and the faces that are at the front stay those.
pub proof fn shapes_are_kept(
    topology: PrimitiveTopology,
    vertices: nat,
    index: IndexFormat,
    step: VertexStepMode,
    cull: CullMode,
    front: FrontFace,
)
    ensures
        meaning::made_in(
            exec_raster::mode_of(translate_raster::gl_topology(topology)),
            vertices,
        ) == primitives(topology, vertices),
        meaning::index_bits(exec_vertex::kind_of_index(translate::gl_index_format(index))) == (
        if index is Uint16 {
            16int
        } else {
            32int
        }),
        step is Instance <==> translate_raster::gl_step_mode(step) is Instance,
        cull is Front <==> translate_raster::gl_cull_mode(cull) is Front,
        cull is Back <==> translate_raster::gl_cull_mode(cull) is Back,
        front is Cw <==> translate_raster::gl_front_face(front) is Clockwise,
{
}

/// What the numbers of a portable attribute are, how many there are, and
/// whether they stand for parts of one.
pub open spec fn attribute_parts(format: VertexFormat) -> Option<(Scalar, int, bool)> {
    match format {
        VertexFormat::Uint8x2 => Some((Scalar::Byte, 2, false)),
        VertexFormat::Uint8x4 => Some((Scalar::Byte, 4, false)),
        VertexFormat::Sint8x2 => Some((Scalar::SignedByte, 2, false)),
        VertexFormat::Sint8x4 => Some((Scalar::SignedByte, 4, false)),
        VertexFormat::Unorm8x2 => Some((Scalar::Byte, 2, true)),
        VertexFormat::Unorm8x4 => Some((Scalar::Byte, 4, true)),
        VertexFormat::Snorm8x2 => Some((Scalar::SignedByte, 2, true)),
        VertexFormat::Snorm8x4 => Some((Scalar::SignedByte, 4, true)),
        VertexFormat::Uint16x2 => Some((Scalar::Short, 2, false)),
        VertexFormat::Uint16x4 => Some((Scalar::Short, 4, false)),
        VertexFormat::Sint16x2 => Some((Scalar::SignedShort, 2, false)),
        VertexFormat::Sint16x4 => Some((Scalar::SignedShort, 4, false)),
        VertexFormat::Unorm16x2 => Some((Scalar::Short, 2, true)),
        VertexFormat::Unorm16x4 => Some((Scalar::Short, 4, true)),
        VertexFormat::Snorm16x2 => Some((Scalar::SignedShort, 2, true)),
        VertexFormat::Snorm16x4 => Some((Scalar::SignedShort, 4, true)),
        VertexFormat::Float16x2 => Some((Scalar::Half, 2, false)),
        VertexFormat::Float16x4 => Some((Scalar::Half, 4, false)),
        VertexFormat::Float32 => Some((Scalar::Float, 1, false)),
        VertexFormat::Float32x2 => Some((Scalar::Float, 2, false)),
        VertexFormat::Float32x3 => Some((Scalar::Float, 3, false)),
        VertexFormat::Float32x4 => Some((Scalar::Float, 4, false)),
        VertexFormat::Uint32 => Some((Scalar::Word, 1, false)),
        VertexFormat::Uint32x2 => Some((Scalar::Word, 2, false)),
        VertexFormat::Uint32x3 => Some((Scalar::Word, 3, false)),
        VertexFormat::Uint32x4 => Some((Scalar::Word, 4, false)),
        VertexFormat::Sint32 => Some((Scalar::SignedWord, 1, false)),
        VertexFormat::Sint32x2 => Some((Scalar::SignedWord, 2, false)),
        VertexFormat::Sint32x3 => Some((Scalar::SignedWord, 3, false)),
        VertexFormat::Sint32x4 => Some((Scalar::SignedWord, 4, false)),
        _ => None,
    }
}

/// An attribute keeps its numbers. Single bytes and shorts, single halves,
/// swapped channels and packed words are refused.
pub proof fn attributes_are_kept(format: VertexFormat)
    ensures
        translate::gl_vertex_format(format) is Some <==> attribute_parts(format) is Some,
        attribute_parts(format) is Some ==> {
            let gl = translate::gl_vertex_format(format)->0;
            let parts = attribute_parts(format)->0;
            &&& meaning::scalar_of(gl) == parts.0
            &&& meaning::components_of(gl) == parts.1
            &&& meaning::stands_for_parts(gl) == parts.2
            &&& exec_vertex::byte_size(gl) == parts.0.bytes() * parts.1
        },
{
}

/// A buffer is as large as was asked for and may be used as was asked for.
/// Results of queries may be copied to one that is to hold them.
pub proof fn buffers_are_kept(desc: BufferDescriptor)
    requires
        translate::translated_buffer(desc) is Ok,
    ensures
        ({
            let gl = translate::translated_buffer(desc)->Ok_0;
            &&& gl.size == desc.size
            &&& gl.usage.vertex == desc.usage.vertex
            &&& gl.usage.index == desc.usage.index
            &&& gl.usage.uniform == desc.usage.uniform
            &&& gl.usage.storage == desc.usage.storage
            &&& gl.usage.indirect == desc.usage.indirect
            &&& gl.usage.map_read == desc.usage.map_read
            &&& gl.usage.map_write == desc.usage.map_write
            &&& gl.usage.copy_source == desc.usage.copy_src
            &&& desc.usage.copy_dst ==> gl.usage.copy_destination
            &&& desc.usage.query_resolve ==> gl.usage.copy_destination
            &&& gl.usage.copy_destination ==> desc.usage.copy_dst || desc.usage.query_resolve
        }),
{
}

/// A texture has the sides, the levels, the samples and the texels that were
/// asked for, and may be used as was asked for. Its third number counts depth
/// where it has depth, and layers where it has none.
pub proof fn textures_are_kept(desc: TextureDescriptor)
    requires
        translate::translated_texture(desc) is Ok,
    ensures
        ({
            let gl = translate::translated_texture(desc)->Ok_0;
            &&& gl.extent.width == desc.extent.width
            &&& gl.extent.height == desc.extent.height
            &&& desc.dimension is D3 ==> gl.extent.depth_or_layers == desc.extent.depth
            &&& !(desc.dimension is D3) ==> gl.extent.depth_or_layers == desc.array_layers
            &&& desc.dimension is D1 <==> gl.dimension is D1
            &&& desc.dimension is D3 <==> gl.dimension is D3
            &&& gl.dimension is D2Array <==> desc.dimension is D2 && desc.array_layers != 1
            &&& !(gl.dimension is Cube)
            &&& gl.mip_level_count == desc.mip_levels
            &&& gl.sample_count == desc.sample_count
            &&& format_laws::gl_texel(gl.format) == format_laws::portable_texel(desc.format)
            &&& gl.usage.sampled == desc.usage.sampled
            &&& gl.usage.storage_binding == desc.usage.storage
            &&& gl.usage.copy_source == desc.usage.copy_src
            &&& gl.usage.copy_destination == desc.usage.copy_dst
            &&& desc.usage.color_attachment ==> gl.usage.render_attachment
            &&& desc.usage.depth_stencil_attachment ==> gl.usage.render_attachment
            &&& gl.usage.render_attachment ==> desc.usage.color_attachment
                || desc.usage.depth_stencil_attachment
        }),
{
}

/// A view that is granted without a view object shows every level and every
/// layer of its texture, all planes, as texels of the same format.
pub proof fn virtual_views_show_everything(
    view: TextureViewDescriptor,
    desc: TextureDescriptor,
)
    requires
        translate::translated_texture(desc) is Ok,
        translate::whole_view(
            view,
            desc.format,
            translate::translated_texture(desc)->Ok_0,
        ) is Ok,
    ensures
        ({
            let gl = translate::translated_texture(desc)->Ok_0;
            &&& translate::whole_view(view, desc.format, gl)->Ok_0 == gl.dimension
            &&& view.base_mip == 0
            &&& view.mip_count == desc.mip_levels
            &&& view.base_layer == 0
            &&& desc.dimension is D3 ==> view.layer_count == desc.extent.depth
            &&& !(desc.dimension is D3) ==> view.layer_count == desc.array_layers
            &&& view.format is Some ==> view.format->0 == desc.format
            &&& view.aspects == crate::api::format::aspects_of(desc.format)
        }),
{
}

/// How a coordinate outside the texture is brought back, in texels of a side.
pub open spec fn addressed(mode: AddressMode, at: int, side: int) -> Option<int> {
    match mode {
        AddressMode::ClampToEdge => Some(
            if at < 0 {
                0
            } else if at >= side {
                side - 1
            } else {
                at
            },
        ),
        AddressMode::Repeat => Some(at % side),
        AddressMode::MirrorRepeat => Some(
            if at % (2 * side) < side {
                at % (2 * side)
            } else {
                2 * side - 1 - at % (2 * side)
            },
        ),
        AddressMode::ClampToBorder => None,
    }
}

/// The same for the modes of a sampler object.
pub open spec fn sampled_at(mode: crate::api::gl::GlAddressMode, at: int, side: int) -> int {
    match mode {
        crate::api::gl::GlAddressMode::ClampToEdge => if at < 0 {
            0
        } else if at >= side {
            side - 1
        } else {
            at
        },
        crate::api::gl::GlAddressMode::Repeat => at % side,
        crate::api::gl::GlAddressMode::MirroredRepeat => if at % (2 * side) < side {
            at % (2 * side)
        } else {
            2 * side - 1 - at % (2 * side)
        },
    }
}

/// A sampler brings every axis back as that axis asks, filters as asked when
/// magnifying, minifying and between levels, keeps its bounds of detail and its
/// comparison, and is anisotropic only where more than one is asked for.
pub proof fn samplers_are_kept(desc: SamplerDescriptor, at: int, side: int, stored: int)
    ensures
        translate::translated_sampler(desc) is Ok <==> addressed(desc.address_u, at, side) is Some
            && addressed(desc.address_v, at, side) is Some && addressed(
            desc.address_w,
            at,
            side,
        ) is Some,
        translate::translated_sampler(desc) is Ok ==> {
            let gl = translate::translated_sampler(desc)->Ok_0;
            &&& sampled_at(gl.address_mode_u, at, side) == addressed(desc.address_u, at, side)->0
            &&& sampled_at(gl.address_mode_v, at, side) == addressed(desc.address_v, at, side)->0
            &&& sampled_at(gl.address_mode_w, at, side) == addressed(desc.address_w, at, side)->0
            &&& gl.mag_filter is Linear <==> desc.mag_filter is Linear
            &&& gl.min_filter is Linear <==> desc.min_filter is Linear
            &&& gl.mipmap_filter is Linear <==> desc.mip_filter is Linear
            &&& gl.lod_min_bits == desc.lod_min_bits
            &&& gl.lod_max_bits == desc.lod_max_bits
            &&& gl.compare is Some <==> desc.compare is Some
            &&& desc.compare is Some ==> sampled_as(gl.compare->0, at, stored) == holds(
                desc.compare->0,
                at,
                stored,
            )
            &&& gl.max_anisotropy_bits is Some <==> desc.max_anisotropy > 1
        },
{
}

/// A shader that is accepted is text of the artifact, for its stage, in the
/// dialect and the version that the artifact says.
pub proof fn shaders_are_kept(artifact: ShaderArtifact)
    requires
        translate::translated_shader(artifact) is Ok,
    ensures
        ({
            let gl = translate::translated_shader(artifact)->Ok_0;
            &&& gl.entry_point == artifact.entry_point
            &&& gl.source_hash == artifact.content_hash
            &&& gl.stage is Vertex <==> artifact.stage is Vertex
            &&& gl.stage is Fragment <==> artifact.stage is Fragment
            &&& gl.stage is Compute <==> artifact.stage is Compute
            &&& match artifact.code {
                ShaderCode::Glsl { version, source } => gl.text == source && gl.dialect == (
                GlShaderDialect::Desktop { version }),
                ShaderCode::GlslEs { version, source } => gl.text == source && gl.dialect == (
                GlShaderDialect::Embedded { version }),
                ShaderCode::Other => false,
            }
        }),
{
}

/// Whether so many blocks are just enough to cover a side.
pub open spec fn just_covers(blocks: int, block: int, side: int) -> bool {
    blocks * block >= side && side > (blocks - 1) * block
}

/// A compressed upload is accepted only for a whole level, and then has just
/// the bytes of the blocks that cover it: row after row, without a gap.
pub proof fn compressed_uploads_are_whole_levels(
    upload: TextureUploadDescriptor,
    operation: &'static str,
)
    requires
        translate::is_compressed(upload.dst.descriptor.format),
        translate::checked_compressed_upload(upload, operation) is Ok,
    ensures
        ({
            let format = upload.dst.descriptor.format;
            let extent = crate::api::format::spec_block_extent(format);
            let bytes = crate::api::format::block_bytes(format)->0;
            exists|across: int, down: int|
                #![trigger just_covers(across, extent.0 as int, upload.extent.width as int), just_covers(down, extent.1 as int, upload.extent.height as int)]
                {
                    &&& just_covers(across, extent.0 as int, upload.extent.width as int)
                    &&& just_covers(down, extent.1 as int, upload.extent.height as int)
                    &&& upload.source_layout.bytes_per_row == across * bytes
                    &&& upload.source_layout.rows_per_image == down
                    &&& (*upload.bytes)@.len() == across * bytes * down
                }
        }),
        upload.origin.x == 0 && upload.origin.y == 0 && upload.origin.z == 0,
        upload.extent == resource::spec_mip_extent(
            upload.dst.descriptor.extent,
            upload.dst.descriptor.dimension,
            upload.subresource.mip_level,
        ),
        upload.dst.descriptor.dimension is D2,
        upload.subresource.aspect is Color,
        upload.subresource.base_layer == 0 && upload.subresource.layer_count == 1,
{
    let extent = crate::api::format::spec_block_extent(upload.dst.descriptor.format);
    let across = translate::blocks_across(upload.extent.width, extent.0);
    let down = translate::blocks_across(upload.extent.height, extent.1);
    lemma_covers(upload.extent.width as int, extent.0 as int);
    lemma_covers(upload.extent.height as int, extent.1 as int);
    assert(just_covers(across, extent.0 as int, upload.extent.width as int));
    assert(just_covers(down, extent.1 as int, upload.extent.height as int));
}

proof fn lemma_covers(side: int, block: int)
    requires
        block >= 1,
        side >= 0,
    ensures
        just_covers((side + block - 1) / block, block, side),
{
    let blocks = (side + block - 1) / block;
    assert(blocks * block >= side && side > (blocks - 1) * block) by (nonlinear_arith)
        requires
            block >= 1,
            side >= 0,
            blocks == (side + block - 1) / block,
    ;
}

/// Every level has half the sides of the one before, and never less than one
/// texel. The depth of what has no depth, and the height of what has no height,
/// stay.
pub proof fn levels_halve(
    extent: resource::Extent3d,
    dimension: resource::TextureDimension,
    level: u32,
)
    requires
        extent.width >= 1 && extent.height >= 1 && extent.depth >= 1,
        level < u32::MAX,
    ensures
        resource::spec_mip_extent(extent, dimension, 0) == extent,
        ({
            let one = resource::spec_mip_extent(extent, dimension, level);
            let next = resource::spec_mip_extent(extent, dimension, (level + 1) as u32);
            &&& next.width == halved(one.width)
            &&& next.height == (if dimension is D1 {
                one.height as int
            } else {
                halved(one.height)
            })
            &&& next.depth == (if dimension is D3 {
                halved(one.depth)
            } else {
                one.depth as int
            })
        }),
{
    lemma_halves(extent.width, level);
    lemma_halves(extent.height, level);
    lemma_halves(extent.depth, level);
}

/// Half of a side, but not less than one.
pub open spec fn halved(side: u32) -> int {
    if side <= 1 {
        1
    } else {
        side as int / 2
    }
}

proof fn lemma_halves(side: u32, level: u32)
    requires
        side >= 1,
        level < u32::MAX,
    ensures
        resource::mip_side(side, 0) == side,
        resource::mip_side(side, (level + 1) as u32) == halved(resource::mip_side(side, level)),
{
    assert(side >> 0u32 == side) by (bit_vector);
    let next: u32 = (level + 1) as u32;
    if level < 31 {
        assert(side >> next == (side >> level) / 2) by (bit_vector)
            requires
                level < 31,
                next == level + 1,
        ;
    } else if level == 31 {
        assert(side >> 31u32 <= 1) by (bit_vector);
    }
}

/// A draw draws the vertices and the instances of its spans, all of them and
/// from the first on, and adds its base to every index.
pub proof fn draws_cover_their_spans(
    inputs: DrawInputs,
    range: IndexSpan,
    instances: IndexSpan,
    base_vertex: i32,
)
    ensures
        translate_raster::scalars_of(inputs, range, instances, base_vertex) is Ok ==> {
            let scalars = translate_raster::scalars_of(inputs, range, instances, base_vertex)->Ok_0;
            &&& match scalars.draw.draw {
                GlDrawCommand::Indexed(draw) => {
                    &&& inputs.index is Some
                    &&& draw.first_index == range.start
                    &&& draw.first_index + draw.index_count == range.end
                    &&& scalars.draw.first_instance + draw.instance_count == instances.end
                },
                GlDrawCommand::NonIndexed(draw) => {
                    &&& inputs.index is None
                    &&& draw.first_vertex == range.start
                    &&& draw.first_vertex + draw.vertex_count == range.end
                    &&& scalars.draw.first_instance + draw.instance_count == instances.end
                },
            }
            &&& scalars.draw.first_instance == instances.start
            &&& scalars.draw.base_vertex == base_vertex
            &&& scalars.stencil_reference == inputs.stencil_reference
            &&& scalars.blend_constant == inputs.blend_constant
            &&& scalars.bind_groups == inputs.groups
            &&& scalars.scissor is Some <==> inputs.scissor is Some
            &&& inputs.scissor is Some ==> {
                &&& scalars.scissor->0.x == inputs.scissor->0.x
                &&& scalars.scissor->0.y == inputs.scissor->0.y
                &&& scalars.scissor->0.width == inputs.scissor->0.width
                &&& scalars.scissor->0.height == inputs.scissor->0.height
            }
            &&& scalars.viewport is Some <==> inputs.viewport is Some
            &&& inputs.viewport is Some ==> {
                &&& scalars.viewport->0.min_depth == inputs.viewport->0.min_depth
                &&& scalars.viewport->0.max_depth == inputs.viewport->0.max_depth
            }
        },
        range.start > range.end || instances.start > instances.end
            ==> translate_raster::scalars_of(inputs, range, instances, base_vertex) is Err,
{
}

/// Whether a face of the stencil test is the same.
pub open spec fn same_face(
    gl: crate::api::gl::GlStencilFaceState,
    face: StencilFaceState,
    read_mask: u32,
    write_mask: u32,
) -> bool {
    &&& gl.read_mask == read_mask
    &&& gl.write_mask == write_mask
    &&& forall|value: int, stored: int|
        #[trigger] meaning::holds(gl.compare, value, stored) == holds(face.compare, value, stored)
    &&& forall|stored: int, reference: int|
        0 <= stored <= 255 ==> #[trigger] meaning::changed(gl.fail_op, stored, reference)
            == changed(face.fail_op, stored, reference)
    &&& forall|stored: int, reference: int|
        0 <= stored <= 255 ==> #[trigger] meaning::changed(gl.depth_fail_op, stored, reference)
            == changed(face.depth_fail_op, stored, reference)
    &&& forall|stored: int, reference: int|
        0 <= stored <= 255 ==> #[trigger] meaning::changed(gl.pass_op, stored, reference)
            == changed(face.pass_op, stored, reference)
}

/// The depth test compares and writes as asked; the stencil test of each face
/// does what that face asks for. A test that is left out lets everything pass
/// and changes nothing.
pub proof fn tests_are_kept(value: DepthStencilState)
    requires
        translate_raster::gl_depth_stencil(value) is Ok,
    ensures
        ({
            let gl = translate_raster::gl_depth_stencil(value)->Ok_0;
            &&& value.depth is Some ==> {
                &&& gl.depth_write_enabled == value.depth->0.write_enabled
                &&& forall|v: int, s: int|
                    #[trigger] meaning::holds(gl.depth_compare, v, s) == holds(
                        value.depth->0.compare,
                        v,
                        s,
                    )
            }
            &&& value.depth is None ==> !gl.depth_write_enabled && forall|v: int, s: int|
                #[trigger] meaning::holds(gl.depth_compare, v, s)
            &&& value.stencil is Some ==> {
                let stencil = value.stencil->0;
                &&& same_face(
                    gl.stencil_front,
                    stencil.front,
                    stencil.read_mask,
                    stencil.write_mask,
                )
                &&& same_face(gl.stencil_back, stencil.back, stencil.read_mask, stencil.write_mask)
            }
            &&& value.stencil is None ==> {
                &&& forall|v: int, s: int| #[trigger] meaning::holds(gl.stencil_front.compare, v, s)
                &&& forall|v: int, s: int| #[trigger] meaning::holds(gl.stencil_back.compare, v, s)
                &&& forall|s: int, r: int|
                    #[trigger] meaning::changed(gl.stencil_front.pass_op, s, r) == s
                &&& forall|s: int, r: int|
                    #[trigger] meaning::changed(gl.stencil_back.pass_op, s, r) == s
                &&& forall|s: int, r: int|
                    #[trigger] meaning::changed(gl.stencil_front.depth_fail_op, s, r) == s
                &&& forall|s: int, r: int|
                    #[trigger] meaning::changed(gl.stencil_back.depth_fail_op, s, r) == s
            }
            &&& gl.stencil_reference == 0
            &&& gl.depth_bias.factor == 0 && gl.depth_bias.units == 0 && gl.depth_bias.clamp == 0
        }),
{
}

/// Whether a blend equation is the same.
pub open spec fn same_equation(
    gl: crate::api::gl::GlBlendComponent,
    component: crate::api::pipeline::BlendComponent,
) -> bool {
    &&& forall|c: Channel|
        #[trigger] meaning::counted(gl.src_factor, c) == counted(component.src_factor, c)->0
    &&& forall|c: Channel|
        #[trigger] meaning::counted(gl.dst_factor, c) == counted(component.dst_factor, c)->0
    &&& forall|src: int, dst: int|
        #[trigger] meaning::combined(gl.operation, src, dst) == combined(
            component.operation,
            src,
            dst,
        )
}

/// Each color target writes the channels that it asks for and blends as it asks
/// for. One that is left out writes none.
pub proof fn targets_are_kept(targets: Seq<Option<ColorTargetState>>)
    requires
        translate_raster::gl_color_targets(targets) is Ok,
    ensures
        translate_raster::gl_color_targets(targets)->Ok_0.len() == targets.len(),
        forall|i: int|
            0 <= i < targets.len() ==> {
                let gl = #[trigger] translate_raster::gl_color_targets(targets)->Ok_0[i];
                &&& targets[i] is None ==> gl.write_mask == 0 && gl.blend is None
                &&& targets[i] is Some ==> {
                    let target = targets[i]->0;
                    &&& gl.write_mask < 16
                    &&& gl.write_mask as int % 2 == 1 <==> target.write_mask.red
                    &&& gl.write_mask as int / 2 % 2 == 1 <==> target.write_mask.green
                    &&& gl.write_mask as int / 4 % 2 == 1 <==> target.write_mask.blue
                    &&& gl.write_mask as int / 8 % 2 == 1 <==> target.write_mask.alpha
                    &&& gl.blend is Some <==> target.blend is Some
                    &&& target.blend is Some ==> {
                        &&& same_equation(gl.blend->0.color, target.blend->0.color)
                        &&& same_equation(gl.blend->0.alpha, target.blend->0.alpha)
                    }
                }
            },
    decreases targets.len(),
{
    if targets.len() > 0 {
        targets_are_kept(targets.drop_last());
        let before = translate_raster::gl_color_targets(targets.drop_last())->Ok_0;
        let all = translate_raster::gl_color_targets(targets)->Ok_0;
        assert(all == before.push(all.last()));
        assert forall|i: int| 0 <= i < targets.len() - 1 implies #[trigger] all[i] == before[i]
            && targets[i] == targets.drop_last()[i] by {}
    }
}

/// How many attributes the first so many buffers have.
pub open spec fn attributes_before(buffers: Seq<VertexBufferLayout>, count: int) -> int
    decreases count,
{
    if count <= 0 {
        0
    } else {
        attributes_before(buffers, count - 1) + buffers[count - 1].attributes@.len()
    }
}

/// Whether an attribute is the same, of the buffer at a slot.
pub open spec fn same_attribute(
    gl: GlVertexAttribute,
    attribute: VertexAttribute,
    slot: int,
) -> bool {
    &&& gl.buffer_slot == slot
    &&& gl.location == attribute.location
    &&& gl.offset == attribute.offset
    &&& attribute_parts(attribute.format) is Some
    &&& meaning::scalar_of(gl.format) == (attribute_parts(attribute.format)->0).0
    &&& meaning::components_of(gl.format) == (attribute_parts(attribute.format)->0).1
    &&& meaning::stands_for_parts(gl.format) == (attribute_parts(attribute.format)->0).2
}

proof fn lemma_attributes(attributes: Seq<VertexAttribute>, slot: u32)
    requires
        translate_raster::gl_vertex_attributes(attributes, slot) is Ok,
    ensures
        translate_raster::gl_vertex_attributes(attributes, slot)->Ok_0.len() == attributes.len(),
        forall|j: int|
            0 <= j < attributes.len() ==> same_attribute(
                #[trigger] translate_raster::gl_vertex_attributes(attributes, slot)->Ok_0[j],
                attributes[j],
                slot as int,
            ),
    decreases attributes.len(),
{
    if attributes.len() > 0 {
        lemma_attributes(attributes.drop_last(), slot);
        attributes_are_kept(attributes.last().format);
        let all = translate_raster::gl_vertex_attributes(attributes, slot)->Ok_0;
        let before = translate_raster::gl_vertex_attributes(attributes.drop_last(), slot)->Ok_0;
        assert forall|j: int| 0 <= j < attributes.len() implies same_attribute(
            #[trigger] all[j],
            attributes[j],
            slot as int,
        ) by {
            if j < attributes.len() - 1 {
                assert(all[j] == before[j]);
                assert(attributes[j] == attributes.drop_last()[j]);
            }
        }
    }
}

/// The buffers of a pipeline keep their places, their strides and what they
/// advance with; and each attribute of each buffer is there once, in order, with
/// its own location, offset and numbers.
pub proof fn vertex_inputs_are_kept(buffers: Seq<VertexBufferLayout>)
    requires
        translate_raster::gl_vertex_input(buffers) is Ok,
    ensures
        ({
            let (layouts, attributes) = translate_raster::gl_vertex_input(buffers)->Ok_0;
            &&& layouts.len() == buffers.len()
            &&& forall|i: int|
                0 <= i < buffers.len() ==> {
                    &&& (#[trigger] layouts[i]).slot == i
                    &&& layouts[i].stride == buffers[i].stride
                    &&& layouts[i].step_mode is Instance <==> buffers[i].step_mode is Instance
                }
            &&& attributes.len() == attributes_before(buffers, buffers.len() as int)
            &&& forall|i: int, j: int|
                #![trigger buffers[i].attributes@[j]]
                0 <= i < buffers.len() && 0 <= j < buffers[i].attributes@.len() ==> same_attribute(
                    attributes[attributes_before(buffers, i) + j],
                    buffers[i].attributes@[j],
                    i,
                )
        }),
    decreases buffers.len(),
{
    if buffers.len() > 0 {
        let shorter = buffers.drop_last();
        let last = buffers.len() - 1;
        vertex_inputs_are_kept(shorter);
        lemma_attributes(buffers.last().attributes@, last as u32);
        let (layouts, attributes) = translate_raster::gl_vertex_input(buffers)->Ok_0;
        let (fewer, before) = translate_raster::gl_vertex_input(shorter)->Ok_0;
        lemma_counts(buffers, last);
        assert forall|i: int| 0 <= i < buffers.len() implies {
            &&& (#[trigger] layouts[i]).slot == i
            &&& layouts[i].stride == buffers[i].stride
            &&& layouts[i].step_mode is Instance <==> buffers[i].step_mode is Instance
        } by {
            if i < last {
                assert(layouts[i] == fewer[i]);
                assert(buffers[i] == shorter[i]);
            }
        }
        assert forall|i: int, j: int|
            #![trigger buffers[i].attributes@[j]]
            0 <= i < buffers.len() && 0 <= j < buffers[i].attributes@.len() implies same_attribute(
            attributes[attributes_before(buffers, i) + j],
            buffers[i].attributes@[j],
            i,
        ) by {
            if i < last {
                lemma_counts(buffers, i);
                lemma_room(shorter, i, last);
                assert(shorter[i].attributes@[j] == buffers[i].attributes@[j]);
                assert(attributes[attributes_before(buffers, i) + j]
                    == before[attributes_before(shorter, i) + j]);
            }
        }
    }
}

proof fn lemma_counts(buffers: Seq<VertexBufferLayout>, count: int)
    requires
        0 <= count < buffers.len(),
    ensures
        attributes_before(buffers.drop_last(), count) == attributes_before(buffers, count),
        attributes_before(buffers, count) >= 0,
    decreases count,
{
    if count > 0 {
        lemma_counts(buffers, count - 1);
    }
}

proof fn lemma_room(buffers: Seq<VertexBufferLayout>, at: int, count: int)
    requires
        0 <= at < count <= buffers.len(),
    ensures
        0 <= attributes_before(buffers, at),
        attributes_before(buffers, at) + buffers[at].attributes@.len() <= attributes_before(
            buffers,
            count,
        ),
    decreases count,
{
    if at < count - 1 {
        lemma_room(buffers, at, count - 1);
    } else if at > 0 {
        lemma_room(buffers, at - 1, at);
    }
}

} // verus!
