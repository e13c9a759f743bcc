//! Raster packets, built from plain values.
//!
//! Looking up object names and calling GL happens elsewhere.

use vstd::prelude::*;
use std::sync::Arc;
use crate::api::command::{
    BoundGroupUse, DrawInputs, IndexSpan, RasterBegin, RasterDraw, Viewport,
};
use crate::api::error;
use crate::api::error::{RhiDetail, RhiError, RhiErrorKind};
use crate::api::gl::{
    GlAdvancedDrawCommand, GlBlendComponent, GlBlendFactor, GlBlendOperation, GlBlendState,
    GlColorBits, GlColorTargetState, GlCullMode, GlDepthBias, GlDepthCompareFunction,
    GlDepthStencilState, GlDrawCommand, GlFramebufferDescriptor, GlFrontFace, GlIndexedDraw,
    GlMultisampleState, GlNonIndexedDraw, GlPrimitiveTopology, GlProgramDescriptor, GlProgramKind,
    GlRasterState, GlScissorRect, GlShaderSource, GlShaderStage, GlStencilFaceState,
    GlStencilOperation, RasterStateModel,
    GlTextureView, GlVertexAttribute, GlVertexBufferLayout, GlVertexLayout, GlVertexStepMode,
    GlViewport,
};
use crate::api::pipeline::{
    BlendComponent, BlendFactor, BlendOperation, BlendState, ColorTargetState, ColorWriteMask,
    CullMode, DepthState, DepthStencilState, FrontFace, PolygonMode, PrimitiveTopology,
    RasterPipelineDescriptor, StencilFaceState, StencilOperation, StencilState, VertexAttribute,
    VertexBufferLayout, VertexStepMode,
};
use crate::api::resource::CompareFunction;
use crate::api::shader::ShaderArtifact;
use crate::float;
use crate::translate;

verus! {

/// What a raster pass targets: an allocated framebuffer, or the one drawable
/// of the surface, which is no texture.
#[derive(Debug)]
pub enum GlFramebufferCarrier {
    Offscreen(GlFramebufferDescriptor),
    Default { color_locations: Vec<u32> },
}

/// The views among the resolved attachments. `None` stands for the drawable.
pub open spec fn allocated_views(resolved: Seq<Option<GlTextureView>>) -> Seq<GlTextureView>
    decreases resolved.len(),
{
    if resolved.len() == 0 {
        Seq::empty()
    } else {
        match resolved.last() {
            Some(view) => allocated_views(resolved.drop_last()).push(view),
            None => allocated_views(resolved.drop_last()),
        }
    }
}

/// The locations of the color attachments of a pass.
pub open spec fn color_locations(begin: RasterBegin) -> Seq<u32> {
    begin.colors@.map_values(|color: crate::api::command::LocatedColor| color.location)
}

/// Decides what a pass targets, once its attachments are looked up. The
/// drawable cannot be mixed with anything else.
pub fn raster_begin_carrier(
    begin: &RasterBegin,
    resolved: &Vec<Option<GlTextureView>>,
    depth: Option<GlTextureView>,
) -> (result: Result<GlFramebufferCarrier, RhiError>)
    requires
        resolved@.len() == begin.colors@.len(),
    ensures
        ({
            let drawable = resolved@.contains(None);
            let mixed = resolved@.len() != 1 || begin.depth_stencil is Some;
            match result {
                Err(error) => drawable && mixed && error == error::rhi_error_at(
                    RhiErrorKind::Unsupported,
                    "a default framebuffer cannot be mixed with texture/depth attachments",
                    "GL::begin_raster",
                ),
                Ok(GlFramebufferCarrier::Default { color_locations: locations }) => drawable
                    && !mixed && locations@ == color_locations(*begin),
                Ok(GlFramebufferCarrier::Offscreen(descriptor)) => {
                    &&& !drawable
                    &&& descriptor.color_attachments@ == allocated_views(resolved@)
                    &&& descriptor.draw_buffers@ == color_locations(*begin)
                    &&& descriptor.depth_stencil_attachment == (if begin.depth_stencil is Some {
                        depth
                    } else {
                        None
                    })
                },
            }
        }),
{
    let mut views: Vec<GlTextureView> = Vec::new();
    let mut locations: Vec<u32> = Vec::new();
    let mut has_default = false;
    let mut at: usize = 0;
    while at < begin.colors.len()
        invariant
            at <= begin.colors@.len(),
            resolved@.len() == begin.colors@.len(),
            views@ == allocated_views(resolved@.take(at as int)),
            locations@ == color_locations(*begin).take(at as int),
            has_default == resolved@.take(at as int).contains(None),
            has_default || views@.len() == at,
            views@.len() <= at,
            has_default ==> views@.len() < at,
        decreases begin.colors@.len() - at,
    {
        proof {
            let shorter = resolved@.take(at as int);
            let longer = resolved@.take(at + 1);
            assert(longer.drop_last() =~= shorter);
            assert(longer.last() == resolved@[at as int]);
            if shorter.contains(None) {
                let k = choose|k: int| 0 <= k < shorter.len() && shorter[k] is None;
                assert(longer[k] is None);
            }
            if longer.contains(None) && resolved@[at as int] is Some {
                let k = choose|k: int| 0 <= k < longer.len() && longer[k] is None;
                assert(shorter[k] is None);
            }
            assert(longer[at as int] == resolved@[at as int]);
        }
        match resolved[at] {
            Some(view) => {
                views.push(view);
            },
            None => {
                has_default = true;
            },
        }
        locations.push(begin.colors[at].location);
        at += 1;
        assert(locations@ =~= color_locations(*begin).take(at as int));
    }
    proof {
        assert(resolved@.take(at as int) =~= resolved@);
        assert(color_locations(*begin).take(at as int) =~= color_locations(*begin));
    }
    if has_default {
        if views.len() > 0 || begin.depth_stencil.is_some() || locations.len() != 1 {
            return Err(
                RhiError::new(
                    RhiErrorKind::Unsupported,
                    "a default framebuffer cannot be mixed with texture/depth attachments",
                ).at("GL::begin_raster"),
            );
        }
        return Ok(GlFramebufferCarrier::Default { color_locations: locations });
    }
    let depth_stencil_attachment = match begin.depth_stencil {
        Some(_) => depth,
        None => None,
    };
    Ok(
        GlFramebufferCarrier::Offscreen(
            GlFramebufferDescriptor {
                color_attachments: views,
                depth_stencil_attachment,
                draw_buffers: locations,
            },
        ),
    )
}

/// What a draw carries besides its objects.
#[derive(Debug)]
pub struct GlRasterDrawScalars {
    pub viewport: Option<GlViewport>,
    pub scissor: Option<GlScissorRect>,
    pub blend_constant: GlColorBits,
    pub stencil_reference: u32,
    pub draw: GlAdvancedDrawCommand,
    pub bind_groups: Arc<Vec<BoundGroupUse>>,
}

/// Whether the corner and the size of a viewport are numbers that are not
/// below zero.
pub open spec fn viewport_is_plain(viewport: Viewport) -> bool {
    &&& float::spec_is_finite(viewport.x) && !float::spec_is_negative(viewport.x)
    &&& float::spec_is_finite(viewport.y) && !float::spec_is_negative(viewport.y)
    &&& float::spec_is_finite(viewport.width) && !float::spec_is_negative(viewport.width)
    &&& float::spec_is_finite(viewport.height) && !float::spec_is_negative(viewport.height)
}

/// The viewport in whole pixels.
pub open spec fn whole_viewport(viewport: Viewport) -> GlViewport {
    GlViewport {
        x: float::spec_to_u32(viewport.x),
        y: float::spec_to_u32(viewport.y),
        width: float::spec_to_u32(viewport.width),
        height: float::spec_to_u32(viewport.height),
        min_depth: viewport.min_depth,
        max_depth: viewport.max_depth,
    }
}

/// What reading the scalars of a draw gives.
pub open spec fn drawn_scalars(draw: RasterDraw) -> Result<GlRasterDrawScalars, RhiError> {
    scalars_of(draw.inputs, draw.range, draw.instances, draw.base_vertex)
}

/// What reading the scalars of a draw over these spans gives.
pub open spec fn scalars_of(
    inputs: DrawInputs,
    range: IndexSpan,
    instances: IndexSpan,
    base_vertex: i32,
) -> Result<GlRasterDrawScalars, RhiError> {
    if range.end < range.start {
        Err(
            error::rhi_error_at(
                RhiErrorKind::InvalidUsage,
                "recorded draw range is inverted",
                "GL::submit",
            ),
        )
    } else if instances.end < instances.start {
        Err(
            error::rhi_error_at(
                RhiErrorKind::InvalidUsage,
                "recorded instance range is inverted",
                "GL::submit",
            ),
        )
    } else if inputs.viewport is Some && !viewport_is_plain(inputs.viewport->0) {
        Err(
            error::rhi_error_at(
                RhiErrorKind::InvalidUsage,
                "GL viewport needs finite non-negative integer coordinates",
                "GL::submit",
            ),
        )
    } else {
        let count = (range.end - range.start) as u32;
        let instance_count = (instances.end - instances.start) as u32;
        Ok(
            GlRasterDrawScalars {
                viewport: match inputs.viewport {
                    Some(viewport) => Some(whole_viewport(viewport)),
                    None => None,
                },
                scissor: match inputs.scissor {
                    Some(scissor) => Some(
                        GlScissorRect {
                            x: scissor.x,
                            y: scissor.y,
                            width: scissor.width,
                            height: scissor.height,
                        },
                    ),
                    None => None,
                },
                blend_constant: inputs.blend_constant,
                stencil_reference: inputs.stencil_reference,
                draw: GlAdvancedDrawCommand {
                    draw: if inputs.index is Some {
                        GlDrawCommand::Indexed(
                            GlIndexedDraw {
                                first_index: range.start,
                                index_count: count,
                                instance_count,
                            },
                        )
                    } else {
                        GlDrawCommand::NonIndexed(
                            GlNonIndexedDraw {
                                first_vertex: range.start,
                                vertex_count: count,
                                instance_count,
                            },
                        )
                    },
                    base_vertex: base_vertex,
                    first_instance: instances.start,
                },
                bind_groups: inputs.groups,
            },
        )
    }
}

fn invalid_draw(text: &'static str) -> (result: RhiError)
    ensures
        result == error::rhi_error_at(RhiErrorKind::InvalidUsage, text, "GL::submit"),
{
    RhiError::new(RhiErrorKind::InvalidUsage, text).at("GL::submit")
}

/// Reads the ranges and the dynamic state of a draw.
pub fn raster_draw_scalars(draw: &RasterDraw) -> (result: Result<GlRasterDrawScalars, RhiError>)
    ensures
        result == drawn_scalars(*draw),
{
    input_scalars(&draw.inputs, draw.range, draw.instances, draw.base_vertex)
}

/// Reads the dynamic state of a draw over these spans.
pub fn input_scalars(
    inputs: &DrawInputs,
    range: IndexSpan,
    instances: IndexSpan,
    base_vertex: i32,
) -> (result: Result<GlRasterDrawScalars, RhiError>)
    ensures
        result == scalars_of(*inputs, range, instances, base_vertex),
{
    if range.end < range.start {
        return Err(invalid_draw("recorded draw range is inverted"));
    }
    if instances.end < instances.start {
        return Err(invalid_draw("recorded instance range is inverted"));
    }
    let count: u32 = range.end - range.start;
    let instance_count: u32 = instances.end - instances.start;
    let viewport = match inputs.viewport {
        Some(v) => {
            if float::is_negative(v.x) || float::is_negative(v.y) || float::is_negative(v.width)
                || float::is_negative(v.height) || !float::is_finite(v.x) || !float::is_finite(v.y)
                || !float::is_finite(v.width) || !float::is_finite(v.height) {
                return Err(
                    invalid_draw("GL viewport needs finite non-negative integer coordinates"),
                );
            }
            Some(
                GlViewport {
                    x: float::to_u32(v.x),
                    y: float::to_u32(v.y),
                    width: float::to_u32(v.width),
                    height: float::to_u32(v.height),
                    min_depth: v.min_depth,
                    max_depth: v.max_depth,
                },
            )
        },
        None => None,
    };
    let scissor = match inputs.scissor {
        Some(s) => Some(GlScissorRect { x: s.x, y: s.y, width: s.width, height: s.height }),
        None => None,
    };
    let command = match inputs.index {
        Some(_) => GlDrawCommand::Indexed(
            GlIndexedDraw { first_index: range.start, index_count: count, instance_count },
        ),
        None => GlDrawCommand::NonIndexed(
            GlNonIndexedDraw {
                first_vertex: range.start,
                vertex_count: count,
                instance_count,
            },
        ),
    };
    Ok(
        GlRasterDrawScalars {
            viewport,
            scissor,
            blend_constant: inputs.blend_constant,
            stencil_reference: inputs.stencil_reference,
            draw: GlAdvancedDrawCommand {
                draw: command,
                base_vertex,
                first_instance: instances.start,
            },
            bind_groups: Arc::clone(&inputs.groups),
        },
    )
}

/// The refusal of a raster pipeline.
pub open spec fn pipeline_refusal(text: &'static str) -> RhiError {
    error::rhi_error_at(RhiErrorKind::Unsupported, text, "GL::create_raster_pipeline")
}

pub fn unsupported(text: &'static str) -> (result: RhiError)
    ensures
        result == pipeline_refusal(text),
{
    RhiError::new(RhiErrorKind::Unsupported, text).at("GL::create_raster_pipeline")
}

/// How vertices form primitives.
pub open spec fn gl_topology(value: PrimitiveTopology) -> GlPrimitiveTopology {
    match value {
        PrimitiveTopology::PointList => GlPrimitiveTopology::Points,
        PrimitiveTopology::LineList => GlPrimitiveTopology::Lines,
        PrimitiveTopology::LineStrip => GlPrimitiveTopology::LineStrip,
        PrimitiveTopology::TriangleList => GlPrimitiveTopology::Triangles,
        PrimitiveTopology::TriangleStrip => GlPrimitiveTopology::TriangleStrip,
    }
}

pub fn topology(value: PrimitiveTopology) -> (result: GlPrimitiveTopology)
    ensures
        result == gl_topology(value),
{
    match value {
        PrimitiveTopology::PointList => GlPrimitiveTopology::Points,
        PrimitiveTopology::LineList => GlPrimitiveTopology::Lines,
        PrimitiveTopology::LineStrip => GlPrimitiveTopology::LineStrip,
        PrimitiveTopology::TriangleList => GlPrimitiveTopology::Triangles,
        PrimitiveTopology::TriangleStrip => GlPrimitiveTopology::TriangleStrip,
    }
}

/// Which faces are dropped.
pub open spec fn gl_cull_mode(value: CullMode) -> GlCullMode {
    match value {
        CullMode::Neither => GlCullMode::Neither,
        CullMode::Front => GlCullMode::Front,
        CullMode::Back => GlCullMode::Back,
    }
}

pub fn cull_mode(value: CullMode) -> (result: GlCullMode)
    ensures
        result == gl_cull_mode(value),
{
    match value {
        CullMode::Neither => GlCullMode::Neither,
        CullMode::Front => GlCullMode::Front,
        CullMode::Back => GlCullMode::Back,
    }
}

/// Which winding is the front.
pub open spec fn gl_front_face(value: FrontFace) -> GlFrontFace {
    match value {
        FrontFace::Ccw => GlFrontFace::CounterClockwise,
        FrontFace::Cw => GlFrontFace::Clockwise,
    }
}

pub fn front_face(value: FrontFace) -> (result: GlFrontFace)
    ensures
        result == gl_front_face(value),
{
    match value {
        FrontFace::Ccw => GlFrontFace::CounterClockwise,
        FrontFace::Cw => GlFrontFace::Clockwise,
    }
}

/// When a vertex buffer advances.
pub open spec fn gl_step_mode(value: VertexStepMode) -> GlVertexStepMode {
    match value {
        VertexStepMode::Vertex => GlVertexStepMode::Vertex,
        VertexStepMode::Instance => GlVertexStepMode::Instance,
    }
}

pub fn step_mode(value: VertexStepMode) -> (result: GlVertexStepMode)
    ensures
        result == gl_step_mode(value),
{
    match value {
        VertexStepMode::Vertex => GlVertexStepMode::Vertex,
        VertexStepMode::Instance => GlVertexStepMode::Instance,
    }
}

/// How depth and stencil values are compared.
pub open spec fn gl_compare(value: CompareFunction) -> GlDepthCompareFunction {
    match value {
        CompareFunction::Never => GlDepthCompareFunction::Never,
        CompareFunction::Less => GlDepthCompareFunction::Less,
        CompareFunction::Equal => GlDepthCompareFunction::Equal,
        CompareFunction::LessEqual => GlDepthCompareFunction::LessEqual,
        CompareFunction::Greater => GlDepthCompareFunction::Greater,
        CompareFunction::NotEqual => GlDepthCompareFunction::NotEqual,
        CompareFunction::GreaterEqual => GlDepthCompareFunction::GreaterEqual,
        CompareFunction::Always => GlDepthCompareFunction::Always,
    }
}

pub fn compare(value: CompareFunction) -> (result: GlDepthCompareFunction)
    ensures
        result == gl_compare(value),
{
    match value {
        CompareFunction::Never => GlDepthCompareFunction::Never,
        CompareFunction::Less => GlDepthCompareFunction::Less,
        CompareFunction::Equal => GlDepthCompareFunction::Equal,
        CompareFunction::LessEqual => GlDepthCompareFunction::LessEqual,
        CompareFunction::Greater => GlDepthCompareFunction::Greater,
        CompareFunction::NotEqual => GlDepthCompareFunction::NotEqual,
        CompareFunction::GreaterEqual => GlDepthCompareFunction::GreaterEqual,
        CompareFunction::Always => GlDepthCompareFunction::Always,
    }
}

/// What happens to a stencil value.
pub open spec fn gl_stencil_op(value: StencilOperation) -> GlStencilOperation {
    match value {
        StencilOperation::Keep => GlStencilOperation::Keep,
        StencilOperation::Zero => GlStencilOperation::Zero,
        StencilOperation::Replace => GlStencilOperation::Replace,
        StencilOperation::IncrementClamp => GlStencilOperation::IncrementClamp,
        StencilOperation::DecrementClamp => GlStencilOperation::DecrementClamp,
        StencilOperation::Invert => GlStencilOperation::Invert,
        StencilOperation::IncrementWrap => GlStencilOperation::IncrementWrap,
        StencilOperation::DecrementWrap => GlStencilOperation::DecrementWrap,
    }
}

pub fn stencil_op(value: StencilOperation) -> (result: GlStencilOperation)
    ensures
        result == gl_stencil_op(value),
{
    match value {
        StencilOperation::Keep => GlStencilOperation::Keep,
        StencilOperation::Zero => GlStencilOperation::Zero,
        StencilOperation::Replace => GlStencilOperation::Replace,
        StencilOperation::IncrementClamp => GlStencilOperation::IncrementClamp,
        StencilOperation::DecrementClamp => GlStencilOperation::DecrementClamp,
        StencilOperation::Invert => GlStencilOperation::Invert,
        StencilOperation::IncrementWrap => GlStencilOperation::IncrementWrap,
        StencilOperation::DecrementWrap => GlStencilOperation::DecrementWrap,
    }
}

/// The operation of a blend equation.
pub open spec fn gl_blend_operation(value: BlendOperation) -> GlBlendOperation {
    match value {
        BlendOperation::Add => GlBlendOperation::Add,
        BlendOperation::Subtract => GlBlendOperation::Subtract,
        BlendOperation::ReverseSubtract => GlBlendOperation::ReverseSubtract,
        BlendOperation::Min => GlBlendOperation::Min,
        BlendOperation::Max => GlBlendOperation::Max,
    }
}

pub fn blend_operation(value: BlendOperation) -> (result: GlBlendOperation)
    ensures
        result == gl_blend_operation(value),
{
    match value {
        BlendOperation::Add => GlBlendOperation::Add,
        BlendOperation::Subtract => GlBlendOperation::Subtract,
        BlendOperation::ReverseSubtract => GlBlendOperation::ReverseSubtract,
        BlendOperation::Min => GlBlendOperation::Min,
        BlendOperation::Max => GlBlendOperation::Max,
    }
}

/// No two comparisons and no two stencil operations are translated to the same
/// one.
pub proof fn tests_are_translated_losslessly(
    left: CompareFunction,
    right: CompareFunction,
    one: StencilOperation,
    other: StencilOperation,
)
    ensures
        gl_compare(left) == gl_compare(right) ==> left == right,
        gl_stencil_op(one) == gl_stencil_op(other) ==> one == other,
{
}

/// The bits of the channels that are written.
pub open spec fn mask_bits(mask: ColorWriteMask) -> u8 {
    ((if mask.red {
        1int
    } else {
        0
    }) + (if mask.green {
        2int
    } else {
        0
    }) + (if mask.blue {
        4int
    } else {
        0
    }) + (if mask.alpha {
        8int
    } else {
        0
    })) as u8
}

pub fn color_mask(mask: ColorWriteMask) -> (result: u8)
    ensures
        result == mask_bits(mask),
{
    let red: u8 = if mask.red {
        1
    } else {
        0
    };
    let green: u8 = if mask.green {
        2
    } else {
        0
    };
    let blue: u8 = if mask.blue {
        4
    } else {
        0
    };
    let alpha: u8 = if mask.alpha {
        8
    } else {
        0
    };
    red + green + blue + alpha
}

/// The factor of a blend equation, if it needs only one source.
pub open spec fn gl_blend_factor(value: BlendFactor) -> Result<GlBlendFactor, RhiError> {
    match value {
        BlendFactor::Zero => Ok(GlBlendFactor::Zero),
        BlendFactor::One => Ok(GlBlendFactor::One),
        BlendFactor::Src => Ok(GlBlendFactor::Src),
        BlendFactor::OneMinusSrc => Ok(GlBlendFactor::OneMinusSrc),
        BlendFactor::SrcAlpha => Ok(GlBlendFactor::SrcAlpha),
        BlendFactor::OneMinusSrcAlpha => Ok(GlBlendFactor::OneMinusSrcAlpha),
        BlendFactor::Dst => Ok(GlBlendFactor::Dst),
        BlendFactor::OneMinusDst => Ok(GlBlendFactor::OneMinusDst),
        BlendFactor::DstAlpha => Ok(GlBlendFactor::DstAlpha),
        BlendFactor::OneMinusDstAlpha => Ok(GlBlendFactor::OneMinusDstAlpha),
        BlendFactor::Constant => Ok(GlBlendFactor::Constant),
        BlendFactor::OneMinusConstant => Ok(GlBlendFactor::OneMinusConstant),
        BlendFactor::SrcAlphaSaturated => Ok(GlBlendFactor::SrcAlphaSaturated),
        _ => Err(pipeline_refusal("dual-source blend needs an optional GL route")),
    }
}

pub fn blend_factor(value: BlendFactor) -> (result: Result<GlBlendFactor, RhiError>)
    ensures
        result == gl_blend_factor(value),
{
    match value {
        BlendFactor::Zero => Ok(GlBlendFactor::Zero),
        BlendFactor::One => Ok(GlBlendFactor::One),
        BlendFactor::Src => Ok(GlBlendFactor::Src),
        BlendFactor::OneMinusSrc => Ok(GlBlendFactor::OneMinusSrc),
        BlendFactor::SrcAlpha => Ok(GlBlendFactor::SrcAlpha),
        BlendFactor::OneMinusSrcAlpha => Ok(GlBlendFactor::OneMinusSrcAlpha),
        BlendFactor::Dst => Ok(GlBlendFactor::Dst),
        BlendFactor::OneMinusDst => Ok(GlBlendFactor::OneMinusDst),
        BlendFactor::DstAlpha => Ok(GlBlendFactor::DstAlpha),
        BlendFactor::OneMinusDstAlpha => Ok(GlBlendFactor::OneMinusDstAlpha),
        BlendFactor::Constant => Ok(GlBlendFactor::Constant),
        BlendFactor::OneMinusConstant => Ok(GlBlendFactor::OneMinusConstant),
        BlendFactor::SrcAlphaSaturated => Ok(GlBlendFactor::SrcAlphaSaturated),
        BlendFactor::Src1 | BlendFactor::OneMinusSrc1 | BlendFactor::Src1Alpha
        | BlendFactor::OneMinusSrc1Alpha => Err(
            unsupported("dual-source blend needs an optional GL route"),
        ),
    }
}

/// One blend equation.
pub open spec fn gl_blend_component(value: BlendComponent) -> Result<GlBlendComponent, RhiError> {
    match (gl_blend_factor(value.src_factor), gl_blend_factor(value.dst_factor)) {
        (Err(error), _) => Err(error),
        (_, Err(error)) => Err(error),
        (Ok(src_factor), Ok(dst_factor)) => Ok(
            GlBlendComponent {
                src_factor,
                dst_factor,
                operation: gl_blend_operation(value.operation),
            },
        ),
    }
}

pub fn blend_component(value: BlendComponent) -> (result: Result<GlBlendComponent, RhiError>)
    ensures
        result == gl_blend_component(value),
{
    let src_factor = match blend_factor(value.src_factor) {
        Ok(factor) => factor,
        Err(error) => {
            return Err(error);
        },
    };
    let dst_factor = match blend_factor(value.dst_factor) {
        Ok(factor) => factor,
        Err(error) => {
            return Err(error);
        },
    };
    Ok(GlBlendComponent { src_factor, dst_factor, operation: blend_operation(value.operation) })
}

/// Both blend equations.
pub open spec fn gl_blend_state(value: BlendState) -> Result<GlBlendState, RhiError> {
    match (gl_blend_component(value.color), gl_blend_component(value.alpha)) {
        (Err(error), _) => Err(error),
        (_, Err(error)) => Err(error),
        (Ok(color), Ok(alpha)) => Ok(GlBlendState { color, alpha }),
    }
}

pub fn blend_state(value: BlendState) -> (result: Result<GlBlendState, RhiError>)
    ensures
        result == gl_blend_state(value),
{
    let color = match blend_component(value.color) {
        Ok(component) => component,
        Err(error) => {
            return Err(error);
        },
    };
    let alpha = match blend_component(value.alpha) {
        Ok(component) => component,
        Err(error) => {
            return Err(error);
        },
    };
    Ok(GlBlendState { color, alpha })
}

/// One color target. A target that is left out is not written.
pub open spec fn gl_color_target(target: Option<ColorTargetState>) -> Result<
    GlColorTargetState,
    RhiError,
> {
    match target {
        None => Ok(GlColorTargetState { write_mask: 0, blend: None }),
        Some(target) => match target.blend {
            None => Ok(
                GlColorTargetState { write_mask: mask_bits(target.write_mask), blend: None },
            ),
            Some(blend) => match gl_blend_state(blend) {
                Err(error) => Err(error),
                Ok(blend) => Ok(
                    GlColorTargetState {
                        write_mask: mask_bits(target.write_mask),
                        blend: Some(blend),
                    },
                ),
            },
        },
    }
}

fn color_target(target: Option<ColorTargetState>) -> (result: Result<GlColorTargetState, RhiError>)
    ensures
        result == gl_color_target(target),
{
    match target {
        None => Ok(GlColorTargetState { write_mask: 0, blend: None }),
        Some(target) => match target.blend {
            None => Ok(
                GlColorTargetState { write_mask: color_mask(target.write_mask), blend: None },
            ),
            Some(blend) => match blend_state(blend) {
                Err(error) => Err(error),
                Ok(blend) => Ok(
                    GlColorTargetState {
                        write_mask: color_mask(target.write_mask),
                        blend: Some(blend),
                    },
                ),
            },
        },
    }
}

/// The color targets, or the error of the first that cannot be translated.
pub open spec fn gl_color_targets(targets: Seq<Option<ColorTargetState>>) -> Result<
    Seq<GlColorTargetState>,
    RhiError,
>
    decreases targets.len(),
{
    if targets.len() == 0 {
        Ok(Seq::empty())
    } else {
        match gl_color_targets(targets.drop_last()) {
            Err(error) => Err(error),
            Ok(before) => match gl_color_target(targets.last()) {
                Err(error) => Err(error),
                Ok(target) => Ok(before.push(target)),
            },
        }
    }
}

fn color_targets(targets: &Vec<Option<ColorTargetState>>) -> (result: Result<
    Vec<GlColorTargetState>,
    RhiError,
>)
    ensures
        match result {
            Ok(list) => gl_color_targets(targets@) == Ok::<_, RhiError>(list@),
            Err(error) => gl_color_targets(targets@) == Err::<Seq<GlColorTargetState>, _>(error),
        },
{
    let mut result: Vec<GlColorTargetState> = Vec::new();
    let mut at: usize = 0;
    while at < targets.len()
        invariant
            at <= targets@.len(),
            gl_color_targets(targets@.take(at as int)) == Ok::<_, RhiError>(result@),
        decreases targets@.len() - at,
    {
        proof {
            assert(targets@.take(at + 1).drop_last() =~= targets@.take(at as int));
        }
        match color_target(targets[at]) {
            Ok(target) => {
                result.push(target);
            },
            Err(error) => {
                proof {
                    lemma_color_targets_stop(targets@, at + 1);
                }
                return Err(error);
            },
        }
        at += 1;
    }
    assert(targets@.take(at as int) =~= targets@);
    Ok(result)
}

proof fn lemma_color_targets_stop(targets: Seq<Option<ColorTargetState>>, at: int)
    requires
        0 <= at <= targets.len(),
        gl_color_targets(targets.take(at)) is Err,
    ensures
        gl_color_targets(targets) == gl_color_targets(targets.take(at)),
    decreases targets.len(),
{
    if at == targets.len() {
        assert(targets.take(at) =~= targets);
    } else {
        assert(targets.drop_last().take(at) =~= targets.take(at));
        lemma_color_targets_stop(targets.drop_last(), at);
    }
}

/// The stencil test of one face.
pub open spec fn gl_stencil_face(
    value: StencilFaceState,
    read_mask: u32,
    write_mask: u32,
) -> GlStencilFaceState {
    GlStencilFaceState {
        compare: gl_compare(value.compare),
        fail_op: gl_stencil_op(value.fail_op),
        depth_fail_op: gl_stencil_op(value.depth_fail_op),
        pass_op: gl_stencil_op(value.pass_op),
        read_mask,
        write_mask,
    }
}

pub fn stencil_face(value: StencilFaceState, read_mask: u32, write_mask: u32) -> (result:
    GlStencilFaceState)
    ensures
        result == gl_stencil_face(value, read_mask, write_mask),
{
    GlStencilFaceState {
        compare: compare(value.compare),
        fail_op: stencil_op(value.fail_op),
        depth_fail_op: stencil_op(value.depth_fail_op),
        pass_op: stencil_op(value.pass_op),
        read_mask,
        write_mask,
    }
}

/// The depth and stencil tests. A test that is left out always passes and
/// writes nothing.
pub open spec fn gl_depth_stencil(value: DepthStencilState) -> Result<
    GlDepthStencilState,
    RhiError,
> {
    let always = CompareFunction::Always;
    let depth = match value.depth {
        Some(depth) => depth,
        None => DepthState { write_enabled: false, compare: always },
    };
    let stencil = match value.stencil {
        Some(stencil) => stencil,
        None => StencilState {
            front: StencilFaceState::keeping(always),
            back: StencilFaceState::keeping(always),
            read_mask: u32::MAX,
            write_mask: u32::MAX,
        },
    };
    match translate::translated_format(value.format) {
        Err(error) => Err(error),
        Ok(_) => Ok(
            GlDepthStencilState {
                depth_write_enabled: depth.write_enabled,
                depth_compare: gl_compare(depth.compare),
                depth_bias: GlDepthBias { factor: 0, units: 0, clamp: 0 },
                stencil_front: gl_stencil_face(
                    stencil.front,
                    stencil.read_mask,
                    stencil.write_mask,
                ),
                stencil_back: gl_stencil_face(stencil.back, stencil.read_mask, stencil.write_mask),
                stencil_reference: 0,
            },
        ),
    }
}

pub fn depth_stencil_state(value: &DepthStencilState) -> (result: Result<
    GlDepthStencilState,
    RhiError,
>)
    ensures
        result == gl_depth_stencil(*value),
{
    match translate::texture_format(value.format) {
        Ok(_) => {},
        Err(error) => {
            return Err(error);
        },
    }
    let depth = match value.depth {
        Some(depth) => depth,
        None => DepthState::new(CompareFunction::Always),
    };
    let stencil = match value.stencil {
        Some(stencil) => stencil,
        None => StencilState::new(
            StencilFaceState::new(CompareFunction::Always),
            StencilFaceState::new(CompareFunction::Always),
        ),
    };
    Ok(
        GlDepthStencilState {
            depth_write_enabled: depth.write_enabled,
            depth_compare: compare(depth.compare),
            depth_bias: GlDepthBias { factor: 0, units: 0, clamp: 0 },
            stencil_front: stencil_face(stencil.front, stencil.read_mask, stencil.write_mask),
            stencil_back: stencil_face(stencil.back, stencil.read_mask, stencil.write_mask),
            stencil_reference: 0,
        },
    )
}

/// One vertex attribute of the buffer at a slot.
pub open spec fn gl_vertex_attribute(attribute: VertexAttribute, slot: u32) -> Result<
    GlVertexAttribute,
    RhiError,
> {
    match translate::gl_vertex_format(attribute.format) {
        None => Err(
            RhiError {
                kind: RhiErrorKind::Unsupported,
                detail: RhiDetail::VertexFormat(attribute.format),
                operation: Some("GL::vertex_format"),
            },
        ),
        Some(format) => if attribute.offset > u32::MAX {
            Err(pipeline_refusal("vertex attribute offset exceeds GLsizei"))
        } else {
            Ok(
                GlVertexAttribute {
                    location: attribute.location,
                    buffer_slot: slot,
                    format,
                    offset: attribute.offset as u32,
                },
            )
        },
    }
}

fn vertex_attribute(attribute: VertexAttribute, slot: u32) -> (result: Result<
    GlVertexAttribute,
    RhiError,
>)
    ensures
        result == gl_vertex_attribute(attribute, slot),
{
    let format = match translate::vertex_format(attribute.format) {
        Ok(format) => format,
        Err(error) => {
            return Err(error);
        },
    };
    if attribute.offset > 0xffff_ffff {
        return Err(unsupported("vertex attribute offset exceeds GLsizei"));
    }
    Ok(
        GlVertexAttribute {
            location: attribute.location,
            buffer_slot: slot,
            format,
            offset: attribute.offset as u32,
        },
    )
}

/// The attributes of the buffer at a slot, or the first error.
pub open spec fn gl_vertex_attributes(attributes: Seq<VertexAttribute>, slot: u32) -> Result<
    Seq<GlVertexAttribute>,
    RhiError,
>
    decreases attributes.len(),
{
    if attributes.len() == 0 {
        Ok(Seq::empty())
    } else {
        match gl_vertex_attributes(attributes.drop_last(), slot) {
            Err(error) => Err(error),
            Ok(before) => match gl_vertex_attribute(attributes.last(), slot) {
                Err(error) => Err(error),
                Ok(attribute) => Ok(before.push(attribute)),
            },
        }
    }
}

proof fn lemma_vertex_attributes_stop(attributes: Seq<VertexAttribute>, slot: u32, at: int)
    requires
        0 <= at <= attributes.len(),
        gl_vertex_attributes(attributes.take(at), slot) is Err,
    ensures
        gl_vertex_attributes(attributes, slot) == gl_vertex_attributes(attributes.take(at), slot),
    decreases attributes.len(),
{
    if at == attributes.len() {
        assert(attributes.take(at) =~= attributes);
    } else {
        assert(attributes.drop_last().take(at) =~= attributes.take(at));
        lemma_vertex_attributes_stop(attributes.drop_last(), slot, at);
    }
}

/// What the vertex buffers of a pipeline become: their layouts, and all their
/// attributes in order; or the first error.
pub open spec fn gl_vertex_input(buffers: Seq<VertexBufferLayout>) -> Result<
    (Seq<GlVertexBufferLayout>, Seq<GlVertexAttribute>),
    RhiError,
>
    decreases buffers.len(),
{
    if buffers.len() == 0 {
        Ok((Seq::empty(), Seq::empty()))
    } else {
        let slot = buffers.len() - 1;
        let buffer = buffers.last();
        match gl_vertex_input(buffers.drop_last()) {
            Err(error) => Err(error),
            Ok((layouts, attributes)) => if slot > u32::MAX {
                Err(pipeline_refusal("vertex buffer slot exceeds GL u32 namespace"))
            } else if buffer.stride > u32::MAX {
                Err(pipeline_refusal("vertex stride exceeds GLsizei"))
            } else {
                match gl_vertex_attributes(buffer.attributes@, slot as u32) {
                    Err(error) => Err(error),
                    Ok(own) => Ok(
                        (
                            layouts.push(
                                GlVertexBufferLayout {
                                    slot: slot as u32,
                                    stride: buffer.stride as u32,
                                    step_mode: gl_step_mode(buffer.step_mode),
                                },
                            ),
                            attributes + own,
                        ),
                    ),
                }
            },
        }
    }
}

proof fn lemma_vertex_input_stop(buffers: Seq<VertexBufferLayout>, at: int)
    requires
        0 <= at <= buffers.len(),
        gl_vertex_input(buffers.take(at)) is Err,
    ensures
        gl_vertex_input(buffers) == gl_vertex_input(buffers.take(at)),
    decreases buffers.len(),
{
    if at == buffers.len() {
        assert(buffers.take(at) =~= buffers);
    } else {
        assert(buffers.drop_last().take(at) =~= buffers.take(at));
        lemma_vertex_input_stop(buffers.drop_last(), at);
    }
}

fn append_attributes(
    source: &Vec<VertexAttribute>,
    slot: u32,
    attributes: &mut Vec<GlVertexAttribute>,
) -> (result: Result<(), RhiError>)
    ensures
        match gl_vertex_attributes(source@, slot) {
            Ok(own) => result is Ok && final(attributes)@ == old(attributes)@ + own,
            Err(error) => result == Err::<(), _>(error),
        },
{
    let mut at: usize = 0;
    assert(attributes@ =~= old(attributes)@ + Seq::<GlVertexAttribute>::empty());
    while at < source.len()
        invariant
            at <= source@.len(),
            gl_vertex_attributes(source@.take(at as int), slot) is Ok,
            attributes@ == old(attributes)@ + gl_vertex_attributes(
                source@.take(at as int),
                slot,
            )->Ok_0,
        decreases source@.len() - at,
    {
        proof {
            assert(source@.take(at + 1).drop_last() =~= source@.take(at as int));
        }
        let ghost before = attributes@;
        match vertex_attribute(source[at], slot) {
            Ok(attribute) => {
                attributes.push(attribute);
            },
            Err(error) => {
                proof {
                    lemma_vertex_attributes_stop(source@, slot, at + 1);
                }
                return Err(error);
            },
        }
        at += 1;
        assert(attributes@ =~= old(attributes)@ + gl_vertex_attributes(
            source@.take(at as int),
            slot,
        )->Ok_0);
    }
    assert(source@.take(at as int) =~= source@);
    Ok(())
}

fn vertex_layout(source: &Vec<VertexBufferLayout>) -> (result: Result<GlVertexLayout, RhiError>)
    ensures
        match gl_vertex_input(source@) {
            Ok((buffers, attributes)) => result is Ok && result->Ok_0.buffers@ == buffers
                && result->Ok_0.attributes@ == attributes,
            Err(error) => result == Err::<GlVertexLayout, _>(error),
        },
{
    let mut buffers: Vec<GlVertexBufferLayout> = Vec::new();
    let mut attributes: Vec<GlVertexAttribute> = Vec::new();
    let mut at: usize = 0;
    while at < source.len()
        invariant
            at <= source@.len(),
            gl_vertex_input(source@.take(at as int)) == Ok::<_, RhiError>(
                (buffers@, attributes@),
            ),
        decreases source@.len() - at,
    {
        let buffer = &source[at];
        proof {
            assert(source@.take(at + 1).drop_last() =~= source@.take(at as int));
            assert(source@.take(at + 1).last() == buffer);
            if gl_vertex_input(source@.take(at + 1)) is Err {
                lemma_vertex_input_stop(source@, at + 1);
            }
        }
        if at as u64 > 0xffff_ffff {
            return Err(unsupported("vertex buffer slot exceeds GL u32 namespace"));
        }
        let slot: u32 = at as u32;
        if buffer.stride > 0xffff_ffff {
            return Err(unsupported("vertex stride exceeds GLsizei"));
        }
        buffers.push(
            GlVertexBufferLayout {
                slot,
                stride: buffer.stride as u32,
                step_mode: step_mode(buffer.step_mode),
            },
        );
        match append_attributes(&buffer.attributes, slot, &mut attributes) {
            Ok(()) => {},
            Err(error) => {
                return Err(error);
            },
        }
        at += 1;
    }
    assert(source@.take(at as int) =~= source@);
    Ok(GlVertexLayout { buffers, attributes })
}

/// A raster pipeline, ready to be linked and installed. Program, vertex array
/// and state are used one by one.
#[derive(Debug)]
pub struct GlRasterPipelinePacket {
    pub program: GlProgramDescriptor,
    pub vertex_layout: GlVertexLayout,
    pub state: GlRasterState,
}

/// A raster pipeline packet, by value. Nothing is bound by name, so the
/// program has no bindings.
#[verifier::ext_equal]
pub struct RasterPacketModel {
    pub vertex: GlShaderSource,
    pub fragment: GlShaderSource,
    pub debug_name: Option<Arc<String>>,
    pub buffers: Seq<GlVertexBufferLayout>,
    pub attributes: Seq<GlVertexAttribute>,
    pub state: RasterStateModel,
}

impl GlRasterPipelinePacket {
    /// Whether this is the packet.
    pub open spec fn is(self, model: RasterPacketModel) -> bool {
        &&& self.program.kind == (GlProgramKind::Raster {
            vertex: model.vertex,
            fragment: model.fragment,
        })
        &&& self.program.layout.bindings@.len() == 0
        &&& self.program.debug_name == model.debug_name
        &&& self.vertex_layout.buffers@ == model.buffers
        &&& self.vertex_layout.attributes@ == model.attributes
        &&& self.state@ == model.state
    }
}

/// The refusal of what GL draws only on optional routes.
pub open spec fn needs_optional_route(desc: RasterPipelineDescriptor) -> bool {
    desc.primitive.polygon_mode != PolygonMode::Fill || desc.primitive.unclipped_depth
        || desc.primitive.conservative
}

/// The state of a pipeline whose parts could be translated.
pub open spec fn gl_raster_state(
    desc: RasterPipelineDescriptor,
    color_targets: Seq<GlColorTargetState>,
    depth_stencil: Option<GlDepthStencilState>,
    default_viewport: GlViewport,
) -> RasterStateModel {
    RasterStateModel {
        topology: gl_topology(desc.primitive.topology),
        cull_mode: gl_cull_mode(desc.primitive.cull_mode),
        front_face: gl_front_face(desc.primitive.front_face),
        depth_stencil,
        color_targets,
        multisample: GlMultisampleState {
            sample_count: desc.multisample.count,
            alpha_to_coverage_enabled: desc.multisample.alpha_to_coverage_enabled,
            sample_mask: desc.multisample.mask,
        },
        viewport: default_viewport,
        scissor: None,
        blend_constant: GlColorBits { red: 0, green: 0, blue: 0, alpha: 0 },
    }
}

/// The depth and stencil tests of a pipeline, if it has any.
pub open spec fn gl_optional_depth_stencil(value: Option<DepthStencilState>) -> Result<
    Option<GlDepthStencilState>,
    RhiError,
> {
    match value {
        None => Ok(None),
        Some(value) => match gl_depth_stencil(value) {
            Err(error) => Err(error),
            Ok(state) => Ok(Some(state)),
        },
    }
}

/// What a raster pipeline is translated to, or the first error that stands in
/// the way.
pub open spec fn translated_pipeline(
    desc: RasterPipelineDescriptor,
    default_viewport: GlViewport,
) -> Result<RasterPacketModel, RhiError> {
    if desc.fragment is None {
        Err(
            pipeline_refusal("GL-family raster program requires an explicit fragment artifact"),
        )
    } else {
        let fragment_artifact = desc.fragment->0.artifact;
        match (
            translate::translated_shader(*desc.vertex.artifact),
            translate::translated_shader(*fragment_artifact),
        ) {
            (Err(error), _) => Err(error),
            (_, Err(error)) => Err(error),
            (Ok(vertex), Ok(fragment)) => if vertex.stage != GlShaderStage::Vertex
                || fragment.stage != GlShaderStage::Fragment {
                Err(
                    pipeline_refusal("raster descriptor did not contain vertex + fragment stages"),
                )
            } else {
                match translate::layout_refusal(
                    desc.interface.declared@,
                    seq![desc.vertex.artifact, fragment_artifact],
                ) {
                    Some(detail) => Err(
                        RhiError {
                            kind: RhiErrorKind::Unsupported,
                            detail,
                            operation: Some("GL::pipeline_layout_from_artifacts"),
                        },
                    ),
                    None => match (
                        gl_vertex_input(desc.vertex_buffers@),
                        gl_color_targets(desc.color_targets@),
                        gl_optional_depth_stencil(desc.depth_stencil),
                    ) {
                        (Err(error), _, _) => Err(error),
                        (_, Err(error), _) => Err(error),
                        (_, _, Err(error)) => Err(error),
                        (
                            Ok((buffers, attributes)),
                            Ok(color_targets),
                            Ok(depth_stencil),
                        ) => if needs_optional_route(desc) {
                            Err(
                                pipeline_refusal(
                                    "requested raster state needs an optional GL route",
                                ),
                            )
                        } else {
                            Ok(
                                RasterPacketModel {
                                    vertex,
                                    fragment,
                                    debug_name: desc.label,
                                    buffers,
                                    attributes,
                                    state: gl_raster_state(
                                        desc,
                                        color_targets,
                                        depth_stencil,
                                        default_viewport,
                                    ),
                                },
                            )
                        },
                    },
                }
            },
        }
    }
}

/// Translates a raster pipeline.
pub fn raster_pipeline_packet(
    desc: &RasterPipelineDescriptor,
    default_viewport: GlViewport,
) -> (result: Result<GlRasterPipelinePacket, RhiError>)
    ensures
        match translated_pipeline(*desc, default_viewport) {
            Ok(model) => result is Ok && result->Ok_0.is(model),
            Err(error) => result == Err::<GlRasterPipelinePacket, _>(error),
        },
{
    let fragment_module = match &desc.fragment {
        Some(module) => module,
        None => {
            return Err(
                unsupported("GL-family raster program requires an explicit fragment artifact"),
            );
        },
    };
    let vertex = match translate::shader_source(&desc.vertex.artifact) {
        Ok(source) => source,
        Err(error) => {
            return Err(error);
        },
    };
    let fragment = match translate::shader_source(&fragment_module.artifact) {
        Ok(source) => source,
        Err(error) => {
            return Err(error);
        },
    };
    if vertex.stage != GlShaderStage::Vertex || fragment.stage != GlShaderStage::Fragment {
        return Err(unsupported("raster descriptor did not contain vertex + fragment stages"));
    }
    let mut artifacts: Vec<Arc<ShaderArtifact>> = Vec::new();
    artifacts.push(Arc::clone(&desc.vertex.artifact));
    artifacts.push(Arc::clone(&fragment_module.artifact));
    assert(artifacts@ =~= seq![desc.vertex.artifact, fragment_module.artifact]);
    let layout = match translate::pipeline_layout_from_artifacts(&desc.interface, &artifacts) {
        Ok(layout) => layout,
        Err(error) => {
            return Err(error);
        },
    };
    let program = GlProgramDescriptor {
        kind: GlProgramKind::Raster { vertex, fragment },
        layout,
        debug_name: match &desc.label {
            Some(label) => Some(Arc::clone(label)),
            None => None,
        },
    };
    let vertex_layout = match vertex_layout(&desc.vertex_buffers) {
        Ok(layout) => layout,
        Err(error) => {
            return Err(error);
        },
    };
    let color_targets = match color_targets(&desc.color_targets) {
        Ok(targets) => targets,
        Err(error) => {
            return Err(error);
        },
    };
    let depth_stencil = match &desc.depth_stencil {
        Some(value) => match depth_stencil_state(value) {
            Ok(state) => Some(state),
            Err(error) => {
                return Err(error);
            },
        },
        None => None,
    };
    if desc.primitive.polygon_mode != PolygonMode::Fill || desc.primitive.unclipped_depth
        || desc.primitive.conservative {
        return Err(unsupported("requested raster state needs an optional GL route"));
    }
    Ok(
        GlRasterPipelinePacket {
            program,
            vertex_layout,
            state: GlRasterState {
                topology: topology(desc.primitive.topology),
                cull_mode: cull_mode(desc.primitive.cull_mode),
                front_face: front_face(desc.primitive.front_face),
                depth_stencil,
                color_targets: Arc::new(color_targets),
                multisample: GlMultisampleState {
                    sample_count: desc.multisample.count,
                    alpha_to_coverage_enabled: desc.multisample.alpha_to_coverage_enabled,
                    sample_mask: desc.multisample.mask,
                },
                viewport: default_viewport,
                scissor: None,
                blend_constant: GlColorBits { red: 0, green: 0, blue: 0, alpha: 0 },
            },
        },
    )
}

} // verus!
