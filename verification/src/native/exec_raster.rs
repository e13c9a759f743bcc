//! Fixed raster state and draws.
//!
//! Color is blended and masked for all attachments alike. Declarations that
//! differ between them are refused; they are not collapsed silently.

use vstd::prelude::*;
use crate::api::error::GlError;
use crate::api::gl::{
    GlBlendFactor, GlBlendOperation, GlBlendState, GlColorTargetState, GlCullMode,
    GlDepthCompareFunction, GlDepthStencilState, GlDrawCommand, GlFrontFace, GlIndexBinding,
    GlIndexedDraw, GlNonIndexedDraw, GlPrimitiveTopology, GlRasterPipeline, GlRasterState,
    GlStencilFaceState, GlStencilOperation, RasterStateModel,
};
use crate::api::identity::{ProgramId, VertexArrayId};
use crate::float;
use crate::native::call;
use crate::native::call::{GlCall, GlCalls, GlStep};
use crate::native::exec_vertex;
use crate::native::exec_vertex::{indexed_draw_offset, indexed_draw_span, indexed_draw_type};
use crate::native::gl_const;
use crate::native::provider;
use crate::native::provider::{validation, ActiveRaster, NativeGlProvider, Provider};

verus! {

pub open spec fn mode_of(topology: GlPrimitiveTopology) -> u32 {
    match topology {
        GlPrimitiveTopology::Points => gl_const::POINTS,
        GlPrimitiveTopology::Lines => gl_const::LINES,
        GlPrimitiveTopology::LineStrip => gl_const::LINE_STRIP,
        GlPrimitiveTopology::Triangles => gl_const::TRIANGLES,
        GlPrimitiveTopology::TriangleStrip => gl_const::TRIANGLE_STRIP,
    }
}

pub fn topology_mode(topology: GlPrimitiveTopology) -> (result: u32)
    ensures
        result == mode_of(topology),
{
    match topology {
        GlPrimitiveTopology::Points => gl_const::POINTS,
        GlPrimitiveTopology::Lines => gl_const::LINES,
        GlPrimitiveTopology::LineStrip => gl_const::LINE_STRIP,
        GlPrimitiveTopology::Triangles => gl_const::TRIANGLES,
        GlPrimitiveTopology::TriangleStrip => gl_const::TRIANGLE_STRIP,
    }
}

pub open spec fn comparison_of(compare: GlDepthCompareFunction) -> u32 {
    match compare {
        GlDepthCompareFunction::Never => gl_const::NEVER,
        GlDepthCompareFunction::Less => gl_const::LESS,
        GlDepthCompareFunction::Equal => gl_const::EQUAL,
        GlDepthCompareFunction::LessEqual => gl_const::LEQUAL,
        GlDepthCompareFunction::Greater => gl_const::GREATER,
        GlDepthCompareFunction::NotEqual => gl_const::NOTEQUAL,
        GlDepthCompareFunction::GreaterEqual => gl_const::GEQUAL,
        GlDepthCompareFunction::Always => gl_const::ALWAYS,
    }
}

pub fn compare_function(compare: GlDepthCompareFunction) -> (result: u32)
    ensures
        result == comparison_of(compare),
{
    match compare {
        GlDepthCompareFunction::Never => gl_const::NEVER,
        GlDepthCompareFunction::Less => gl_const::LESS,
        GlDepthCompareFunction::Equal => gl_const::EQUAL,
        GlDepthCompareFunction::LessEqual => gl_const::LEQUAL,
        GlDepthCompareFunction::Greater => gl_const::GREATER,
        GlDepthCompareFunction::NotEqual => gl_const::NOTEQUAL,
        GlDepthCompareFunction::GreaterEqual => gl_const::GEQUAL,
        GlDepthCompareFunction::Always => gl_const::ALWAYS,
    }
}

pub open spec fn stencil_token(operation: GlStencilOperation) -> u32 {
    match operation {
        GlStencilOperation::Keep => gl_const::KEEP,
        GlStencilOperation::Zero => gl_const::ZERO,
        GlStencilOperation::Replace => gl_const::REPLACE,
        GlStencilOperation::IncrementClamp => gl_const::INCR,
        GlStencilOperation::DecrementClamp => gl_const::DECR,
        GlStencilOperation::Invert => gl_const::INVERT,
        GlStencilOperation::IncrementWrap => gl_const::INCR_WRAP,
        GlStencilOperation::DecrementWrap => gl_const::DECR_WRAP,
    }
}

pub fn stencil_operation(operation: GlStencilOperation) -> (result: u32)
    ensures
        result == stencil_token(operation),
{
    match operation {
        GlStencilOperation::Keep => gl_const::KEEP,
        GlStencilOperation::Zero => gl_const::ZERO,
        GlStencilOperation::Replace => gl_const::REPLACE,
        GlStencilOperation::IncrementClamp => gl_const::INCR,
        GlStencilOperation::DecrementClamp => gl_const::DECR,
        GlStencilOperation::Invert => gl_const::INVERT,
        GlStencilOperation::IncrementWrap => gl_const::INCR_WRAP,
        GlStencilOperation::DecrementWrap => gl_const::DECR_WRAP,
    }
}

pub open spec fn factor_token(factor: GlBlendFactor) -> u32 {
    match factor {
        GlBlendFactor::Zero => gl_const::ZERO,
        GlBlendFactor::One => gl_const::ONE,
        GlBlendFactor::Src => gl_const::SRC_COLOR,
        GlBlendFactor::OneMinusSrc => gl_const::ONE_MINUS_SRC_COLOR,
        GlBlendFactor::SrcAlpha => gl_const::SRC_ALPHA,
        GlBlendFactor::OneMinusSrcAlpha => gl_const::ONE_MINUS_SRC_ALPHA,
        GlBlendFactor::Dst => gl_const::DST_COLOR,
        GlBlendFactor::OneMinusDst => gl_const::ONE_MINUS_DST_COLOR,
        GlBlendFactor::DstAlpha => gl_const::DST_ALPHA,
        GlBlendFactor::OneMinusDstAlpha => gl_const::ONE_MINUS_DST_ALPHA,
        GlBlendFactor::Constant => gl_const::CONSTANT_COLOR,
        GlBlendFactor::OneMinusConstant => gl_const::ONE_MINUS_CONSTANT_COLOR,
        GlBlendFactor::SrcAlphaSaturated => gl_const::SRC_ALPHA_SATURATE,
    }
}

pub fn blend_factor(factor: GlBlendFactor) -> (result: u32)
    ensures
        result == factor_token(factor),
{
    match factor {
        GlBlendFactor::Zero => gl_const::ZERO,
        GlBlendFactor::One => gl_const::ONE,
        GlBlendFactor::Src => gl_const::SRC_COLOR,
        GlBlendFactor::OneMinusSrc => gl_const::ONE_MINUS_SRC_COLOR,
        GlBlendFactor::SrcAlpha => gl_const::SRC_ALPHA,
        GlBlendFactor::OneMinusSrcAlpha => gl_const::ONE_MINUS_SRC_ALPHA,
        GlBlendFactor::Dst => gl_const::DST_COLOR,
        GlBlendFactor::OneMinusDst => gl_const::ONE_MINUS_DST_COLOR,
        GlBlendFactor::DstAlpha => gl_const::DST_ALPHA,
        GlBlendFactor::OneMinusDstAlpha => gl_const::ONE_MINUS_DST_ALPHA,
        GlBlendFactor::Constant => gl_const::CONSTANT_COLOR,
        GlBlendFactor::OneMinusConstant => gl_const::ONE_MINUS_CONSTANT_COLOR,
        GlBlendFactor::SrcAlphaSaturated => gl_const::SRC_ALPHA_SATURATE,
    }
}

pub open spec fn blend_token(operation: GlBlendOperation) -> u32 {
    match operation {
        GlBlendOperation::Add => gl_const::FUNC_ADD,
        GlBlendOperation::Subtract => gl_const::FUNC_SUBTRACT,
        GlBlendOperation::ReverseSubtract => gl_const::FUNC_REVERSE_SUBTRACT,
        GlBlendOperation::Min => gl_const::MIN,
        GlBlendOperation::Max => gl_const::MAX,
    }
}

pub fn blend_operation(operation: GlBlendOperation) -> (result: u32)
    ensures
        result == blend_token(operation),
{
    match operation {
        GlBlendOperation::Add => gl_const::FUNC_ADD,
        GlBlendOperation::Subtract => gl_const::FUNC_SUBTRACT,
        GlBlendOperation::ReverseSubtract => gl_const::FUNC_REVERSE_SUBTRACT,
        GlBlendOperation::Min => gl_const::MIN,
        GlBlendOperation::Max => gl_const::MAX,
    }
}

/// What raster state has to fit.
#[derive(Clone, Copy, Debug, PartialEq, Eq, Structural)]
pub struct GlRasterValidationInfo {
    pub width: u32,
    pub height: u32,
    pub max_samples: u32,
    pub max_color_targets: u32,
}

/// Whether raster state fits: its viewport and its scissor lie inside what is
/// rendered to, and it has no more samples and targets than there are.
pub open spec fn state_is_valid(state: RasterStateModel, info: GlRasterValidationInfo) -> bool {
    &&& state.viewport.x + state.viewport.width <= info.width
    &&& state.viewport.y + state.viewport.height <= info.height
    &&& state.scissor is Some ==> state.scissor->0.x + state.scissor->0.width <= info.width
        && state.scissor->0.y + state.scissor->0.height <= info.height
    &&& 1 <= state.multisample.sample_count
    &&& state.multisample.sample_count <= info.max_samples || state.multisample.sample_count == 1
    &&& state.color_targets.len() <= info.max_color_targets
}

/// Whether raster state fits.
pub fn validate_state(state: &GlRasterState, info: GlRasterValidationInfo) -> (result: bool)
    ensures
        result == state_is_valid(state@, info),
{
    let viewport = state.viewport;
    if viewport.x as u64 + viewport.width as u64 > info.width as u64 || viewport.y as u64
        + viewport.height as u64 > info.height as u64 {
        return false;
    }
    if let Some(scissor) = state.scissor {
        if scissor.x as u64 + scissor.width as u64 > info.width as u64 || scissor.y as u64
            + scissor.height as u64 > info.height as u64 {
            return false;
        }
    }
    let samples = state.multisample.sample_count;
    samples >= 1 && (samples <= info.max_samples || samples == 1)
        && state.color_targets.len() as u64 <= info.max_color_targets as u64
}

/// Whether all color targets are written to and blended alike.
pub open spec fn targets_agree(targets: Seq<GlColorTargetState>) -> bool {
    forall|i: int| 0 <= i < targets.len() ==> #[trigger] targets[i] == targets[0]
}

fn all_targets_agree(targets: &Vec<GlColorTargetState>) -> (result: bool)
    requires
        targets@.len() > 0,
    ensures
        result == targets_agree(targets@),
{
    let mut at: usize = 0;
    while at < targets.len()
        invariant
            at <= targets@.len(),
            targets@.len() > 0,
            forall|i: int| 0 <= i < at ==> #[trigger] targets@[i] == targets@[0],
        decreases targets@.len() - at,
    {
        if targets[at] != targets[0] {
            assert(targets@[at as int] != targets@[0]);
            return false;
        }
        at += 1;
    }
    true
}

/// Several draws that are given one after the other.
#[derive(Debug)]
pub struct GlMultiDraw {
    pub draws: Vec<GlDrawCommand>,
}

impl Provider {
    pub open spec fn apply_stencil_face(
        self,
        face: u32,
        state: GlStencilFaceState,
        reference: u32,
    ) -> Provider {
        self.call(
            GlCall::StencilFuncSeparate {
                face,
                function: comparison_of(state.compare),
                reference: reference as i32,
                mask: state.read_mask,
            },
        ).call(GlCall::StencilMaskSeparate { face, mask: state.write_mask }).call(
            GlCall::StencilOpSeparate {
                face,
                fail: stencil_token(state.fail_op),
                depth_fail: stencil_token(state.depth_fail_op),
                pass: stencil_token(state.pass_op),
            },
        )
    }

    /// Sets the tests of depth and stencil. A bias cannot be clamped.
    pub open spec fn apply_depth_stencil(self, op: &'static str, state: GlDepthStencilState) -> (
        Provider,
        Result<(), GlError>,
    ) {
        let m1 = self.call(GlCall::Enable { capability: gl_const::DEPTH_TEST }).call(
            GlCall::DepthMask { write: state.depth_write_enabled },
        ).call(GlCall::DepthFunc { function: comparison_of(state.depth_compare) });
        if !float::spec_is_zero(state.depth_bias.clamp) {
            (
                m1,
                Err(
                    provider::invalid(
                        op,
                        "depth-bias clamp has no typed expression in this contract",
                    ),
                ),
            )
        } else {
            let m2 = if float::spec_is_zero(state.depth_bias.factor) && float::spec_is_zero(
                state.depth_bias.units,
            ) {
                m1.call(GlCall::Disable { capability: gl_const::POLYGON_OFFSET_FILL })
            } else {
                m1.call(GlCall::Enable { capability: gl_const::POLYGON_OFFSET_FILL }).call(
                    GlCall::PolygonOffset {
                        factor: state.depth_bias.factor,
                        units: state.depth_bias.units,
                    },
                )
            };
            (
                m2.call(GlCall::Enable { capability: gl_const::STENCIL_TEST }).apply_stencil_face(
                    gl_const::FRONT,
                    state.stencil_front,
                    state.stencil_reference,
                ).apply_stencil_face(gl_const::BACK, state.stencil_back, state.stencil_reference),
                Ok(()),
            )
        }
    }

    pub open spec fn apply_blend(self, state: RasterStateModel) -> Provider {
        match state.color_targets[0].blend {
            Some(blend) => self.call(GlCall::Enable { capability: gl_const::BLEND }).call(
                GlCall::BlendFuncSeparate {
                    src_color: factor_token(blend.color.src_factor),
                    dst_color: factor_token(blend.color.dst_factor),
                    src_alpha: factor_token(blend.alpha.src_factor),
                    dst_alpha: factor_token(blend.alpha.dst_factor),
                },
            ).call(
                GlCall::BlendEquationSeparate {
                    color: blend_token(blend.color.operation),
                    alpha: blend_token(blend.alpha.operation),
                },
            ).call(GlCall::BlendColor { color: state.blend_constant }),
            None => self.call(GlCall::Disable { capability: gl_const::BLEND }),
        }
    }

    /// Sets what is written to color.
    pub open spec fn apply_color_state(self, op: &'static str, state: RasterStateModel) -> (
        Provider,
        Result<(), GlError>,
    ) {
        if state.color_targets.len() == 0 {
            (
                self,
                Err(
                    provider::invalid(
                        op,
                        "raster state declares no color target for the active pass",
                    ),
                ),
            )
        } else if !targets_agree(state.color_targets) {
            (
                self,
                Err(
                    provider::invalid(
                        op,
                        "independent per-attachment blend/write-mask is unavailable in the common semantic",
                    ),
                ),
            )
        } else {
            let mask = state.color_targets[0].write_mask;
            let m1 = self.call(
                GlCall::ColorMask {
                    red: mask & 1 != 0,
                    green: mask & 2 != 0,
                    blue: mask & 4 != 0,
                    alpha: mask & 8 != 0,
                },
            ).apply_blend(state);
            if state.multisample.sample_mask != u32::MAX {
                (
                    m1,
                    Err(
                        provider::invalid(
                            op,
                            "explicit sample masks have no typed command in this provider",
                        ),
                    ),
                )
            } else {
                let m2 = m1.call(GlCall::Enable { capability: gl_const::MULTISAMPLE });
                (
                    if state.multisample.alpha_to_coverage_enabled {
                        m2.call(GlCall::Enable { capability: gl_const::SAMPLE_ALPHA_TO_COVERAGE })
                    } else {
                        m2.call(GlCall::Disable { capability: gl_const::SAMPLE_ALPHA_TO_COVERAGE })
                    },
                    Ok(()),
                )
            }
        }
    }

    /// Sets viewport, scissor and faces.
    pub open spec fn apply_shape(self, state: RasterStateModel) -> Provider {
        let m1 = self.call(
            GlCall::Viewport {
                x: state.viewport.x as i32,
                y: state.viewport.y as i32,
                width: state.viewport.width as i32,
                height: state.viewport.height as i32,
            },
        ).call(
            GlCall::DepthRange { near: state.viewport.min_depth, far: state.viewport.max_depth },
        );
        let m2 = match state.scissor {
            Some(scissor) => m1.call(GlCall::Enable { capability: gl_const::SCISSOR_TEST }).call(
                GlCall::Scissor {
                    x: scissor.x as i32,
                    y: scissor.y as i32,
                    width: scissor.width as i32,
                    height: scissor.height as i32,
                },
            ),
            None => m1.call(GlCall::Disable { capability: gl_const::SCISSOR_TEST }),
        };
        let m3 = match state.cull_mode {
            GlCullMode::Neither => m2.call(GlCall::Disable { capability: gl_const::CULL_FACE }),
            GlCullMode::Front => m2.call(GlCall::Enable { capability: gl_const::CULL_FACE }).call(
                GlCall::CullFace { face: gl_const::FRONT },
            ),
            GlCullMode::Back => m2.call(GlCall::Enable { capability: gl_const::CULL_FACE }).call(
                GlCall::CullFace { face: gl_const::BACK },
            ),
        };
        m3.call(
            GlCall::FrontFace {
                face: match state.front_face {
                    GlFrontFace::Clockwise => gl_const::CW,
                    GlFrontFace::CounterClockwise => gl_const::CCW,
                },
            },
        )
    }

    /// Sets all raster state, always in the same order.
    pub open spec fn apply_raster_state(self, op: &'static str, state: RasterStateModel) -> (
        Provider,
        Result<(), GlError>,
    ) {
        let m1 = self.apply_shape(state);
        let (m2, outcome) = match state.depth_stencil {
            Some(depth_stencil) => m1.apply_depth_stencil(op, depth_stencil),
            None => (
                m1.call(GlCall::Disable { capability: gl_const::DEPTH_TEST }).call(
                    GlCall::Disable { capability: gl_const::STENCIL_TEST },
                ).call(GlCall::Disable { capability: gl_const::POLYGON_OFFSET_FILL }),
                Ok(()),
            ),
        };
        match outcome {
            Err(error) => (m2, Err(error)),
            Ok(_) => m2.apply_color_state(op, state),
        }
    }

    /// The context after an installation, or without any if it failed.
    pub open spec fn install(
        self,
        op: &'static str,
        program: ProgramId,
        state: RasterStateModel,
        o: Seq<GlStep>,
    ) -> (Provider, Result<(), GlError>) {
        let (m1, applied) = self.apply_raster_state(op, state);
        let (m2, outcome) = match applied {
            Err(error) => (m1, Err(error)),
            Ok(_) => m1.driver_error(op, o),
        };
        match outcome {
            Err(error) => (Provider { raster: None, ..m2 }, Err(error)),
            Ok(_) => (
                Provider {
                    raster: Some(ActiveRaster { program, topology: state.topology }),
                    ..m2
                },
                Ok(()),
            ),
        }
    }

    pub open spec fn set_raster_pipeline(
        self,
        program: ProgramId,
        vertex_array: VertexArrayId,
        state: RasterStateModel,
        o: Seq<GlStep>,
    ) -> (Provider, Result<(), GlError>) {
        let op = "set-raster-pipeline";
        match self.ready(op) {
            Err(error) => (self, Err(error)),
            Ok(_) => match self.pass {
                None => (self, Err(provider::invalid(op, "no active render pass"))),
                Some(pass) => match self.program(op, program) {
                    Err(error) => (self, Err(error)),
                    Ok(_) => if !state_is_valid(
                        state,
                        GlRasterValidationInfo {
                            width: pass.width,
                            height: pass.height,
                            max_samples: self.limits.max_samples,
                            max_color_targets: self.limits.max_color_attachments,
                        },
                    ) {
                        (self, Err(provider::invalid(op, "invalid raster state")))
                    } else if state.multisample.sample_count != pass.samples {
                        (
                            self,
                            Err(
                                provider::invalid(
                                    op,
                                    "pipeline sample count does not match the active framebuffer",
                                ),
                            ),
                        )
                    } else {
                        let (m1, outcome) = self.ensure_program(op, program);
                        match outcome {
                            Err(error) => (m1, Err(error)),
                            Ok(_) => {
                                let (m2, outcome) = m1.ensure_vertex_array(op, vertex_array);
                                match outcome {
                                    Err(error) => (m2, Err(error)),
                                    Ok(_) => {
                                        m2.install(op, program, state, o)
                                    },
                                }
                            },
                        }
                    },
                },
            },
        }
    }

    /// The command of a draw without indices.
    pub open spec fn plain_draw(self, mode: u32, draw: GlNonIndexedDraw) -> Result<GlCall, GlError> {
        let op = "draw-raster";
        if draw.vertex_count == 0 || draw.instance_count == 0 {
            Err(provider::invalid(op, "draw count and instances must be nonzero"))
        } else if draw.first_vertex > i32::MAX {
            Err(provider::invalid(op, "first vertex exceeds i32"))
        } else if draw.vertex_count > i32::MAX {
            Err(provider::invalid(op, "vertex count exceeds i32"))
        } else if draw.instance_count > i32::MAX {
            Err(provider::invalid(op, "instance count exceeds i32"))
        } else if draw.instance_count == 1 {
            Ok(
                GlCall::DrawArrays {
                    mode,
                    first: draw.first_vertex as i32,
                    count: draw.vertex_count as i32,
                },
            )
        } else {
            Ok(
                GlCall::DrawArraysInstanced {
                    mode,
                    first: draw.first_vertex as i32,
                    count: draw.vertex_count as i32,
                    instances: draw.instance_count as i32,
                },
            )
        }
    }

    /// The command of a draw with indices. It stays inside the index buffer.
    pub open spec fn indexed_draw(
        self,
        mode: u32,
        index: Option<GlIndexBinding>,
        draw: GlIndexedDraw,
    ) -> Result<GlCall, GlError> {
        let op = "draw-raster";
        if draw.index_count == 0 || draw.instance_count == 0 {
            Err(provider::invalid(op, "draw count and instances must be nonzero"))
        } else {
            match index {
                None => Err(provider::invalid(op, "indexed draw requires a bound index buffer")),
                Some(index) => match self.buffer(op, index.buffer) {
                    Err(error) => Err(error),
                    Ok(entry) => {
                        let span = exec_vertex::span_of(index, draw.first_index, draw.index_count);
                        let offset = exec_vertex::offset_of(index, draw.first_index);
                        if span is None {
                            Err(provider::invalid(op, "indexed draw span overflows"))
                        } else if span->0 > entry.desc.size {
                            Err(provider::invalid(op, "indexed draw leaves the index buffer"))
                        } else if offset is None || offset->0 > i32::MAX {
                            Err(provider::invalid(op, "index offset exceeds i32"))
                        } else if draw.index_count > i32::MAX {
                            Err(provider::invalid(op, "index count exceeds i32"))
                        } else if draw.instance_count > i32::MAX {
                            Err(provider::invalid(op, "instance count exceeds i32"))
                        } else if draw.instance_count == 1 {
                            Ok(
                                GlCall::DrawElements {
                                    mode,
                                    count: draw.index_count as i32,
                                    kind: exec_vertex::kind_of_index(index.format),
                                    offset: offset->0 as i32,
                                },
                            )
                        } else {
                            Ok(
                                GlCall::DrawElementsInstanced {
                                    mode,
                                    count: draw.index_count as i32,
                                    kind: exec_vertex::kind_of_index(index.format),
                                    offset: offset->0 as i32,
                                    instances: draw.instance_count as i32,
                                },
                            )
                        }
                    },
                },
            }
        }
    }

    pub open spec fn draw_raster(self, draw: GlDrawCommand, o: Seq<GlStep>) -> (
        Provider,
        Result<(), GlError>,
    ) {
        let op = "draw-raster";
        match self.ready(op) {
            Err(error) => (self, Err(error)),
            Ok(_) => if self.pass is None {
                (self, Err(provider::invalid(op, "no active render pass")))
            } else {
                match self.raster {
                    None => (self, Err(provider::invalid(op, "no raster pipeline is installed"))),
                    Some(raster) => {
                        let (m, outcome) = self.ensure_program(op, raster.program);
                        match outcome {
                            Err(error) => (m, Err(error)),
                            Ok(_) => {
                                match m.bound_vertex_array {
                                    None => (m, Err(provider::invalid(op, "no vertex array is bound"))),
                                    Some(bound) => match m.vertex_array(op, bound) {
                                        Err(error) => (m, Err(error)),
                                        Ok(array) => {
                                            let mode = mode_of(raster.topology);
                                            let command = match draw {
                                                GlDrawCommand::NonIndexed(draw) => m.plain_draw(
                                                    mode,
                                                    draw,
                                                ),
                                                GlDrawCommand::Indexed(draw) => m.indexed_draw(
                                                    mode,
                                                    array.index,
                                                    draw,
                                                ),
                                            };
                                            match command {
                                                Err(error) => (m, Err(error)),
                                                Ok(command) => m.call(command).driver_error(op, o),
                                            }
                                        },
                                    },
                                }
                            },
                        }
                    },
                }
            },
        }
    }

    /// Several draws, one after the other, until one fails.
    pub open spec fn single_draws(self, draws: Seq<GlDrawCommand>, o: Seq<GlStep>) -> (
        Provider,
        Result<(), GlError>,
    )
        decreases draws.len(),
    {
        if draws.len() == 0 {
            (self, Ok(()))
        } else {
            let (m, outcome) = self.draw_raster(draws[0], o);
            match outcome {
                Err(error) => (m, Err(error)),
                Ok(_) => m.single_draws(draws.skip(1), o),
            }
        }
    }

    pub open spec fn multi_draw(self, draws: Seq<GlDrawCommand>, o: Seq<GlStep>) -> (
        Provider,
        Result<(), GlError>,
    ) {
        match self.ready("multi-draw") {
            Err(error) => (self, Err(error)),
            Ok(_) => self.single_draws(draws, o),
        }
    }
}

/// An indexed draw that is given never leaves its index buffer.
pub proof fn indexed_draws_stay_inside(
    context: Provider,
    mode: u32,
    index: GlIndexBinding,
    draw: GlIndexedDraw,
)
    requires
        context.indexed_draw(mode, Some(index), draw) is Ok,
    ensures
        index.offset + draw.first_index * exec_vertex::bytes_of_index(index.format)
            + draw.index_count * exec_vertex::bytes_of_index(index.format)
            <= context.buffers[index.buffer.slot as u64].desc.size,
{
}

/// A failed installation leaves no pipeline installed.
pub proof fn failed_installs_leave_nothing(
    context: Provider,
    op: &'static str,
    program: ProgramId,
    state: RasterStateModel,
    o: Seq<GlStep>,
)
    ensures
        ({
            let (after, result) = context.install(op, program, state, o);
            &&& result is Err ==> after.raster is None
            &&& result is Ok ==> after.raster == Some(
                ActiveRaster { program, topology: state.topology },
            )
        }),
{
}

impl<G: GlCalls> NativeGlProvider<G> {
    fn apply_stencil_face(&mut self, face: u32, state: &GlStencilFaceState, reference: u32)
        requires
            old(self).wf(),
        ensures
            final(self).wf(),
            call::grows(old(self)@.log, final(self)@.log),
            final(self)@ == old(self)@.apply_stencil_face(face, *state, reference),
    {
        let value: i32 = reference as i32;
        self.link.call(
            GlCall::StencilFuncSeparate {
                face,
                function: compare_function(state.compare),
                reference: value,
                mask: state.read_mask,
            },
        );
        self.link.call(GlCall::StencilMaskSeparate { face, mask: state.write_mask });
        self.link.call(
            GlCall::StencilOpSeparate {
                face,
                fail: stencil_operation(state.fail_op),
                depth_fail: stencil_operation(state.depth_fail_op),
                pass: stencil_operation(state.pass_op),
            },
        );
    }

    fn apply_depth_stencil(&mut self, op: &'static str, state: &GlDepthStencilState) -> (result:
        Result<(), GlError>)
        requires
            old(self).wf(),
        ensures
            final(self).wf(),
            call::grows(old(self)@.log, final(self)@.log),
            (final(self)@, result) == old(self)@.apply_depth_stencil(op, *state),
    {
        self.link.call(GlCall::Enable { capability: gl_const::DEPTH_TEST });
        self.link.call(GlCall::DepthMask { write: state.depth_write_enabled });
        self.link.call(GlCall::DepthFunc { function: compare_function(state.depth_compare) });
        if !float::is_zero(state.depth_bias.clamp) {
            return Err(
                validation(op, "depth-bias clamp has no typed expression in this contract"),
            );
        }
        if float::is_zero(state.depth_bias.factor) && float::is_zero(state.depth_bias.units) {
            self.link.call(GlCall::Disable { capability: gl_const::POLYGON_OFFSET_FILL });
        } else {
            self.link.call(GlCall::Enable { capability: gl_const::POLYGON_OFFSET_FILL });
            self.link.call(
                GlCall::PolygonOffset {
                    factor: state.depth_bias.factor,
                    units: state.depth_bias.units,
                },
            );
        }
        self.link.call(GlCall::Enable { capability: gl_const::STENCIL_TEST });
        self.apply_stencil_face(gl_const::FRONT, &state.stencil_front, state.stencil_reference);
        self.apply_stencil_face(gl_const::BACK, &state.stencil_back, state.stencil_reference);
        Ok(())
    }

    fn apply_blend(&mut self, state: &GlRasterState, blend: Option<GlBlendState>)
        requires
            old(self).wf(),
            state@.color_targets.len() > 0,
            blend == state@.color_targets[0].blend,
        ensures
            final(self).wf(),
            call::grows(old(self)@.log, final(self)@.log),
            final(self)@ == old(self)@.apply_blend(state@),
    {
        match blend {
            Some(blend) => {
                self.link.call(GlCall::Enable { capability: gl_const::BLEND });
                self.link.call(
                    GlCall::BlendFuncSeparate {
                        src_color: blend_factor(blend.color.src_factor),
                        dst_color: blend_factor(blend.color.dst_factor),
                        src_alpha: blend_factor(blend.alpha.src_factor),
                        dst_alpha: blend_factor(blend.alpha.dst_factor),
                    },
                );
                self.link.call(
                    GlCall::BlendEquationSeparate {
                        color: blend_operation(blend.color.operation),
                        alpha: blend_operation(blend.alpha.operation),
                    },
                );
                self.link.call(GlCall::BlendColor { color: state.blend_constant });
            },
            None => {
                self.link.call(GlCall::Disable { capability: gl_const::BLEND });
            },
        }
    }

    fn apply_color_state(&mut self, op: &'static str, state: &GlRasterState) -> (result: Result<
        (),
        GlError,
    >)
        requires
            old(self).wf(),
        ensures
            final(self).wf(),
            call::grows(old(self)@.log, final(self)@.log),
            (final(self)@, result) == old(self)@.apply_color_state(op, state@),
    {
        let targets: &Vec<GlColorTargetState> = &state.color_targets;
        if targets.len() == 0 {
            return Err(
                validation(op, "raster state declares no color target for the active pass"),
            );
        }
        if !all_targets_agree(targets) {
            return Err(
                validation(
                    op,
                    "independent per-attachment blend/write-mask is unavailable in the common semantic",
                ),
            );
        }
        let first = targets[0];
        let mask: u8 = first.write_mask;
        self.link.call(
            GlCall::ColorMask {
                red: mask & 1 != 0,
                green: mask & 2 != 0,
                blue: mask & 4 != 0,
                alpha: mask & 8 != 0,
            },
        );
        self.apply_blend(state, first.blend);
        if state.multisample.sample_mask != u32::MAX {
            return Err(
                validation(op, "explicit sample masks have no typed command in this provider"),
            );
        }
        self.link.call(GlCall::Enable { capability: gl_const::MULTISAMPLE });
        if state.multisample.alpha_to_coverage_enabled {
            self.link.call(GlCall::Enable { capability: gl_const::SAMPLE_ALPHA_TO_COVERAGE });
        } else {
            self.link.call(GlCall::Disable { capability: gl_const::SAMPLE_ALPHA_TO_COVERAGE });
        }
        Ok(())
    }

    fn apply_shape(&mut self, state: &GlRasterState)
        requires
            old(self).wf(),
        ensures
            final(self).wf(),
            call::grows(old(self)@.log, final(self)@.log),
            final(self)@ == old(self)@.apply_shape(state@),
    {
        let viewport = state.viewport;
        let x: i32 = viewport.x as i32;
        let y: i32 = viewport.y as i32;
        let width: i32 = viewport.width as i32;
        let height: i32 = viewport.height as i32;
        self.link.call(GlCall::Viewport { x, y, width, height });
        self.link.call(GlCall::DepthRange { near: viewport.min_depth, far: viewport.max_depth });
        match state.scissor {
            Some(scissor) => {
                self.link.call(GlCall::Enable { capability: gl_const::SCISSOR_TEST });
                let x: i32 = scissor.x as i32;
                let y: i32 = scissor.y as i32;
                let width: i32 = scissor.width as i32;
                let height: i32 = scissor.height as i32;
                self.link.call(GlCall::Scissor { x, y, width, height });
            },
            None => {
                self.link.call(GlCall::Disable { capability: gl_const::SCISSOR_TEST });
            },
        }
        match state.cull_mode {
            GlCullMode::Neither => {
                self.link.call(GlCall::Disable { capability: gl_const::CULL_FACE });
            },
            GlCullMode::Front => {
                self.link.call(GlCall::Enable { capability: gl_const::CULL_FACE });
                self.link.call(GlCall::CullFace { face: gl_const::FRONT });
            },
            GlCullMode::Back => {
                self.link.call(GlCall::Enable { capability: gl_const::CULL_FACE });
                self.link.call(GlCall::CullFace { face: gl_const::BACK });
            },
        }
        let face: u32 = match state.front_face {
            GlFrontFace::Clockwise => gl_const::CW,
            GlFrontFace::CounterClockwise => gl_const::CCW,
        };
        self.link.call(GlCall::FrontFace { face });
    }

    fn apply_raster_state(&mut self, op: &'static str, state: &GlRasterState) -> (result: Result<
        (),
        GlError,
    >)
        requires
            old(self).wf(),
        ensures
            final(self).wf(),
            call::grows(old(self)@.log, final(self)@.log),
            (final(self)@, result) == old(self)@.apply_raster_state(op, state@),
    {
        self.apply_shape(state);
        match &state.depth_stencil {
            Some(depth_stencil) => {
                match self.apply_depth_stencil(op, depth_stencil) {
                    Ok(()) => {},
                    Err(error) => {
                        return Err(error);
                    },
                }
            },
            None => {
                self.link.call(GlCall::Disable { capability: gl_const::DEPTH_TEST });
                self.link.call(GlCall::Disable { capability: gl_const::STENCIL_TEST });
                self.link.call(GlCall::Disable { capability: gl_const::POLYGON_OFFSET_FILL });
            },
        }
        self.apply_color_state(op, state)
    }

    /// Installs a raster pipeline for the open pass.
    pub fn set_raster_pipeline(&mut self, pipeline: &GlRasterPipeline) -> (result: Result<
        (),
        GlError,
    >)
        requires
            old(self).wf(),
        ensures
            final(self).wf(),
            call::grows(old(self)@.log, final(self)@.log),
            forall|o: Seq<GlStep>|
                call::grows(final(self)@.log, o) ==> #[trigger] old(self)@.set_raster_pipeline(pipeline.program, pipeline.vertex_array, pipeline.state@, o) == (
                    final(self)@,
                    result,
                ),
    {
        let op = "set-raster-pipeline";
        match self.assert_ready(op) {
            Ok(()) => {},
            Err(error) => {
                return Err(error);
            },
        }
        let (width, height, samples) = match &self.pass {
            Some(pass) => (pass.width, pass.height, pass.samples),
            None => {
                return Err(validation(op, "no active render pass"));
            },
        };
        let entry = match self.program(op, pipeline.program) {
            Ok(value) => value,
            Err(error) => {
                return Err(error);
            },
        };
        let info = GlRasterValidationInfo {
            width,
            height,
            max_samples: self.limits.max_samples,
            max_color_targets: self.limits.max_color_attachments,
        };
        if !validate_state(&pipeline.state, info) {
            return Err(validation(op, "invalid raster state"));
        }
        if pipeline.state.multisample.sample_count != samples {
            return Err(
                validation(op, "pipeline sample count does not match the active framebuffer"),
            );
        }
        match self.ensure_program(op, pipeline.program) {
            Ok(()) => {},
            Err(error) => {
                return Err(error);
            },
        }
        match self.ensure_vertex_array(op, pipeline.vertex_array) {
            Ok(()) => {},
            Err(error) => {
                return Err(error);
            },
        }
        let outcome = match self.apply_raster_state(op, &pipeline.state) {
            Ok(()) => self.driver_error(op),
            Err(error) => Err(error),
        };
        if let Err(error) = outcome {
            self.raster = None;
            return Err(error);
        }
        self.raster = Some(
            ActiveRaster { program: pipeline.program, topology: pipeline.state.topology },
        );
        Ok(())
    }

    fn plain_draw(&self, mode: u32, draw: GlNonIndexedDraw) -> (result: Result<GlCall, GlError>)
        ensures
            result == self@.plain_draw(mode, draw),
    {
        let op = "draw-raster";
        if draw.vertex_count == 0 || draw.instance_count == 0 {
            return Err(validation(op, "draw count and instances must be nonzero"));
        }
        if draw.first_vertex > i32::MAX as u32 {
            return Err(validation(op, "first vertex exceeds i32"));
        }
        if draw.vertex_count > i32::MAX as u32 {
            return Err(validation(op, "vertex count exceeds i32"));
        }
        if draw.instance_count > i32::MAX as u32 {
            return Err(validation(op, "instance count exceeds i32"));
        }
        let first: i32 = draw.first_vertex as i32;
        let count: i32 = draw.vertex_count as i32;
        let instances: i32 = draw.instance_count as i32;
        if draw.instance_count == 1 {
            Ok(GlCall::DrawArrays { mode, first, count })
        } else {
            Ok(GlCall::DrawArraysInstanced { mode, first, count, instances })
        }
    }

    fn indexed_draw(
        &self,
        mode: u32,
        index: Option<GlIndexBinding>,
        draw: GlIndexedDraw,
    ) -> (result: Result<GlCall, GlError>)
        requires
            self.wf(),
        ensures
            result == self@.indexed_draw(mode, index, draw),
    {
        let op = "draw-raster";
        if draw.index_count == 0 || draw.instance_count == 0 {
            return Err(validation(op, "draw count and instances must be nonzero"));
        }
        let index = match index {
            Some(index) => index,
            None => {
                return Err(validation(op, "indexed draw requires a bound index buffer"));
            },
        };
        let entry = match self.buffer(op, index.buffer) {
            Ok(value) => value,
            Err(error) => {
                return Err(error);
            },
        };
        let span = match indexed_draw_span(index, draw.first_index, draw.index_count) {
            Some(span) => span,
            None => {
                return Err(validation(op, "indexed draw span overflows"));
            },
        };
        if span > entry.desc.size {
            return Err(validation(op, "indexed draw leaves the index buffer"));
        }
        let start = match indexed_draw_offset(index, draw.first_index) {
            Some(start) => start,
            None => {
                return Err(validation(op, "index offset exceeds i32"));
            },
        };
        if start > i32::MAX as u64 {
            return Err(validation(op, "index offset exceeds i32"));
        }
        if draw.index_count > i32::MAX as u32 {
            return Err(validation(op, "index count exceeds i32"));
        }
        if draw.instance_count > i32::MAX as u32 {
            return Err(validation(op, "instance count exceeds i32"));
        }
        let offset: i32 = start as i32;
        let count: i32 = draw.index_count as i32;
        let instances: i32 = draw.instance_count as i32;
        let kind: u32 = indexed_draw_type(index);
        if draw.instance_count == 1 {
            Ok(GlCall::DrawElements { mode, count, kind, offset })
        } else {
            Ok(GlCall::DrawElementsInstanced { mode, count, kind, offset, instances })
        }
    }

    /// Draws with the installed pipeline and the bound vertex array.
    pub fn draw_raster(&mut self, draw: GlDrawCommand) -> (result: Result<(), GlError>)
        requires
            old(self).wf(),
        ensures
            final(self).wf(),
            call::grows(old(self)@.log, final(self)@.log),
            forall|o: Seq<GlStep>|
                call::grows(final(self)@.log, o) ==> #[trigger] old(self)@.draw_raster(draw, o) == (
                    final(self)@,
                    result,
                ),
    {
        let op = "draw-raster";
        match self.assert_ready(op) {
            Ok(()) => {},
            Err(error) => {
                return Err(error);
            },
        }
        if self.pass.is_none() {
            return Err(validation(op, "no active render pass"));
        }
        let raster = match self.raster {
            Some(raster) => raster,
            None => {
                return Err(validation(op, "no raster pipeline is installed"));
            },
        };
        match self.ensure_program(op, raster.program) {
            Ok(()) => {},
            Err(error) => {
                return Err(error);
            },
        }
        let bound = match self.bound_vertex_array {
            Some(bound) => bound,
            None => {
                return Err(validation(op, "no vertex array is bound"));
            },
        };
        let mode = topology_mode(raster.topology);
        let index = match self.vertex_array(op, bound) {
            Ok(array) => array.index,
            Err(error) => {
                return Err(error);
            },
        };
        let command = match draw {
            GlDrawCommand::NonIndexed(draw) => self.plain_draw(mode, draw),
            GlDrawCommand::Indexed(draw) => self.indexed_draw(mode, index, draw),
        };
        let command = match command {
            Ok(value) => value,
            Err(error) => {
                return Err(error);
            },
        };
        self.link.call(command);
        self.driver_error(op)
    }

    /// Gives several draws one after the other. No native context has a command
    /// for all of them at once.
    pub fn multi_draw(&mut self, command: &GlMultiDraw) -> (result: Result<(), GlError>)
        requires
            old(self).wf(),
        ensures
            final(self).wf(),
            call::grows(old(self)@.log, final(self)@.log),
            forall|o: Seq<GlStep>|
                call::grows(final(self)@.log, o) ==> #[trigger] old(self)@.multi_draw(command.draws@, o) == (
                    final(self)@,
                    result,
                ),
    {
        match self.assert_ready("multi-draw") {
            Ok(()) => {},
            Err(error) => {
                return Err(error);
            },
        }
        let mut at: usize = 0;
        assert(command.draws@.skip(0) =~= command.draws@);
        while at < command.draws.len()
            invariant
                at <= command.draws@.len(),
                self.wf(),
                call::grows(old(self)@.log, self@.log),
                old(self)@.ready("multi-draw") is Ok,
                forall|o: Seq<GlStep>|
                    call::grows(self@.log, o) ==> #[trigger] old(self)@.multi_draw(
                        command.draws@,
                        o,
                    ) == self@.single_draws(command.draws@.skip(at as int), o),
            decreases command.draws@.len() - at,
        {
            assert(command.draws@.skip(at as int).skip(1) =~= command.draws@.skip(at + 1));
            match self.draw_raster(command.draws[at]) {
                Ok(()) => {},
                Err(error) => {
                    return Err(error);
                },
            }
            at += 1;
        }
        Ok(())
    }
}

} // verus!
