//! Pipeline descriptors of the portable interface.

use vstd::prelude::*;
use std::sync::Arc;
use crate::api::format::TextureFormat;
use crate::api::resource::CompareFunction;
use crate::api::shader::{PipelineInterface, ShaderModule};

verus! {

/// How vertices form primitives.
#[derive(Clone, Copy, Debug, PartialEq, Eq, Structural)]
pub enum PrimitiveTopology {
    PointList,
    LineList,
    LineStrip,
    TriangleList,
    TriangleStrip,
}

/// Which faces are dropped.
#[derive(Clone, Copy, Debug, PartialEq, Eq, Structural)]
pub enum CullMode {
    Neither,
    Front,
    Back,
}

/// Which winding is the front.
#[derive(Clone, Copy, Debug, PartialEq, Eq, Structural)]
pub enum FrontFace {
    Ccw,
    Cw,
}

/// How polygons are drawn.
#[derive(Clone, Copy, Debug, PartialEq, Eq, Structural)]
pub enum PolygonMode {
    Fill,
    Line,
    Point,
}

/// How primitives are assembled and rasterised.
#[derive(Clone, Copy, Debug, PartialEq, Eq, Structural)]
pub struct PrimitiveState {
    pub topology: PrimitiveTopology,
    pub cull_mode: CullMode,
    pub front_face: FrontFace,
    pub polygon_mode: PolygonMode,
    pub unclipped_depth: bool,
    pub conservative: bool,
}

/// A factor of the blend equation.
#[derive(Clone, Copy, Debug, PartialEq, Eq, Structural)]
pub enum BlendFactor {
    Zero,
    One,
    Src,
    OneMinusSrc,
    SrcAlpha,
    OneMinusSrcAlpha,
    Dst,
    OneMinusDst,
    DstAlpha,
    OneMinusDstAlpha,
    Constant,
    OneMinusConstant,
    SrcAlphaSaturated,
    Src1,
    OneMinusSrc1,
    Src1Alpha,
    OneMinusSrc1Alpha,
}

/// An operation of the blend equation.
#[derive(Clone, Copy, Debug, PartialEq, Eq, Structural)]
pub enum BlendOperation {
    Add,
    Subtract,
    ReverseSubtract,
    Min,
    Max,
}

/// The blend equation of color or alpha.
#[derive(Clone, Copy, Debug, PartialEq, Eq, Structural)]
pub struct BlendComponent {
    pub src_factor: BlendFactor,
    pub dst_factor: BlendFactor,
    pub operation: BlendOperation,
}

/// The blend equations of a target.
#[derive(Clone, Copy, Debug, PartialEq, Eq, Structural)]
pub struct BlendState {
    pub color: BlendComponent,
    pub alpha: BlendComponent,
}

/// The channels that are written.
#[derive(Clone, Copy, Debug, PartialEq, Eq, Structural)]
pub struct ColorWriteMask {
    pub red: bool,
    pub green: bool,
    pub blue: bool,
    pub alpha: bool,
}

impl ColorWriteMask {
    /// No flag at all.
    pub open spec fn spec_none() -> ColorWriteMask {
        ColorWriteMask { red: false, green: false, blue: false, alpha: false }
    }

    /// No flag at all.
    pub fn none() -> (result: Self)
        ensures
            result == ColorWriteMask::spec_none(),
    {
        ColorWriteMask { red: false, green: false, blue: false, alpha: false }
    }
}

/// What is written to a color target.
#[derive(Clone, Copy, Debug, PartialEq, Eq, Structural)]
pub struct ColorTargetState {
    pub write_mask: ColorWriteMask,
    pub blend: Option<BlendState>,
}

/// What happens to a stencil value.
#[derive(Clone, Copy, Debug, PartialEq, Eq, Structural)]
pub enum StencilOperation {
    Keep,
    Zero,
    Replace,
    IncrementClamp,
    DecrementClamp,
    Invert,
    IncrementWrap,
    DecrementWrap,
}

/// The stencil test of one face.
#[derive(Clone, Copy, Debug, PartialEq, Eq, Structural)]
pub struct StencilFaceState {
    pub compare: CompareFunction,
    pub fail_op: StencilOperation,
    pub depth_fail_op: StencilOperation,
    pub pass_op: StencilOperation,
}

/// The stencil test.
#[derive(Clone, Copy, Debug, PartialEq, Eq, Structural)]
pub struct StencilState {
    pub front: StencilFaceState,
    pub back: StencilFaceState,
    pub read_mask: u32,
    pub write_mask: u32,
}

/// The depth test.
#[derive(Clone, Copy, Debug, PartialEq, Eq, Structural)]
pub struct DepthState {
    pub write_enabled: bool,
    pub compare: CompareFunction,
}

/// The depth and stencil tests.
#[derive(Clone, Copy, Debug, PartialEq, Eq, Structural)]
pub struct DepthStencilState {
    pub format: TextureFormat,
    pub depth: Option<DepthState>,
    pub stencil: Option<StencilState>,
}

/// When a vertex buffer advances.
#[derive(Clone, Copy, Debug, PartialEq, Eq, Structural)]
pub enum VertexStepMode {
    Vertex,
    Instance,
}

/// The format of a vertex attribute.
#[derive(Clone, Copy, Debug, PartialEq, Eq, Structural)]
pub enum VertexFormat {
    Uint8,
    Uint8x2,
    Uint8x4,
    Sint8,
    Sint8x2,
    Sint8x4,
    Unorm8,
    Unorm8x2,
    Unorm8x4,
    Unorm8x4Bgra,
    Snorm8,
    Snorm8x2,
    Snorm8x4,
    Uint16,
    Uint16x2,
    Uint16x4,
    Sint16,
    Sint16x2,
    Sint16x4,
    Unorm16,
    Unorm16x2,
    Unorm16x4,
    Snorm16,
    Snorm16x2,
    Snorm16x4,
    Float16,
    Float16x2,
    Float16x4,
    Float32,
    Float32x2,
    Float32x3,
    Float32x4,
    Uint32,
    Uint32x2,
    Uint32x3,
    Uint32x4,
    Sint32,
    Sint32x2,
    Sint32x3,
    Sint32x4,
    Unorm10_10_10_2,
}

/// One attribute of a vertex buffer.
#[derive(Clone, Copy, Debug, PartialEq, Eq, Structural)]
pub struct VertexAttribute {
    pub location: u32,
    pub format: VertexFormat,
    pub offset: u64,
}

/// The layout of one vertex buffer.
#[derive(Clone, Debug)]
pub struct VertexBufferLayout {
    pub stride: u64,
    pub step_mode: VertexStepMode,
    pub attributes: Vec<VertexAttribute>,
}

/// The samples of a pipeline.
#[derive(Clone, Copy, Debug, PartialEq, Eq, Structural)]
pub struct MultisampleState {
    pub count: u32,
    pub mask: u32,
    pub alpha_to_coverage_enabled: bool,
}

/// A raster pipeline.
#[derive(Clone, Debug)]
pub struct RasterPipelineDescriptor {
    pub label: Option<Arc<String>>,
    pub vertex: ShaderModule,
    pub fragment: Option<ShaderModule>,
    pub interface: PipelineInterface,
    pub vertex_buffers: Vec<VertexBufferLayout>,
    pub primitive: PrimitiveState,
    pub color_targets: Vec<Option<ColorTargetState>>,
    pub depth_stencil: Option<DepthStencilState>,
    pub multisample: MultisampleState,
}

/// A compute pipeline.
#[derive(Clone, Debug)]
pub struct ComputePipelineDescriptor {
    pub label: Option<Arc<String>>,
    pub shader: ShaderModule,
    pub interface: PipelineInterface,
}

impl StencilFaceState {
    /// The state that keeps every stencil value.
    pub open spec fn keeping(compare: CompareFunction) -> StencilFaceState {
        StencilFaceState {
            compare,
            fail_op: StencilOperation::Keep,
            depth_fail_op: StencilOperation::Keep,
            pass_op: StencilOperation::Keep,
        }
    }

    pub fn new(compare: CompareFunction) -> (result: Self)
        ensures
            result == StencilFaceState::keeping(compare),
    {
        StencilFaceState {
            compare,
            fail_op: StencilOperation::Keep,
            depth_fail_op: StencilOperation::Keep,
            pass_op: StencilOperation::Keep,
        }
    }
}

impl StencilState {
    pub fn new(front: StencilFaceState, back: StencilFaceState) -> (result: Self)
        ensures
            result == (StencilState { front, back, read_mask: u32::MAX, write_mask: u32::MAX }),
    {
        StencilState { front, back, read_mask: u32::MAX, write_mask: u32::MAX }
    }
}

impl DepthState {
    /// A test that writes nothing.
    pub fn new(compare: CompareFunction) -> (result: Self)
        ensures
            result == (DepthState { write_enabled: false, compare }),
    {
        DepthState { write_enabled: false, compare }
    }
}

} // verus!
