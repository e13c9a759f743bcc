//! What the words of a pipeline mean, and what the tokens of GL mean.
//!
//! Both sides are numbers: which of two depths passes a test, what becomes of a
//! stencil value, how much a color counts in a blend. The tokens are written out
//! as the numbers that GL gives them.

use vstd::prelude::*;
use crate::api::gl::{
    GlBlendFactor, GlBlendOperation, GlDepthCompareFunction, GlFilterMode, GlIndexFormat,
    GlPrimitiveTopology, GlStencilOperation, GlVertexFormat,
};
use crate::native::exec_framebuffer;
use crate::native::exec_raster;
use crate::native::exec_vertex;
use crate::native::exec_vertex::AttributePath;

verus! {

/// Whether a value passes a test against a stored one.
pub open spec fn holds(compare: GlDepthCompareFunction, value: int, stored: int) -> bool {
    match compare {
        GlDepthCompareFunction::Never => false,
        GlDepthCompareFunction::Less => value < stored,
        GlDepthCompareFunction::Equal => value == stored,
        GlDepthCompareFunction::LessEqual => value <= stored,
        GlDepthCompareFunction::Greater => value > stored,
        GlDepthCompareFunction::NotEqual => value != stored,
        GlDepthCompareFunction::GreaterEqual => value >= stored,
        GlDepthCompareFunction::Always => true,
    }
}

/// Whether a value passes the test of a token.
pub open spec fn passes(token: u32, value: int, stored: int) -> bool {
    ||| token == 0x0201 && value < stored
    ||| token == 0x0202 && value == stored
    ||| token == 0x0203 && value <= stored
    ||| token == 0x0204 && value > stored
    ||| token == 0x0205 && value != stored
    ||| token == 0x0206 && value >= stored
    ||| token == 0x0207
}

/// Every comparison is given as the token that compares so.
pub proof fn comparisons_mean_what_they_say(
    compare: GlDepthCompareFunction,
    value: int,
    stored: int,
)
    ensures
        passes(exec_raster::comparison_of(compare), value, stored) == holds(compare, value, stored),
        compare is Never ==> exec_raster::comparison_of(compare) == 0x0200,
{
}

/// What becomes of a stencil value of eight bits.
pub open spec fn changed(operation: GlStencilOperation, stored: int, reference: int) -> int {
    match operation {
        GlStencilOperation::Keep => stored,
        GlStencilOperation::Zero => 0,
        GlStencilOperation::Replace => reference,
        GlStencilOperation::IncrementClamp => if stored < 255 {
            stored + 1
        } else {
            255
        },
        GlStencilOperation::DecrementClamp => if stored > 0 {
            stored - 1
        } else {
            0
        },
        GlStencilOperation::Invert => 255 - stored,
        GlStencilOperation::IncrementWrap => (stored + 1) % 256,
        GlStencilOperation::DecrementWrap => (stored + 255) % 256,
    }
}

/// What a token makes of a stencil value of eight bits.
pub open spec fn stencil_after(token: u32, stored: int, reference: int) -> int {
    if token == 0 {
        0
    } else if token == 0x1E01 {
        reference
    } else if token == 0x1E02 {
        if stored < 255 {
            stored + 1
        } else {
            255
        }
    } else if token == 0x1E03 {
        if stored > 0 {
            stored - 1
        } else {
            0
        }
    } else if token == 0x150A {
        255 - stored
    } else if token == 0x8507 {
        (stored + 1) % 256
    } else if token == 0x8508 {
        (stored + 255) % 256
    } else {
        stored
    }
}

/// Every change of the stencil is given as the token that makes it.
pub proof fn stencil_changes_mean_what_they_say(
    operation: GlStencilOperation,
    stored: int,
    reference: int,
)
    ensures
        stencil_after(exec_raster::stencil_token(operation), stored, reference) == changed(
            operation,
            stored,
            reference,
        ),
        operation is Keep ==> exec_raster::stencil_token(operation) == 0x1E00,
{
}

/// One channel of a blend: what is drawn, what was there, their alphas and the
/// constant, as parts of one.
pub struct Channel {
    pub one: int,
    pub src: int,
    pub src_alpha: int,
    pub dst: int,
    pub dst_alpha: int,
    pub constant: int,
}

/// How much a color counts.
pub open spec fn counted(factor: GlBlendFactor, c: Channel) -> int {
    match factor {
        GlBlendFactor::Zero => 0,
        GlBlendFactor::One => c.one,
        GlBlendFactor::Src => c.src,
        GlBlendFactor::OneMinusSrc => c.one - c.src,
        GlBlendFactor::SrcAlpha => c.src_alpha,
        GlBlendFactor::OneMinusSrcAlpha => c.one - c.src_alpha,
        GlBlendFactor::Dst => c.dst,
        GlBlendFactor::OneMinusDst => c.one - c.dst,
        GlBlendFactor::DstAlpha => c.dst_alpha,
        GlBlendFactor::OneMinusDstAlpha => c.one - c.dst_alpha,
        GlBlendFactor::Constant => c.constant,
        GlBlendFactor::OneMinusConstant => c.one - c.constant,
        GlBlendFactor::SrcAlphaSaturated => if c.src_alpha < c.one - c.dst_alpha {
            c.src_alpha
        } else {
            c.one - c.dst_alpha
        },
    }
}

/// How much a color counts under a token.
pub open spec fn weight(token: u32, c: Channel) -> int {
    if token == 0 {
        0
    } else if token == 1 {
        c.one
    } else if token == 0x0300 {
        c.src
    } else if token == 0x0301 {
        c.one - c.src
    } else if token == 0x0302 {
        c.src_alpha
    } else if token == 0x0303 {
        c.one - c.src_alpha
    } else if token == 0x0304 {
        c.dst_alpha
    } else if token == 0x0305 {
        c.one - c.dst_alpha
    } else if token == 0x0306 {
        c.dst
    } else if token == 0x0307 {
        c.one - c.dst
    } else if token == 0x0308 {
        if c.src_alpha < c.one - c.dst_alpha {
            c.src_alpha
        } else {
            c.one - c.dst_alpha
        }
    } else if token == 0x8001 {
        c.constant
    } else {
        c.one - c.constant
    }
}

/// Every weight of a blend is given as the token that weighs so.
pub proof fn blend_weights_mean_what_they_say(factor: GlBlendFactor, c: Channel)
    ensures
        weight(exec_raster::factor_token(factor), c) == counted(factor, c),
        factor is OneMinusConstant ==> exec_raster::factor_token(factor) == 0x8002,
{
}

/// What two weighed colors become.
pub open spec fn combined(operation: GlBlendOperation, src: int, dst: int) -> int {
    match operation {
        GlBlendOperation::Add => src + dst,
        GlBlendOperation::Subtract => src - dst,
        GlBlendOperation::ReverseSubtract => dst - src,
        GlBlendOperation::Min => if src < dst {
            src
        } else {
            dst
        },
        GlBlendOperation::Max => if src < dst {
            dst
        } else {
            src
        },
    }
}

/// What two weighed colors become under a token.
pub open spec fn mixed(token: u32, src: int, dst: int) -> int {
    if token == 0x8006 {
        src + dst
    } else if token == 0x800A {
        src - dst
    } else if token == 0x800B {
        dst - src
    } else if token == 0x8007 {
        if src < dst {
            src
        } else {
            dst
        }
    } else {
        if src < dst {
            dst
        } else {
            src
        }
    }
}

/// Every operation of a blend is given as the token that does it.
pub proof fn blend_operations_mean_what_they_say(operation: GlBlendOperation, src: int, dst: int)
    ensures
        mixed(exec_raster::blend_token(operation), src, dst) == combined(operation, src, dst),
        operation is Max ==> exec_raster::blend_token(operation) == 0x8008,
{
}

/// How many primitives some vertices make.
pub open spec fn primitives(topology: GlPrimitiveTopology, vertices: nat) -> nat {
    match topology {
        GlPrimitiveTopology::Points => vertices,
        GlPrimitiveTopology::Lines => vertices / 2,
        GlPrimitiveTopology::LineStrip => if vertices < 2 {
            0
        } else {
            (vertices - 1) as nat
        },
        GlPrimitiveTopology::Triangles => vertices / 3,
        GlPrimitiveTopology::TriangleStrip => if vertices < 3 {
            0
        } else {
            (vertices - 2) as nat
        },
    }
}

/// How many primitives some vertices make in a mode.
pub open spec fn made_in(mode: u32, vertices: nat) -> nat {
    if mode == 0 {
        vertices
    } else if mode == 1 {
        vertices / 2
    } else if mode == 3 {
        if vertices < 2 {
            0
        } else {
            (vertices - 1) as nat
        }
    } else if mode == 4 {
        vertices / 3
    } else if mode == 5 {
        if vertices < 3 {
            0
        } else {
            (vertices - 2) as nat
        }
    } else {
        0
    }
}

/// Every topology is given as the mode that makes its primitives.
pub proof fn topologies_mean_what_they_say(topology: GlPrimitiveTopology, vertices: nat)
    ensures
        made_in(exec_raster::mode_of(topology), vertices) == primitives(topology, vertices),
{
}

/// The bits of an index, by its token.
pub open spec fn index_bits(token: u32) -> int {
    if token == 0x1401 {
        8
    } else if token == 0x1403 {
        16
    } else if token == 0x1405 {
        32
    } else {
        0
    }
}

/// Indices are read as what they are, and counted by what they take.
pub proof fn index_formats_mean_what_they_say(format: GlIndexFormat)
    ensures
        index_bits(exec_vertex::kind_of_index(format)) == (if format is Uint16 {
            16int
        } else {
            32int
        }),
        exec_vertex::bytes_of_index(format) * 8 == index_bits(exec_vertex::kind_of_index(format)),
{
}

/// Filters are given as the tokens of GL.
pub proof fn filters_mean_what_they_say(filter: GlFilterMode)
    ensures
        exec_framebuffer::filter_token(filter) == (if filter is Nearest {
            0x2600u32
        } else {
            0x2601u32
        }),
{
}

/// A number in a buffer.
pub enum Scalar {
    Byte,
    SignedByte,
    Short,
    SignedShort,
    Half,
    Float,
    Word,
    SignedWord,
    Other,
}

impl Scalar {
    /// The bytes of a number.
    pub open spec fn bytes(self) -> int {
        match self {
            Scalar::Byte | Scalar::SignedByte => 1,
            Scalar::Short | Scalar::SignedShort | Scalar::Half => 2,
            _ => 4,
        }
    }
}

/// The numbers of an attribute.
pub open spec fn scalar_of(format: GlVertexFormat) -> Scalar {
    match format {
        GlVertexFormat::Uint8x2
        | GlVertexFormat::Uint8x4
        | GlVertexFormat::Unorm8x2
        | GlVertexFormat::Unorm8x4 => Scalar::Byte,
        GlVertexFormat::Sint8x2
        | GlVertexFormat::Sint8x4
        | GlVertexFormat::Snorm8x2
        | GlVertexFormat::Snorm8x4 => Scalar::SignedByte,
        GlVertexFormat::Uint16x2
        | GlVertexFormat::Uint16x4
        | GlVertexFormat::Unorm16x2
        | GlVertexFormat::Unorm16x4 => Scalar::Short,
        GlVertexFormat::Sint16x2
        | GlVertexFormat::Sint16x4
        | GlVertexFormat::Snorm16x2
        | GlVertexFormat::Snorm16x4 => Scalar::SignedShort,
        GlVertexFormat::Float16x2
        | GlVertexFormat::Float16x4 => Scalar::Half,
        GlVertexFormat::Float32
        | GlVertexFormat::Float32x2
        | GlVertexFormat::Float32x3
        | GlVertexFormat::Float32x4 => Scalar::Float,
        GlVertexFormat::Uint32
        | GlVertexFormat::Uint32x2
        | GlVertexFormat::Uint32x3
        | GlVertexFormat::Uint32x4 => Scalar::Word,
        GlVertexFormat::Sint32
        | GlVertexFormat::Sint32x2
        | GlVertexFormat::Sint32x3
        | GlVertexFormat::Sint32x4 => Scalar::SignedWord,
    }
}

/// How many numbers an attribute has.
pub open spec fn components_of(format: GlVertexFormat) -> int {
    match format {
        GlVertexFormat::Float32
        | GlVertexFormat::Uint32
        | GlVertexFormat::Sint32 => 1,
        GlVertexFormat::Uint8x2
        | GlVertexFormat::Sint8x2
        | GlVertexFormat::Unorm8x2
        | GlVertexFormat::Snorm8x2
        | GlVertexFormat::Uint16x2
        | GlVertexFormat::Sint16x2
        | GlVertexFormat::Unorm16x2
        | GlVertexFormat::Snorm16x2
        | GlVertexFormat::Float16x2
        | GlVertexFormat::Float32x2
        | GlVertexFormat::Uint32x2
        | GlVertexFormat::Sint32x2 => 2,
        GlVertexFormat::Float32x3
        | GlVertexFormat::Uint32x3
        | GlVertexFormat::Sint32x3 => 3,
        GlVertexFormat::Uint8x4
        | GlVertexFormat::Sint8x4
        | GlVertexFormat::Unorm8x4
        | GlVertexFormat::Snorm8x4
        | GlVertexFormat::Uint16x4
        | GlVertexFormat::Sint16x4
        | GlVertexFormat::Unorm16x4
        | GlVertexFormat::Snorm16x4
        | GlVertexFormat::Float16x4
        | GlVertexFormat::Float32x4
        | GlVertexFormat::Uint32x4
        | GlVertexFormat::Sint32x4 => 4,
    }
}

/// Whether the numbers of an attribute stand for parts of one.
pub open spec fn stands_for_parts(format: GlVertexFormat) -> bool {
    match format {
        GlVertexFormat::Unorm8x2
        | GlVertexFormat::Unorm8x4
        | GlVertexFormat::Snorm8x2
        | GlVertexFormat::Snorm8x4
        | GlVertexFormat::Unorm16x2
        | GlVertexFormat::Unorm16x4
        | GlVertexFormat::Snorm16x2
        | GlVertexFormat::Snorm16x4 => true,
        _ => false,
    }
}

/// The number that a token of GL stands for.
pub open spec fn scalar_read(kind: u32) -> Scalar {
    if kind == 0x1400 {
        Scalar::SignedByte
    } else if kind == 0x1401 {
        Scalar::Byte
    } else if kind == 0x1402 {
        Scalar::SignedShort
    } else if kind == 0x1403 {
        Scalar::Short
    } else if kind == 0x1404 {
        Scalar::SignedWord
    } else if kind == 0x1405 {
        Scalar::Word
    } else if kind == 0x1406 {
        Scalar::Float
    } else if kind == 0x140B {
        Scalar::Half
    } else {
        Scalar::Other
    }
}

/// Attributes are read as the numbers that they are, all of them. Whole words
/// stay integers; parts of one are brought into the unit interval.
pub proof fn vertex_formats_mean_what_they_say(format: GlVertexFormat)
    ensures
        match exec_vertex::path_of(format) {
            AttributePath::Float { size, kind, normalized } => {
                &&& size == components_of(format)
                &&& scalar_read(kind) == scalar_of(format)
                &&& normalized == stands_for_parts(format)
                &&& !(scalar_of(format) is Word || scalar_of(format) is SignedWord)
            },
            AttributePath::Integer { size, kind } => {
                &&& size == components_of(format)
                &&& scalar_read(kind) == scalar_of(format)
                &&& scalar_of(format) is Word || scalar_of(format) is SignedWord
            },
        },
        exec_vertex::byte_size(format) == components_of(format) * scalar_of(format).bytes(),
{
}

} // verus!
