//! The tokens of the commands that are given to a context.

use vstd::prelude::*;

verus! {

pub const POINTS: u32 = 0x0000;
pub const LINES: u32 = 0x0001;
pub const LINE_STRIP: u32 = 0x0003;
pub const TRIANGLES: u32 = 0x0004;
pub const TRIANGLE_STRIP: u32 = 0x0005;
pub const NEVER: u32 = 0x0200;
pub const LESS: u32 = 0x0201;
pub const EQUAL: u32 = 0x0202;
pub const LEQUAL: u32 = 0x0203;
pub const GREATER: u32 = 0x0204;
pub const NOTEQUAL: u32 = 0x0205;
pub const GEQUAL: u32 = 0x0206;
pub const ALWAYS: u32 = 0x0207;
pub const KEEP: u32 = 0x1E00;
pub const ZERO: u32 = 0;
pub const REPLACE: u32 = 0x1E01;
pub const INCR: u32 = 0x1E02;
pub const DECR: u32 = 0x1E03;
pub const INVERT: u32 = 0x150A;
pub const INCR_WRAP: u32 = 0x8507;
pub const DECR_WRAP: u32 = 0x8508;
pub const ONE: u32 = 1;
pub const SRC_COLOR: u32 = 0x0300;
pub const ONE_MINUS_SRC_COLOR: u32 = 0x0301;
pub const SRC_ALPHA: u32 = 0x0302;
pub const ONE_MINUS_SRC_ALPHA: u32 = 0x0303;
pub const DST_COLOR: u32 = 0x0306;
pub const ONE_MINUS_DST_COLOR: u32 = 0x0307;
pub const DST_ALPHA: u32 = 0x0304;
pub const ONE_MINUS_DST_ALPHA: u32 = 0x0305;
pub const CONSTANT_COLOR: u32 = 0x8001;
pub const ONE_MINUS_CONSTANT_COLOR: u32 = 0x8002;
pub const SRC_ALPHA_SATURATE: u32 = 0x0308;
pub const FUNC_ADD: u32 = 0x8006;
pub const FUNC_SUBTRACT: u32 = 0x800A;
pub const FUNC_REVERSE_SUBTRACT: u32 = 0x800B;
pub const MIN: u32 = 0x8007;
pub const MAX: u32 = 0x8008;
pub const COLOR_BUFFER_BIT: u32 = 0x00004000;
pub const DEPTH_BUFFER_BIT: u32 = 0x00000100;
pub const STENCIL_BUFFER_BIT: u32 = 0x00000400;
pub const NEAREST: u32 = 0x2600;
pub const LINEAR: u32 = 0x2601;
pub const COLOR_ATTACHMENT0: u32 = 0x8CE0;
pub const DEPTH_ATTACHMENT: u32 = 0x8D00;
pub const STENCIL_ATTACHMENT: u32 = 0x8D20;
pub const DEPTH_STENCIL_ATTACHMENT: u32 = 0x821A;
pub const FRAMEBUFFER: u32 = 0x8D40;
pub const READ_FRAMEBUFFER: u32 = 0x8CA8;
pub const DRAW_FRAMEBUFFER: u32 = 0x8CA9;
pub const RENDERBUFFER: u32 = 0x8D41;
pub const FRAMEBUFFER_COMPLETE: u32 = 0x8CD5;
pub const SCISSOR_TEST: u32 = 0x0C11;
pub const CULL_FACE: u32 = 0x0B44;
pub const FRONT: u32 = 0x0404;
pub const BACK: u32 = 0x0405;
pub const CW: u32 = 0x0900;
pub const CCW: u32 = 0x0901;
pub const DEPTH_TEST: u32 = 0x0B71;
pub const STENCIL_TEST: u32 = 0x0B90;
pub const POLYGON_OFFSET_FILL: u32 = 0x8037;
pub const BLEND: u32 = 0x0BE2;
pub const MULTISAMPLE: u32 = 0x809D;
pub const SAMPLE_ALPHA_TO_COVERAGE: u32 = 0x809E;
pub const TEXTURE_2D: u32 = 0x0DE1;
pub const TEXTURE_2D_MULTISAMPLE: u32 = 0x9100;
pub const UNSIGNED_BYTE: u32 = 0x1401;
pub const BYTE: u32 = 0x1400;
pub const UNSIGNED_SHORT: u32 = 0x1403;
pub const SHORT: u32 = 0x1402;
pub const HALF_FLOAT: u32 = 0x140B;
pub const FLOAT: u32 = 0x1406;
pub const UNSIGNED_INT: u32 = 0x1405;
pub const INT: u32 = 0x1404;
pub const ARRAY_BUFFER: u32 = 0x8892;
pub const ELEMENT_ARRAY_BUFFER: u32 = 0x8893;
pub const NO_ERROR: u32 = 0;
pub const OUT_OF_MEMORY: u32 = 0x0505;
pub const CONTEXT_LOST: u32 = 0x0507;

/// No buffer at all.
pub const NO_BUFFER: u32 = 0;

} // verus!
