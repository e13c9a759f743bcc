//! What the formats of both vocabularies stand for: which channels a texel has,
//! how wide they are, what numbers they hold and how they are coded.

use vstd::prelude::*;
use crate::api::discovery::GlLimits;
use crate::api::format::{GlAstcBlock, GlCompressedColorSpace, GlFormat, TextureFormat};
use crate::native::formats;
use crate::translate;

verus! {

/// The channels of a texel, in the order of memory.
pub enum Channels {
    R,
    Rg,
    Rgb,
    RgbBit,
    Rgba,
    Bgra,
    Depth,
    DepthStencil,
    Stencil,
    Planes,
}

/// What the bits of a channel stand for.
pub enum Numbers {
    Unorm,
    Snorm,
    Uint,
    Sint,
    Float,
    Ufloat,
}

/// How texels are stored.
pub enum Coding {
    Plain,
    Packed,
    SharedExponent,
    Bc(int),
    Etc2,
    Eac,
    Astc(int, int),
}

/// What a format says of a texel. The bits are those of the widest channel.
pub struct Texel {
    pub channels: Channels,
    pub bits: int,
    pub numbers: Numbers,
    pub srgb: bool,
    pub coding: Coding,
}

pub open spec fn texel(
    channels: Channels,
    bits: int,
    numbers: Numbers,
    srgb: bool,
    coding: Coding,
) -> Texel {
    Texel { channels, bits, numbers, srgb, coding }
}

/// What a portable format stands for.
pub open spec fn portable_texel(format: TextureFormat) -> Texel {
    match format {
        TextureFormat::R8Unorm => texel(Channels::R, 8, Numbers::Unorm, false, Coding::Plain),
        TextureFormat::R8Snorm => texel(Channels::R, 8, Numbers::Snorm, false, Coding::Plain),
        TextureFormat::R8Uint => texel(Channels::R, 8, Numbers::Uint, false, Coding::Plain),
        TextureFormat::R8Sint => texel(Channels::R, 8, Numbers::Sint, false, Coding::Plain),
        TextureFormat::Rg8Unorm => texel(Channels::Rg, 8, Numbers::Unorm, false, Coding::Plain),
        TextureFormat::Rg8Snorm => texel(Channels::Rg, 8, Numbers::Snorm, false, Coding::Plain),
        TextureFormat::Rg8Uint => texel(Channels::Rg, 8, Numbers::Uint, false, Coding::Plain),
        TextureFormat::Rg8Sint => texel(Channels::Rg, 8, Numbers::Sint, false, Coding::Plain),
        TextureFormat::Rgba8Unorm => texel(Channels::Rgba, 8, Numbers::Unorm, false, Coding::Plain),
        TextureFormat::Rgba8UnormSrgb => texel(Channels::Rgba, 8, Numbers::Unorm, true, Coding::Plain),
        TextureFormat::Rgba8Snorm => texel(Channels::Rgba, 8, Numbers::Snorm, false, Coding::Plain),
        TextureFormat::Rgba8Uint => texel(Channels::Rgba, 8, Numbers::Uint, false, Coding::Plain),
        TextureFormat::Rgba8Sint => texel(Channels::Rgba, 8, Numbers::Sint, false, Coding::Plain),
        TextureFormat::Bgra8Unorm => texel(Channels::Bgra, 8, Numbers::Unorm, false, Coding::Plain),
        TextureFormat::Bgra8UnormSrgb => texel(Channels::Bgra, 8, Numbers::Unorm, true, Coding::Plain),
        TextureFormat::R16Uint => texel(Channels::R, 16, Numbers::Uint, false, Coding::Plain),
        TextureFormat::R16Sint => texel(Channels::R, 16, Numbers::Sint, false, Coding::Plain),
        TextureFormat::R16Float => texel(Channels::R, 16, Numbers::Float, false, Coding::Plain),
        TextureFormat::R16Unorm => texel(Channels::R, 16, Numbers::Unorm, false, Coding::Plain),
        TextureFormat::R16Snorm => texel(Channels::R, 16, Numbers::Snorm, false, Coding::Plain),
        TextureFormat::Rg16Uint => texel(Channels::Rg, 16, Numbers::Uint, false, Coding::Plain),
        TextureFormat::Rg16Sint => texel(Channels::Rg, 16, Numbers::Sint, false, Coding::Plain),
        TextureFormat::Rg16Float => texel(Channels::Rg, 16, Numbers::Float, false, Coding::Plain),
        TextureFormat::Rg16Unorm => texel(Channels::Rg, 16, Numbers::Unorm, false, Coding::Plain),
        TextureFormat::Rg16Snorm => texel(Channels::Rg, 16, Numbers::Snorm, false, Coding::Plain),
        TextureFormat::Rgba16Uint => texel(Channels::Rgba, 16, Numbers::Uint, false, Coding::Plain),
        TextureFormat::Rgba16Sint => texel(Channels::Rgba, 16, Numbers::Sint, false, Coding::Plain),
        TextureFormat::Rgba16Unorm => texel(Channels::Rgba, 16, Numbers::Unorm, false, Coding::Plain),
        TextureFormat::Rgba16Snorm => texel(Channels::Rgba, 16, Numbers::Snorm, false, Coding::Plain),
        TextureFormat::Rgba16Float => texel(Channels::Rgba, 16, Numbers::Float, false, Coding::Plain),
        TextureFormat::Rgba32Float => texel(Channels::Rgba, 32, Numbers::Float, false, Coding::Plain),
        TextureFormat::Rgb9e5Ufloat => texel(Channels::Rgb, 9, Numbers::Ufloat, false, Coding::SharedExponent),
        TextureFormat::Rgb10a2Uint => texel(Channels::Rgba, 10, Numbers::Uint, false, Coding::Packed),
        TextureFormat::Rgb10a2Unorm => texel(Channels::Rgba, 10, Numbers::Unorm, false, Coding::Packed),
        TextureFormat::Rg11b10Ufloat => texel(Channels::Rgb, 11, Numbers::Ufloat, false, Coding::Packed),
        TextureFormat::R32Uint => texel(Channels::R, 32, Numbers::Uint, false, Coding::Plain),
        TextureFormat::R32Sint => texel(Channels::R, 32, Numbers::Sint, false, Coding::Plain),
        TextureFormat::R32Float => texel(Channels::R, 32, Numbers::Float, false, Coding::Plain),
        TextureFormat::R64Uint => texel(Channels::R, 64, Numbers::Uint, false, Coding::Plain),
        TextureFormat::Rg32Uint => texel(Channels::Rg, 32, Numbers::Uint, false, Coding::Plain),
        TextureFormat::Rg32Sint => texel(Channels::Rg, 32, Numbers::Sint, false, Coding::Plain),
        TextureFormat::Rg32Float => texel(Channels::Rg, 32, Numbers::Float, false, Coding::Plain),
        TextureFormat::Rgba32Uint => texel(Channels::Rgba, 32, Numbers::Uint, false, Coding::Plain),
        TextureFormat::Rgba32Sint => texel(Channels::Rgba, 32, Numbers::Sint, false, Coding::Plain),
        TextureFormat::Depth16Unorm => texel(Channels::Depth, 16, Numbers::Unorm, false, Coding::Plain),
        TextureFormat::Depth24Plus => texel(Channels::Depth, 24, Numbers::Unorm, false, Coding::Plain),
        TextureFormat::Depth24PlusStencil8 => texel(Channels::DepthStencil, 24, Numbers::Unorm, false, Coding::Plain),
        TextureFormat::Depth32Float => texel(Channels::Depth, 32, Numbers::Float, false, Coding::Plain),
        TextureFormat::Depth32FloatStencil8 => texel(Channels::DepthStencil, 32, Numbers::Float, false, Coding::Plain),
        TextureFormat::Stencil8 => texel(Channels::Stencil, 8, Numbers::Uint, false, Coding::Plain),
        TextureFormat::Bc1RgbaUnorm => texel(Channels::Rgba, 0, Numbers::Unorm, false, Coding::Bc(1)),
        TextureFormat::Bc1RgbaUnormSrgb => texel(Channels::Rgba, 0, Numbers::Unorm, true, Coding::Bc(1)),
        TextureFormat::Bc2RgbaUnorm => texel(Channels::Rgba, 0, Numbers::Unorm, false, Coding::Bc(2)),
        TextureFormat::Bc2RgbaUnormSrgb => texel(Channels::Rgba, 0, Numbers::Unorm, true, Coding::Bc(2)),
        TextureFormat::Bc3RgbaUnorm => texel(Channels::Rgba, 0, Numbers::Unorm, false, Coding::Bc(3)),
        TextureFormat::Bc3RgbaUnormSrgb => texel(Channels::Rgba, 0, Numbers::Unorm, true, Coding::Bc(3)),
        TextureFormat::Bc4RUnorm => texel(Channels::R, 0, Numbers::Unorm, false, Coding::Bc(4)),
        TextureFormat::Bc4RSnorm => texel(Channels::R, 0, Numbers::Snorm, false, Coding::Bc(4)),
        TextureFormat::Bc5RgUnorm => texel(Channels::Rg, 0, Numbers::Unorm, false, Coding::Bc(5)),
        TextureFormat::Bc5RgSnorm => texel(Channels::Rg, 0, Numbers::Snorm, false, Coding::Bc(5)),
        TextureFormat::Bc6hRgbUfloat => texel(Channels::Rgb, 0, Numbers::Ufloat, false, Coding::Bc(6)),
        TextureFormat::Bc6hRgbFloat => texel(Channels::Rgb, 0, Numbers::Float, false, Coding::Bc(6)),
        TextureFormat::Bc7RgbaUnorm => texel(Channels::Rgba, 0, Numbers::Unorm, false, Coding::Bc(7)),
        TextureFormat::Bc7RgbaUnormSrgb => texel(Channels::Rgba, 0, Numbers::Unorm, true, Coding::Bc(7)),
        TextureFormat::Etc2Rgb8Unorm => texel(Channels::Rgb, 0, Numbers::Unorm, false, Coding::Etc2),
        TextureFormat::Etc2Rgb8UnormSrgb => texel(Channels::Rgb, 0, Numbers::Unorm, true, Coding::Etc2),
        TextureFormat::Etc2Rgb8A1Unorm => texel(Channels::RgbBit, 0, Numbers::Unorm, false, Coding::Etc2),
        TextureFormat::Etc2Rgb8A1UnormSrgb => texel(Channels::RgbBit, 0, Numbers::Unorm, true, Coding::Etc2),
        TextureFormat::Etc2Rgba8Unorm => texel(Channels::Rgba, 0, Numbers::Unorm, false, Coding::Etc2),
        TextureFormat::Etc2Rgba8UnormSrgb => texel(Channels::Rgba, 0, Numbers::Unorm, true, Coding::Etc2),
        TextureFormat::EacR11Unorm => texel(Channels::R, 0, Numbers::Unorm, false, Coding::Eac),
        TextureFormat::EacR11Snorm => texel(Channels::R, 0, Numbers::Snorm, false, Coding::Eac),
        TextureFormat::EacRg11Unorm => texel(Channels::Rg, 0, Numbers::Unorm, false, Coding::Eac),
        TextureFormat::EacRg11Snorm => texel(Channels::Rg, 0, Numbers::Snorm, false, Coding::Eac),
        TextureFormat::Astc4x4Unorm => texel(Channels::Rgba, 0, Numbers::Unorm, false, Coding::Astc(4, 4)),
        TextureFormat::Astc4x4UnormSrgb => texel(Channels::Rgba, 0, Numbers::Unorm, true, Coding::Astc(4, 4)),
        TextureFormat::Astc4x4Hdr => texel(Channels::Rgba, 0, Numbers::Float, false, Coding::Astc(4, 4)),
        TextureFormat::Astc5x4Unorm => texel(Channels::Rgba, 0, Numbers::Unorm, false, Coding::Astc(5, 4)),
        TextureFormat::Astc5x4UnormSrgb => texel(Channels::Rgba, 0, Numbers::Unorm, true, Coding::Astc(5, 4)),
        TextureFormat::Astc5x4Hdr => texel(Channels::Rgba, 0, Numbers::Float, false, Coding::Astc(5, 4)),
        TextureFormat::Astc5x5Unorm => texel(Channels::Rgba, 0, Numbers::Unorm, false, Coding::Astc(5, 5)),
        TextureFormat::Astc5x5UnormSrgb => texel(Channels::Rgba, 0, Numbers::Unorm, true, Coding::Astc(5, 5)),
        TextureFormat::Astc5x5Hdr => texel(Channels::Rgba, 0, Numbers::Float, false, Coding::Astc(5, 5)),
        TextureFormat::Astc6x5Unorm => texel(Channels::Rgba, 0, Numbers::Unorm, false, Coding::Astc(6, 5)),
        TextureFormat::Astc6x5UnormSrgb => texel(Channels::Rgba, 0, Numbers::Unorm, true, Coding::Astc(6, 5)),
        TextureFormat::Astc6x5Hdr => texel(Channels::Rgba, 0, Numbers::Float, false, Coding::Astc(6, 5)),
        TextureFormat::Astc6x6Unorm => texel(Channels::Rgba, 0, Numbers::Unorm, false, Coding::Astc(6, 6)),
        TextureFormat::Astc6x6UnormSrgb => texel(Channels::Rgba, 0, Numbers::Unorm, true, Coding::Astc(6, 6)),
        TextureFormat::Astc6x6Hdr => texel(Channels::Rgba, 0, Numbers::Float, false, Coding::Astc(6, 6)),
        TextureFormat::Astc8x5Unorm => texel(Channels::Rgba, 0, Numbers::Unorm, false, Coding::Astc(8, 5)),
        TextureFormat::Astc8x5UnormSrgb => texel(Channels::Rgba, 0, Numbers::Unorm, true, Coding::Astc(8, 5)),
        TextureFormat::Astc8x5Hdr => texel(Channels::Rgba, 0, Numbers::Float, false, Coding::Astc(8, 5)),
        TextureFormat::Astc8x6Unorm => texel(Channels::Rgba, 0, Numbers::Unorm, false, Coding::Astc(8, 6)),
        TextureFormat::Astc8x6UnormSrgb => texel(Channels::Rgba, 0, Numbers::Unorm, true, Coding::Astc(8, 6)),
        TextureFormat::Astc8x6Hdr => texel(Channels::Rgba, 0, Numbers::Float, false, Coding::Astc(8, 6)),
        TextureFormat::Astc8x8Unorm => texel(Channels::Rgba, 0, Numbers::Unorm, false, Coding::Astc(8, 8)),
        TextureFormat::Astc8x8UnormSrgb => texel(Channels::Rgba, 0, Numbers::Unorm, true, Coding::Astc(8, 8)),
        TextureFormat::Astc8x8Hdr => texel(Channels::Rgba, 0, Numbers::Float, false, Coding::Astc(8, 8)),
        TextureFormat::Astc10x5Unorm => texel(Channels::Rgba, 0, Numbers::Unorm, false, Coding::Astc(10, 5)),
        TextureFormat::Astc10x5UnormSrgb => texel(Channels::Rgba, 0, Numbers::Unorm, true, Coding::Astc(10, 5)),
        TextureFormat::Astc10x5Hdr => texel(Channels::Rgba, 0, Numbers::Float, false, Coding::Astc(10, 5)),
        TextureFormat::Astc10x6Unorm => texel(Channels::Rgba, 0, Numbers::Unorm, false, Coding::Astc(10, 6)),
        TextureFormat::Astc10x6UnormSrgb => texel(Channels::Rgba, 0, Numbers::Unorm, true, Coding::Astc(10, 6)),
        TextureFormat::Astc10x6Hdr => texel(Channels::Rgba, 0, Numbers::Float, false, Coding::Astc(10, 6)),
        TextureFormat::Astc10x8Unorm => texel(Channels::Rgba, 0, Numbers::Unorm, false, Coding::Astc(10, 8)),
        TextureFormat::Astc10x8UnormSrgb => texel(Channels::Rgba, 0, Numbers::Unorm, true, Coding::Astc(10, 8)),
        TextureFormat::Astc10x8Hdr => texel(Channels::Rgba, 0, Numbers::Float, false, Coding::Astc(10, 8)),
        TextureFormat::Astc10x10Unorm => texel(Channels::Rgba, 0, Numbers::Unorm, false, Coding::Astc(10, 10)),
        TextureFormat::Astc10x10UnormSrgb => texel(Channels::Rgba, 0, Numbers::Unorm, true, Coding::Astc(10, 10)),
        TextureFormat::Astc10x10Hdr => texel(Channels::Rgba, 0, Numbers::Float, false, Coding::Astc(10, 10)),
        TextureFormat::Astc12x10Unorm => texel(Channels::Rgba, 0, Numbers::Unorm, false, Coding::Astc(12, 10)),
        TextureFormat::Astc12x10UnormSrgb => texel(Channels::Rgba, 0, Numbers::Unorm, true, Coding::Astc(12, 10)),
        TextureFormat::Astc12x10Hdr => texel(Channels::Rgba, 0, Numbers::Float, false, Coding::Astc(12, 10)),
        TextureFormat::Astc12x12Unorm => texel(Channels::Rgba, 0, Numbers::Unorm, false, Coding::Astc(12, 12)),
        TextureFormat::Astc12x12UnormSrgb => texel(Channels::Rgba, 0, Numbers::Unorm, true, Coding::Astc(12, 12)),
        TextureFormat::Astc12x12Hdr => texel(Channels::Rgba, 0, Numbers::Float, false, Coding::Astc(12, 12)),
        TextureFormat::Nv12 => texel(Channels::Planes, 8, Numbers::Unorm, false, Coding::Plain),
    }
}

/// The width of an ASTC block.
pub open spec fn astc_width(block: GlAstcBlock) -> int {
    match block {
        GlAstcBlock::B4x4 => 4,
        GlAstcBlock::B5x4 | GlAstcBlock::B5x5 => 5,
        GlAstcBlock::B6x5 | GlAstcBlock::B6x6 => 6,
        GlAstcBlock::B8x5 | GlAstcBlock::B8x6 | GlAstcBlock::B8x8 => 8,
        GlAstcBlock::B10x5
        | GlAstcBlock::B10x6
        | GlAstcBlock::B10x8
        | GlAstcBlock::B10x10 => 10,
        GlAstcBlock::B12x10 | GlAstcBlock::B12x12 => 12,
    }
}

/// The height of an ASTC block.
pub open spec fn astc_height(block: GlAstcBlock) -> int {
    match block {
        GlAstcBlock::B4x4 | GlAstcBlock::B5x4 => 4,
        GlAstcBlock::B5x5
        | GlAstcBlock::B6x5
        | GlAstcBlock::B8x5
        | GlAstcBlock::B10x5 => 5,
        GlAstcBlock::B6x6 | GlAstcBlock::B8x6 | GlAstcBlock::B10x6 => 6,
        GlAstcBlock::B8x8 | GlAstcBlock::B10x8 => 8,
        GlAstcBlock::B10x10 | GlAstcBlock::B12x10 => 10,
        GlAstcBlock::B12x12 => 12,
    }
}

/// What a format of the GL family stands for.
pub open spec fn gl_texel(format: GlFormat) -> Texel {
    match format {
        GlFormat::R8Unorm => texel(Channels::R, 8, Numbers::Unorm, false, Coding::Plain),
        GlFormat::R8Snorm => texel(Channels::R, 8, Numbers::Snorm, false, Coding::Plain),
        GlFormat::R8Uint => texel(Channels::R, 8, Numbers::Uint, false, Coding::Plain),
        GlFormat::R8Sint => texel(Channels::R, 8, Numbers::Sint, false, Coding::Plain),
        GlFormat::Rg8Unorm => texel(Channels::Rg, 8, Numbers::Unorm, false, Coding::Plain),
        GlFormat::Rg8Snorm => texel(Channels::Rg, 8, Numbers::Snorm, false, Coding::Plain),
        GlFormat::Rg8Uint => texel(Channels::Rg, 8, Numbers::Uint, false, Coding::Plain),
        GlFormat::Rg8Sint => texel(Channels::Rg, 8, Numbers::Sint, false, Coding::Plain),
        GlFormat::Rgba8Unorm => texel(Channels::Rgba, 8, Numbers::Unorm, false, Coding::Plain),
        GlFormat::Rgba8Srgb => texel(Channels::Rgba, 8, Numbers::Unorm, true, Coding::Plain),
        GlFormat::Rgba8Snorm => texel(Channels::Rgba, 8, Numbers::Snorm, false, Coding::Plain),
        GlFormat::Rgba8Uint => texel(Channels::Rgba, 8, Numbers::Uint, false, Coding::Plain),
        GlFormat::Rgba8Sint => texel(Channels::Rgba, 8, Numbers::Sint, false, Coding::Plain),
        GlFormat::Bgra8Unorm => texel(Channels::Bgra, 8, Numbers::Unorm, false, Coding::Plain),
        GlFormat::Bgra8Srgb => texel(Channels::Bgra, 8, Numbers::Unorm, true, Coding::Plain),
        GlFormat::R16Uint => texel(Channels::R, 16, Numbers::Uint, false, Coding::Plain),
        GlFormat::R16Sint => texel(Channels::R, 16, Numbers::Sint, false, Coding::Plain),
        GlFormat::R16Float => texel(Channels::R, 16, Numbers::Float, false, Coding::Plain),
        GlFormat::R16Unorm => texel(Channels::R, 16, Numbers::Unorm, false, Coding::Plain),
        GlFormat::R16Snorm => texel(Channels::R, 16, Numbers::Snorm, false, Coding::Plain),
        GlFormat::Rg16Uint => texel(Channels::Rg, 16, Numbers::Uint, false, Coding::Plain),
        GlFormat::Rg16Sint => texel(Channels::Rg, 16, Numbers::Sint, false, Coding::Plain),
        GlFormat::Rg16Float => texel(Channels::Rg, 16, Numbers::Float, false, Coding::Plain),
        GlFormat::Rg16Unorm => texel(Channels::Rg, 16, Numbers::Unorm, false, Coding::Plain),
        GlFormat::Rg16Snorm => texel(Channels::Rg, 16, Numbers::Snorm, false, Coding::Plain),
        GlFormat::Rgba16Uint => texel(Channels::Rgba, 16, Numbers::Uint, false, Coding::Plain),
        GlFormat::Rgba16Sint => texel(Channels::Rgba, 16, Numbers::Sint, false, Coding::Plain),
        GlFormat::Rgba16Unorm => texel(Channels::Rgba, 16, Numbers::Unorm, false, Coding::Plain),
        GlFormat::Rgba16Snorm => texel(Channels::Rgba, 16, Numbers::Snorm, false, Coding::Plain),
        GlFormat::Rgba16Float => texel(Channels::Rgba, 16, Numbers::Float, false, Coding::Plain),
        GlFormat::Rgba32Float => texel(Channels::Rgba, 32, Numbers::Float, false, Coding::Plain),
        GlFormat::Rgb9e5Ufloat => texel(Channels::Rgb, 9, Numbers::Ufloat, false, Coding::SharedExponent),
        GlFormat::Rgb10a2Uint => texel(Channels::Rgba, 10, Numbers::Uint, false, Coding::Packed),
        GlFormat::Rgb10a2Unorm => texel(Channels::Rgba, 10, Numbers::Unorm, false, Coding::Packed),
        GlFormat::Rg11b10Ufloat => texel(Channels::Rgb, 11, Numbers::Ufloat, false, Coding::Packed),
        GlFormat::R32Uint => texel(Channels::R, 32, Numbers::Uint, false, Coding::Plain),
        GlFormat::R32Sint => texel(Channels::R, 32, Numbers::Sint, false, Coding::Plain),
        GlFormat::R32Float => texel(Channels::R, 32, Numbers::Float, false, Coding::Plain),
        GlFormat::R64Uint => texel(Channels::R, 64, Numbers::Uint, false, Coding::Plain),
        GlFormat::Rg32Uint => texel(Channels::Rg, 32, Numbers::Uint, false, Coding::Plain),
        GlFormat::Rg32Sint => texel(Channels::Rg, 32, Numbers::Sint, false, Coding::Plain),
        GlFormat::Rg32Float => texel(Channels::Rg, 32, Numbers::Float, false, Coding::Plain),
        GlFormat::Rgba32Uint => texel(Channels::Rgba, 32, Numbers::Uint, false, Coding::Plain),
        GlFormat::Rgba32Sint => texel(Channels::Rgba, 32, Numbers::Sint, false, Coding::Plain),
        GlFormat::Depth16Unorm => texel(Channels::Depth, 16, Numbers::Unorm, false, Coding::Plain),
        GlFormat::Depth24Unorm => texel(Channels::Depth, 24, Numbers::Unorm, false, Coding::Plain),
        GlFormat::Depth24PlusStencil8 => texel(Channels::DepthStencil, 24, Numbers::Unorm, false, Coding::Plain),
        GlFormat::Depth32Float => texel(Channels::Depth, 32, Numbers::Float, false, Coding::Plain),
        GlFormat::Depth32FloatStencil8 => texel(Channels::DepthStencil, 32, Numbers::Float, false, Coding::Plain),
        GlFormat::Stencil8 => texel(Channels::Stencil, 8, Numbers::Uint, false, Coding::Plain),
        GlFormat::Bc1RgbUnorm => texel(Channels::Rgb, 0, Numbers::Unorm, false, Coding::Bc(1)),
        GlFormat::Bc1RgbSrgb => texel(Channels::Rgb, 0, Numbers::Unorm, true, Coding::Bc(1)),
        GlFormat::Bc1RgbaUnorm => texel(Channels::Rgba, 0, Numbers::Unorm, false, Coding::Bc(1)),
        GlFormat::Bc1RgbaSrgb => texel(Channels::Rgba, 0, Numbers::Unorm, true, Coding::Bc(1)),
        GlFormat::Bc2RgbaUnorm => texel(Channels::Rgba, 0, Numbers::Unorm, false, Coding::Bc(2)),
        GlFormat::Bc2RgbaSrgb => texel(Channels::Rgba, 0, Numbers::Unorm, true, Coding::Bc(2)),
        GlFormat::Bc3RgbaUnorm => texel(Channels::Rgba, 0, Numbers::Unorm, false, Coding::Bc(3)),
        GlFormat::Bc3RgbaSrgb => texel(Channels::Rgba, 0, Numbers::Unorm, true, Coding::Bc(3)),
        GlFormat::Bc4RUnorm => texel(Channels::R, 0, Numbers::Unorm, false, Coding::Bc(4)),
        GlFormat::Bc4RSnorm => texel(Channels::R, 0, Numbers::Snorm, false, Coding::Bc(4)),
        GlFormat::Bc5RgUnorm => texel(Channels::Rg, 0, Numbers::Unorm, false, Coding::Bc(5)),
        GlFormat::Bc5RgSnorm => texel(Channels::Rg, 0, Numbers::Snorm, false, Coding::Bc(5)),
        GlFormat::Bc6hRgbUfloat => texel(Channels::Rgb, 0, Numbers::Ufloat, false, Coding::Bc(6)),
        GlFormat::Bc6hRgbSfloat => texel(Channels::Rgb, 0, Numbers::Float, false, Coding::Bc(6)),
        GlFormat::Bc7RgbaUnorm => texel(Channels::Rgba, 0, Numbers::Unorm, false, Coding::Bc(7)),
        GlFormat::Bc7RgbaSrgb => texel(Channels::Rgba, 0, Numbers::Unorm, true, Coding::Bc(7)),
        GlFormat::Etc2Rgb8Unorm => texel(Channels::Rgb, 0, Numbers::Unorm, false, Coding::Etc2),
        GlFormat::Etc2Rgb8Srgb => texel(Channels::Rgb, 0, Numbers::Unorm, true, Coding::Etc2),
        GlFormat::Etc2Rgb8A1Unorm => texel(Channels::RgbBit, 0, Numbers::Unorm, false, Coding::Etc2),
        GlFormat::Etc2Rgb8A1Srgb => texel(Channels::RgbBit, 0, Numbers::Unorm, true, Coding::Etc2),
        GlFormat::Etc2Rgba8Unorm => texel(Channels::Rgba, 0, Numbers::Unorm, false, Coding::Etc2),
        GlFormat::Etc2Rgba8Srgb => texel(Channels::Rgba, 0, Numbers::Unorm, true, Coding::Etc2),
        GlFormat::EacR11Unorm => texel(Channels::R, 0, Numbers::Unorm, false, Coding::Eac),
        GlFormat::EacR11Snorm => texel(Channels::R, 0, Numbers::Snorm, false, Coding::Eac),
        GlFormat::EacRg11Unorm => texel(Channels::Rg, 0, Numbers::Unorm, false, Coding::Eac),
        GlFormat::EacRg11Snorm => texel(Channels::Rg, 0, Numbers::Snorm, false, Coding::Eac),
        GlFormat::Astc { block, color_space } => texel(
            Channels::Rgba,
            0,
            match color_space {
                GlCompressedColorSpace::Hdr => Numbers::Float,
                _ => Numbers::Unorm,
            },
            color_space is Srgb,
            Coding::Astc(astc_width(block), astc_height(block)),
        ),
    }
}

/// A format is translated to the one that stands for the same texels, and only
/// planes have none.
pub proof fn formats_keep_their_texels(format: TextureFormat)
    ensures
        translate::gl_format(format) is None <==> portable_texel(format).channels is Planes,
        translate::gl_format(format) is Some ==> gl_texel(translate::gl_format(format)->0)
            == portable_texel(format),
        translate::translated_format(format) is Ok <==> !(portable_texel(format).channels is Planes),
{
}

/// How many channels there are.
pub open spec fn channel_count(channels: Channels) -> int {
    match channels {
        Channels::R | Channels::Depth | Channels::Stencil => 1,
        Channels::Rg => 2,
        Channels::Rgb => 3,
        _ => 4,
    }
}

/// The bytes of a block follow from what is stored in it.
pub proof fn blocks_hold_their_texels(format: TextureFormat)
    ensures
        ({
            let t = portable_texel(format);
            let bytes = crate::api::format::block_bytes(format);
            let extent = crate::api::format::spec_block_extent(format);
            match t.coding {
                Coding::Plain => {
                    &&& extent == (1u32, 1u32)
                    &&& bytes is Some ==> bytes->0 * 8 == channel_count(t.channels) * t.bits
                    &&& bytes is None <==> t.channels is Planes || t.channels is DepthStencil
                        || t.channels is Depth && t.bits == 24
                },
                Coding::Packed | Coding::SharedExponent => extent == (1u32, 1u32) && bytes == Some(
                    4u32,
                ),
                Coding::Bc(n) => {
                    &&& extent == (4u32, 4u32)
                    &&& bytes == Some(
                        if n == 1 || n == 4 {
                            8u32
                        } else {
                            16u32
                        },
                    )
                },
                Coding::Etc2 => {
                    &&& extent == (4u32, 4u32)
                    &&& bytes == Some(
                        if t.channels is Rgba {
                            16u32
                        } else {
                            8u32
                        },
                    )
                },
                Coding::Eac => {
                    &&& extent == (4u32, 4u32)
                    &&& bytes == Some(
                        if t.channels is Rg {
                            16u32
                        } else {
                            8u32
                        },
                    )
                },
                Coding::Astc(width, height) => {
                    &&& extent.0 == width
                    &&& extent.1 == height
                    &&& bytes == Some(16u32)
                },
            }
        }),
{
}

/// The planes of a format are those of its channels.
pub proof fn aspects_are_channels(format: TextureFormat)
    ensures
        ({
            let channels = portable_texel(format).channels;
            let aspects = crate::api::format::aspects_of(format);
            &&& aspects.depth == (channels is Depth || channels is DepthStencil)
            &&& aspects.stencil == (channels is Stencil || channels is DepthStencil)
            &&& aspects.planes == channels is Planes
            &&& aspects.color == !(aspects.depth || aspects.stencil || aspects.planes)
        }),
{
}

/// Only blocks of more than one texel are compressed.
pub proof fn compressed_formats_are_coded(format: TextureFormat)
    ensures
        translate::is_compressed(format) == match portable_texel(format).coding {
            Coding::Plain | Coding::Packed | Coding::SharedExponent => false,
            _ => true,
        },
{
}

/// Colors of whole numbers have no more samples than the context allows for
/// whole numbers, other colors no more than it allows for color.
pub proof fn samples_go_by_the_numbers(format: GlFormat, limits: GlLimits)
    ensures
        ({
            let t = gl_texel(format);
            let colored = !(t.channels is Depth || t.channels is DepthStencil
                || t.channels is Stencil);
            let whole = t.numbers is Uint || t.numbers is Sint;
            let ceiling = formats::sample_ceiling(formats::sample_class(format), limits);
            &&& colored && whole ==> ceiling == limits.max_integer_samples
            &&& colored && !whole ==> ceiling == limits.max_color_texture_samples
            &&& format is Depth16Unorm || format is Depth24PlusStencil8 || format is Depth32Float
                ==> ceiling == limits.max_depth_texture_samples
        }),
{
}

} // verus!
