//! Texture formats of the portable interface and of the GL family.

use vstd::prelude::*;

verus! {

/// A portable texture format.
#[derive(Clone, Copy, Debug, PartialEq, Eq, Structural)]
pub enum TextureFormat {
    R8Unorm,
    R8Snorm,
    R8Uint,
    R8Sint,
    Rg8Unorm,
    Rg8Snorm,
    Rg8Uint,
    Rg8Sint,
    Rgba8Unorm,
    Rgba8UnormSrgb,
    Rgba8Snorm,
    Rgba8Uint,
    Rgba8Sint,
    Bgra8Unorm,
    Bgra8UnormSrgb,
    R16Uint,
    R16Sint,
    R16Float,
    R16Unorm,
    R16Snorm,
    Rg16Uint,
    Rg16Sint,
    Rg16Float,
    Rg16Unorm,
    Rg16Snorm,
    Rgba16Uint,
    Rgba16Sint,
    Rgba16Unorm,
    Rgba16Snorm,
    Rgba16Float,
    Rgba32Float,
    Rgb9e5Ufloat,
    Rgb10a2Uint,
    Rgb10a2Unorm,
    Rg11b10Ufloat,
    R32Uint,
    R32Sint,
    R32Float,
    R64Uint,
    Rg32Uint,
    Rg32Sint,
    Rg32Float,
    Rgba32Uint,
    Rgba32Sint,
    Depth16Unorm,
    Depth24Plus,
    Depth24PlusStencil8,
    Depth32Float,
    Depth32FloatStencil8,
    Stencil8,
    Bc1RgbaUnorm,
    Bc1RgbaUnormSrgb,
    Bc2RgbaUnorm,
    Bc2RgbaUnormSrgb,
    Bc3RgbaUnorm,
    Bc3RgbaUnormSrgb,
    Bc4RUnorm,
    Bc4RSnorm,
    Bc5RgUnorm,
    Bc5RgSnorm,
    Bc6hRgbUfloat,
    Bc6hRgbFloat,
    Bc7RgbaUnorm,
    Bc7RgbaUnormSrgb,
    Etc2Rgb8Unorm,
    Etc2Rgb8UnormSrgb,
    Etc2Rgb8A1Unorm,
    Etc2Rgb8A1UnormSrgb,
    Etc2Rgba8Unorm,
    Etc2Rgba8UnormSrgb,
    EacR11Unorm,
    EacR11Snorm,
    EacRg11Unorm,
    EacRg11Snorm,
    Astc4x4Unorm,
    Astc4x4UnormSrgb,
    Astc4x4Hdr,
    Astc5x4Unorm,
    Astc5x4UnormSrgb,
    Astc5x4Hdr,
    Astc5x5Unorm,
    Astc5x5UnormSrgb,
    Astc5x5Hdr,
    Astc6x5Unorm,
    Astc6x5UnormSrgb,
    Astc6x5Hdr,
    Astc6x6Unorm,
    Astc6x6UnormSrgb,
    Astc6x6Hdr,
    Astc8x5Unorm,
    Astc8x5UnormSrgb,
    Astc8x5Hdr,
    Astc8x6Unorm,
    Astc8x6UnormSrgb,
    Astc8x6Hdr,
    Astc8x8Unorm,
    Astc8x8UnormSrgb,
    Astc8x8Hdr,
    Astc10x5Unorm,
    Astc10x5UnormSrgb,
    Astc10x5Hdr,
    Astc10x6Unorm,
    Astc10x6UnormSrgb,
    Astc10x6Hdr,
    Astc10x8Unorm,
    Astc10x8UnormSrgb,
    Astc10x8Hdr,
    Astc10x10Unorm,
    Astc10x10UnormSrgb,
    Astc10x10Hdr,
    Astc12x10Unorm,
    Astc12x10UnormSrgb,
    Astc12x10Hdr,
    Astc12x12Unorm,
    Astc12x12UnormSrgb,
    Astc12x12Hdr,
    /// A format with two planes.
    Nv12,
}

/// The footprint of an ASTC block.
#[derive(Clone, Copy, Debug, PartialEq, Eq, Structural)]
pub enum GlAstcBlock {
    B4x4,
    B5x4,
    B5x5,
    B6x5,
    B6x6,
    B8x5,
    B8x6,
    B8x8,
    B10x5,
    B10x6,
    B10x8,
    B10x10,
    B12x10,
    B12x12,
}

/// How the values of an ASTC block are read.
#[derive(Clone, Copy, Debug, PartialEq, Eq, Structural)]
pub enum GlCompressedColorSpace {
    Linear,
    Srgb,
    Hdr,
}

/// A format of the GL family.
#[derive(Clone, Copy, Debug, PartialEq, Eq, Structural)]
pub enum GlFormat {
    R8Unorm,
    R8Snorm,
    R8Uint,
    R8Sint,
    Rg8Unorm,
    Rg8Snorm,
    Rg8Uint,
    Rg8Sint,
    Rgba8Unorm,
    Rgba8Srgb,
    Rgba8Snorm,
    Rgba8Uint,
    Rgba8Sint,
    Bgra8Unorm,
    Bgra8Srgb,
    R16Uint,
    R16Sint,
    R16Float,
    R16Unorm,
    R16Snorm,
    Rg16Uint,
    Rg16Sint,
    Rg16Float,
    Rg16Unorm,
    Rg16Snorm,
    Rgba16Uint,
    Rgba16Sint,
    Rgba16Unorm,
    Rgba16Snorm,
    Rgba16Float,
    Rgba32Float,
    Rgb9e5Ufloat,
    Rgb10a2Uint,
    Rgb10a2Unorm,
    Rg11b10Ufloat,
    R32Uint,
    R32Sint,
    R32Float,
    R64Uint,
    Rg32Uint,
    Rg32Sint,
    Rg32Float,
    Rgba32Uint,
    Rgba32Sint,
    Depth16Unorm,
    Depth24Unorm,
    Depth24PlusStencil8,
    Depth32Float,
    Depth32FloatStencil8,
    Stencil8,
    Bc1RgbUnorm,
    Bc1RgbSrgb,
    Bc1RgbaUnorm,
    Bc1RgbaSrgb,
    Bc2RgbaUnorm,
    Bc2RgbaSrgb,
    Bc3RgbaUnorm,
    Bc3RgbaSrgb,
    Bc4RUnorm,
    Bc4RSnorm,
    Bc5RgUnorm,
    Bc5RgSnorm,
    Bc6hRgbUfloat,
    Bc6hRgbSfloat,
    Bc7RgbaUnorm,
    Bc7RgbaSrgb,
    Etc2Rgb8Unorm,
    Etc2Rgb8Srgb,
    Etc2Rgb8A1Unorm,
    Etc2Rgb8A1Srgb,
    Etc2Rgba8Unorm,
    Etc2Rgba8Srgb,
    EacR11Unorm,
    EacR11Snorm,
    EacRg11Unorm,
    EacRg11Snorm,
    Astc { block: GlAstcBlock, color_space: GlCompressedColorSpace },
}

/// The planes of a texture that an operation touches.
#[derive(Clone, Copy, Debug, PartialEq, Eq, Structural)]
pub struct TextureAspects {
    pub color: bool,
    pub depth: bool,
    pub stencil: bool,
    pub planes: bool,
}

impl TextureAspects {
    pub fn color() -> (result: Self)
        ensures
            result == (TextureAspects { color: true, depth: false, stencil: false, planes: false }),
    {
        TextureAspects { color: true, depth: false, stencil: false, planes: false }
    }
}

/// The planes that a format has.
pub open spec fn aspects_of(format: TextureFormat) -> TextureAspects {
    let depth = format == TextureFormat::Depth16Unorm || format == TextureFormat::Depth24Plus
        || format == TextureFormat::Depth24PlusStencil8 || format == TextureFormat::Depth32Float
        || format == TextureFormat::Depth32FloatStencil8;
    let stencil = format == TextureFormat::Depth24PlusStencil8 || format
        == TextureFormat::Depth32FloatStencil8 || format == TextureFormat::Stencil8;
    let planes = format == TextureFormat::Nv12;
    TextureAspects { color: !depth && !stencil && !planes, depth, stencil, planes }
}

pub fn format_aspects(format: TextureFormat) -> (result: TextureAspects)
    ensures
        result == aspects_of(format),
{
    let depth = format == TextureFormat::Depth16Unorm || format == TextureFormat::Depth24Plus
        || format == TextureFormat::Depth24PlusStencil8 || format == TextureFormat::Depth32Float
        || format == TextureFormat::Depth32FloatStencil8;
    let stencil = format == TextureFormat::Depth24PlusStencil8 || format
        == TextureFormat::Depth32FloatStencil8 || format == TextureFormat::Stencil8;
    let planes = format == TextureFormat::Nv12;
    TextureAspects { color: !depth && !stencil && !planes, depth, stencil, planes }
}

/// The width and the height of a block of the format, in texels.
pub open spec fn spec_block_extent(format: TextureFormat) -> (u32, u32) {
    match format {
        TextureFormat::Bc1RgbaUnorm => (4, 4),
        TextureFormat::Bc1RgbaUnormSrgb => (4, 4),
        TextureFormat::Bc2RgbaUnorm => (4, 4),
        TextureFormat::Bc2RgbaUnormSrgb => (4, 4),
        TextureFormat::Bc3RgbaUnorm => (4, 4),
        TextureFormat::Bc3RgbaUnormSrgb => (4, 4),
        TextureFormat::Bc4RUnorm => (4, 4),
        TextureFormat::Bc4RSnorm => (4, 4),
        TextureFormat::Bc5RgUnorm => (4, 4),
        TextureFormat::Bc5RgSnorm => (4, 4),
        TextureFormat::Bc6hRgbUfloat => (4, 4),
        TextureFormat::Bc6hRgbFloat => (4, 4),
        TextureFormat::Bc7RgbaUnorm => (4, 4),
        TextureFormat::Bc7RgbaUnormSrgb => (4, 4),
        TextureFormat::Etc2Rgb8Unorm => (4, 4),
        TextureFormat::Etc2Rgb8UnormSrgb => (4, 4),
        TextureFormat::Etc2Rgb8A1Unorm => (4, 4),
        TextureFormat::Etc2Rgb8A1UnormSrgb => (4, 4),
        TextureFormat::Etc2Rgba8Unorm => (4, 4),
        TextureFormat::Etc2Rgba8UnormSrgb => (4, 4),
        TextureFormat::EacR11Unorm => (4, 4),
        TextureFormat::EacR11Snorm => (4, 4),
        TextureFormat::EacRg11Unorm => (4, 4),
        TextureFormat::EacRg11Snorm => (4, 4),
        TextureFormat::Astc4x4Unorm => (4, 4),
        TextureFormat::Astc4x4UnormSrgb => (4, 4),
        TextureFormat::Astc4x4Hdr => (4, 4),
        TextureFormat::Astc5x4Unorm => (5, 4),
        TextureFormat::Astc5x4UnormSrgb => (5, 4),
        TextureFormat::Astc5x4Hdr => (5, 4),
        TextureFormat::Astc5x5Unorm => (5, 5),
        TextureFormat::Astc5x5UnormSrgb => (5, 5),
        TextureFormat::Astc5x5Hdr => (5, 5),
        TextureFormat::Astc6x5Unorm => (6, 5),
        TextureFormat::Astc6x5UnormSrgb => (6, 5),
        TextureFormat::Astc6x5Hdr => (6, 5),
        TextureFormat::Astc6x6Unorm => (6, 6),
        TextureFormat::Astc6x6UnormSrgb => (6, 6),
        TextureFormat::Astc6x6Hdr => (6, 6),
        TextureFormat::Astc8x5Unorm => (8, 5),
        TextureFormat::Astc8x5UnormSrgb => (8, 5),
        TextureFormat::Astc8x5Hdr => (8, 5),
        TextureFormat::Astc8x6Unorm => (8, 6),
        TextureFormat::Astc8x6UnormSrgb => (8, 6),
        TextureFormat::Astc8x6Hdr => (8, 6),
        TextureFormat::Astc8x8Unorm => (8, 8),
        TextureFormat::Astc8x8UnormSrgb => (8, 8),
        TextureFormat::Astc8x8Hdr => (8, 8),
        TextureFormat::Astc10x5Unorm => (10, 5),
        TextureFormat::Astc10x5UnormSrgb => (10, 5),
        TextureFormat::Astc10x5Hdr => (10, 5),
        TextureFormat::Astc10x6Unorm => (10, 6),
        TextureFormat::Astc10x6UnormSrgb => (10, 6),
        TextureFormat::Astc10x6Hdr => (10, 6),
        TextureFormat::Astc10x8Unorm => (10, 8),
        TextureFormat::Astc10x8UnormSrgb => (10, 8),
        TextureFormat::Astc10x8Hdr => (10, 8),
        TextureFormat::Astc10x10Unorm => (10, 10),
        TextureFormat::Astc10x10UnormSrgb => (10, 10),
        TextureFormat::Astc10x10Hdr => (10, 10),
        TextureFormat::Astc12x10Unorm => (12, 10),
        TextureFormat::Astc12x10UnormSrgb => (12, 10),
        TextureFormat::Astc12x10Hdr => (12, 10),
        TextureFormat::Astc12x12Unorm => (12, 12),
        TextureFormat::Astc12x12UnormSrgb => (12, 12),
        TextureFormat::Astc12x12Hdr => (12, 12),
        _ => (1, 1),
    }
}

pub fn block_extent(format: TextureFormat) -> (result: (u32, u32))
    ensures
        result == spec_block_extent(format),
        1 <= result.0 <= 12,
        1 <= result.1 <= 12,
{
    match format {
        TextureFormat::Bc1RgbaUnorm
        | TextureFormat::Bc1RgbaUnormSrgb
        | TextureFormat::Bc2RgbaUnorm
        | TextureFormat::Bc2RgbaUnormSrgb
        | TextureFormat::Bc3RgbaUnorm
        | TextureFormat::Bc3RgbaUnormSrgb
        | TextureFormat::Bc4RUnorm
        | TextureFormat::Bc4RSnorm
        | TextureFormat::Bc5RgUnorm
        | TextureFormat::Bc5RgSnorm
        | TextureFormat::Bc6hRgbUfloat
        | TextureFormat::Bc6hRgbFloat
        | TextureFormat::Bc7RgbaUnorm
        | TextureFormat::Bc7RgbaUnormSrgb
        | TextureFormat::Etc2Rgb8Unorm
        | TextureFormat::Etc2Rgb8UnormSrgb
        | TextureFormat::Etc2Rgb8A1Unorm
        | TextureFormat::Etc2Rgb8A1UnormSrgb
        | TextureFormat::Etc2Rgba8Unorm
        | TextureFormat::Etc2Rgba8UnormSrgb
        | TextureFormat::EacR11Unorm
        | TextureFormat::EacR11Snorm
        | TextureFormat::EacRg11Unorm
        | TextureFormat::EacRg11Snorm
        | TextureFormat::Astc4x4Unorm
        | TextureFormat::Astc4x4UnormSrgb
        | TextureFormat::Astc4x4Hdr => (4, 4),
        TextureFormat::Astc5x4Unorm
        | TextureFormat::Astc5x4UnormSrgb
        | TextureFormat::Astc5x4Hdr => (5, 4),
        TextureFormat::Astc5x5Unorm
        | TextureFormat::Astc5x5UnormSrgb
        | TextureFormat::Astc5x5Hdr => (5, 5),
        TextureFormat::Astc6x5Unorm
        | TextureFormat::Astc6x5UnormSrgb
        | TextureFormat::Astc6x5Hdr => (6, 5),
        TextureFormat::Astc6x6Unorm
        | TextureFormat::Astc6x6UnormSrgb
        | TextureFormat::Astc6x6Hdr => (6, 6),
        TextureFormat::Astc8x5Unorm
        | TextureFormat::Astc8x5UnormSrgb
        | TextureFormat::Astc8x5Hdr => (8, 5),
        TextureFormat::Astc8x6Unorm
        | TextureFormat::Astc8x6UnormSrgb
        | TextureFormat::Astc8x6Hdr => (8, 6),
        TextureFormat::Astc8x8Unorm
        | TextureFormat::Astc8x8UnormSrgb
        | TextureFormat::Astc8x8Hdr => (8, 8),
        TextureFormat::Astc10x5Unorm
        | TextureFormat::Astc10x5UnormSrgb
        | TextureFormat::Astc10x5Hdr => (10, 5),
        TextureFormat::Astc10x6Unorm
        | TextureFormat::Astc10x6UnormSrgb
        | TextureFormat::Astc10x6Hdr => (10, 6),
        TextureFormat::Astc10x8Unorm
        | TextureFormat::Astc10x8UnormSrgb
        | TextureFormat::Astc10x8Hdr => (10, 8),
        TextureFormat::Astc10x10Unorm
        | TextureFormat::Astc10x10UnormSrgb
        | TextureFormat::Astc10x10Hdr => (10, 10),
        TextureFormat::Astc12x10Unorm
        | TextureFormat::Astc12x10UnormSrgb
        | TextureFormat::Astc12x10Hdr => (12, 10),
        TextureFormat::Astc12x12Unorm
        | TextureFormat::Astc12x12UnormSrgb
        | TextureFormat::Astc12x12Hdr => (12, 12),
        _ => (1, 1),
    }
}

/// The bytes of a block of the format, where the format fixes them.
pub open spec fn block_bytes(format: TextureFormat) -> Option<u32> {
    match format {
        TextureFormat::R8Unorm => Some(1),
        TextureFormat::R8Snorm => Some(1),
        TextureFormat::R8Uint => Some(1),
        TextureFormat::R8Sint => Some(1),
        TextureFormat::Stencil8 => Some(1),
        TextureFormat::Rg8Unorm => Some(2),
        TextureFormat::Rg8Snorm => Some(2),
        TextureFormat::Rg8Uint => Some(2),
        TextureFormat::Rg8Sint => Some(2),
        TextureFormat::R16Uint => Some(2),
        TextureFormat::R16Sint => Some(2),
        TextureFormat::R16Float => Some(2),
        TextureFormat::R16Unorm => Some(2),
        TextureFormat::R16Snorm => Some(2),
        TextureFormat::Depth16Unorm => Some(2),
        TextureFormat::Rgba8Unorm => Some(4),
        TextureFormat::Rgba8UnormSrgb => Some(4),
        TextureFormat::Rgba8Snorm => Some(4),
        TextureFormat::Rgba8Uint => Some(4),
        TextureFormat::Rgba8Sint => Some(4),
        TextureFormat::Bgra8Unorm => Some(4),
        TextureFormat::Bgra8UnormSrgb => Some(4),
        TextureFormat::Rg16Uint => Some(4),
        TextureFormat::Rg16Sint => Some(4),
        TextureFormat::Rg16Float => Some(4),
        TextureFormat::Rg16Unorm => Some(4),
        TextureFormat::Rg16Snorm => Some(4),
        TextureFormat::Rgb9e5Ufloat => Some(4),
        TextureFormat::Rgb10a2Uint => Some(4),
        TextureFormat::Rgb10a2Unorm => Some(4),
        TextureFormat::Rg11b10Ufloat => Some(4),
        TextureFormat::R32Uint => Some(4),
        TextureFormat::R32Sint => Some(4),
        TextureFormat::R32Float => Some(4),
        TextureFormat::Depth32Float => Some(4),
        TextureFormat::Rgba16Uint => Some(8),
        TextureFormat::Rgba16Sint => Some(8),
        TextureFormat::Rgba16Unorm => Some(8),
        TextureFormat::Rgba16Snorm => Some(8),
        TextureFormat::Rgba16Float => Some(8),
        TextureFormat::R64Uint => Some(8),
        TextureFormat::Rg32Uint => Some(8),
        TextureFormat::Rg32Sint => Some(8),
        TextureFormat::Rg32Float => Some(8),
        TextureFormat::Bc1RgbaUnorm => Some(8),
        TextureFormat::Bc1RgbaUnormSrgb => Some(8),
        TextureFormat::Bc4RUnorm => Some(8),
        TextureFormat::Bc4RSnorm => Some(8),
        TextureFormat::Etc2Rgb8Unorm => Some(8),
        TextureFormat::Etc2Rgb8UnormSrgb => Some(8),
        TextureFormat::Etc2Rgb8A1Unorm => Some(8),
        TextureFormat::Etc2Rgb8A1UnormSrgb => Some(8),
        TextureFormat::EacR11Unorm => Some(8),
        TextureFormat::EacR11Snorm => Some(8),
        TextureFormat::Rgba32Float => Some(16),
        TextureFormat::Rgba32Uint => Some(16),
        TextureFormat::Rgba32Sint => Some(16),
        TextureFormat::Bc2RgbaUnorm => Some(16),
        TextureFormat::Bc2RgbaUnormSrgb => Some(16),
        TextureFormat::Bc3RgbaUnorm => Some(16),
        TextureFormat::Bc3RgbaUnormSrgb => Some(16),
        TextureFormat::Bc5RgUnorm => Some(16),
        TextureFormat::Bc5RgSnorm => Some(16),
        TextureFormat::Bc6hRgbUfloat => Some(16),
        TextureFormat::Bc6hRgbFloat => Some(16),
        TextureFormat::Bc7RgbaUnorm => Some(16),
        TextureFormat::Bc7RgbaUnormSrgb => Some(16),
        TextureFormat::Etc2Rgba8Unorm => Some(16),
        TextureFormat::Etc2Rgba8UnormSrgb => Some(16),
        TextureFormat::EacRg11Unorm => Some(16),
        TextureFormat::EacRg11Snorm => Some(16),
        TextureFormat::Astc4x4Unorm => Some(16),
        TextureFormat::Astc4x4UnormSrgb => Some(16),
        TextureFormat::Astc4x4Hdr => Some(16),
        TextureFormat::Astc5x4Unorm => Some(16),
        TextureFormat::Astc5x4UnormSrgb => Some(16),
        TextureFormat::Astc5x4Hdr => Some(16),
        TextureFormat::Astc5x5Unorm => Some(16),
        TextureFormat::Astc5x5UnormSrgb => Some(16),
        TextureFormat::Astc5x5Hdr => Some(16),
        TextureFormat::Astc6x5Unorm => Some(16),
        TextureFormat::Astc6x5UnormSrgb => Some(16),
        TextureFormat::Astc6x5Hdr => Some(16),
        TextureFormat::Astc6x6Unorm => Some(16),
        TextureFormat::Astc6x6UnormSrgb => Some(16),
        TextureFormat::Astc6x6Hdr => Some(16),
        TextureFormat::Astc8x5Unorm => Some(16),
        TextureFormat::Astc8x5UnormSrgb => Some(16),
        TextureFormat::Astc8x5Hdr => Some(16),
        TextureFormat::Astc8x6Unorm => Some(16),
        TextureFormat::Astc8x6UnormSrgb => Some(16),
        TextureFormat::Astc8x6Hdr => Some(16),
        TextureFormat::Astc8x8Unorm => Some(16),
        TextureFormat::Astc8x8UnormSrgb => Some(16),
        TextureFormat::Astc8x8Hdr => Some(16),
        TextureFormat::Astc10x5Unorm => Some(16),
        TextureFormat::Astc10x5UnormSrgb => Some(16),
        TextureFormat::Astc10x5Hdr => Some(16),
        TextureFormat::Astc10x6Unorm => Some(16),
        TextureFormat::Astc10x6UnormSrgb => Some(16),
        TextureFormat::Astc10x6Hdr => Some(16),
        TextureFormat::Astc10x8Unorm => Some(16),
        TextureFormat::Astc10x8UnormSrgb => Some(16),
        TextureFormat::Astc10x8Hdr => Some(16),
        TextureFormat::Astc10x10Unorm => Some(16),
        TextureFormat::Astc10x10UnormSrgb => Some(16),
        TextureFormat::Astc10x10Hdr => Some(16),
        TextureFormat::Astc12x10Unorm => Some(16),
        TextureFormat::Astc12x10UnormSrgb => Some(16),
        TextureFormat::Astc12x10Hdr => Some(16),
        TextureFormat::Astc12x12Unorm => Some(16),
        TextureFormat::Astc12x12UnormSrgb => Some(16),
        TextureFormat::Astc12x12Hdr => Some(16),
        _ => None,
    }
}

pub fn logical_bytes_per_block(format: TextureFormat) -> (result: Option<u32>)
    ensures
        result == block_bytes(format),
{
    match format {
        TextureFormat::R8Unorm
        | TextureFormat::R8Snorm
        | TextureFormat::R8Uint
        | TextureFormat::R8Sint
        | TextureFormat::Stencil8 => Some(1),
        TextureFormat::Rg8Unorm
        | TextureFormat::Rg8Snorm
        | TextureFormat::Rg8Uint
        | TextureFormat::Rg8Sint
        | TextureFormat::R16Uint
        | TextureFormat::R16Sint
        | TextureFormat::R16Float
        | TextureFormat::R16Unorm
        | TextureFormat::R16Snorm
        | TextureFormat::Depth16Unorm => Some(2),
        TextureFormat::Rgba8Unorm
        | TextureFormat::Rgba8UnormSrgb
        | TextureFormat::Rgba8Snorm
        | TextureFormat::Rgba8Uint
        | TextureFormat::Rgba8Sint
        | TextureFormat::Bgra8Unorm
        | TextureFormat::Bgra8UnormSrgb
        | TextureFormat::Rg16Uint
        | TextureFormat::Rg16Sint
        | TextureFormat::Rg16Float
        | TextureFormat::Rg16Unorm
        | TextureFormat::Rg16Snorm
        | TextureFormat::Rgb9e5Ufloat
        | TextureFormat::Rgb10a2Uint
        | TextureFormat::Rgb10a2Unorm
        | TextureFormat::Rg11b10Ufloat
        | TextureFormat::R32Uint
        | TextureFormat::R32Sint
        | TextureFormat::R32Float
        | TextureFormat::Depth32Float => Some(4),
        TextureFormat::Rgba16Uint
        | TextureFormat::Rgba16Sint
        | TextureFormat::Rgba16Unorm
        | TextureFormat::Rgba16Snorm
        | TextureFormat::Rgba16Float
        | TextureFormat::R64Uint
        | TextureFormat::Rg32Uint
        | TextureFormat::Rg32Sint
        | TextureFormat::Rg32Float
        | TextureFormat::Bc1RgbaUnorm
        | TextureFormat::Bc1RgbaUnormSrgb
        | TextureFormat::Bc4RUnorm
        | TextureFormat::Bc4RSnorm
        | TextureFormat::Etc2Rgb8Unorm
        | TextureFormat::Etc2Rgb8UnormSrgb
        | TextureFormat::Etc2Rgb8A1Unorm
        | TextureFormat::Etc2Rgb8A1UnormSrgb
        | TextureFormat::EacR11Unorm
        | TextureFormat::EacR11Snorm => Some(8),
        TextureFormat::Rgba32Float
        | TextureFormat::Rgba32Uint
        | TextureFormat::Rgba32Sint
        | TextureFormat::Bc2RgbaUnorm
        | TextureFormat::Bc2RgbaUnormSrgb
        | TextureFormat::Bc3RgbaUnorm
        | TextureFormat::Bc3RgbaUnormSrgb
        | TextureFormat::Bc5RgUnorm
        | TextureFormat::Bc5RgSnorm
        | TextureFormat::Bc6hRgbUfloat
        | TextureFormat::Bc6hRgbFloat
        | TextureFormat::Bc7RgbaUnorm
        | TextureFormat::Bc7RgbaUnormSrgb
        | TextureFormat::Etc2Rgba8Unorm
        | TextureFormat::Etc2Rgba8UnormSrgb
        | TextureFormat::EacRg11Unorm
        | TextureFormat::EacRg11Snorm
        | TextureFormat::Astc4x4Unorm
        | TextureFormat::Astc4x4UnormSrgb
        | TextureFormat::Astc4x4Hdr
        | TextureFormat::Astc5x4Unorm
        | TextureFormat::Astc5x4UnormSrgb
        | TextureFormat::Astc5x4Hdr
        | TextureFormat::Astc5x5Unorm
        | TextureFormat::Astc5x5UnormSrgb
        | TextureFormat::Astc5x5Hdr
        | TextureFormat::Astc6x5Unorm
        | TextureFormat::Astc6x5UnormSrgb
        | TextureFormat::Astc6x5Hdr
        | TextureFormat::Astc6x6Unorm
        | TextureFormat::Astc6x6UnormSrgb
        | TextureFormat::Astc6x6Hdr
        | TextureFormat::Astc8x5Unorm
        | TextureFormat::Astc8x5UnormSrgb
        | TextureFormat::Astc8x5Hdr
        | TextureFormat::Astc8x6Unorm
        | TextureFormat::Astc8x6UnormSrgb
        | TextureFormat::Astc8x6Hdr
        | TextureFormat::Astc8x8Unorm
        | TextureFormat::Astc8x8UnormSrgb
        | TextureFormat::Astc8x8Hdr
        | TextureFormat::Astc10x5Unorm
        | TextureFormat::Astc10x5UnormSrgb
        | TextureFormat::Astc10x5Hdr
        | TextureFormat::Astc10x6Unorm
        | TextureFormat::Astc10x6UnormSrgb
        | TextureFormat::Astc10x6Hdr
        | TextureFormat::Astc10x8Unorm
        | TextureFormat::Astc10x8UnormSrgb
        | TextureFormat::Astc10x8Hdr
        | TextureFormat::Astc10x10Unorm
        | TextureFormat::Astc10x10UnormSrgb
        | TextureFormat::Astc10x10Hdr
        | TextureFormat::Astc12x10Unorm
        | TextureFormat::Astc12x10UnormSrgb
        | TextureFormat::Astc12x10Hdr
        | TextureFormat::Astc12x12Unorm
        | TextureFormat::Astc12x12UnormSrgb
        | TextureFormat::Astc12x12Hdr => Some(16),
        _ => None,
    }
}

} // verus!
