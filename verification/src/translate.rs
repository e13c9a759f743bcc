//! Lossless translation of the portable vocabulary to the GL family.
//!
//! This is the only place where a portable descriptor gets its GL spelling, so
//! native and browser executors cannot drift apart. Nothing here creates a
//! driver object: an error is a refusal before any native work was accepted.

use vstd::prelude::*;
use std::sync::Arc;
use crate::api::command::{IndexFormat, PortableCommand, RecordedCommand, RecordedPayload};
use crate::api::error;
use crate::api::error::{RhiDetail, RhiError, RhiErrorKind};
use crate::api::format::{
    GlAstcBlock, GlCompressedColorSpace, GlFormat, TextureFormat,
};
use crate::api::gl::{
    GlAddressMode, GlBufferDesc, GlBufferUsage, GlCompareFunction, GlExtent3d, GlFilterMode,
    GlIndexFormat, GlMipmapFilterMode, GlPipelineLayout, GlSamplerDesc, GlShaderDialect,
    GlShaderSource, GlShaderStage, GlTextureDesc, GlTextureDimension, GlTextureUsage,
    GlVertexFormat,
};
use crate::api::pipeline::VertexFormat;
use crate::api::resource;
use crate::api::resource::{
    AddressMode, BufferDescriptor, CompareFunction, FilterMode, SamplerDescriptor, TextureAspect,
    TextureDescriptor, TextureDimension, TextureUploadDescriptor, TextureViewDescriptor,
    TextureViewDimension,
};
use crate::api::shader::{AbiVersion, PipelineInterface, ResourceLocation, ShaderArtifact, ShaderCode, ShaderStage};
use crate::float;

verus! {

/// The major version of the shader interface that this library implements.
pub const IMPLEMENTED_ABI_MAJOR: u16 = 1;

/// The minor version of the shader interface that this library implements.
pub const IMPLEMENTED_ABI_MINOR: u16 = 0;

pub fn unsupported(operation: &'static str, detail: RhiDetail) -> (result: RhiError)
    ensures
        result == (RhiError {
            kind: RhiErrorKind::Unsupported,
            detail,
            operation: Some(operation),
        }),
{
    RhiError::because(RhiErrorKind::Unsupported, detail).at(operation)
}

fn refused(operation: &'static str, text: &'static str) -> (result: RhiError)
    ensures
        result == error::rhi_error_at(RhiErrorKind::Unsupported, text, operation),
{
    RhiError::new(RhiErrorKind::Unsupported, text).at(operation)
}

/// The format of the GL family that represents a portable format exactly.
pub open spec fn gl_format(format: TextureFormat) -> Option<GlFormat> {
    match format {
        TextureFormat::R8Unorm => Some(GlFormat::R8Unorm),
        TextureFormat::R8Snorm => Some(GlFormat::R8Snorm),
        TextureFormat::R8Uint => Some(GlFormat::R8Uint),
        TextureFormat::R8Sint => Some(GlFormat::R8Sint),
        TextureFormat::Rg8Unorm => Some(GlFormat::Rg8Unorm),
        TextureFormat::Rg8Snorm => Some(GlFormat::Rg8Snorm),
        TextureFormat::Rg8Uint => Some(GlFormat::Rg8Uint),
        TextureFormat::Rg8Sint => Some(GlFormat::Rg8Sint),
        TextureFormat::Rgba8Unorm => Some(GlFormat::Rgba8Unorm),
        TextureFormat::Rgba8UnormSrgb => Some(GlFormat::Rgba8Srgb),
        TextureFormat::Rgba8Snorm => Some(GlFormat::Rgba8Snorm),
        TextureFormat::Rgba8Uint => Some(GlFormat::Rgba8Uint),
        TextureFormat::Rgba8Sint => Some(GlFormat::Rgba8Sint),
        TextureFormat::Bgra8Unorm => Some(GlFormat::Bgra8Unorm),
        TextureFormat::Bgra8UnormSrgb => Some(GlFormat::Bgra8Srgb),
        TextureFormat::R16Uint => Some(GlFormat::R16Uint),
        TextureFormat::R16Sint => Some(GlFormat::R16Sint),
        TextureFormat::R16Float => Some(GlFormat::R16Float),
        TextureFormat::R16Unorm => Some(GlFormat::R16Unorm),
        TextureFormat::R16Snorm => Some(GlFormat::R16Snorm),
        TextureFormat::Rg16Uint => Some(GlFormat::Rg16Uint),
        TextureFormat::Rg16Sint => Some(GlFormat::Rg16Sint),
        TextureFormat::Rg16Float => Some(GlFormat::Rg16Float),
        TextureFormat::Rg16Unorm => Some(GlFormat::Rg16Unorm),
        TextureFormat::Rg16Snorm => Some(GlFormat::Rg16Snorm),
        TextureFormat::Rgba16Uint => Some(GlFormat::Rgba16Uint),
        TextureFormat::Rgba16Sint => Some(GlFormat::Rgba16Sint),
        TextureFormat::Rgba16Unorm => Some(GlFormat::Rgba16Unorm),
        TextureFormat::Rgba16Snorm => Some(GlFormat::Rgba16Snorm),
        TextureFormat::Rgba16Float => Some(GlFormat::Rgba16Float),
        TextureFormat::Rgba32Float => Some(GlFormat::Rgba32Float),
        TextureFormat::Rgb9e5Ufloat => Some(GlFormat::Rgb9e5Ufloat),
        TextureFormat::Rgb10a2Uint => Some(GlFormat::Rgb10a2Uint),
        TextureFormat::Rgb10a2Unorm => Some(GlFormat::Rgb10a2Unorm),
        TextureFormat::Rg11b10Ufloat => Some(GlFormat::Rg11b10Ufloat),
        TextureFormat::R32Uint => Some(GlFormat::R32Uint),
        TextureFormat::R32Sint => Some(GlFormat::R32Sint),
        TextureFormat::R32Float => Some(GlFormat::R32Float),
        TextureFormat::R64Uint => Some(GlFormat::R64Uint),
        TextureFormat::Rg32Uint => Some(GlFormat::Rg32Uint),
        TextureFormat::Rg32Sint => Some(GlFormat::Rg32Sint),
        TextureFormat::Rg32Float => Some(GlFormat::Rg32Float),
        TextureFormat::Rgba32Uint => Some(GlFormat::Rgba32Uint),
        TextureFormat::Rgba32Sint => Some(GlFormat::Rgba32Sint),
        TextureFormat::Depth16Unorm => Some(GlFormat::Depth16Unorm),
        TextureFormat::Depth24Plus => Some(GlFormat::Depth24Unorm),
        TextureFormat::Depth24PlusStencil8 => Some(GlFormat::Depth24PlusStencil8),
        TextureFormat::Depth32Float => Some(GlFormat::Depth32Float),
        TextureFormat::Depth32FloatStencil8 => Some(GlFormat::Depth32FloatStencil8),
        TextureFormat::Stencil8 => Some(GlFormat::Stencil8),
        TextureFormat::Bc1RgbaUnorm => Some(GlFormat::Bc1RgbaUnorm),
        TextureFormat::Bc1RgbaUnormSrgb => Some(GlFormat::Bc1RgbaSrgb),
        TextureFormat::Bc2RgbaUnorm => Some(GlFormat::Bc2RgbaUnorm),
        TextureFormat::Bc2RgbaUnormSrgb => Some(GlFormat::Bc2RgbaSrgb),
        TextureFormat::Bc3RgbaUnorm => Some(GlFormat::Bc3RgbaUnorm),
        TextureFormat::Bc3RgbaUnormSrgb => Some(GlFormat::Bc3RgbaSrgb),
        TextureFormat::Bc4RUnorm => Some(GlFormat::Bc4RUnorm),
        TextureFormat::Bc4RSnorm => Some(GlFormat::Bc4RSnorm),
        TextureFormat::Bc5RgUnorm => Some(GlFormat::Bc5RgUnorm),
        TextureFormat::Bc5RgSnorm => Some(GlFormat::Bc5RgSnorm),
        TextureFormat::Bc6hRgbUfloat => Some(GlFormat::Bc6hRgbUfloat),
        TextureFormat::Bc6hRgbFloat => Some(GlFormat::Bc6hRgbSfloat),
        TextureFormat::Bc7RgbaUnorm => Some(GlFormat::Bc7RgbaUnorm),
        TextureFormat::Bc7RgbaUnormSrgb => Some(GlFormat::Bc7RgbaSrgb),
        TextureFormat::Etc2Rgb8Unorm => Some(GlFormat::Etc2Rgb8Unorm),
        TextureFormat::Etc2Rgb8UnormSrgb => Some(GlFormat::Etc2Rgb8Srgb),
        TextureFormat::Etc2Rgb8A1Unorm => Some(GlFormat::Etc2Rgb8A1Unorm),
        TextureFormat::Etc2Rgb8A1UnormSrgb => Some(GlFormat::Etc2Rgb8A1Srgb),
        TextureFormat::Etc2Rgba8Unorm => Some(GlFormat::Etc2Rgba8Unorm),
        TextureFormat::Etc2Rgba8UnormSrgb => Some(GlFormat::Etc2Rgba8Srgb),
        TextureFormat::EacR11Unorm => Some(GlFormat::EacR11Unorm),
        TextureFormat::EacR11Snorm => Some(GlFormat::EacR11Snorm),
        TextureFormat::EacRg11Unorm => Some(GlFormat::EacRg11Unorm),
        TextureFormat::EacRg11Snorm => Some(GlFormat::EacRg11Snorm),
        TextureFormat::Astc4x4Unorm => Some(GlFormat::Astc { block: GlAstcBlock::B4x4, color_space: GlCompressedColorSpace::Linear }),
        TextureFormat::Astc4x4UnormSrgb => Some(GlFormat::Astc { block: GlAstcBlock::B4x4, color_space: GlCompressedColorSpace::Srgb }),
        TextureFormat::Astc4x4Hdr => Some(GlFormat::Astc { block: GlAstcBlock::B4x4, color_space: GlCompressedColorSpace::Hdr }),
        TextureFormat::Astc5x4Unorm => Some(GlFormat::Astc { block: GlAstcBlock::B5x4, color_space: GlCompressedColorSpace::Linear }),
        TextureFormat::Astc5x4UnormSrgb => Some(GlFormat::Astc { block: GlAstcBlock::B5x4, color_space: GlCompressedColorSpace::Srgb }),
        TextureFormat::Astc5x4Hdr => Some(GlFormat::Astc { block: GlAstcBlock::B5x4, color_space: GlCompressedColorSpace::Hdr }),
        TextureFormat::Astc5x5Unorm => Some(GlFormat::Astc { block: GlAstcBlock::B5x5, color_space: GlCompressedColorSpace::Linear }),
        TextureFormat::Astc5x5UnormSrgb => Some(GlFormat::Astc { block: GlAstcBlock::B5x5, color_space: GlCompressedColorSpace::Srgb }),
        TextureFormat::Astc5x5Hdr => Some(GlFormat::Astc { block: GlAstcBlock::B5x5, color_space: GlCompressedColorSpace::Hdr }),
        TextureFormat::Astc6x5Unorm => Some(GlFormat::Astc { block: GlAstcBlock::B6x5, color_space: GlCompressedColorSpace::Linear }),
        TextureFormat::Astc6x5UnormSrgb => Some(GlFormat::Astc { block: GlAstcBlock::B6x5, color_space: GlCompressedColorSpace::Srgb }),
        TextureFormat::Astc6x5Hdr => Some(GlFormat::Astc { block: GlAstcBlock::B6x5, color_space: GlCompressedColorSpace::Hdr }),
        TextureFormat::Astc6x6Unorm => Some(GlFormat::Astc { block: GlAstcBlock::B6x6, color_space: GlCompressedColorSpace::Linear }),
        TextureFormat::Astc6x6UnormSrgb => Some(GlFormat::Astc { block: GlAstcBlock::B6x6, color_space: GlCompressedColorSpace::Srgb }),
        TextureFormat::Astc6x6Hdr => Some(GlFormat::Astc { block: GlAstcBlock::B6x6, color_space: GlCompressedColorSpace::Hdr }),
        TextureFormat::Astc8x5Unorm => Some(GlFormat::Astc { block: GlAstcBlock::B8x5, color_space: GlCompressedColorSpace::Linear }),
        TextureFormat::Astc8x5UnormSrgb => Some(GlFormat::Astc { block: GlAstcBlock::B8x5, color_space: GlCompressedColorSpace::Srgb }),
        TextureFormat::Astc8x5Hdr => Some(GlFormat::Astc { block: GlAstcBlock::B8x5, color_space: GlCompressedColorSpace::Hdr }),
        TextureFormat::Astc8x6Unorm => Some(GlFormat::Astc { block: GlAstcBlock::B8x6, color_space: GlCompressedColorSpace::Linear }),
        TextureFormat::Astc8x6UnormSrgb => Some(GlFormat::Astc { block: GlAstcBlock::B8x6, color_space: GlCompressedColorSpace::Srgb }),
        TextureFormat::Astc8x6Hdr => Some(GlFormat::Astc { block: GlAstcBlock::B8x6, color_space: GlCompressedColorSpace::Hdr }),
        TextureFormat::Astc8x8Unorm => Some(GlFormat::Astc { block: GlAstcBlock::B8x8, color_space: GlCompressedColorSpace::Linear }),
        TextureFormat::Astc8x8UnormSrgb => Some(GlFormat::Astc { block: GlAstcBlock::B8x8, color_space: GlCompressedColorSpace::Srgb }),
        TextureFormat::Astc8x8Hdr => Some(GlFormat::Astc { block: GlAstcBlock::B8x8, color_space: GlCompressedColorSpace::Hdr }),
        TextureFormat::Astc10x5Unorm => Some(GlFormat::Astc { block: GlAstcBlock::B10x5, color_space: GlCompressedColorSpace::Linear }),
        TextureFormat::Astc10x5UnormSrgb => Some(GlFormat::Astc { block: GlAstcBlock::B10x5, color_space: GlCompressedColorSpace::Srgb }),
        TextureFormat::Astc10x5Hdr => Some(GlFormat::Astc { block: GlAstcBlock::B10x5, color_space: GlCompressedColorSpace::Hdr }),
        TextureFormat::Astc10x6Unorm => Some(GlFormat::Astc { block: GlAstcBlock::B10x6, color_space: GlCompressedColorSpace::Linear }),
        TextureFormat::Astc10x6UnormSrgb => Some(GlFormat::Astc { block: GlAstcBlock::B10x6, color_space: GlCompressedColorSpace::Srgb }),
        TextureFormat::Astc10x6Hdr => Some(GlFormat::Astc { block: GlAstcBlock::B10x6, color_space: GlCompressedColorSpace::Hdr }),
        TextureFormat::Astc10x8Unorm => Some(GlFormat::Astc { block: GlAstcBlock::B10x8, color_space: GlCompressedColorSpace::Linear }),
        TextureFormat::Astc10x8UnormSrgb => Some(GlFormat::Astc { block: GlAstcBlock::B10x8, color_space: GlCompressedColorSpace::Srgb }),
        TextureFormat::Astc10x8Hdr => Some(GlFormat::Astc { block: GlAstcBlock::B10x8, color_space: GlCompressedColorSpace::Hdr }),
        TextureFormat::Astc10x10Unorm => Some(GlFormat::Astc { block: GlAstcBlock::B10x10, color_space: GlCompressedColorSpace::Linear }),
        TextureFormat::Astc10x10UnormSrgb => Some(GlFormat::Astc { block: GlAstcBlock::B10x10, color_space: GlCompressedColorSpace::Srgb }),
        TextureFormat::Astc10x10Hdr => Some(GlFormat::Astc { block: GlAstcBlock::B10x10, color_space: GlCompressedColorSpace::Hdr }),
        TextureFormat::Astc12x10Unorm => Some(GlFormat::Astc { block: GlAstcBlock::B12x10, color_space: GlCompressedColorSpace::Linear }),
        TextureFormat::Astc12x10UnormSrgb => Some(GlFormat::Astc { block: GlAstcBlock::B12x10, color_space: GlCompressedColorSpace::Srgb }),
        TextureFormat::Astc12x10Hdr => Some(GlFormat::Astc { block: GlAstcBlock::B12x10, color_space: GlCompressedColorSpace::Hdr }),
        TextureFormat::Astc12x12Unorm => Some(GlFormat::Astc { block: GlAstcBlock::B12x12, color_space: GlCompressedColorSpace::Linear }),
        TextureFormat::Astc12x12UnormSrgb => Some(GlFormat::Astc { block: GlAstcBlock::B12x12, color_space: GlCompressedColorSpace::Srgb }),
        TextureFormat::Astc12x12Hdr => Some(GlFormat::Astc { block: GlAstcBlock::B12x12, color_space: GlCompressedColorSpace::Hdr }),
        TextureFormat::Nv12 => None,
    }
}

/// What translating a texture format gives.
pub open spec fn translated_format(format: TextureFormat) -> Result<GlFormat, RhiError> {
    match gl_format(format) {
        Some(value) => Ok(value),
        None => Err(
            RhiError {
                kind: RhiErrorKind::Unsupported,
                detail: RhiDetail::TextureFormat(format),
                operation: Some("GL::texture_format"),
            },
        ),
    }
}

/// Translates a texture format. One that the GL family cannot represent is
/// refused, never approximated.
pub fn texture_format(format: TextureFormat) -> (result: Result<GlFormat, RhiError>)
    ensures
        result == translated_format(format),
{
    let value = match format {
        TextureFormat::R8Unorm => GlFormat::R8Unorm,
        TextureFormat::R8Snorm => GlFormat::R8Snorm,
        TextureFormat::R8Uint => GlFormat::R8Uint,
        TextureFormat::R8Sint => GlFormat::R8Sint,
        TextureFormat::Rg8Unorm => GlFormat::Rg8Unorm,
        TextureFormat::Rg8Snorm => GlFormat::Rg8Snorm,
        TextureFormat::Rg8Uint => GlFormat::Rg8Uint,
        TextureFormat::Rg8Sint => GlFormat::Rg8Sint,
        TextureFormat::Rgba8Unorm => GlFormat::Rgba8Unorm,
        TextureFormat::Rgba8UnormSrgb => GlFormat::Rgba8Srgb,
        TextureFormat::Rgba8Snorm => GlFormat::Rgba8Snorm,
        TextureFormat::Rgba8Uint => GlFormat::Rgba8Uint,
        TextureFormat::Rgba8Sint => GlFormat::Rgba8Sint,
        TextureFormat::Bgra8Unorm => GlFormat::Bgra8Unorm,
        TextureFormat::Bgra8UnormSrgb => GlFormat::Bgra8Srgb,
        TextureFormat::R16Uint => GlFormat::R16Uint,
        TextureFormat::R16Sint => GlFormat::R16Sint,
        TextureFormat::R16Float => GlFormat::R16Float,
        TextureFormat::R16Unorm => GlFormat::R16Unorm,
        TextureFormat::R16Snorm => GlFormat::R16Snorm,
        TextureFormat::Rg16Uint => GlFormat::Rg16Uint,
        TextureFormat::Rg16Sint => GlFormat::Rg16Sint,
        TextureFormat::Rg16Float => GlFormat::Rg16Float,
        TextureFormat::Rg16Unorm => GlFormat::Rg16Unorm,
        TextureFormat::Rg16Snorm => GlFormat::Rg16Snorm,
        TextureFormat::Rgba16Uint => GlFormat::Rgba16Uint,
        TextureFormat::Rgba16Sint => GlFormat::Rgba16Sint,
        TextureFormat::Rgba16Unorm => GlFormat::Rgba16Unorm,
        TextureFormat::Rgba16Snorm => GlFormat::Rgba16Snorm,
        TextureFormat::Rgba16Float => GlFormat::Rgba16Float,
        TextureFormat::Rgba32Float => GlFormat::Rgba32Float,
        TextureFormat::Rgb9e5Ufloat => GlFormat::Rgb9e5Ufloat,
        TextureFormat::Rgb10a2Uint => GlFormat::Rgb10a2Uint,
        TextureFormat::Rgb10a2Unorm => GlFormat::Rgb10a2Unorm,
        TextureFormat::Rg11b10Ufloat => GlFormat::Rg11b10Ufloat,
        TextureFormat::R32Uint => GlFormat::R32Uint,
        TextureFormat::R32Sint => GlFormat::R32Sint,
        TextureFormat::R32Float => GlFormat::R32Float,
        TextureFormat::R64Uint => GlFormat::R64Uint,
        TextureFormat::Rg32Uint => GlFormat::Rg32Uint,
        TextureFormat::Rg32Sint => GlFormat::Rg32Sint,
        TextureFormat::Rg32Float => GlFormat::Rg32Float,
        TextureFormat::Rgba32Uint => GlFormat::Rgba32Uint,
        TextureFormat::Rgba32Sint => GlFormat::Rgba32Sint,
        TextureFormat::Depth16Unorm => GlFormat::Depth16Unorm,
        TextureFormat::Depth24Plus => GlFormat::Depth24Unorm,
        TextureFormat::Depth24PlusStencil8 => GlFormat::Depth24PlusStencil8,
        TextureFormat::Depth32Float => GlFormat::Depth32Float,
        TextureFormat::Depth32FloatStencil8 => GlFormat::Depth32FloatStencil8,
        TextureFormat::Stencil8 => GlFormat::Stencil8,
        TextureFormat::Bc1RgbaUnorm => GlFormat::Bc1RgbaUnorm,
        TextureFormat::Bc1RgbaUnormSrgb => GlFormat::Bc1RgbaSrgb,
        TextureFormat::Bc2RgbaUnorm => GlFormat::Bc2RgbaUnorm,
        TextureFormat::Bc2RgbaUnormSrgb => GlFormat::Bc2RgbaSrgb,
        TextureFormat::Bc3RgbaUnorm => GlFormat::Bc3RgbaUnorm,
        TextureFormat::Bc3RgbaUnormSrgb => GlFormat::Bc3RgbaSrgb,
        TextureFormat::Bc4RUnorm => GlFormat::Bc4RUnorm,
        TextureFormat::Bc4RSnorm => GlFormat::Bc4RSnorm,
        TextureFormat::Bc5RgUnorm => GlFormat::Bc5RgUnorm,
        TextureFormat::Bc5RgSnorm => GlFormat::Bc5RgSnorm,
        TextureFormat::Bc6hRgbUfloat => GlFormat::Bc6hRgbUfloat,
        TextureFormat::Bc6hRgbFloat => GlFormat::Bc6hRgbSfloat,
        TextureFormat::Bc7RgbaUnorm => GlFormat::Bc7RgbaUnorm,
        TextureFormat::Bc7RgbaUnormSrgb => GlFormat::Bc7RgbaSrgb,
        TextureFormat::Etc2Rgb8Unorm => GlFormat::Etc2Rgb8Unorm,
        TextureFormat::Etc2Rgb8UnormSrgb => GlFormat::Etc2Rgb8Srgb,
        TextureFormat::Etc2Rgb8A1Unorm => GlFormat::Etc2Rgb8A1Unorm,
        TextureFormat::Etc2Rgb8A1UnormSrgb => GlFormat::Etc2Rgb8A1Srgb,
        TextureFormat::Etc2Rgba8Unorm => GlFormat::Etc2Rgba8Unorm,
        TextureFormat::Etc2Rgba8UnormSrgb => GlFormat::Etc2Rgba8Srgb,
        TextureFormat::EacR11Unorm => GlFormat::EacR11Unorm,
        TextureFormat::EacR11Snorm => GlFormat::EacR11Snorm,
        TextureFormat::EacRg11Unorm => GlFormat::EacRg11Unorm,
        TextureFormat::EacRg11Snorm => GlFormat::EacRg11Snorm,
        TextureFormat::Astc4x4Unorm => GlFormat::Astc { block: GlAstcBlock::B4x4, color_space: GlCompressedColorSpace::Linear },
        TextureFormat::Astc4x4UnormSrgb => GlFormat::Astc { block: GlAstcBlock::B4x4, color_space: GlCompressedColorSpace::Srgb },
        TextureFormat::Astc4x4Hdr => GlFormat::Astc { block: GlAstcBlock::B4x4, color_space: GlCompressedColorSpace::Hdr },
        TextureFormat::Astc5x4Unorm => GlFormat::Astc { block: GlAstcBlock::B5x4, color_space: GlCompressedColorSpace::Linear },
        TextureFormat::Astc5x4UnormSrgb => GlFormat::Astc { block: GlAstcBlock::B5x4, color_space: GlCompressedColorSpace::Srgb },
        TextureFormat::Astc5x4Hdr => GlFormat::Astc { block: GlAstcBlock::B5x4, color_space: GlCompressedColorSpace::Hdr },
        TextureFormat::Astc5x5Unorm => GlFormat::Astc { block: GlAstcBlock::B5x5, color_space: GlCompressedColorSpace::Linear },
        TextureFormat::Astc5x5UnormSrgb => GlFormat::Astc { block: GlAstcBlock::B5x5, color_space: GlCompressedColorSpace::Srgb },
        TextureFormat::Astc5x5Hdr => GlFormat::Astc { block: GlAstcBlock::B5x5, color_space: GlCompressedColorSpace::Hdr },
        TextureFormat::Astc6x5Unorm => GlFormat::Astc { block: GlAstcBlock::B6x5, color_space: GlCompressedColorSpace::Linear },
        TextureFormat::Astc6x5UnormSrgb => GlFormat::Astc { block: GlAstcBlock::B6x5, color_space: GlCompressedColorSpace::Srgb },
        TextureFormat::Astc6x5Hdr => GlFormat::Astc { block: GlAstcBlock::B6x5, color_space: GlCompressedColorSpace::Hdr },
        TextureFormat::Astc6x6Unorm => GlFormat::Astc { block: GlAstcBlock::B6x6, color_space: GlCompressedColorSpace::Linear },
        TextureFormat::Astc6x6UnormSrgb => GlFormat::Astc { block: GlAstcBlock::B6x6, color_space: GlCompressedColorSpace::Srgb },
        TextureFormat::Astc6x6Hdr => GlFormat::Astc { block: GlAstcBlock::B6x6, color_space: GlCompressedColorSpace::Hdr },
        TextureFormat::Astc8x5Unorm => GlFormat::Astc { block: GlAstcBlock::B8x5, color_space: GlCompressedColorSpace::Linear },
        TextureFormat::Astc8x5UnormSrgb => GlFormat::Astc { block: GlAstcBlock::B8x5, color_space: GlCompressedColorSpace::Srgb },
        TextureFormat::Astc8x5Hdr => GlFormat::Astc { block: GlAstcBlock::B8x5, color_space: GlCompressedColorSpace::Hdr },
        TextureFormat::Astc8x6Unorm => GlFormat::Astc { block: GlAstcBlock::B8x6, color_space: GlCompressedColorSpace::Linear },
        TextureFormat::Astc8x6UnormSrgb => GlFormat::Astc { block: GlAstcBlock::B8x6, color_space: GlCompressedColorSpace::Srgb },
        TextureFormat::Astc8x6Hdr => GlFormat::Astc { block: GlAstcBlock::B8x6, color_space: GlCompressedColorSpace::Hdr },
        TextureFormat::Astc8x8Unorm => GlFormat::Astc { block: GlAstcBlock::B8x8, color_space: GlCompressedColorSpace::Linear },
        TextureFormat::Astc8x8UnormSrgb => GlFormat::Astc { block: GlAstcBlock::B8x8, color_space: GlCompressedColorSpace::Srgb },
        TextureFormat::Astc8x8Hdr => GlFormat::Astc { block: GlAstcBlock::B8x8, color_space: GlCompressedColorSpace::Hdr },
        TextureFormat::Astc10x5Unorm => GlFormat::Astc { block: GlAstcBlock::B10x5, color_space: GlCompressedColorSpace::Linear },
        TextureFormat::Astc10x5UnormSrgb => GlFormat::Astc { block: GlAstcBlock::B10x5, color_space: GlCompressedColorSpace::Srgb },
        TextureFormat::Astc10x5Hdr => GlFormat::Astc { block: GlAstcBlock::B10x5, color_space: GlCompressedColorSpace::Hdr },
        TextureFormat::Astc10x6Unorm => GlFormat::Astc { block: GlAstcBlock::B10x6, color_space: GlCompressedColorSpace::Linear },
        TextureFormat::Astc10x6UnormSrgb => GlFormat::Astc { block: GlAstcBlock::B10x6, color_space: GlCompressedColorSpace::Srgb },
        TextureFormat::Astc10x6Hdr => GlFormat::Astc { block: GlAstcBlock::B10x6, color_space: GlCompressedColorSpace::Hdr },
        TextureFormat::Astc10x8Unorm => GlFormat::Astc { block: GlAstcBlock::B10x8, color_space: GlCompressedColorSpace::Linear },
        TextureFormat::Astc10x8UnormSrgb => GlFormat::Astc { block: GlAstcBlock::B10x8, color_space: GlCompressedColorSpace::Srgb },
        TextureFormat::Astc10x8Hdr => GlFormat::Astc { block: GlAstcBlock::B10x8, color_space: GlCompressedColorSpace::Hdr },
        TextureFormat::Astc10x10Unorm => GlFormat::Astc { block: GlAstcBlock::B10x10, color_space: GlCompressedColorSpace::Linear },
        TextureFormat::Astc10x10UnormSrgb => GlFormat::Astc { block: GlAstcBlock::B10x10, color_space: GlCompressedColorSpace::Srgb },
        TextureFormat::Astc10x10Hdr => GlFormat::Astc { block: GlAstcBlock::B10x10, color_space: GlCompressedColorSpace::Hdr },
        TextureFormat::Astc12x10Unorm => GlFormat::Astc { block: GlAstcBlock::B12x10, color_space: GlCompressedColorSpace::Linear },
        TextureFormat::Astc12x10UnormSrgb => GlFormat::Astc { block: GlAstcBlock::B12x10, color_space: GlCompressedColorSpace::Srgb },
        TextureFormat::Astc12x10Hdr => GlFormat::Astc { block: GlAstcBlock::B12x10, color_space: GlCompressedColorSpace::Hdr },
        TextureFormat::Astc12x12Unorm => GlFormat::Astc { block: GlAstcBlock::B12x12, color_space: GlCompressedColorSpace::Linear },
        TextureFormat::Astc12x12UnormSrgb => GlFormat::Astc { block: GlAstcBlock::B12x12, color_space: GlCompressedColorSpace::Srgb },
        TextureFormat::Astc12x12Hdr => GlFormat::Astc { block: GlAstcBlock::B12x12, color_space: GlCompressedColorSpace::Hdr },
        TextureFormat::Nv12 => {
            return Err(unsupported("GL::texture_format", RhiDetail::TextureFormat(format)));
        },
    };
    Ok(value)
}

/// No two texture formats are translated to the same format.
pub proof fn texture_formats_stay_apart(left: TextureFormat, right: TextureFormat)
    requires
        gl_format(left) is Some,
        gl_format(left) == gl_format(right),
    ensures
        left == right,
{
}

/// Whether the format is made of encoded blocks.
pub open spec fn is_compressed(format: TextureFormat) -> bool {
    crate::api::format::spec_block_extent(format) != (1u32, 1u32)
}

pub fn is_compressed_texture_format(format: TextureFormat) -> (result: bool)
    ensures
        result == is_compressed(format),
{
    let extent = crate::api::format::block_extent(format);
    extent.0 != 1 || extent.1 != 1
}

/// How many blocks cover a side.
pub open spec fn blocks_across(side: u32, block: u32) -> int {
    (side + block - 1) / block as int
}

fn count_blocks(side: u32, block: u32) -> (result: u32)
    requires
        1 <= block <= 12,
    ensures
        result == blocks_across(side, block),
{
    let wide: u64 = side as u64;
    let total: u64 = wide + block as u64 - 1;
    let result: u64 = total / block as u64;
    proof {
        assert(result <= wide) by (nonlinear_arith)
            requires
                result == (wide + block - 1) / block as int,
                1 <= block <= 12,
                wide >= 0,
        ;
    }
    result as u32
}

/// Whether an upload defines one whole level of a 2D texture.
pub open spec fn defines_whole_level(upload: TextureUploadDescriptor) -> bool {
    &&& upload.dst.descriptor.dimension is D2
    &&& upload.subresource.aspect is Color
    &&& upload.subresource.base_layer == 0
    &&& upload.subresource.layer_count == 1
    &&& upload.origin == (resource::Origin3d { x: 0, y: 0, z: 0 })
    &&& upload.extent.depth == 1
}

/// The bytes of one row of blocks.
pub open spec fn block_row_bytes(upload: TextureUploadDescriptor) -> int {
    let format = upload.dst.descriptor.format;
    blocks_across(upload.extent.width, crate::api::format::spec_block_extent(format).0) * crate::api::format::block_bytes(
        format,
    )->0
}

/// The rows of blocks.
pub open spec fn block_rows(upload: TextureUploadDescriptor) -> int {
    blocks_across(upload.extent.height, crate::api::format::spec_block_extent(upload.dst.descriptor.format).1)
}

/// What checking a compressed upload gives: only a whole level, packed tightly,
/// is accepted.
pub open spec fn checked_compressed_upload(
    upload: TextureUploadDescriptor,
    operation: &'static str,
) -> Result<(), RhiError> {
    let descriptor = upload.dst.descriptor;
    if !is_compressed(descriptor.format) {
        Ok(())
    } else if !defines_whole_level(upload) {
        Err(
            error::rhi_error_at(
                RhiErrorKind::Unsupported,
                "compressed GL uploads must define one complete 2D color mip",
                operation,
            ),
        )
    } else if upload.extent != resource::spec_mip_extent(
        descriptor.extent,
        descriptor.dimension,
        upload.subresource.mip_level,
    ) {
        Err(
            error::rhi_error_at(
                RhiErrorKind::Unsupported,
                "compressed GL uploads cannot define a sub-rectangle or partial mip",
                operation,
            ),
        )
    } else if block_row_bytes(upload) > u32::MAX {
        Err(
            error::rhi_error_at(
                RhiErrorKind::OutOfMemory,
                "compressed upload row size overflows",
                operation,
            ),
        )
    } else if upload.source_layout.bytes_per_row != block_row_bytes(upload)
        || upload.source_layout.rows_per_image != block_rows(upload) || (*upload.bytes)@.len()
        != block_row_bytes(upload) * block_rows(upload) {
        Err(
            error::rhi_error_at(
                RhiErrorKind::Unsupported,
                "compressed GL uploads require a tightly packed complete encoded mip",
                operation,
            ),
        )
    } else {
        Ok(())
    }
}

proof fn lemma_compressed_formats_have_sizes(format: TextureFormat)
    requires
        is_compressed(format),
    ensures
        crate::api::format::block_bytes(format) is Some,
        crate::api::format::block_bytes(format)->0 == 8 || crate::api::format::block_bytes(format)->0 == 16,
{
}

pub fn validate_compressed_texture_upload(
    upload: &TextureUploadDescriptor,
    operation: &'static str,
) -> (result: Result<(), RhiError>)
    ensures
        result == checked_compressed_upload(*upload, operation),
{
    let descriptor = upload.dst.descriptor;
    if !is_compressed_texture_format(descriptor.format) {
        return Ok(());
    }
    if descriptor.dimension != TextureDimension::D2 || upload.subresource.aspect
        != TextureAspect::Color || upload.subresource.base_layer != 0
        || upload.subresource.layer_count != 1 || upload.origin.x != 0 || upload.origin.y != 0
        || upload.origin.z != 0 || upload.extent.depth != 1 {
        return Err(
            refused(operation, "compressed GL uploads must define one complete 2D color mip"),
        );
    }
    let expected = resource::mip_extent(
        descriptor.extent,
        descriptor.dimension,
        upload.subresource.mip_level,
    );
    if upload.extent != expected {
        return Err(
            refused(
                operation,
                "compressed GL uploads cannot define a sub-rectangle or partial mip",
            ),
        );
    }
    let block = crate::api::format::block_extent(descriptor.format);
    proof {
        lemma_compressed_formats_have_sizes(descriptor.format);
    }
    let block_bytes: u32 = match crate::api::format::logical_bytes_per_block(descriptor.format) {
        Some(bytes) => bytes,
        None => {
            assert(false);
            return Err(refused(operation, "compressed format has no exact encoded block size"));
        },
    };
    let wide: u32 = count_blocks(upload.extent.width, block.0);
    let high: u32 = count_blocks(upload.extent.height, block.1);
    let row_bytes: u32 = match wide.checked_mul(block_bytes) {
        Some(bytes) => bytes,
        None => {
            return Err(
                RhiError::new(RhiErrorKind::OutOfMemory, "compressed upload row size overflows").at(
                    operation,
                ),
            );
        },
    };
    proof {
        assert(row_bytes * high <= 0xffff_ffff * 0xffff_ffff) by (nonlinear_arith)
            requires
                row_bytes <= 0xffff_ffff,
                high <= 0xffff_ffff,
        ;
    }
    let exact: u64 = row_bytes as u64 * high as u64;
    if upload.source_layout.bytes_per_row != row_bytes || upload.source_layout.rows_per_image
        != high || upload.bytes.len() as u64 != exact {
        return Err(
            refused(
                operation,
                "compressed GL uploads require a tightly packed complete encoded mip",
            ),
        );
    }
    Ok(())
}

/// The buffer allocation that a descriptor asks for.
pub open spec fn translated_buffer(desc: BufferDescriptor) -> Result<GlBufferDesc, RhiError> {
    let usage = desc.usage;
    if usage.blas_input || usage.tlas_input || usage.acceleration_structure_scratch {
        Err(
            error::rhi_error_at(
                RhiErrorKind::Unsupported,
                "acceleration-structure buffer usage is not representable by GL-family lowering",
                "GL::create_buffer",
            ),
        )
    } else {
        Ok(
            GlBufferDesc {
                size: desc.size,
                usage: GlBufferUsage {
                    copy_source: usage.copy_src,
                    copy_destination: usage.copy_dst || usage.query_resolve,
                    vertex: usage.vertex,
                    index: usage.index,
                    uniform: usage.uniform,
                    storage: usage.storage,
                    indirect: usage.indirect,
                    map_read: usage.map_read,
                    map_write: usage.map_write,
                },
            },
        )
    }
}

pub fn buffer_descriptor(desc: &BufferDescriptor) -> (result: Result<GlBufferDesc, RhiError>)
    ensures
        result == translated_buffer(*desc),
{
    let usage = desc.usage;
    if usage.blas_input || usage.tlas_input || usage.acceleration_structure_scratch {
        return Err(
            refused(
                "GL::create_buffer",
                "acceleration-structure buffer usage is not representable by GL-family lowering",
            ),
        );
    }
    Ok(
        GlBufferDesc {
            size: desc.size,
            usage: GlBufferUsage {
                copy_source: usage.copy_src,
                copy_destination: usage.copy_dst || usage.query_resolve,
                vertex: usage.vertex,
                index: usage.index,
                uniform: usage.uniform,
                storage: usage.storage,
                indirect: usage.indirect,
                map_read: usage.map_read,
                map_write: usage.map_write,
            },
        },
    )
}

/// The texture allocation that a descriptor asks for.
pub open spec fn translated_texture(desc: TextureDescriptor) -> Result<GlTextureDesc, RhiError> {
    match translated_format(desc.format) {
        Err(error) => Err(error),
        Ok(format) => Ok(
            GlTextureDesc {
                dimension: match desc.dimension {
                    TextureDimension::D1 => GlTextureDimension::D1,
                    TextureDimension::D2 => if desc.array_layers == 1 {
                        GlTextureDimension::D2
                    } else {
                        GlTextureDimension::D2Array
                    },
                    TextureDimension::D3 => GlTextureDimension::D3,
                },
                extent: GlExtent3d {
                    width: desc.extent.width,
                    height: desc.extent.height,
                    depth_or_layers: if desc.dimension is D3 {
                        desc.extent.depth
                    } else {
                        desc.array_layers
                    },
                },
                mip_level_count: desc.mip_levels,
                sample_count: desc.sample_count,
                format,
                usage: GlTextureUsage {
                    copy_source: desc.usage.copy_src,
                    copy_destination: desc.usage.copy_dst,
                    sampled: desc.usage.sampled,
                    storage_binding: desc.usage.storage,
                    render_attachment: desc.usage.color_attachment
                        || desc.usage.depth_stencil_attachment,
                },
            },
        ),
    }
}

pub fn texture_descriptor(desc: &TextureDescriptor) -> (result: Result<GlTextureDesc, RhiError>)
    ensures
        result == translated_texture(*desc),
{
    let dimension = match desc.dimension {
        TextureDimension::D1 => GlTextureDimension::D1,
        TextureDimension::D2 => if desc.array_layers == 1 {
            GlTextureDimension::D2
        } else {
            GlTextureDimension::D2Array
        },
        TextureDimension::D3 => GlTextureDimension::D3,
    };
    let format = match texture_format(desc.format) {
        Ok(format) => format,
        Err(error) => {
            return Err(error);
        },
    };
    Ok(
        GlTextureDesc {
            dimension,
            extent: GlExtent3d {
                width: desc.extent.width,
                height: desc.extent.height,
                depth_or_layers: match desc.dimension {
                    TextureDimension::D3 => desc.extent.depth,
                    _ => desc.array_layers,
                },
            },
            mip_level_count: desc.mip_levels,
            sample_count: desc.sample_count,
            format,
            usage: GlTextureUsage {
                copy_source: desc.usage.copy_src,
                copy_destination: desc.usage.copy_dst,
                sampled: desc.usage.sampled,
                storage_binding: desc.usage.storage,
                render_attachment: desc.usage.color_attachment
                    || desc.usage.depth_stencil_attachment,
            },
        },
    )
}

/// The dimension of the allocation that a view needs.
pub open spec fn translated_view_dimension(value: TextureViewDimension) -> Result<
    GlTextureDimension,
    RhiError,
> {
    match value {
        TextureViewDimension::D1 => Ok(GlTextureDimension::D1),
        TextureViewDimension::D2 => Ok(GlTextureDimension::D2),
        TextureViewDimension::D2Array => Ok(GlTextureDimension::D2Array),
        TextureViewDimension::Cube => Ok(GlTextureDimension::Cube),
        TextureViewDimension::CubeArray => Err(
            error::rhi_error_at(
                RhiErrorKind::Unsupported,
                "GL typed view vocabulary has no distinct cube-array target",
                "GL::create_texture_view",
            ),
        ),
        TextureViewDimension::D3 => Ok(GlTextureDimension::D3),
    }
}

pub fn view_dimension(value: TextureViewDimension) -> (result: Result<GlTextureDimension, RhiError>)
    ensures
        result == translated_view_dimension(value),
{
    match value {
        TextureViewDimension::D1 => Ok(GlTextureDimension::D1),
        TextureViewDimension::D2 => Ok(GlTextureDimension::D2),
        TextureViewDimension::D2Array => Ok(GlTextureDimension::D2Array),
        TextureViewDimension::Cube => Ok(GlTextureDimension::Cube),
        TextureViewDimension::CubeArray => Err(
            refused(
                "GL::create_texture_view",
                "GL typed view vocabulary has no distinct cube-array target",
            ),
        ),
        TextureViewDimension::D3 => Ok(GlTextureDimension::D3),
    }
}

/// The format that a view is read as.
pub open spec fn viewed_format(view: TextureViewDescriptor, base: TextureFormat) -> TextureFormat {
    match view.format {
        Some(format) => format,
        None => base,
    }
}

pub fn view_format(view: &TextureViewDescriptor, base: TextureFormat) -> (result: Result<
    GlFormat,
    RhiError,
>)
    ensures
        result == translated_format(viewed_format(*view, base)),
{
    texture_format(view.format.unwrap_or(base))
}

/// Whether a view shows the whole of its texture and reads it as it is.
pub open spec fn is_whole_view(
    view: TextureViewDescriptor,
    base_format: TextureFormat,
    base: GlTextureDesc,
) -> bool {
    &&& translated_view_dimension(view.dimension) == Ok::<_, RhiError>(base.dimension)
    &&& viewed_format(view, base_format) == base_format
    &&& view.aspects == crate::api::format::aspects_of(base_format)
    &&& view.base_mip == 0
    &&& view.mip_count == base.mip_level_count
    &&& view.base_layer == 0
    &&& view.layer_count == base.extent.depth_or_layers
}

/// What asking for a view without a view object gives.
pub open spec fn whole_view(
    view: TextureViewDescriptor,
    base_format: TextureFormat,
    base: GlTextureDesc,
) -> Result<GlTextureDimension, RhiError> {
    match translated_view_dimension(view.dimension) {
        Err(error) => Err(error),
        Ok(dimension) => if is_whole_view(view, base_format, base) {
            Ok(dimension)
        } else {
            Err(
                error::rhi_error_at(
                    RhiErrorKind::Unsupported,
                    "this GL profile has no independent texture-view object; only the base texture's whole, same-format, same-dimension view is representable",
                    "GL::create_texture_view",
                ),
            )
        },
    }
}

/// Accepts the only view that needs no view object: the whole texture, as it
/// is. The level bounds of a texture belong to the texture, so two views with
/// different ranges would change each other.
pub fn whole_compatible_virtual_view(
    view: &TextureViewDescriptor,
    base_format: TextureFormat,
    base: GlTextureDesc,
) -> (result: Result<GlTextureDimension, RhiError>)
    ensures
        result == whole_view(*view, base_format, base),
{
    let dimension = match view_dimension(view.dimension) {
        Ok(dimension) => dimension,
        Err(error) => {
            return Err(error);
        },
    };
    let aspects = crate::api::format::format_aspects(base_format);
    if dimension != base.dimension || view.format.unwrap_or(base_format) != base_format
        || view.aspects != aspects || view.base_mip != 0 || view.mip_count != base.mip_level_count
        || view.base_layer != 0 || view.layer_count != base.extent.depth_or_layers {
        return Err(
            refused(
                "GL::create_texture_view",
                "this GL profile has no independent texture-view object; only the base texture's whole, same-format, same-dimension view is representable",
            ),
        );
    }
    Ok(dimension)
}

/// The address mode of a sampler object.
pub open spec fn translated_address(value: AddressMode) -> Result<GlAddressMode, RhiError> {
    match value {
        AddressMode::ClampToEdge => Ok(GlAddressMode::ClampToEdge),
        AddressMode::Repeat => Ok(GlAddressMode::Repeat),
        AddressMode::MirrorRepeat => Ok(GlAddressMode::MirroredRepeat),
        AddressMode::ClampToBorder => Err(
            error::rhi_error_at(
                RhiErrorKind::Unsupported,
                "clamp-to-border requires profile-specific GL extension admission",
                "GL::create_sampler",
            ),
        ),
    }
}

fn address(value: AddressMode) -> (result: Result<GlAddressMode, RhiError>)
    ensures
        result == translated_address(value),
{
    match value {
        AddressMode::ClampToEdge => Ok(GlAddressMode::ClampToEdge),
        AddressMode::Repeat => Ok(GlAddressMode::Repeat),
        AddressMode::MirrorRepeat => Ok(GlAddressMode::MirroredRepeat),
        AddressMode::ClampToBorder => Err(
            refused(
                "GL::create_sampler",
                "clamp-to-border requires profile-specific GL extension admission",
            ),
        ),
    }
}

/// The filter of a sampler object.
pub open spec fn translated_filter(value: FilterMode) -> GlFilterMode {
    match value {
        FilterMode::Nearest => GlFilterMode::Nearest,
        FilterMode::Linear => GlFilterMode::Linear,
    }
}

fn filter(value: FilterMode) -> (result: GlFilterMode)
    ensures
        result == translated_filter(value),
{
    match value {
        FilterMode::Nearest => GlFilterMode::Nearest,
        FilterMode::Linear => GlFilterMode::Linear,
    }
}

/// The comparison of a sampler object.
pub open spec fn translated_compare(value: CompareFunction) -> GlCompareFunction {
    match value {
        CompareFunction::Never => GlCompareFunction::Never,
        CompareFunction::Less => GlCompareFunction::Less,
        CompareFunction::Equal => GlCompareFunction::Equal,
        CompareFunction::LessEqual => GlCompareFunction::LessEqual,
        CompareFunction::Greater => GlCompareFunction::Greater,
        CompareFunction::NotEqual => GlCompareFunction::NotEqual,
        CompareFunction::GreaterEqual => GlCompareFunction::GreaterEqual,
        CompareFunction::Always => GlCompareFunction::Always,
    }
}

fn sampler_compare(value: CompareFunction) -> (result: GlCompareFunction)
    ensures
        result == translated_compare(value),
{
    match value {
        CompareFunction::Never => GlCompareFunction::Never,
        CompareFunction::Less => GlCompareFunction::Less,
        CompareFunction::Equal => GlCompareFunction::Equal,
        CompareFunction::LessEqual => GlCompareFunction::LessEqual,
        CompareFunction::Greater => GlCompareFunction::Greater,
        CompareFunction::NotEqual => GlCompareFunction::NotEqual,
        CompareFunction::GreaterEqual => GlCompareFunction::GreaterEqual,
        CompareFunction::Always => GlCompareFunction::Always,
    }
}

/// The sampler object that a descriptor asks for.
pub open spec fn translated_sampler(desc: SamplerDescriptor) -> Result<GlSamplerDesc, RhiError> {
    match (
        translated_address(desc.address_u),
        translated_address(desc.address_v),
        translated_address(desc.address_w),
    ) {
        (Err(error), _, _) => Err(error),
        (_, Err(error), _) => Err(error),
        (_, _, Err(error)) => Err(error),
        (Ok(address_mode_u), Ok(address_mode_v), Ok(address_mode_w)) => Ok(
            GlSamplerDesc {
                address_mode_u,
                address_mode_v,
                address_mode_w,
                mag_filter: translated_filter(desc.mag_filter),
                min_filter: translated_filter(desc.min_filter),
                mipmap_filter: match desc.mip_filter {
                    FilterMode::Nearest => GlMipmapFilterMode::Nearest,
                    FilterMode::Linear => GlMipmapFilterMode::Linear,
                },
                lod_min_bits: desc.lod_min_bits,
                lod_max_bits: desc.lod_max_bits,
                compare: match desc.compare {
                    Some(compare) => Some(translated_compare(compare)),
                    None => None,
                },
                max_anisotropy_bits: if desc.max_anisotropy > 1 {
                    Some(float::whole_number_bits(desc.max_anisotropy))
                } else {
                    None
                },
            },
        ),
    }
}

pub fn sampler_descriptor(desc: &SamplerDescriptor) -> (result: Result<GlSamplerDesc, RhiError>)
    ensures
        result == translated_sampler(*desc),
{
    let address_mode_u = match address(desc.address_u) {
        Ok(mode) => mode,
        Err(error) => {
            return Err(error);
        },
    };
    let address_mode_v = match address(desc.address_v) {
        Ok(mode) => mode,
        Err(error) => {
            return Err(error);
        },
    };
    let address_mode_w = match address(desc.address_w) {
        Ok(mode) => mode,
        Err(error) => {
            return Err(error);
        },
    };
    Ok(
        GlSamplerDesc {
            address_mode_u,
            address_mode_v,
            address_mode_w,
            mag_filter: filter(desc.mag_filter),
            min_filter: filter(desc.min_filter),
            mipmap_filter: match desc.mip_filter {
                FilterMode::Nearest => GlMipmapFilterMode::Nearest,
                FilterMode::Linear => GlMipmapFilterMode::Linear,
            },
            lod_min_bits: desc.lod_min_bits,
            lod_max_bits: desc.lod_max_bits,
            compare: match desc.compare {
                Some(compare) => Some(sampler_compare(compare)),
                None => None,
            },
            max_anisotropy_bits: if desc.max_anisotropy > 1 {
                Some(float::from_u16(desc.max_anisotropy))
            } else {
                None
            },
        },
    )
}

/// The stage that a portable stage runs in.
pub open spec fn translated_stage(stage: ShaderStage) -> Result<GlShaderStage, RhiError> {
    match stage {
        ShaderStage::Vertex => Ok(GlShaderStage::Vertex),
        ShaderStage::Fragment => Ok(GlShaderStage::Fragment),
        ShaderStage::Compute => Ok(GlShaderStage::Compute),
        _ => Err(
            error::rhi_error_at(
                RhiErrorKind::Unsupported,
                "mesh and ray shader stages are not representable by GL-family lowering",
                "GL::create_shader",
            ),
        ),
    }
}

pub fn shader_stage(stage: ShaderStage) -> (result: Result<GlShaderStage, RhiError>)
    ensures
        result == translated_stage(stage),
{
    match stage {
        ShaderStage::Vertex => Ok(GlShaderStage::Vertex),
        ShaderStage::Fragment => Ok(GlShaderStage::Fragment),
        ShaderStage::Compute => Ok(GlShaderStage::Compute),
        _ => Err(
            refused(
                "GL::create_shader",
                "mesh and ray shader stages are not representable by GL-family lowering",
            ),
        ),
    }
}

/// The source that an artifact holds for the GL family.
pub open spec fn translated_shader(artifact: ShaderArtifact) -> Result<GlShaderSource, RhiError> {
    match translated_stage(artifact.stage) {
        Err(error) => Err(error),
        Ok(stage) => match artifact.code {
            ShaderCode::Glsl { version, source } => Ok(
                GlShaderSource {
                    stage,
                    dialect: GlShaderDialect::Desktop { version },
                    entry_point: artifact.entry_point,
                    source_hash: artifact.content_hash,
                    text: source,
                    debug_name: None,
                },
            ),
            ShaderCode::GlslEs { version, source } => Ok(
                GlShaderSource {
                    stage,
                    dialect: GlShaderDialect::Embedded { version },
                    entry_point: artifact.entry_point,
                    source_hash: artifact.content_hash,
                    text: source,
                    debug_name: None,
                },
            ),
            ShaderCode::Other => Err(
                error::rhi_error_at(
                    RhiErrorKind::Unsupported,
                    "GL-family lowering requires GLSL or GLSL ES source artifact",
                    "GL::create_shader",
                ),
            ),
        },
    }
}

/// Selects a source that is GLSL already. Nothing is transpiled here.
pub fn shader_source(artifact: &ShaderArtifact) -> (result: Result<GlShaderSource, RhiError>)
    ensures
        result == translated_shader(*artifact),
{
    let stage = match shader_stage(artifact.stage) {
        Ok(stage) => stage,
        Err(error) => {
            return Err(error);
        },
    };
    match &artifact.code {
        ShaderCode::Glsl { version, source } => Ok(
            GlShaderSource {
                stage,
                dialect: GlShaderDialect::Desktop { version: *version },
                entry_point: Arc::clone(&artifact.entry_point),
                source_hash: artifact.content_hash,
                text: Arc::clone(source),
                debug_name: None,
            },
        ),
        ShaderCode::GlslEs { version, source } => Ok(
            GlShaderSource {
                stage,
                dialect: GlShaderDialect::Embedded { version: *version },
                entry_point: Arc::clone(&artifact.entry_point),
                source_hash: artifact.content_hash,
                text: Arc::clone(source),
                debug_name: None,
            },
        ),
        ShaderCode::Other => Err(
            refused(
                "GL::create_shader",
                "GL-family lowering requires GLSL or GLSL ES source artifact",
            ),
        ),
    }
}

/// The interface version that this library implements.
pub open spec fn implemented_abi() -> AbiVersion {
    AbiVersion { major: IMPLEMENTED_ABI_MAJOR, minor: IMPLEMENTED_ABI_MINOR }
}

/// Why the resources of one artifact cannot be bound, if they cannot.
pub open spec fn artifact_refusal(
    declared: Seq<ResourceLocation>,
    artifact: ShaderArtifact,
) -> Option<RhiDetail> {
    if artifact.abi_version != implemented_abi() {
        Some(
            RhiDetail::ShaderAbi { required: implemented_abi(), found: artifact.abi_version },
        )
    } else if artifact.resources@.len() == 0 {
        None
    } else {
        let location = artifact.resources@[0];
        Some(
            RhiDetail::ShaderResource {
                reason: if declared.contains(location) {
                    "the shader interface maps no reflection name to this resource"
                } else {
                    "the shader resource has no pipeline-interface declaration"
                },
                location,
            },
        )
    }
}

/// Why the first of the artifacts that cannot be bound cannot be bound.
pub open spec fn layout_refusal(
    declared: Seq<ResourceLocation>,
    artifacts: Seq<Arc<ShaderArtifact>>,
) -> Option<RhiDetail>
    decreases artifacts.len(),
{
    if artifacts.len() == 0 {
        None
    } else {
        match artifact_refusal(declared, *artifacts[0]) {
            Some(detail) => Some(detail),
            None => layout_refusal(declared, artifacts.drop_first()),
        }
    }
}

fn is_declared(declared: &Vec<ResourceLocation>, location: ResourceLocation) -> (result: bool)
    ensures
        result == declared@.contains(location),
{
    let mut at: usize = 0;
    while at < declared.len()
        invariant
            at <= declared@.len(),
            forall|i: int| 0 <= i < at ==> declared@[i] != location,
        decreases declared@.len() - at,
    {
        if declared[at] == location {
            return true;
        }
        at += 1;
    }
    false
}

/// The layout of a program. The linked program is asked for its resources by
/// name, and the shader interface fixes no names: so only artifacts without
/// resources are accepted, and the layout is empty.
pub fn pipeline_layout_from_artifacts(
    interface: &PipelineInterface,
    artifacts: &Vec<Arc<ShaderArtifact>>,
) -> (result: Result<GlPipelineLayout, RhiError>)
    ensures
        match layout_refusal(interface.declared@, artifacts@) {
            None => result is Ok && result->Ok_0.bindings@.len() == 0,
            Some(detail) => result == Err::<GlPipelineLayout, _>(
                RhiError {
                    kind: RhiErrorKind::Unsupported,
                    detail,
                    operation: Some("GL::pipeline_layout_from_artifacts"),
                },
            ),
        },
{
    let mut at: usize = 0;
    assert(artifacts@.skip(0) =~= artifacts@);
    while at < artifacts.len()
        invariant
            at <= artifacts@.len(),
            layout_refusal(interface.declared@, artifacts@) == layout_refusal(
                interface.declared@,
                artifacts@.skip(at as int),
            ),
        decreases artifacts@.len() - at,
    {
        let artifact = &artifacts[at];
        proof {
            assert(artifacts@.skip(at as int).drop_first() =~= artifacts@.skip(at + 1));
        }
        let implemented = AbiVersion { major: IMPLEMENTED_ABI_MAJOR, minor: IMPLEMENTED_ABI_MINOR };
        if artifact.abi_version != implemented {
            return Err(
                unsupported(
                    "GL::pipeline_layout_from_artifacts",
                    RhiDetail::ShaderAbi { required: implemented, found: artifact.abi_version },
                ),
            );
        }
        if artifact.resources.len() > 0 {
            let location = artifact.resources[0];
            let reason = if is_declared(&interface.declared, location) {
                "the shader interface maps no reflection name to this resource"
            } else {
                "the shader resource has no pipeline-interface declaration"
            };
            return Err(
                unsupported(
                    "GL::pipeline_layout_from_artifacts",
                    RhiDetail::ShaderResource { reason, location },
                ),
            );
        }
        at += 1;
    }
    Ok(GlPipelineLayout { bindings: Vec::new() })
}

/// The vertex format of the GL family for a portable format. A format with
/// swapped channels has none: its bytes would be read in another order.
pub open spec fn gl_vertex_format(value: VertexFormat) -> Option<GlVertexFormat> {
    match value {
        VertexFormat::Uint8x2 => Some(GlVertexFormat::Uint8x2),
        VertexFormat::Uint8x4 => Some(GlVertexFormat::Uint8x4),
        VertexFormat::Sint8x2 => Some(GlVertexFormat::Sint8x2),
        VertexFormat::Sint8x4 => Some(GlVertexFormat::Sint8x4),
        VertexFormat::Unorm8x2 => Some(GlVertexFormat::Unorm8x2),
        VertexFormat::Unorm8x4 => Some(GlVertexFormat::Unorm8x4),
        VertexFormat::Snorm8x2 => Some(GlVertexFormat::Snorm8x2),
        VertexFormat::Snorm8x4 => Some(GlVertexFormat::Snorm8x4),
        VertexFormat::Uint16x2 => Some(GlVertexFormat::Uint16x2),
        VertexFormat::Uint16x4 => Some(GlVertexFormat::Uint16x4),
        VertexFormat::Sint16x2 => Some(GlVertexFormat::Sint16x2),
        VertexFormat::Sint16x4 => Some(GlVertexFormat::Sint16x4),
        VertexFormat::Unorm16x2 => Some(GlVertexFormat::Unorm16x2),
        VertexFormat::Unorm16x4 => Some(GlVertexFormat::Unorm16x4),
        VertexFormat::Snorm16x2 => Some(GlVertexFormat::Snorm16x2),
        VertexFormat::Snorm16x4 => Some(GlVertexFormat::Snorm16x4),
        VertexFormat::Float16x2 => Some(GlVertexFormat::Float16x2),
        VertexFormat::Float16x4 => Some(GlVertexFormat::Float16x4),
        VertexFormat::Float32 => Some(GlVertexFormat::Float32),
        VertexFormat::Float32x2 => Some(GlVertexFormat::Float32x2),
        VertexFormat::Float32x3 => Some(GlVertexFormat::Float32x3),
        VertexFormat::Float32x4 => Some(GlVertexFormat::Float32x4),
        VertexFormat::Uint32 => Some(GlVertexFormat::Uint32),
        VertexFormat::Uint32x2 => Some(GlVertexFormat::Uint32x2),
        VertexFormat::Uint32x3 => Some(GlVertexFormat::Uint32x3),
        VertexFormat::Uint32x4 => Some(GlVertexFormat::Uint32x4),
        VertexFormat::Sint32 => Some(GlVertexFormat::Sint32),
        VertexFormat::Sint32x2 => Some(GlVertexFormat::Sint32x2),
        VertexFormat::Sint32x3 => Some(GlVertexFormat::Sint32x3),
        VertexFormat::Sint32x4 => Some(GlVertexFormat::Sint32x4),
        _ => None,
    }
}

pub fn vertex_format(value: VertexFormat) -> (result: Result<GlVertexFormat, RhiError>)
    ensures
        result == (match gl_vertex_format(value) {
            Some(format) => Ok(format),
            None => Err(
                RhiError {
                    kind: RhiErrorKind::Unsupported,
                    detail: RhiDetail::VertexFormat(value),
                    operation: Some("GL::vertex_format"),
                },
            ),
        }),
{
    let result = match value {
        VertexFormat::Uint8x2 => GlVertexFormat::Uint8x2,
        VertexFormat::Uint8x4 => GlVertexFormat::Uint8x4,
        VertexFormat::Sint8x2 => GlVertexFormat::Sint8x2,
        VertexFormat::Sint8x4 => GlVertexFormat::Sint8x4,
        VertexFormat::Unorm8x2 => GlVertexFormat::Unorm8x2,
        VertexFormat::Unorm8x4 => GlVertexFormat::Unorm8x4,
        VertexFormat::Snorm8x2 => GlVertexFormat::Snorm8x2,
        VertexFormat::Snorm8x4 => GlVertexFormat::Snorm8x4,
        VertexFormat::Uint16x2 => GlVertexFormat::Uint16x2,
        VertexFormat::Uint16x4 => GlVertexFormat::Uint16x4,
        VertexFormat::Sint16x2 => GlVertexFormat::Sint16x2,
        VertexFormat::Sint16x4 => GlVertexFormat::Sint16x4,
        VertexFormat::Unorm16x2 => GlVertexFormat::Unorm16x2,
        VertexFormat::Unorm16x4 => GlVertexFormat::Unorm16x4,
        VertexFormat::Snorm16x2 => GlVertexFormat::Snorm16x2,
        VertexFormat::Snorm16x4 => GlVertexFormat::Snorm16x4,
        VertexFormat::Float16x2 => GlVertexFormat::Float16x2,
        VertexFormat::Float16x4 => GlVertexFormat::Float16x4,
        VertexFormat::Float32 => GlVertexFormat::Float32,
        VertexFormat::Float32x2 => GlVertexFormat::Float32x2,
        VertexFormat::Float32x3 => GlVertexFormat::Float32x3,
        VertexFormat::Float32x4 => GlVertexFormat::Float32x4,
        VertexFormat::Uint32 => GlVertexFormat::Uint32,
        VertexFormat::Uint32x2 => GlVertexFormat::Uint32x2,
        VertexFormat::Uint32x3 => GlVertexFormat::Uint32x3,
        VertexFormat::Uint32x4 => GlVertexFormat::Uint32x4,
        VertexFormat::Sint32 => GlVertexFormat::Sint32,
        VertexFormat::Sint32x2 => GlVertexFormat::Sint32x2,
        VertexFormat::Sint32x3 => GlVertexFormat::Sint32x3,
        VertexFormat::Sint32x4 => GlVertexFormat::Sint32x4,
        _ => {
            return Err(unsupported("GL::vertex_format", RhiDetail::VertexFormat(value)));
        },
    };
    Ok(result)
}

/// No two vertex formats are translated to the same format.
pub proof fn vertex_formats_stay_apart(left: VertexFormat, right: VertexFormat)
    requires
        gl_vertex_format(left) is Some,
        gl_vertex_format(left) == gl_vertex_format(right),
    ensures
        left == right,
{
}

/// The index format of the GL family for a portable format.
pub open spec fn gl_index_format(value: IndexFormat) -> GlIndexFormat {
    match value {
        IndexFormat::Uint16 => GlIndexFormat::Uint16,
        IndexFormat::Uint32 => GlIndexFormat::Uint32,
    }
}

pub fn index_format(value: IndexFormat) -> (result: GlIndexFormat)
    ensures
        result == gl_index_format(value),
{
    match value {
        IndexFormat::Uint16 => GlIndexFormat::Uint16,
        IndexFormat::Uint32 => GlIndexFormat::Uint32,
    }
}

/// Whether a captured command needs mesh or ray tracing support.
pub open spec fn is_beyond_gl(command: PortableCommand) -> bool {
    match command {
        PortableCommand::SetMeshPipeline => true,
        PortableCommand::DispatchMesh => true,
        PortableCommand::DispatchMeshIndirect => true,
        PortableCommand::SetRayTracingPipeline => true,
        PortableCommand::BeginRayTracing => true,
        PortableCommand::EndRayTracing => true,
        PortableCommand::TraceRays => true,
        PortableCommand::BuildAccelerationStructure => true,
        PortableCommand::CopyAccelerationStructure => true,
        PortableCommand::WriteAccelerationStructureCompactedSize => true,
        _ => false,
    }
}

/// Classifies a captured command before its objects are looked up.
pub fn preflight_portable_command(command: &PortableCommand) -> (result: Result<(), RhiError>)
    ensures
        result == (if is_beyond_gl(*command) {
            Err(
                error::rhi_error_at(
                    RhiErrorKind::Unsupported,
                    "mesh and ray-tracing command is not representable by GL-family lowering",
                    "GL::submit",
                ),
            )
        } else {
            Ok(())
        }),
{
    match command {
        PortableCommand::SetMeshPipeline | PortableCommand::DispatchMesh
        | PortableCommand::DispatchMeshIndirect | PortableCommand::SetRayTracingPipeline
        | PortableCommand::BeginRayTracing | PortableCommand::EndRayTracing
        | PortableCommand::TraceRays | PortableCommand::BuildAccelerationStructure
        | PortableCommand::CopyAccelerationStructure
        | PortableCommand::WriteAccelerationStructureCompactedSize => Err(
            refused(
                "GL::submit",
                "mesh and ray-tracing command is not representable by GL-family lowering",
            ),
        ),
        _ => Ok(()),
    }
}

/// Whether a recorded command needs mesh or ray tracing support.
pub open spec fn is_recorded_beyond_gl(payload: RecordedPayload) -> bool {
    match payload {
        RecordedPayload::MeshDispatch => true,
        RecordedPayload::MeshIndirect => true,
        RecordedPayload::RayTracingBegin => true,
        RecordedPayload::RayTracingDispatch => true,
        RecordedPayload::RayTracingEnd => true,
        RecordedPayload::AccelerationStructure => true,
        _ => false,
    }
}

/// What classifying a recorded command gives.
pub open spec fn preflighted(command: RecordedCommand) -> Result<(), RhiError> {
    if is_recorded_beyond_gl(command.payload) {
        Err(
            error::rhi_error_at(
                RhiErrorKind::Unsupported,
                "mesh, ray-tracing, and acceleration-structure recording is not representable by GL-family lowering",
                "GL::submit",
            ),
        )
    } else {
        Ok(())
    }
}

/// Classifies a recorded command before its objects are looked up.
pub fn preflight_recorded_command(command: &RecordedCommand) -> (result: Result<(), RhiError>)
    ensures
        result == preflighted(*command),
{
    match &command.payload {
        RecordedPayload::MeshDispatch | RecordedPayload::MeshIndirect
        | RecordedPayload::RayTracingBegin | RecordedPayload::RayTracingDispatch
        | RecordedPayload::RayTracingEnd | RecordedPayload::AccelerationStructure => Err(
            refused(
                "GL::submit",
                "mesh, ray-tracing, and acceleration-structure recording is not representable by GL-family lowering",
            ),
        ),
        _ => Ok(()),
    }
}

} // verus!
