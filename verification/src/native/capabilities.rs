//! What of a record is open to the portable interface.
//!
//! The same record gives the same answer, whatever platform it comes from. A
//! command that discovery found is no feature yet: only what the native owner
//! really executes is published.

use vstd::prelude::*;
use crate::api::discovery::{
    FormatKey, GlCapability, GlDiscoverySnapshot, GlFormatCapabilities, GlFormatResourceKind,
    GlLimits, SnapshotModel,
};
use crate::api::extension::GlKnownExtension;
use crate::api::format::TextureFormat;
use crate::api::gl::GlFamilyProfile;
use crate::api::resource::{Extent3d, TextureDimension, TextureUsage};
use crate::float;
use crate::translate;
use crate::translate::{is_compressed_texture_format, texture_format};

verus! {

/// A command that a feature needs.
#[derive(Clone, Copy, Debug, PartialEq, Eq, Structural)]
pub enum GlFunction {
    CompressedTexImage2d,
    CompressedTexSubImage2d,
    TexParameterAnisotropy,
    DrawArraysIndirect,
    DrawElementsIndirect,
    DispatchCompute,
}

/// An extension that a feature needs.
#[derive(Clone, Copy, Debug, PartialEq, Eq, Structural)]
pub enum GlExtension {
    ExtTextureFilterAnisotropic,
    ArbDrawIndirect,
    ArbComputeShader,
    ExtTextureCompressionS3tc,
    CompressedTextureS3tcSrgb,
    ExtTextureCompressionRgtc,
    ArbTextureCompressionBptc,
    ArbEs3Compatibility,
    OesCompressedEtc2Rgb8Texture,
    KhrTextureCompressionAstcLdr,
    KhrTextureCompressionAstcHdr,
}

/// The commands and extensions that are reported to the feature registry.
#[derive(Debug)]
pub struct GlFeatureProbe {
    pub profile: GlFamilyProfile,
    pub functions: Vec<GlFunction>,
    pub extensions: Vec<GlExtension>,
}

/// What is published of a format.
#[derive(Clone, Copy, Debug, PartialEq, Eq, Structural)]
pub struct PublishedFormat {
    pub format: TextureFormat,
    pub storage_read: bool,
    pub storage_write: bool,
    pub storage_read_write: bool,
    pub color_attachment: bool,
    pub depth_attachment: bool,
    pub stencil_attachment: bool,
    pub blendable: bool,
    pub filterable: bool,
    pub storage_atomic: bool,
}

/// How large a texture may be.
#[derive(Clone, Copy, Debug, PartialEq, Eq, Structural)]
pub struct TextureSupportLimits {
    pub max_extent: Extent3d,
    pub max_mip_levels: u32,
    pub max_array_layers: u32,
}

/// A kind of texture.
#[derive(Clone, Copy, Debug, PartialEq, Eq, Structural)]
pub struct TextureSupportQuery {
    pub dimension: TextureDimension,
    pub format: TextureFormat,
    pub usage: TextureUsage,
    pub sample_count: u32,
}

/// A kind of texture that can be made.
#[derive(Clone, Copy, Debug, PartialEq, Eq, Structural)]
pub struct GlTextureEvidence {
    pub query: TextureSupportQuery,
    pub limits: TextureSupportLimits,
}

/// What the native owner executes from end to end.
#[derive(Clone, Copy, Debug, PartialEq, Eq, Structural)]
pub struct GlLoweringClosure {
    pub buffers: bool,
    pub textures: bool,
    pub buffer_copy: bool,
    pub texture_copy: bool,
    /// A shader says nothing of the names of its resources, so that programs
    /// with resources are refused.
    pub bindings: bool,
    pub compute: bool,
    pub raster_indirect: bool,
    /// No context can bring the result of a query into a buffer without a wait.
    pub occlusion_query: bool,
    pub timestamp_query: bool,
    pub sampler_anisotropy: bool,
    pub compressed_upload: bool,
}

/// What is published of one context.
#[derive(Debug)]
pub struct GlCapabilitySnapshot {
    pub profile: GlFamilyProfile,
    pub feature_probe: GlFeatureProbe,
    pub limits: GlLimits,
    pub maximum_buffer_size: u64,
    pub formats: Vec<PublishedFormat>,
    pub textures: Vec<GlTextureEvidence>,
    pub lowering: GlLoweringClosure,
}

/// What is published, by value.
#[verifier::ext_equal]
pub struct PublishedModel {
    pub profile: GlFamilyProfile,
    /// The profile that the features were probed on.
    pub probed: GlFamilyProfile,
    pub functions: Seq<GlFunction>,
    pub extensions: Seq<GlExtension>,
    pub limits: GlLimits,
    pub maximum_buffer_size: u64,
    pub formats: Seq<PublishedFormat>,
    pub textures: Seq<GlTextureEvidence>,
    pub lowering: GlLoweringClosure,
}

impl View for GlCapabilitySnapshot {
    type V = PublishedModel;

    open spec fn view(&self) -> PublishedModel {
        PublishedModel {
            profile: self.profile,
            probed: self.feature_probe.profile,
            functions: self.feature_probe.functions@,
            extensions: self.feature_probe.extensions@,
            limits: self.limits,
            maximum_buffer_size: self.maximum_buffer_size,
            formats: self.formats@,
            textures: self.textures@,
            lowering: self.lowering,
        }
    }
}

/// The formats of eight bits a channel.
pub open spec fn byte_formats() -> Seq<TextureFormat> {
    seq![
        TextureFormat::R8Unorm,
        TextureFormat::R8Snorm,
        TextureFormat::R8Uint,
        TextureFormat::R8Sint,
        TextureFormat::Rg8Unorm,
        TextureFormat::Rg8Snorm,
        TextureFormat::Rg8Uint,
        TextureFormat::Rg8Sint,
        TextureFormat::Rgba8Unorm,
        TextureFormat::Rgba8UnormSrgb,
        TextureFormat::Rgba8Snorm,
        TextureFormat::Rgba8Uint,
        TextureFormat::Rgba8Sint,
        TextureFormat::Bgra8Unorm,
        TextureFormat::Bgra8UnormSrgb,
    ]
}

fn list_byte_formats() -> (result: Vec<TextureFormat>)
    ensures
        result@ == byte_formats(),
{
    let mut result: Vec<TextureFormat> = Vec::new();
    result.push(TextureFormat::R8Unorm);
    result.push(TextureFormat::R8Snorm);
    result.push(TextureFormat::R8Uint);
    result.push(TextureFormat::R8Sint);
    result.push(TextureFormat::Rg8Unorm);
    result.push(TextureFormat::Rg8Snorm);
    result.push(TextureFormat::Rg8Uint);
    result.push(TextureFormat::Rg8Sint);
    result.push(TextureFormat::Rgba8Unorm);
    result.push(TextureFormat::Rgba8UnormSrgb);
    result.push(TextureFormat::Rgba8Snorm);
    result.push(TextureFormat::Rgba8Uint);
    result.push(TextureFormat::Rgba8Sint);
    result.push(TextureFormat::Bgra8Unorm);
    result.push(TextureFormat::Bgra8UnormSrgb);
    result
}

/// The formats of sixteen bits a channel.
pub open spec fn half_formats() -> Seq<TextureFormat> {
    seq![
        TextureFormat::R16Uint,
        TextureFormat::R16Sint,
        TextureFormat::R16Float,
        TextureFormat::R16Unorm,
        TextureFormat::R16Snorm,
        TextureFormat::Rg16Uint,
        TextureFormat::Rg16Sint,
        TextureFormat::Rg16Float,
        TextureFormat::Rg16Unorm,
        TextureFormat::Rg16Snorm,
        TextureFormat::Rgba16Uint,
        TextureFormat::Rgba16Sint,
        TextureFormat::Rgba16Unorm,
        TextureFormat::Rgba16Snorm,
        TextureFormat::Rgba16Float,
    ]
}

fn list_half_formats() -> (result: Vec<TextureFormat>)
    ensures
        result@ == half_formats(),
{
    let mut result: Vec<TextureFormat> = Vec::new();
    result.push(TextureFormat::R16Uint);
    result.push(TextureFormat::R16Sint);
    result.push(TextureFormat::R16Float);
    result.push(TextureFormat::R16Unorm);
    result.push(TextureFormat::R16Snorm);
    result.push(TextureFormat::Rg16Uint);
    result.push(TextureFormat::Rg16Sint);
    result.push(TextureFormat::Rg16Float);
    result.push(TextureFormat::Rg16Unorm);
    result.push(TextureFormat::Rg16Snorm);
    result.push(TextureFormat::Rgba16Uint);
    result.push(TextureFormat::Rgba16Sint);
    result.push(TextureFormat::Rgba16Unorm);
    result.push(TextureFormat::Rgba16Snorm);
    result.push(TextureFormat::Rgba16Float);
    result
}

/// The packed and the wide formats.
pub open spec fn wide_formats() -> Seq<TextureFormat> {
    seq![
        TextureFormat::Rgba32Float,
        TextureFormat::Rgb9e5Ufloat,
        TextureFormat::Rgb10a2Uint,
        TextureFormat::Rgb10a2Unorm,
        TextureFormat::Rg11b10Ufloat,
        TextureFormat::R32Uint,
        TextureFormat::R32Sint,
        TextureFormat::R32Float,
        TextureFormat::R64Uint,
        TextureFormat::Rg32Uint,
        TextureFormat::Rg32Sint,
        TextureFormat::Rg32Float,
        TextureFormat::Rgba32Uint,
        TextureFormat::Rgba32Sint,
    ]
}

fn list_wide_formats() -> (result: Vec<TextureFormat>)
    ensures
        result@ == wide_formats(),
{
    let mut result: Vec<TextureFormat> = Vec::new();
    result.push(TextureFormat::Rgba32Float);
    result.push(TextureFormat::Rgb9e5Ufloat);
    result.push(TextureFormat::Rgb10a2Uint);
    result.push(TextureFormat::Rgb10a2Unorm);
    result.push(TextureFormat::Rg11b10Ufloat);
    result.push(TextureFormat::R32Uint);
    result.push(TextureFormat::R32Sint);
    result.push(TextureFormat::R32Float);
    result.push(TextureFormat::R64Uint);
    result.push(TextureFormat::Rg32Uint);
    result.push(TextureFormat::Rg32Sint);
    result.push(TextureFormat::Rg32Float);
    result.push(TextureFormat::Rgba32Uint);
    result.push(TextureFormat::Rgba32Sint);
    result
}

/// The formats of depth and stencil.
pub open spec fn depth_formats() -> Seq<TextureFormat> {
    seq![
        TextureFormat::Depth16Unorm,
        TextureFormat::Depth24Plus,
        TextureFormat::Depth24PlusStencil8,
        TextureFormat::Depth32Float,
        TextureFormat::Depth32FloatStencil8,
        TextureFormat::Stencil8,
    ]
}

fn list_depth_formats() -> (result: Vec<TextureFormat>)
    ensures
        result@ == depth_formats(),
{
    let mut result: Vec<TextureFormat> = Vec::new();
    result.push(TextureFormat::Depth16Unorm);
    result.push(TextureFormat::Depth24Plus);
    result.push(TextureFormat::Depth24PlusStencil8);
    result.push(TextureFormat::Depth32Float);
    result.push(TextureFormat::Depth32FloatStencil8);
    result.push(TextureFormat::Stencil8);
    result
}

/// The block-compressed formats.
pub open spec fn block_formats() -> Seq<TextureFormat> {
    seq![
        TextureFormat::Bc1RgbaUnorm,
        TextureFormat::Bc1RgbaUnormSrgb,
        TextureFormat::Bc2RgbaUnorm,
        TextureFormat::Bc2RgbaUnormSrgb,
        TextureFormat::Bc3RgbaUnorm,
        TextureFormat::Bc3RgbaUnormSrgb,
        TextureFormat::Bc4RUnorm,
        TextureFormat::Bc4RSnorm,
        TextureFormat::Bc5RgUnorm,
        TextureFormat::Bc5RgSnorm,
        TextureFormat::Bc6hRgbUfloat,
        TextureFormat::Bc6hRgbFloat,
        TextureFormat::Bc7RgbaUnorm,
        TextureFormat::Bc7RgbaUnormSrgb,
    ]
}

fn list_block_formats() -> (result: Vec<TextureFormat>)
    ensures
        result@ == block_formats(),
{
    let mut result: Vec<TextureFormat> = Vec::new();
    result.push(TextureFormat::Bc1RgbaUnorm);
    result.push(TextureFormat::Bc1RgbaUnormSrgb);
    result.push(TextureFormat::Bc2RgbaUnorm);
    result.push(TextureFormat::Bc2RgbaUnormSrgb);
    result.push(TextureFormat::Bc3RgbaUnorm);
    result.push(TextureFormat::Bc3RgbaUnormSrgb);
    result.push(TextureFormat::Bc4RUnorm);
    result.push(TextureFormat::Bc4RSnorm);
    result.push(TextureFormat::Bc5RgUnorm);
    result.push(TextureFormat::Bc5RgSnorm);
    result.push(TextureFormat::Bc6hRgbUfloat);
    result.push(TextureFormat::Bc6hRgbFloat);
    result.push(TextureFormat::Bc7RgbaUnorm);
    result.push(TextureFormat::Bc7RgbaUnormSrgb);
    result
}

/// The formats that embedded contexts bring.
pub open spec fn etc_formats() -> Seq<TextureFormat> {
    seq![
        TextureFormat::Etc2Rgb8Unorm,
        TextureFormat::Etc2Rgb8UnormSrgb,
        TextureFormat::Etc2Rgb8A1Unorm,
        TextureFormat::Etc2Rgb8A1UnormSrgb,
        TextureFormat::Etc2Rgba8Unorm,
        TextureFormat::Etc2Rgba8UnormSrgb,
        TextureFormat::EacR11Unorm,
        TextureFormat::EacR11Snorm,
        TextureFormat::EacRg11Unorm,
        TextureFormat::EacRg11Snorm,
    ]
}

fn list_etc_formats() -> (result: Vec<TextureFormat>)
    ensures
        result@ == etc_formats(),
{
    let mut result: Vec<TextureFormat> = Vec::new();
    result.push(TextureFormat::Etc2Rgb8Unorm);
    result.push(TextureFormat::Etc2Rgb8UnormSrgb);
    result.push(TextureFormat::Etc2Rgb8A1Unorm);
    result.push(TextureFormat::Etc2Rgb8A1UnormSrgb);
    result.push(TextureFormat::Etc2Rgba8Unorm);
    result.push(TextureFormat::Etc2Rgba8UnormSrgb);
    result.push(TextureFormat::EacR11Unorm);
    result.push(TextureFormat::EacR11Snorm);
    result.push(TextureFormat::EacRg11Unorm);
    result.push(TextureFormat::EacRg11Snorm);
    result
}

/// The adaptive formats of small footprints.
pub open spec fn small_astc_formats() -> Seq<TextureFormat> {
    seq![
        TextureFormat::Astc4x4Unorm,
        TextureFormat::Astc4x4UnormSrgb,
        TextureFormat::Astc4x4Hdr,
        TextureFormat::Astc5x4Unorm,
        TextureFormat::Astc5x4UnormSrgb,
        TextureFormat::Astc5x4Hdr,
        TextureFormat::Astc5x5Unorm,
        TextureFormat::Astc5x5UnormSrgb,
        TextureFormat::Astc5x5Hdr,
        TextureFormat::Astc6x5Unorm,
        TextureFormat::Astc6x5UnormSrgb,
        TextureFormat::Astc6x5Hdr,
        TextureFormat::Astc6x6Unorm,
        TextureFormat::Astc6x6UnormSrgb,
        TextureFormat::Astc6x6Hdr,
    ]
}

fn list_small_astc_formats() -> (result: Vec<TextureFormat>)
    ensures
        result@ == small_astc_formats(),
{
    let mut result: Vec<TextureFormat> = Vec::new();
    result.push(TextureFormat::Astc4x4Unorm);
    result.push(TextureFormat::Astc4x4UnormSrgb);
    result.push(TextureFormat::Astc4x4Hdr);
    result.push(TextureFormat::Astc5x4Unorm);
    result.push(TextureFormat::Astc5x4UnormSrgb);
    result.push(TextureFormat::Astc5x4Hdr);
    result.push(TextureFormat::Astc5x5Unorm);
    result.push(TextureFormat::Astc5x5UnormSrgb);
    result.push(TextureFormat::Astc5x5Hdr);
    result.push(TextureFormat::Astc6x5Unorm);
    result.push(TextureFormat::Astc6x5UnormSrgb);
    result.push(TextureFormat::Astc6x5Hdr);
    result.push(TextureFormat::Astc6x6Unorm);
    result.push(TextureFormat::Astc6x6UnormSrgb);
    result.push(TextureFormat::Astc6x6Hdr);
    result
}

/// The adaptive formats of middle footprints.
pub open spec fn middle_astc_formats() -> Seq<TextureFormat> {
    seq![
        TextureFormat::Astc8x5Unorm,
        TextureFormat::Astc8x5UnormSrgb,
        TextureFormat::Astc8x5Hdr,
        TextureFormat::Astc8x6Unorm,
        TextureFormat::Astc8x6UnormSrgb,
        TextureFormat::Astc8x6Hdr,
        TextureFormat::Astc8x8Unorm,
        TextureFormat::Astc8x8UnormSrgb,
        TextureFormat::Astc8x8Hdr,
        TextureFormat::Astc10x5Unorm,
        TextureFormat::Astc10x5UnormSrgb,
        TextureFormat::Astc10x5Hdr,
    ]
}

fn list_middle_astc_formats() -> (result: Vec<TextureFormat>)
    ensures
        result@ == middle_astc_formats(),
{
    let mut result: Vec<TextureFormat> = Vec::new();
    result.push(TextureFormat::Astc8x5Unorm);
    result.push(TextureFormat::Astc8x5UnormSrgb);
    result.push(TextureFormat::Astc8x5Hdr);
    result.push(TextureFormat::Astc8x6Unorm);
    result.push(TextureFormat::Astc8x6UnormSrgb);
    result.push(TextureFormat::Astc8x6Hdr);
    result.push(TextureFormat::Astc8x8Unorm);
    result.push(TextureFormat::Astc8x8UnormSrgb);
    result.push(TextureFormat::Astc8x8Hdr);
    result.push(TextureFormat::Astc10x5Unorm);
    result.push(TextureFormat::Astc10x5UnormSrgb);
    result.push(TextureFormat::Astc10x5Hdr);
    result
}

/// The adaptive formats of large footprints, and those of several planes.
pub open spec fn large_astc_formats() -> Seq<TextureFormat> {
    seq![
        TextureFormat::Astc10x6Unorm,
        TextureFormat::Astc10x6UnormSrgb,
        TextureFormat::Astc10x6Hdr,
        TextureFormat::Astc10x8Unorm,
        TextureFormat::Astc10x8UnormSrgb,
        TextureFormat::Astc10x8Hdr,
        TextureFormat::Astc10x10Unorm,
        TextureFormat::Astc10x10UnormSrgb,
        TextureFormat::Astc10x10Hdr,
        TextureFormat::Astc12x10Unorm,
        TextureFormat::Astc12x10UnormSrgb,
        TextureFormat::Astc12x10Hdr,
        TextureFormat::Astc12x12Unorm,
        TextureFormat::Astc12x12UnormSrgb,
        TextureFormat::Astc12x12Hdr,
        TextureFormat::Nv12,
    ]
}

fn list_large_astc_formats() -> (result: Vec<TextureFormat>)
    ensures
        result@ == large_astc_formats(),
{
    let mut result: Vec<TextureFormat> = Vec::new();
    result.push(TextureFormat::Astc10x6Unorm);
    result.push(TextureFormat::Astc10x6UnormSrgb);
    result.push(TextureFormat::Astc10x6Hdr);
    result.push(TextureFormat::Astc10x8Unorm);
    result.push(TextureFormat::Astc10x8UnormSrgb);
    result.push(TextureFormat::Astc10x8Hdr);
    result.push(TextureFormat::Astc10x10Unorm);
    result.push(TextureFormat::Astc10x10UnormSrgb);
    result.push(TextureFormat::Astc10x10Hdr);
    result.push(TextureFormat::Astc12x10Unorm);
    result.push(TextureFormat::Astc12x10UnormSrgb);
    result.push(TextureFormat::Astc12x10Hdr);
    result.push(TextureFormat::Astc12x12Unorm);
    result.push(TextureFormat::Astc12x12UnormSrgb);
    result.push(TextureFormat::Astc12x12Hdr);
    result.push(TextureFormat::Nv12);
    result
}

/// All portable formats.
pub open spec fn all_formats() -> Seq<TextureFormat> {
    byte_formats() + half_formats() + wide_formats() + depth_formats() + block_formats() + etc_formats() + small_astc_formats() + middle_astc_formats() + large_astc_formats()
}

fn list_formats() -> (result: Vec<TextureFormat>)
    ensures
        result@ == all_formats(),
{
    let mut result = list_byte_formats();
    let mut half_formats = list_half_formats();
    result.append(&mut half_formats);
    let mut wide_formats = list_wide_formats();
    result.append(&mut wide_formats);
    let mut depth_formats = list_depth_formats();
    result.append(&mut depth_formats);
    let mut block_formats = list_block_formats();
    result.append(&mut block_formats);
    let mut etc_formats = list_etc_formats();
    result.append(&mut etc_formats);
    let mut small_astc_formats = list_small_astc_formats();
    result.append(&mut small_astc_formats);
    let mut middle_astc_formats = list_middle_astc_formats();
    result.append(&mut middle_astc_formats);
    let mut large_astc_formats = list_large_astc_formats();
    result.append(&mut large_astc_formats);
    result
}

/// The usages, numbered by their flags.
pub open spec fn usage_at(index: int) -> TextureUsage {
    TextureUsage {
        copy_src: index % 2 == 1,
        copy_dst: (index / 2) % 2 == 1,
        sampled: (index / 4) % 2 == 1,
        storage: (index / 8) % 2 == 1,
        color_attachment: (index / 16) % 2 == 1,
        depth_stencil_attachment: (index / 32) % 2 == 1,
    }
}

fn usage_number(index: u32) -> (result: TextureUsage)
    ensures
        result == usage_at(index as int),
{
    TextureUsage {
        copy_src: index % 2 == 1,
        copy_dst: (index / 2) % 2 == 1,
        sampled: (index / 4) % 2 == 1,
        storage: (index / 8) % 2 == 1,
        color_attachment: (index / 16) % 2 == 1,
        depth_stencil_attachment: (index / 32) % 2 == 1,
    }
}

/// Every usage has a number.
pub proof fn usages_are_numbered(usage: TextureUsage) -> (index: int)
    ensures
        0 <= index < 64,
        usage_at(index) == usage,
{
    let bit = |flag: bool, weight: int|
        if flag {
            weight
        } else {
            0int
        };
    bit(usage.copy_src, 1) + bit(usage.copy_dst, 2) + bit(usage.sampled, 4) + bit(
        usage.storage,
        8,
    ) + bit(usage.color_attachment, 16) + bit(usage.depth_stencil_attachment, 32)
}

/// Whether a format has depth or stencil.
pub open spec fn is_depth_or_stencil(format: TextureFormat) -> bool {
    format is Depth16Unorm || format is Depth24Plus || format is Depth24PlusStencil8
        || format is Depth32Float || format is Depth32FloatStencil8 || format is Stencil8
}

fn depth_or_stencil(format: TextureFormat) -> (result: bool)
    ensures
        result == is_depth_or_stencil(format),
{
    match format {
        TextureFormat::Depth16Unorm
        | TextureFormat::Depth24Plus
        | TextureFormat::Depth24PlusStencil8
        | TextureFormat::Depth32Float
        | TextureFormat::Depth32FloatStencil8
        | TextureFormat::Stencil8 => true,
        _ => false,
    }
}

/// What a record says of textures of a portable format.
pub open spec fn texture_row(record: SnapshotModel, format: TextureFormat) -> Option<
    GlFormatCapabilities,
> {
    match translate::gl_format(format) {
        None => None,
        Some(format) => {
            let key = FormatKey { kind: GlFormatResourceKind::Texture, format, samples: 1 };
            if record.formats.contains_key(key) {
                Some(record.formats[key])
            } else {
                None
            }
        },
    }
}

/// What is published of a format. The owner has no depth attachment yet.
pub open spec fn published_format(
    format: TextureFormat,
    row: GlFormatCapabilities,
) -> PublishedFormat {
    PublishedFormat {
        format,
        storage_read: false,
        storage_write: false,
        storage_read_write: false,
        color_attachment: row.renderable && !is_depth_or_stencil(format),
        depth_attachment: false,
        stencil_attachment: false,
        blendable: row.blendable,
        filterable: row.filterable,
        storage_atomic: false,
    }
}

/// Whether textures of a format can be used in a way. Reading back is open to
/// plain color only; compressed textures can be written.
pub open spec fn admits_usage(
    format: TextureFormat,
    row: GlFormatCapabilities,
    usage: TextureUsage,
) -> bool {
    let rgba8 = format is Rgba8Unorm || format is Rgba8UnormSrgb;
    &&& usage != TextureUsage::spec_none()
    &&& !usage.storage
    &&& usage.copy_src ==> rgba8 && row.copy_source
    &&& usage.copy_dst ==> (rgba8 && row.copy_destination) || translate::is_compressed(format)
    &&& usage.color_attachment ==> row.renderable && !is_depth_or_stencil(format)
    &&& !usage.depth_stencil_attachment
}

/// The number of mip levels of the largest texture.
pub open spec fn levels(size: nat) -> nat
    decreases size,
{
    if size < 2 {
        1
    } else {
        1 + levels(size / 2)
    }
}

fn level_count(size: u32) -> (result: u32)
    ensures
        result == levels(size as nat),
        result <= 32,
{
    let mut rest: u32 = size;
    let mut count: u32 = 1;
    proof {
        lemma_levels_small(size as nat, 32);
    }
    while rest >= 2
        invariant
            count + levels(rest as nat) == 1 + levels(size as nat),
            levels(size as nat) <= 32,
        decreases rest,
    {
        proof {
            lemma_levels_positive((rest / 2) as nat);
        }
        rest = rest / 2;
        count += 1;
    }
    count
}

proof fn lemma_levels_positive(size: nat)
    ensures
        levels(size) >= 1,
    decreases size,
{
    if size >= 2 {
        lemma_levels_positive(size / 2);
    }
}

spec fn two_to(n: nat) -> nat
    decreases n,
{
    if n == 0 {
        1
    } else {
        2 * two_to((n - 1) as nat)
    }
}

proof fn lemma_levels_below(size: nat, n: nat)
    requires
        size < two_to(n),
        n >= 1,
    ensures
        levels(size) <= n,
    decreases n,
{
    if size >= 2 {
        if n == 1 {
            assert(two_to(1) == 2 * two_to(0));
        } else {
            lemma_levels_below(size / 2, (n - 1) as nat);
        }
    }
}

proof fn lemma_levels_small(size: nat, n: nat)
    requires
        size <= u32::MAX,
        n == 32,
    ensures
        levels(size) <= 32,
{
    reveal_with_fuel(two_to, 33);
    assert(two_to(32) == 0x1_0000_0000);
    lemma_levels_below(size, 32);
}

/// The largest texture.
pub open spec fn texture_limits(limits: GlLimits) -> TextureSupportLimits {
    TextureSupportLimits {
        max_extent: Extent3d {
            width: limits.max_texture_size,
            height: limits.max_texture_size,
            depth: 1,
        },
        max_mip_levels: levels(limits.max_texture_size as nat) as u32,
        max_array_layers: 1,
    }
}

/// The kinds of textures of one format, for the first so many usages.
pub open spec fn format_textures(
    format: TextureFormat,
    row: GlFormatCapabilities,
    limits: TextureSupportLimits,
    n: nat,
) -> Seq<GlTextureEvidence>
    decreases n,
{
    if n == 0 {
        Seq::empty()
    } else {
        let before = format_textures(format, row, limits, (n - 1) as nat);
        let usage = usage_at(n - 1);
        if admits_usage(format, row, usage) {
            before.push(
                GlTextureEvidence {
                    query: TextureSupportQuery {
                        dimension: TextureDimension::D2,
                        format,
                        usage,
                        sample_count: 1,
                    },
                    limits,
                },
            )
        } else {
            before
        }
    }
}

/// What is published of the first so many formats.
pub open spec fn published_formats(record: SnapshotModel, n: nat) -> Seq<PublishedFormat>
    decreases n,
{
    if n == 0 {
        Seq::empty()
    } else {
        let before = published_formats(record, (n - 1) as nat);
        let format = all_formats()[n - 1];
        match texture_row(record, format) {
            Some(row) => before.push(published_format(format, row)),
            None => before,
        }
    }
}

/// The kinds of textures of the first so many formats.
pub open spec fn published_textures(record: SnapshotModel, n: nat) -> Seq<GlTextureEvidence>
    decreases n,
{
    if n == 0 {
        Seq::empty()
    } else {
        let before = published_textures(record, (n - 1) as nat);
        let format = all_formats()[n - 1];
        match texture_row(record, format) {
            Some(row) => before + format_textures(
                format,
                row,
                texture_limits(record.limits),
                64,
            ),
            None => before,
        }
    }
}

/// A list with one more element, if it is wanted.
pub open spec fn adding<T>(list: Seq<T>, wanted: bool, value: T) -> Seq<T> {
    if wanted {
        list.push(value)
    } else {
        list
    }
}

/// The commands that a record proves callable.
pub open spec fn callable(record: SnapshotModel) -> Seq<GlFunction> {
    let indirect = record.supports(GlCapability::IndirectDraw);
    let f1 = adding(
        seq![GlFunction::CompressedTexImage2d, GlFunction::CompressedTexSubImage2d],
        record.extensions.is_acquired(GlKnownExtension::ExtTextureFilterAnisotropic),
        GlFunction::TexParameterAnisotropy,
    );
    let f2 = adding(f1, indirect, GlFunction::DrawArraysIndirect);
    let f3 = adding(f2, indirect, GlFunction::DrawElementsIndirect);
    adding(f3, record.supports(GlCapability::Compute), GlFunction::DispatchCompute)
}

/// The extensions that a record proves.
pub open spec fn proven_extensions(record: SnapshotModel) -> Seq<GlExtension> {
    let a1 = adding(
        Seq::empty(),
        record.extensions.is_acquired(GlKnownExtension::ExtTextureFilterAnisotropic),
        GlExtension::ExtTextureFilterAnisotropic,
    );
    let a2 = adding(
        a1,
        record.supports(GlCapability::IndirectDraw) && record.extensions.is_acquired(
            GlKnownExtension::ArbDrawIndirect,
        ),
        GlExtension::ArbDrawIndirect,
    );
    let e0 = adding(
        a2,
        record.supports(GlCapability::Compute) && record.extensions.is_acquired(
            GlKnownExtension::ArbComputeShader,
        ),
        GlExtension::ArbComputeShader,
    );
    let e1 = adding(
        e0,
        record.extensions.is_acquired(GlKnownExtension::ExtTextureCompressionS3tc),
        GlExtension::ExtTextureCompressionS3tc,
    );
    let e2 = adding(
        e1,
        record.extensions.is_acquired(GlKnownExtension::CompressedTextureS3tcSrgb),
        GlExtension::CompressedTextureS3tcSrgb,
    );
    let e3 = adding(
        e2,
        record.extensions.is_acquired(GlKnownExtension::ExtTextureCompressionRgtc),
        GlExtension::ExtTextureCompressionRgtc,
    );
    let e4 = adding(
        e3,
        record.extensions.is_acquired(GlKnownExtension::ArbTextureCompressionBptc),
        GlExtension::ArbTextureCompressionBptc,
    );
    let e5 = adding(
        e4,
        record.extensions.is_acquired(GlKnownExtension::ArbEs3Compatibility),
        GlExtension::ArbEs3Compatibility,
    );
    let e6 = adding(
        e5,
        record.extensions.is_acquired(GlKnownExtension::OesCompressedEtc2Rgb8Texture),
        GlExtension::OesCompressedEtc2Rgb8Texture,
    );
    let e7 = adding(
        e6,
        record.extensions.is_acquired(GlKnownExtension::KhrTextureCompressionAstcLdr),
        GlExtension::KhrTextureCompressionAstcLdr,
    );
    let e8 = adding(
        e7,
        record.extensions.is_acquired(GlKnownExtension::KhrTextureCompressionAstcHdr),
        GlExtension::KhrTextureCompressionAstcHdr,
    );
    e8
}

/// Whether a number is above one.
pub open spec fn above_one(bits: u32) -> bool {
    !float::spec_is_negative(bits) && bits < 0x8000_0000 && bits > 0x3f80_0000
}

/// What the native owner executes from end to end.
pub open spec fn closure_of(limits: GlLimits) -> GlLoweringClosure {
    GlLoweringClosure {
        buffers: true,
        textures: true,
        buffer_copy: true,
        texture_copy: true,
        bindings: false,
        compute: true,
        raster_indirect: true,
        occlusion_query: false,
        timestamp_query: false,
        sampler_anisotropy: limits.max_texture_anisotropy is Some && above_one(
            limits.max_texture_anisotropy->0,
        ),
        compressed_upload: true,
    }
}

/// What is published of a record.
pub open spec fn published(record: SnapshotModel) -> PublishedModel {
    PublishedModel {
        profile: record.context.profile,
        probed: record.context.profile,
        functions: callable(record),
        extensions: proven_extensions(record),
        limits: record.limits,
        maximum_buffer_size: 0x7fff_ffff,
        formats: published_formats(record, all_formats().len()),
        textures: published_textures(record, all_formats().len()),
        lowering: closure_of(record.limits),
    }
}

fn report_if<T>(list: &mut Vec<T>, wanted: bool, value: T)
    ensures
        final(list)@ == adding(old(list)@, wanted, value),
{
    if wanted {
        list.push(value);
    }
}

fn publishable(format: TextureFormat, row: &GlFormatCapabilities, usage: TextureUsage) -> (result:
    bool)
    ensures
        result == admits_usage(format, *row, usage),
{
    if usage == TextureUsage::none() || usage.storage {
        return false;
    }
    let rgba8 = match format {
        TextureFormat::Rgba8Unorm | TextureFormat::Rgba8UnormSrgb => true,
        _ => false,
    };
    if usage.copy_src && (!rgba8 || !row.copy_source) {
        return false;
    }
    if usage.copy_dst && !(rgba8 && row.copy_destination) && !is_compressed_texture_format(format) {
        return false;
    }
    if usage.color_attachment && (!row.renderable || depth_or_stencil(format)) {
        return false;
    }
    !usage.depth_stencil_attachment
}

fn push_textures(
    textures: &mut Vec<GlTextureEvidence>,
    format: TextureFormat,
    row: &GlFormatCapabilities,
    limits: TextureSupportLimits,
)
    ensures
        final(textures)@ == old(textures)@ + format_textures(format, *row, limits, 64),
{
    let mut at: u32 = 0;
    assert(textures@ =~= old(textures)@ + format_textures(format, *row, limits, 0));
    while at < 64
        invariant
            at <= 64,
            textures@ == old(textures)@ + format_textures(format, *row, limits, at as nat),
        decreases 64 - at,
    {
        let usage = usage_number(at);
        if publishable(format, row, usage) {
            textures.push(
                GlTextureEvidence {
                    query: TextureSupportQuery {
                        dimension: TextureDimension::D2,
                        format,
                        usage,
                        sample_count: 1,
                    },
                    limits,
                },
            );
        }
        at += 1;
        assert(textures@ =~= old(textures)@ + format_textures(format, *row, limits, at as nat));
    }
}

fn probe_features(record: &GlDiscoverySnapshot) -> (result: GlFeatureProbe)
    requires
        record.wf(),
    ensures
        result.profile == record@.context.profile,
        result.functions@ == callable(record@),
        result.extensions@ == proven_extensions(record@),
{
    let mut functions: Vec<GlFunction> = Vec::new();
    let mut extensions: Vec<GlExtension> = Vec::new();
    functions.push(GlFunction::CompressedTexImage2d);
    functions.push(GlFunction::CompressedTexSubImage2d);
    assert(functions@ =~= seq![
        GlFunction::CompressedTexImage2d,
        GlFunction::CompressedTexSubImage2d,
    ]);
    let anisotropic = record.extensions.is_acquired(GlKnownExtension::ExtTextureFilterAnisotropic);
    report_if(&mut extensions, anisotropic, GlExtension::ExtTextureFilterAnisotropic);
    report_if(&mut functions, anisotropic, GlFunction::TexParameterAnisotropy);
    let indirect = record.supports(GlCapability::IndirectDraw);
    report_if(&mut functions, indirect, GlFunction::DrawArraysIndirect);
    report_if(&mut functions, indirect, GlFunction::DrawElementsIndirect);
    report_if(
        &mut extensions,
        indirect && record.extensions.is_acquired(GlKnownExtension::ArbDrawIndirect),
        GlExtension::ArbDrawIndirect,
    );
    let compute = record.supports(GlCapability::Compute);
    report_if(&mut functions, compute, GlFunction::DispatchCompute);
    report_if(
        &mut extensions,
        compute && record.extensions.is_acquired(GlKnownExtension::ArbComputeShader),
        GlExtension::ArbComputeShader,
    );
    report_if(
        &mut extensions,
        record.extensions.is_acquired(GlKnownExtension::ExtTextureCompressionS3tc),
        GlExtension::ExtTextureCompressionS3tc,
    );
    report_if(
        &mut extensions,
        record.extensions.is_acquired(GlKnownExtension::CompressedTextureS3tcSrgb),
        GlExtension::CompressedTextureS3tcSrgb,
    );
    report_if(
        &mut extensions,
        record.extensions.is_acquired(GlKnownExtension::ExtTextureCompressionRgtc),
        GlExtension::ExtTextureCompressionRgtc,
    );
    report_if(
        &mut extensions,
        record.extensions.is_acquired(GlKnownExtension::ArbTextureCompressionBptc),
        GlExtension::ArbTextureCompressionBptc,
    );
    report_if(
        &mut extensions,
        record.extensions.is_acquired(GlKnownExtension::ArbEs3Compatibility),
        GlExtension::ArbEs3Compatibility,
    );
    report_if(
        &mut extensions,
        record.extensions.is_acquired(GlKnownExtension::OesCompressedEtc2Rgb8Texture),
        GlExtension::OesCompressedEtc2Rgb8Texture,
    );
    report_if(
        &mut extensions,
        record.extensions.is_acquired(GlKnownExtension::KhrTextureCompressionAstcLdr),
        GlExtension::KhrTextureCompressionAstcLdr,
    );
    report_if(
        &mut extensions,
        record.extensions.is_acquired(GlKnownExtension::KhrTextureCompressionAstcHdr),
        GlExtension::KhrTextureCompressionAstcHdr,
    );
    GlFeatureProbe { profile: record.context.profile, functions, extensions }
}

/// Narrows a record to what the native owner executes.
pub fn v13_capability_snapshot(discovery: &GlDiscoverySnapshot) -> (result: GlCapabilitySnapshot)
    requires
        discovery.wf(),
    ensures
        result@ == published(discovery@),
{
    let limits = discovery.limits;
    let largest = TextureSupportLimits {
        max_extent: Extent3d {
            width: limits.max_texture_size,
            height: limits.max_texture_size,
            depth: 1,
        },
        max_mip_levels: level_count(limits.max_texture_size),
        max_array_layers: 1,
    };
    let mut formats: Vec<PublishedFormat> = Vec::new();
    let mut textures: Vec<GlTextureEvidence> = Vec::new();
    let all = list_formats();
    let mut at: usize = 0;
    while at < all.len()
        invariant
            at <= all@.len(),
            all@ == all_formats(),
            discovery.wf(),
            largest == texture_limits(discovery@.limits),
            formats@ == published_formats(discovery@, at as nat),
            textures@ == published_textures(discovery@, at as nat),
        decreases all@.len() - at,
    {
        let format = all[at];
        if let Ok(gl_format) = texture_format(format) {
            if let Some(row) = discovery.formats.get_for(
                GlFormatResourceKind::Texture,
                gl_format,
                1,
            ) {
                formats.push(
                    PublishedFormat {
                        format,
                        storage_read: false,
                        storage_write: false,
                        storage_read_write: false,
                        color_attachment: row.renderable && !depth_or_stencil(format),
                        depth_attachment: false,
                        stencil_attachment: false,
                        blendable: row.blendable,
                        filterable: row.filterable,
                        storage_atomic: false,
                    },
                );
                push_textures(&mut textures, format, &row, largest);
            }
        }
        at += 1;
    }
    let feature_probe = probe_features(discovery);
    let sampler_anisotropy = match limits.max_texture_anisotropy {
        Some(bits) => !float::is_negative(bits) && bits < 0x8000_0000 && bits > 0x3f80_0000,
        None => false,
    };
    GlCapabilitySnapshot {
        profile: discovery.context.profile,
        feature_probe,
        limits,
        maximum_buffer_size: 0x7fff_ffff,
        formats,
        textures,
        lowering: GlLoweringClosure {
            buffers: true,
            textures: true,
            buffer_copy: true,
            texture_copy: true,
            bindings: false,
            compute: true,
            raster_indirect: true,
            occlusion_query: false,
            timestamp_query: false,
            sampler_anisotropy,
            compressed_upload: true,
        },
    }
}

/// No texture that is published is storage, is a depth attachment, has more
/// than one sample or layer, or is read back unless it is plain color.
pub proof fn published_textures_are_executed(record: SnapshotModel, n: nat, i: int)
    requires
        n <= all_formats().len(),
        0 <= i < published_textures(record, n).len(),
    ensures
        ({
            let query = published_textures(record, n)[i].query;
            &&& query.dimension is D2
            &&& query.sample_count == 1
            &&& !query.usage.storage
            &&& !query.usage.depth_stencil_attachment
            &&& query.usage.copy_src ==> query.format is Rgba8Unorm || query.format is Rgba8UnormSrgb
            &&& query.usage.color_attachment ==> !is_depth_or_stencil(query.format)
            &&& texture_row(record, query.format) is Some
        }),
    decreases n,
{
    let before = published_textures(record, (n - 1) as nat);
    let format = all_formats()[n - 1];
    if i < before.len() {
        published_textures_are_executed(record, (n - 1) as nat, i);
    } else {
        let row = texture_row(record, format)->0;
        lemma_admitted(format, row, texture_limits(record.limits), 64, i - before.len());
    }
}

proof fn lemma_admitted(
    format: TextureFormat,
    row: GlFormatCapabilities,
    limits: TextureSupportLimits,
    n: nat,
    i: int,
)
    requires
        0 <= i < format_textures(format, row, limits, n).len(),
    ensures
        ({
            let query = format_textures(format, row, limits, n)[i].query;
            &&& query.format == format
            &&& query.dimension is D2
            &&& query.sample_count == 1
            &&& admits_usage(format, row, query.usage)
        }),
    decreases n,
{
    let before = format_textures(format, row, limits, (n - 1) as nat);
    if i < before.len() {
        lemma_admitted(format, row, limits, (n - 1) as nat, i);
    }
}

} // verus!
