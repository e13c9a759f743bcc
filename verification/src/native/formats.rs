//! The rows about the formats of a native context.

use vstd::prelude::*;
use crate::api::discovery;
use crate::api::discovery::{
    FormatKey, GlDiscoveryError, GlFormatCapabilities, GlFormatEvidence, GlFormatResourceKind,
    GlFormatTable, GlLimits,
};
use crate::api::extension::{GlExtensionSet, GlKnownExtension, LedgerModel};
use crate::api::format::{GlAstcBlock, GlCompressedColorSpace, GlFormat};
use crate::api::gl::{GlFamilyProfile, GlVersion};
use crate::native::probes::{ProbeAnswer, ProbeReport};

verus! {

/// Whether a context has storage for multisample textures at all. Below these
/// versions the sample counts are those of renderbuffers.
pub open spec fn has_multisample_textures(profile: GlFamilyProfile) -> bool {
    profile.spec_meets(
        Some(GlVersion { major: 4, minor: 3 }),
        Some(GlVersion { major: 3, minor: 1 }),
    )
}

pub fn supports_multisample_texture_storage(profile: GlFamilyProfile) -> (result: bool)
    ensures
        result == has_multisample_textures(profile),
{
    profile.meets(Some(GlVersion::new(4, 3)), Some(GlVersion::new(3, 1)))
}

/// What decides how many samples a format may have.
#[derive(Clone, Copy, Debug, PartialEq, Eq, Structural)]
pub enum TextureSampleClass {
    Color,
    DepthStencil,
    Integer,
}

/// Whether the components of a format are whole numbers.
pub open spec fn is_integer(format: GlFormat) -> bool {
    match format {
        GlFormat::R8Uint
        | GlFormat::R8Sint
        | GlFormat::Rg8Uint
        | GlFormat::Rg8Sint
        | GlFormat::Rgba8Uint
        | GlFormat::Rgba8Sint
        | GlFormat::R16Uint
        | GlFormat::R16Sint
        | GlFormat::Rg16Uint
        | GlFormat::Rg16Sint
        | GlFormat::Rgba16Uint
        | GlFormat::Rgba16Sint
        | GlFormat::Rgb10a2Uint
        | GlFormat::R32Uint
        | GlFormat::R32Sint
        | GlFormat::R64Uint
        | GlFormat::Rg32Uint
        | GlFormat::Rg32Sint
        | GlFormat::Rgba32Uint
        | GlFormat::Rgba32Sint => true,
        _ => false,
    }
}

/// The class of a format. Whole numbers have a ceiling of their own and are
/// never let in at that of color.
pub open spec fn sample_class(format: GlFormat) -> TextureSampleClass {
    match format {
        GlFormat::Depth16Unorm | GlFormat::Depth24PlusStencil8 | GlFormat::Depth32Float =>
            TextureSampleClass::DepthStencil,
        _ => if is_integer(format) {
            TextureSampleClass::Integer
        } else {
            TextureSampleClass::Color
        },
    }
}

pub fn texture_sample_class(format: GlFormat) -> (result: TextureSampleClass)
    ensures
        result == sample_class(format),
        is_integer(format) ==> result == TextureSampleClass::Integer,
{
    match format {
        GlFormat::R8Uint
        | GlFormat::R8Sint
        | GlFormat::Rg8Uint
        | GlFormat::Rg8Sint
        | GlFormat::Rgba8Uint
        | GlFormat::Rgba8Sint
        | GlFormat::R16Uint
        | GlFormat::R16Sint
        | GlFormat::Rg16Uint
        | GlFormat::Rg16Sint
        | GlFormat::Rgba16Uint
        | GlFormat::Rgba16Sint
        | GlFormat::Rgb10a2Uint
        | GlFormat::R32Uint
        | GlFormat::R32Sint
        | GlFormat::R64Uint
        | GlFormat::Rg32Uint
        | GlFormat::Rg32Sint
        | GlFormat::Rgba32Uint
        | GlFormat::Rgba32Sint => TextureSampleClass::Integer,
        GlFormat::Depth16Unorm | GlFormat::Depth24PlusStencil8 | GlFormat::Depth32Float =>
            TextureSampleClass::DepthStencil,
        _ => TextureSampleClass::Color,
    }
}

/// The most samples that a class may have.
pub open spec fn sample_ceiling(class: TextureSampleClass, limits: GlLimits) -> u32 {
    match class {
        TextureSampleClass::Color => limits.max_color_texture_samples,
        TextureSampleClass::DepthStencil => limits.max_depth_texture_samples,
        TextureSampleClass::Integer => limits.max_integer_samples,
    }
}

pub fn texture_sample_ceiling(class: TextureSampleClass, limits: &GlLimits) -> (result: u32)
    ensures
        result == sample_ceiling(class, *limits),
{
    match class {
        TextureSampleClass::Color => limits.max_color_texture_samples,
        TextureSampleClass::DepthStencil => limits.max_depth_texture_samples,
        TextureSampleClass::Integer => limits.max_integer_samples,
    }
}

/// Whether images of compressed storage can be copied to each other.
pub open spec fn copies_compressed(profile: GlFamilyProfile) -> bool {
    match profile {
        GlFamilyProfile::Desktop { major, minor } => major > 4 || (major == 4 && minor >= 3),
        GlFamilyProfile::Embedded { major, minor } => major > 3 || (major == 3 && minor >= 2),
        GlFamilyProfile::WebGl2 => false,
    }
}

pub fn compressed_direct_copy(profile: GlFamilyProfile) -> (result: bool)
    ensures
        result == copies_compressed(profile),
{
    match profile {
        GlFamilyProfile::Desktop { major, minor } => major > 4 || (major == 4 && minor >= 3),
        GlFamilyProfile::Embedded { major, minor } => major > 3 || (major == 3 && minor >= 2),
        GlFamilyProfile::WebGl2 => false,
    }
}

/// Whether a format belongs to the family that embedded contexts bring.
pub open spec fn is_etc(format: GlFormat) -> bool {
    format is Etc2Rgb8Unorm || format is Etc2Rgb8Srgb || format is Etc2Rgba8Unorm
        || format is Etc2Rgba8Srgb || format is Etc2Rgb8A1Unorm || format is Etc2Rgb8A1Srgb
        || format is EacR11Unorm || format is EacRg11Unorm || format is EacR11Snorm
        || format is EacRg11Snorm
}

/// Whether the version of a context brings a compressed format.
pub open spec fn core_compressed(format: GlFormat, profile: GlFamilyProfile) -> bool {
    is_etc(format) && profile is Embedded
}

pub fn is_core_compressed_for(format: GlFormat, profile: GlFamilyProfile) -> (result: bool)
    ensures
        result == core_compressed(format, profile),
{
    match profile {
        GlFamilyProfile::Embedded { .. } => match format {
            GlFormat::Etc2Rgb8Unorm
            | GlFormat::Etc2Rgb8Srgb
            | GlFormat::Etc2Rgba8Unorm
            | GlFormat::Etc2Rgba8Srgb
            | GlFormat::Etc2Rgb8A1Unorm
            | GlFormat::Etc2Rgb8A1Srgb
            | GlFormat::EacR11Unorm
            | GlFormat::EacRg11Unorm
            | GlFormat::EacR11Snorm
            | GlFormat::EacRg11Snorm => true,
            _ => false,
        },
        _ => false,
    }
}

/// The extensions that bring a compressed format, the first choice first.
pub open spec fn bringing(format: GlFormat) -> (Option<GlKnownExtension>, Option<GlKnownExtension>) {
    match format {
        GlFormat::Bc1RgbUnorm
        | GlFormat::Bc1RgbaUnorm
        | GlFormat::Bc2RgbaUnorm
        | GlFormat::Bc3RgbaUnorm => (Some(GlKnownExtension::ExtTextureCompressionS3tc), None),
        GlFormat::Bc1RgbSrgb
        | GlFormat::Bc1RgbaSrgb
        | GlFormat::Bc2RgbaSrgb
        | GlFormat::Bc3RgbaSrgb => (Some(GlKnownExtension::CompressedTextureS3tcSrgb), None),
        GlFormat::Bc4RUnorm
        | GlFormat::Bc4RSnorm
        | GlFormat::Bc5RgUnorm
        | GlFormat::Bc5RgSnorm => (Some(GlKnownExtension::ExtTextureCompressionRgtc), None),
        GlFormat::Bc6hRgbUfloat
        | GlFormat::Bc6hRgbSfloat
        | GlFormat::Bc7RgbaUnorm
        | GlFormat::Bc7RgbaSrgb => (Some(GlKnownExtension::ArbTextureCompressionBptc), None),
        GlFormat::Astc { color_space, .. } => match color_space {
            GlCompressedColorSpace::Hdr => (
                Some(GlKnownExtension::KhrTextureCompressionAstcHdr),
                None,
            ),
            _ => (Some(GlKnownExtension::KhrTextureCompressionAstcLdr), None),
        },
        GlFormat::Etc2Rgb8Unorm
        | GlFormat::Etc2Rgb8Srgb
        | GlFormat::Etc2Rgba8Unorm
        | GlFormat::Etc2Rgba8Srgb
        | GlFormat::Etc2Rgb8A1Unorm
        | GlFormat::Etc2Rgb8A1Srgb
        | GlFormat::EacR11Unorm
        | GlFormat::EacRg11Unorm
        | GlFormat::EacR11Snorm
        | GlFormat::EacRg11Snorm => (
            Some(GlKnownExtension::ArbEs3Compatibility),
            Some(GlKnownExtension::OesCompressedEtc2Rgb8Texture),
        ),
        _ => (None, None),
    }
}

/// The extension of a context that brings a compressed format.
pub open spec fn compressed_extension(format: GlFormat, ledger: LedgerModel) -> Option<
    GlKnownExtension,
> {
    let (first, second) = bringing(format);
    if first is Some && ledger.is_acquired(first->0) {
        first
    } else if second is Some && ledger.is_acquired(second->0) {
        second
    } else {
        None
    }
}

pub fn native_compressed_extension(format: GlFormat, extensions: &GlExtensionSet) -> (result:
    Option<GlKnownExtension>)
    requires
        extensions.wf(),
    ensures
        result == compressed_extension(format, extensions@),
{
    let (first, second) = match format {
        GlFormat::Bc1RgbUnorm
        | GlFormat::Bc1RgbaUnorm
        | GlFormat::Bc2RgbaUnorm
        | GlFormat::Bc3RgbaUnorm => (Some(GlKnownExtension::ExtTextureCompressionS3tc), None),
        GlFormat::Bc1RgbSrgb
        | GlFormat::Bc1RgbaSrgb
        | GlFormat::Bc2RgbaSrgb
        | GlFormat::Bc3RgbaSrgb => (Some(GlKnownExtension::CompressedTextureS3tcSrgb), None),
        GlFormat::Bc4RUnorm
        | GlFormat::Bc4RSnorm
        | GlFormat::Bc5RgUnorm
        | GlFormat::Bc5RgSnorm => (Some(GlKnownExtension::ExtTextureCompressionRgtc), None),
        GlFormat::Bc6hRgbUfloat
        | GlFormat::Bc6hRgbSfloat
        | GlFormat::Bc7RgbaUnorm
        | GlFormat::Bc7RgbaSrgb => (Some(GlKnownExtension::ArbTextureCompressionBptc), None),
        GlFormat::Astc { color_space, .. } => match color_space {
            GlCompressedColorSpace::Hdr => (
                Some(GlKnownExtension::KhrTextureCompressionAstcHdr),
                None,
            ),
            _ => (Some(GlKnownExtension::KhrTextureCompressionAstcLdr), None),
        },
        GlFormat::Etc2Rgb8Unorm
        | GlFormat::Etc2Rgb8Srgb
        | GlFormat::Etc2Rgba8Unorm
        | GlFormat::Etc2Rgba8Srgb
        | GlFormat::Etc2Rgb8A1Unorm
        | GlFormat::Etc2Rgb8A1Srgb
        | GlFormat::EacR11Unorm
        | GlFormat::EacRg11Unorm
        | GlFormat::EacR11Snorm
        | GlFormat::EacRg11Snorm => (
            Some(GlKnownExtension::ArbEs3Compatibility),
            Some(GlKnownExtension::OesCompressedEtc2Rgb8Texture),
        ),
        _ => (None, None),
    };
    if let Some(extension) = first {
        if extensions.is_acquired(extension) {
            return first;
        }
    }
    if let Some(extension) = second {
        if extensions.is_acquired(extension) {
            return second;
        }
    }
    None
}

/// What the rows of a context rest on.
pub struct FormatContext {
    pub profile: GlFamilyProfile,
    pub ledger: LedgerModel,
    pub limits: GlLimits,
    pub report: ProbeReport,
}

/// The row about plain color textures, before anything was tried.
pub open spec fn color_row(format: GlFormat) -> GlFormatCapabilities {
    GlFormatCapabilities {
        format,
        resource_kind: GlFormatResourceKind::Texture,
        sample_count: 1,
        evidence: GlFormatEvidence::CoreGuaranteed,
        sampled: true,
        filterable: true,
        renderable: true,
        blendable: true,
        storage_read: false,
        storage_write: false,
        copy_source: true,
        copy_destination: true,
    }
}

/// The row about plain color textures, with what image stores showed.
pub open spec fn stored_row(report: ProbeReport) -> GlFormatCapabilities {
    let row = color_row(GlFormat::Rgba8Unorm);
    if report.rgba8_storage.spec_ran() {
        GlFormatCapabilities {
            evidence: GlFormatEvidence::OperationProbed,
            storage_read: report.rgba8_storage is Passed,
            storage_write: report.rgba8_storage is Passed,
            ..row
        }
    } else {
        row
    }
}

/// The row about color renderbuffers.
pub open spec fn renderbuffer_row(format: GlFormat, samples: u32) -> GlFormatCapabilities {
    GlFormatCapabilities {
        format,
        resource_kind: GlFormatResourceKind::Renderbuffer,
        sample_count: samples,
        evidence: GlFormatEvidence::CoreGuaranteed,
        sampled: false,
        filterable: false,
        renderable: true,
        blendable: true,
        storage_read: false,
        storage_write: false,
        copy_source: false,
        copy_destination: false,
    }
}

/// Whether multisample textures of a format can be rendered to. Floating-point
/// depth is not guaranteed: it has to be seen.
pub open spec fn has_multisample_rendering(report: ProbeReport, format: GlFormat) -> bool {
    match format {
        GlFormat::Rgba8Unorm | GlFormat::Rgba8Srgb => true,
        GlFormat::Depth32Float => report.depth_texture_attachment is Passed,
        _ => false,
    }
}

/// The row about multisample textures. They are read by a resolve only.
pub open spec fn multisample_row(format: GlFormat, samples: u32) -> GlFormatCapabilities {
    GlFormatCapabilities {
        format,
        resource_kind: GlFormatResourceKind::Texture,
        sample_count: samples,
        evidence: if format is Depth32Float {
            GlFormatEvidence::OperationProbed
        } else {
            GlFormatEvidence::CoreGuaranteed
        },
        sampled: false,
        filterable: false,
        renderable: true,
        blendable: sample_class(format) is Color,
        storage_read: false,
        storage_write: false,
        copy_source: false,
        copy_destination: false,
    }
}

/// The row about floating-point depth. Nothing is claimed that was not seen.
pub open spec fn depth_row(kind: GlFormatResourceKind, probe: ProbeAnswer) -> GlFormatCapabilities {
    GlFormatCapabilities {
        format: GlFormat::Depth32Float,
        resource_kind: kind,
        sample_count: 1,
        evidence: if probe.spec_ran() {
            GlFormatEvidence::OperationProbed
        } else {
            GlFormatEvidence::CoreGuaranteed
        },
        sampled: kind is Texture,
        filterable: false,
        renderable: probe is Passed,
        blendable: false,
        storage_read: false,
        storage_write: false,
        copy_source: false,
        copy_destination: false,
    }
}

/// The row about a floating-point color format, from its own operation.
pub open spec fn float_row(
    format: GlFormat,
    filterable: bool,
    probe: ProbeAnswer,
    blend_when_renderable: bool,
) -> GlFormatCapabilities {
    GlFormatCapabilities {
        format,
        resource_kind: GlFormatResourceKind::Texture,
        sample_count: 1,
        evidence: GlFormatEvidence::OperationProbed,
        sampled: true,
        filterable,
        renderable: probe is Passed,
        blendable: probe is Passed && blend_when_renderable,
        storage_read: false,
        storage_write: false,
        copy_source: probe is Passed,
        copy_destination: probe is Passed,
    }
}

/// The row about a compressed format, if the context has it.
pub open spec fn compressed_row(context: FormatContext, format: GlFormat) -> Option<
    GlFormatCapabilities,
> {
    let copy = copies_compressed(context.profile);
    let row = GlFormatCapabilities {
        format,
        resource_kind: GlFormatResourceKind::Texture,
        sample_count: 1,
        evidence: GlFormatEvidence::CoreGuaranteed,
        sampled: true,
        filterable: false,
        renderable: false,
        blendable: false,
        storage_read: false,
        storage_write: false,
        copy_source: copy,
        copy_destination: copy,
    };
    if core_compressed(format, context.profile) {
        Some(row)
    } else {
        match compressed_extension(format, context.ledger) {
            Some(extension) => Some(
                GlFormatCapabilities {
                    evidence: GlFormatEvidence::ExtensionAcquired(extension),
                    filterable: true,
                    ..row
                },
            ),
            None => None,
        }
    }
}

/// The row about a texture with one sample.
pub open spec fn single_row(context: FormatContext, format: GlFormat) -> Option<
    GlFormatCapabilities,
> {
    let report = context.report;
    let desktop = context.profile is Desktop;
    match format {
        GlFormat::Rgba8Srgb => Some(color_row(format)),
        GlFormat::Rgba8Unorm => Some(stored_row(report)),
        GlFormat::Depth32Float => Some(
            depth_row(GlFormatResourceKind::Texture, report.depth_texture_attachment),
        ),
        GlFormat::Rgba16Float => if report.rgba16f_attachment.spec_ran() {
            Some(float_row(format, true, report.rgba16f_attachment, desktop))
        } else {
            None
        },
        GlFormat::Rgba32Float => if report.rgba32f_attachment.spec_ran() {
            Some(
                float_row(
                    format,
                    desktop || context.ledger.is_acquired(GlKnownExtension::OesTextureFloatLinear),
                    report.rgba32f_attachment,
                    desktop,
                ),
            )
        } else {
            None
        },
        _ => compressed_row(context, format),
    }
}

/// The row about one kind of storage, if the context has it.
pub open spec fn native_row(context: FormatContext, key: FormatKey) -> Option<
    GlFormatCapabilities,
> {
    let n = key.samples;
    match key.kind {
        GlFormatResourceKind::Renderbuffer => match key.format {
            GlFormat::Rgba8Unorm | GlFormat::Rgba8Srgb => if (n == 1 || n == 4 || n == 8) && n
                <= context.limits.max_samples {
                Some(renderbuffer_row(key.format, n))
            } else {
                None
            },
            GlFormat::Depth32Float => if n == 1
                && context.report.depth_renderbuffer_attachment.spec_ran() {
                Some(depth_row(key.kind, context.report.depth_renderbuffer_attachment))
            } else {
                None
            },
            _ => None,
        },
        GlFormatResourceKind::Texture => if n == 1 {
            single_row(context, key.format)
        } else if (n == 2 || n == 4 || n == 8 || n == 16) && has_multisample_textures(
            context.profile,
        ) && has_multisample_rendering(context.report, key.format) && n <= sample_ceiling(
            sample_class(key.format),
            context.limits,
        ) {
            Some(multisample_row(key.format, n))
        } else {
            None
        },
    }
}

/// All rows of a context.
pub open spec fn native_rows(context: FormatContext) -> Map<FormatKey, GlFormatCapabilities> {
    Map::new(
        |key: FormatKey| native_row(context, key) is Some,
        |key: FormatKey| native_row(context, key)->0,
    )
}

/// No row claims more samples than the limits allow for its kind of storage,
/// and each row is about what it is filed under.
pub proof fn sample_counts_are_bounded(context: FormatContext, key: FormatKey)
    requires
        native_rows(context).contains_key(key),
    ensures
        native_rows(context)[key].spec_key() == key,
        key.samples == 1 || (if key.kind is Renderbuffer {
            key.samples <= context.limits.max_samples
        } else {
            has_multisample_textures(context.profile) && key.samples <= sample_ceiling(
                sample_class(key.format),
                context.limits,
            )
        }),
{
}

/// Floating-point formats are renderable only where that was seen to work.
pub proof fn float_rendering_is_seen(context: FormatContext, key: FormatKey)
    requires
        native_rows(context).contains_key(key),
        key.format is Rgba16Float || key.format is Rgba32Float || key.format is Depth32Float,
        native_rows(context)[key].renderable,
    ensures
        native_rows(context)[key].evidence is OperationProbed,
{
}

/// Whether one of the rows is filed under a key.
pub open spec fn has_row(rows: Seq<GlFormatCapabilities>, key: FormatKey) -> bool {
    exists|i: int| 0 <= i < rows.len() && (#[trigger] rows[i]).spec_key() == key
}

/// Whether all rows belong to a context.
pub open spec fn belongs(context: FormatContext, rows: Seq<GlFormatCapabilities>) -> bool {
    forall|i: int|
        0 <= i < rows.len() ==> native_row(context, (#[trigger] rows[i]).spec_key()) == Some(
            rows[i],
        )
}

/// Whether the second list holds all rows of the first.
pub open spec fn keeps_rows(
    before: Seq<GlFormatCapabilities>,
    after: Seq<GlFormatCapabilities>,
) -> bool {
    before.len() <= after.len() && forall|i: int|
        0 <= i < before.len() ==> before[i] == #[trigger] after[i]
}

proof fn lemma_kept(before: Seq<GlFormatCapabilities>, after: Seq<GlFormatCapabilities>)
    requires
        keeps_rows(before, after),
    ensures
        forall|key: FormatKey| has_row(before, key) ==> #[trigger] has_row(after, key),
{
    assert forall|key: FormatKey| has_row(before, key) implies #[trigger] has_row(after, key) by {
        let i = choose|i: int| 0 <= i < before.len() && (#[trigger] before[i]).spec_key() == key;
        assert(after[i].spec_key() == key);
    }
}

fn add_row(
    rows: &mut Vec<GlFormatCapabilities>,
    row: GlFormatCapabilities,
    context: Ghost<FormatContext>,
)
    requires
        belongs(context@, old(rows)@),
        native_row(context@, row.spec_key()) == Some(row),
    ensures
        belongs(context@, final(rows)@),
        keeps_rows(old(rows)@, final(rows)@),
        has_row(final(rows)@, row.spec_key()),
{
    let ghost before = rows@;
    rows.push(row);
    assert(rows@[before.len() as int] == row);
}

/// The row about plain color textures.
pub fn rgba8_texture_facts() -> (result: GlFormatCapabilities)
    ensures
        result == color_row(GlFormat::Rgba8Unorm),
{
    GlFormatCapabilities {
        format: GlFormat::Rgba8Unorm,
        resource_kind: GlFormatResourceKind::Texture,
        sample_count: 1,
        evidence: GlFormatEvidence::CoreGuaranteed,
        sampled: true,
        filterable: true,
        renderable: true,
        blendable: true,
        storage_read: false,
        storage_write: false,
        copy_source: true,
        copy_destination: true,
    }
}

/// The row about floating-point depth, from its own operation.
pub fn depth_fact(resource_kind: GlFormatResourceKind, probe: ProbeAnswer) -> (result:
    GlFormatCapabilities)
    ensures
        result == depth_row(resource_kind, probe),
{
    GlFormatCapabilities {
        format: GlFormat::Depth32Float,
        resource_kind,
        sample_count: 1,
        evidence: if probe.ran() {
            GlFormatEvidence::OperationProbed
        } else {
            GlFormatEvidence::CoreGuaranteed
        },
        sampled: resource_kind == GlFormatResourceKind::Texture,
        filterable: false,
        renderable: probe == ProbeAnswer::Passed,
        blendable: false,
        storage_read: false,
        storage_write: false,
        copy_source: false,
        copy_destination: false,
    }
}

/// The row about a floating-point color format, from its own operation.
pub fn float_fact(
    format: GlFormat,
    filterable: bool,
    probe: ProbeAnswer,
    blend_when_renderable: bool,
) -> (result: GlFormatCapabilities)
    ensures
        result == float_row(format, filterable, probe, blend_when_renderable),
{
    let renderable = probe == ProbeAnswer::Passed;
    GlFormatCapabilities {
        format,
        resource_kind: GlFormatResourceKind::Texture,
        sample_count: 1,
        evidence: GlFormatEvidence::OperationProbed,
        sampled: true,
        filterable,
        renderable,
        blendable: renderable && blend_when_renderable,
        storage_read: false,
        storage_write: false,
        copy_source: renderable,
        copy_destination: renderable,
    }
}

fn add_baseline(
    rows: &mut Vec<GlFormatCapabilities>,
    report: &ProbeReport,
    context: Ghost<FormatContext>,
)
    requires
        context@.report == *report,
        belongs(context@, old(rows)@),
    ensures
        belongs(context@, final(rows)@),
        keeps_rows(old(rows)@, final(rows)@),
        has_row(
            final(rows)@,
            (FormatKey {
                kind: GlFormatResourceKind::Texture,
                format: GlFormat::Rgba8Srgb,
                samples: 1,
            }),
        ),
        has_row(
            final(rows)@,
            (FormatKey {
                kind: GlFormatResourceKind::Texture,
                format: GlFormat::Rgba8Unorm,
                samples: 1,
            }),
        ),
{
    let mut srgb = rgba8_texture_facts();
    srgb.format = GlFormat::Rgba8Srgb;
    add_row(rows, srgb, context);
    let ghost first = rows@;
    let mut unorm = rgba8_texture_facts();
    if report.rgba8_storage.ran() {
        let stored = report.rgba8_storage == ProbeAnswer::Passed;
        unorm.evidence = GlFormatEvidence::OperationProbed;
        unorm.storage_read = stored;
        unorm.storage_write = stored;
    }
    add_row(rows, unorm, context);
    proof {
        lemma_kept(first, rows@);
    }
}

fn add_renderbuffers(
    rows: &mut Vec<GlFormatCapabilities>,
    samples: u32,
    limits: &GlLimits,
    context: Ghost<FormatContext>,
)
    requires
        samples == 1 || samples == 4 || samples == 8,
        context@.limits == *limits,
        belongs(context@, old(rows)@),
    ensures
        belongs(context@, final(rows)@),
        keeps_rows(old(rows)@, final(rows)@),
        samples <= limits.max_samples ==> forall|format: GlFormat|
            (format is Rgba8Unorm || format is Rgba8Srgb) ==> #[trigger] has_row(
                final(rows)@,
                (FormatKey { kind: GlFormatResourceKind::Renderbuffer, format, samples }),
            ),
{
    if samples > limits.max_samples {
        return;
    }
    let row = GlFormatCapabilities {
        format: GlFormat::Rgba8Unorm,
        resource_kind: GlFormatResourceKind::Renderbuffer,
        sample_count: samples,
        evidence: GlFormatEvidence::CoreGuaranteed,
        sampled: false,
        filterable: false,
        renderable: true,
        blendable: true,
        storage_read: false,
        storage_write: false,
        copy_source: false,
        copy_destination: false,
    };
    add_row(rows, row, context);
    let ghost first = rows@;
    let mut other = row;
    other.format = GlFormat::Rgba8Srgb;
    add_row(rows, other, context);
    proof {
        lemma_kept(first, rows@);
    }
}

fn add_multisample(
    rows: &mut Vec<GlFormatCapabilities>,
    format: GlFormat,
    samples: u32,
    limits: &GlLimits,
    context: Ghost<FormatContext>,
)
    requires
        samples == 2 || samples == 4 || samples == 8 || samples == 16,
        has_multisample_rendering(context@.report, format),
        has_multisample_textures(context@.profile),
        context@.limits == *limits,
        belongs(context@, old(rows)@),
    ensures
        belongs(context@, final(rows)@),
        keeps_rows(old(rows)@, final(rows)@),
        samples <= sample_ceiling(sample_class(format), *limits) ==> has_row(
            final(rows)@,
            (FormatKey { kind: GlFormatResourceKind::Texture, format, samples }),
        ),
{
    let class = texture_sample_class(format);
    if samples > texture_sample_ceiling(class, limits) {
        return;
    }
    add_row(
        rows,
        GlFormatCapabilities {
            format,
            resource_kind: GlFormatResourceKind::Texture,
            sample_count: samples,
            evidence: if format == GlFormat::Depth32Float {
                GlFormatEvidence::OperationProbed
            } else {
                GlFormatEvidence::CoreGuaranteed
            },
            sampled: false,
            filterable: false,
            renderable: true,
            blendable: class == TextureSampleClass::Color,
            storage_read: false,
            storage_write: false,
            copy_source: false,
            copy_destination: false,
        },
        context,
    );
}

fn add_all_multisample(
    rows: &mut Vec<GlFormatCapabilities>,
    format: GlFormat,
    limits: &GlLimits,
    context: Ghost<FormatContext>,
)
    requires
        has_multisample_rendering(context@.report, format),
        has_multisample_textures(context@.profile),
        context@.limits == *limits,
        belongs(context@, old(rows)@),
    ensures
        belongs(context@, final(rows)@),
        keeps_rows(old(rows)@, final(rows)@),
        forall|samples: u32|
            (samples == 2 || samples == 4 || samples == 8 || samples == 16) && samples
                <= sample_ceiling(sample_class(format), *limits) ==> #[trigger] has_row(
                final(rows)@,
                (FormatKey { kind: GlFormatResourceKind::Texture, format, samples }),
            ),
{
    add_multisample(rows, format, 2, limits, context);
    let ghost r1 = rows@;
    add_multisample(rows, format, 4, limits, context);
    let ghost r2 = rows@;
    add_multisample(rows, format, 8, limits, context);
    let ghost r3 = rows@;
    add_multisample(rows, format, 16, limits, context);
    proof {
        lemma_kept(r1, r2);
        lemma_kept(r2, r3);
        lemma_kept(r3, rows@);
    }
}

fn add_probed(
    rows: &mut Vec<GlFormatCapabilities>,
    profile: GlFamilyProfile,
    extensions: &GlExtensionSet,
    report: &ProbeReport,
    context: Ghost<FormatContext>,
)
    requires
        extensions.wf(),
        context@.profile == profile,
        context@.ledger == extensions@,
        context@.report == *report,
        belongs(context@, old(rows)@),
    ensures
        belongs(context@, final(rows)@),
        keeps_rows(old(rows)@, final(rows)@),
        forall|key: FormatKey|
            key.samples == 1 && (key.format is Depth32Float || key.format is Rgba16Float
                || key.format is Rgba32Float) && native_row(context@, key) is Some ==> #[trigger] has_row(
                final(rows)@,
                key,
            ),
{
    add_row(
        rows,
        depth_fact(GlFormatResourceKind::Texture, report.depth_texture_attachment),
        context,
    );
    let ghost r1 = rows@;
    if report.depth_renderbuffer_attachment.ran() {
        add_row(
            rows,
            depth_fact(GlFormatResourceKind::Renderbuffer, report.depth_renderbuffer_attachment),
            context,
        );
    }
    let ghost r2 = rows@;
    let desktop = match profile {
        GlFamilyProfile::Desktop { .. } => true,
        _ => false,
    };
    let float32_filterable = desktop || extensions.is_acquired(
        GlKnownExtension::OesTextureFloatLinear,
    );
    if report.rgba16f_attachment.ran() {
        add_row(
            rows,
            float_fact(GlFormat::Rgba16Float, true, report.rgba16f_attachment, desktop),
            context,
        );
    }
    let ghost r3 = rows@;
    if report.rgba32f_attachment.ran() {
        add_row(
            rows,
            float_fact(
                GlFormat::Rgba32Float,
                float32_filterable,
                report.rgba32f_attachment,
                desktop,
            ),
            context,
        );
    }
    proof {
        lemma_kept(r1, r2);
        lemma_kept(r2, r3);
        lemma_kept(r3, rows@);
    }
}

/// The compressed formats of fixed families.
pub open spec fn block_formats() -> Seq<GlFormat> {
    seq![
        GlFormat::Bc1RgbUnorm,
        GlFormat::Bc1RgbaUnorm,
        GlFormat::Bc2RgbaUnorm,
        GlFormat::Bc3RgbaUnorm,
        GlFormat::Bc1RgbSrgb,
        GlFormat::Bc1RgbaSrgb,
        GlFormat::Bc2RgbaSrgb,
        GlFormat::Bc3RgbaSrgb,
        GlFormat::Bc4RUnorm,
        GlFormat::Bc4RSnorm,
        GlFormat::Bc5RgUnorm,
        GlFormat::Bc5RgSnorm,
        GlFormat::Bc6hRgbUfloat,
        GlFormat::Bc6hRgbSfloat,
        GlFormat::Bc7RgbaUnorm,
        GlFormat::Bc7RgbaSrgb,
    ]
}

/// The footprints of the adaptive family.
pub open spec fn astc_blocks() -> Seq<GlAstcBlock> {
    seq![
        GlAstcBlock::B4x4,
        GlAstcBlock::B5x4,
        GlAstcBlock::B5x5,
        GlAstcBlock::B6x5,
        GlAstcBlock::B6x6,
        GlAstcBlock::B8x5,
        GlAstcBlock::B8x6,
        GlAstcBlock::B8x8,
        GlAstcBlock::B10x5,
        GlAstcBlock::B10x6,
        GlAstcBlock::B10x8,
        GlAstcBlock::B10x10,
        GlAstcBlock::B12x10,
        GlAstcBlock::B12x12,
    ]
}

/// The compressed formats that embedded contexts bring.
pub open spec fn etc_formats() -> Seq<GlFormat> {
    seq![
        GlFormat::Etc2Rgb8Unorm,
        GlFormat::Etc2Rgb8Srgb,
        GlFormat::Etc2Rgba8Unorm,
        GlFormat::Etc2Rgba8Srgb,
        GlFormat::Etc2Rgb8A1Unorm,
        GlFormat::Etc2Rgb8A1Srgb,
        GlFormat::EacR11Unorm,
        GlFormat::EacRg11Unorm,
        GlFormat::EacR11Snorm,
        GlFormat::EacRg11Snorm,
    ]
}

/// One footprint in each of its three readings, so many footprints long.
pub open spec fn astc_formats(n: nat) -> Seq<GlFormat>
    decreases n,
{
    if n == 0 {
        Seq::empty()
    } else {
        let block = astc_blocks()[n - 1];
        astc_formats((n - 1) as nat).push(
            GlFormat::Astc { block, color_space: GlCompressedColorSpace::Linear },
        ).push(GlFormat::Astc { block, color_space: GlCompressedColorSpace::Srgb }).push(
            GlFormat::Astc { block, color_space: GlCompressedColorSpace::Hdr },
        )
    }
}

/// All compressed formats that a native context can have.
pub open spec fn compressed_formats() -> Seq<GlFormat> {
    block_formats() + astc_formats(14) + etc_formats()
}

/// Where a footprint stands in the list.
pub open spec fn block_position(block: GlAstcBlock) -> int {
    match block {
        GlAstcBlock::B4x4 => 0,
        GlAstcBlock::B5x4 => 1,
        GlAstcBlock::B5x5 => 2,
        GlAstcBlock::B6x5 => 3,
        GlAstcBlock::B6x6 => 4,
        GlAstcBlock::B8x5 => 5,
        GlAstcBlock::B8x6 => 6,
        GlAstcBlock::B8x8 => 7,
        GlAstcBlock::B10x5 => 8,
        GlAstcBlock::B10x6 => 9,
        GlAstcBlock::B10x8 => 10,
        GlAstcBlock::B10x10 => 11,
        GlAstcBlock::B12x10 => 12,
        GlAstcBlock::B12x12 => 13,
    }
}

/// Where a compressed format stands in the list.
pub open spec fn compressed_position(format: GlFormat) -> int {
    match format {
        GlFormat::Bc1RgbUnorm => 0,
        GlFormat::Bc1RgbaUnorm => 1,
        GlFormat::Bc2RgbaUnorm => 2,
        GlFormat::Bc3RgbaUnorm => 3,
        GlFormat::Bc1RgbSrgb => 4,
        GlFormat::Bc1RgbaSrgb => 5,
        GlFormat::Bc2RgbaSrgb => 6,
        GlFormat::Bc3RgbaSrgb => 7,
        GlFormat::Bc4RUnorm => 8,
        GlFormat::Bc4RSnorm => 9,
        GlFormat::Bc5RgUnorm => 10,
        GlFormat::Bc5RgSnorm => 11,
        GlFormat::Bc6hRgbUfloat => 12,
        GlFormat::Bc6hRgbSfloat => 13,
        GlFormat::Bc7RgbaUnorm => 14,
        GlFormat::Bc7RgbaSrgb => 15,
        GlFormat::Astc { block, color_space } => 16 + 3 * block_position(block)
            + match color_space {
            GlCompressedColorSpace::Linear => 0int,
            GlCompressedColorSpace::Srgb => 1int,
            GlCompressedColorSpace::Hdr => 2int,
        },
        GlFormat::Etc2Rgb8Unorm => 58,
        GlFormat::Etc2Rgb8Srgb => 59,
        GlFormat::Etc2Rgba8Unorm => 60,
        GlFormat::Etc2Rgba8Srgb => 61,
        GlFormat::Etc2Rgb8A1Unorm => 62,
        GlFormat::Etc2Rgb8A1Srgb => 63,
        GlFormat::EacR11Unorm => 64,
        GlFormat::EacRg11Unorm => 65,
        GlFormat::EacR11Snorm => 66,
        GlFormat::EacRg11Snorm => 67,
        _ => -1,
    }
}

proof fn lemma_astc(n: nat, i: int)
    requires
        n <= 14,
        0 <= i < n,
    ensures
        astc_formats(n).len() == 3 * n,
        astc_formats(n)[3 * i] == (GlFormat::Astc {
            block: astc_blocks()[i],
            color_space: GlCompressedColorSpace::Linear,
        }),
        astc_formats(n)[3 * i + 1] == (GlFormat::Astc {
            block: astc_blocks()[i],
            color_space: GlCompressedColorSpace::Srgb,
        }),
        astc_formats(n)[3 * i + 2] == (GlFormat::Astc {
            block: astc_blocks()[i],
            color_space: GlCompressedColorSpace::Hdr,
        }),
    decreases n,
{
    lemma_astc_len(n);
    lemma_astc_len((n - 1) as nat);
    if i < n - 1 {
        lemma_astc((n - 1) as nat, i);
    }
}

proof fn lemma_astc_len(n: nat)
    ensures
        astc_formats(n).len() == 3 * n,
    decreases n,
{
    if n > 0 {
        lemma_astc_len((n - 1) as nat);
    }
}

proof fn lemma_compressed_is_listed(format: GlFormat)
    requires
        bringing(format).0 is Some,
    ensures
        0 <= compressed_position(format) < compressed_formats().len(),
        compressed_formats()[compressed_position(format)] == format,
{
    lemma_astc_len(14);
    match format {
        GlFormat::Astc { block, .. } => {
            assert(astc_blocks()[block_position(block)] == block);
            lemma_astc(14, block_position(block));
        },
        _ => {},
    }
}

proof fn lemma_listed_is_compressed(i: int)
    requires
        0 <= i < compressed_formats().len(),
    ensures
        bringing(compressed_formats()[i]).0 is Some,
{
    lemma_astc_len(14);
    if 16 <= i < 58 {
        let k = (i - 16) / 3;
        lemma_astc(14, k);
        assert(i - 16 == 3 * k || i - 16 == 3 * k + 1 || i - 16 == 3 * k + 2);
    }
}

fn list_blocks() -> (result: Vec<GlAstcBlock>)
    ensures
        result@ == astc_blocks(),
{
    let mut result: Vec<GlAstcBlock> = Vec::new();
    result.push(GlAstcBlock::B4x4);
    result.push(GlAstcBlock::B5x4);
    result.push(GlAstcBlock::B5x5);
    result.push(GlAstcBlock::B6x5);
    result.push(GlAstcBlock::B6x6);
    result.push(GlAstcBlock::B8x5);
    result.push(GlAstcBlock::B8x6);
    result.push(GlAstcBlock::B8x8);
    result.push(GlAstcBlock::B10x5);
    result.push(GlAstcBlock::B10x6);
    result.push(GlAstcBlock::B10x8);
    result.push(GlAstcBlock::B10x10);
    result.push(GlAstcBlock::B12x10);
    result.push(GlAstcBlock::B12x12);
    assert(result@ =~= astc_blocks());
    result
}

/// All compressed formats that a native context can have. A format that is
/// added here needs evidence, storage and an upload.
pub fn native_optional_compressed_formats() -> (result: Vec<GlFormat>)
    ensures
        result@ == compressed_formats(),
{
    let mut result: Vec<GlFormat> = Vec::new();
    result.push(GlFormat::Bc1RgbUnorm);
    result.push(GlFormat::Bc1RgbaUnorm);
    result.push(GlFormat::Bc2RgbaUnorm);
    result.push(GlFormat::Bc3RgbaUnorm);
    result.push(GlFormat::Bc1RgbSrgb);
    result.push(GlFormat::Bc1RgbaSrgb);
    result.push(GlFormat::Bc2RgbaSrgb);
    result.push(GlFormat::Bc3RgbaSrgb);
    result.push(GlFormat::Bc4RUnorm);
    result.push(GlFormat::Bc4RSnorm);
    result.push(GlFormat::Bc5RgUnorm);
    result.push(GlFormat::Bc5RgSnorm);
    result.push(GlFormat::Bc6hRgbUfloat);
    result.push(GlFormat::Bc6hRgbSfloat);
    result.push(GlFormat::Bc7RgbaUnorm);
    result.push(GlFormat::Bc7RgbaSrgb);
    assert(result@ =~= block_formats() + astc_formats(0));
    let blocks = list_blocks();
    let mut at: usize = 0;
    while at < blocks.len()
        invariant
            at <= blocks@.len(),
            blocks@ == astc_blocks(),
            result@ == block_formats() + astc_formats(at as nat),
        decreases blocks@.len() - at,
    {
        let block = blocks[at];
        result.push(GlFormat::Astc { block, color_space: GlCompressedColorSpace::Linear });
        result.push(GlFormat::Astc { block, color_space: GlCompressedColorSpace::Srgb });
        result.push(GlFormat::Astc { block, color_space: GlCompressedColorSpace::Hdr });
        at += 1;
        assert(result@ =~= block_formats() + astc_formats(at as nat));
    }
    result.push(GlFormat::Etc2Rgb8Unorm);
    result.push(GlFormat::Etc2Rgb8Srgb);
    result.push(GlFormat::Etc2Rgba8Unorm);
    result.push(GlFormat::Etc2Rgba8Srgb);
    result.push(GlFormat::Etc2Rgb8A1Unorm);
    result.push(GlFormat::Etc2Rgb8A1Srgb);
    result.push(GlFormat::EacR11Unorm);
    result.push(GlFormat::EacRg11Unorm);
    result.push(GlFormat::EacR11Snorm);
    result.push(GlFormat::EacRg11Snorm);
    assert(result@ =~= compressed_formats());
    result
}

fn add_compressed(
    rows: &mut Vec<GlFormatCapabilities>,
    format: GlFormat,
    profile: GlFamilyProfile,
    extensions: &GlExtensionSet,
    context: Ghost<FormatContext>,
)
    requires
        extensions.wf(),
        !(format is Rgba8Srgb || format is Rgba8Unorm || format is Depth32Float
            || format is Rgba16Float || format is Rgba32Float),
        context@.profile == profile,
        context@.ledger == extensions@,
        belongs(context@, old(rows)@),
    ensures
        belongs(context@, final(rows)@),
        keeps_rows(old(rows)@, final(rows)@),
        compressed_row(context@, format) is Some ==> has_row(
            final(rows)@,
            (FormatKey { kind: GlFormatResourceKind::Texture, format, samples: 1 }),
        ),
{
    let direct_copy = compressed_direct_copy(profile);
    let mut row = GlFormatCapabilities {
        format,
        resource_kind: GlFormatResourceKind::Texture,
        sample_count: 1,
        evidence: GlFormatEvidence::CoreGuaranteed,
        sampled: true,
        filterable: false,
        renderable: false,
        blendable: false,
        storage_read: false,
        storage_write: false,
        copy_source: direct_copy,
        copy_destination: direct_copy,
    };
    if is_core_compressed_for(format, profile) {
        add_row(rows, row, context);
        return;
    }
    if let Some(extension) = native_compressed_extension(format, extensions) {
        row.evidence = GlFormatEvidence::ExtensionAcquired(extension);
        row.filterable = true;
        add_row(rows, row, context);
    }
}

fn add_all_compressed(
    rows: &mut Vec<GlFormatCapabilities>,
    profile: GlFamilyProfile,
    extensions: &GlExtensionSet,
    context: Ghost<FormatContext>,
)
    requires
        extensions.wf(),
        context@.profile == profile,
        context@.ledger == extensions@,
        belongs(context@, old(rows)@),
    ensures
        belongs(context@, final(rows)@),
        keeps_rows(old(rows)@, final(rows)@),
        forall|format: GlFormat|
            compressed_row(context@, format) is Some ==> #[trigger] has_row(
                final(rows)@,
                (FormatKey { kind: GlFormatResourceKind::Texture, format, samples: 1 }),
            ),
{
    let list = native_optional_compressed_formats();
    let mut at: usize = 0;
    while at < list.len()
        invariant
            at <= list@.len(),
            list@ == compressed_formats(),
            extensions.wf(),
            context@.profile == profile,
            context@.ledger == extensions@,
            belongs(context@, rows@),
            keeps_rows(old(rows)@, rows@),
            forall|i: int|
                0 <= i < at && compressed_row(context@, #[trigger] list@[i]) is Some ==> has_row(
                    rows@,
                    (FormatKey {
                        kind: GlFormatResourceKind::Texture,
                        format: list@[i],
                        samples: 1,
                    }),
                ),
        decreases list@.len() - at,
    {
        proof {
            lemma_listed_is_compressed(at as int);
        }
        let ghost before = rows@;
        add_compressed(rows, list[at], profile, extensions, context);
        proof {
            lemma_kept(before, rows@);
        }
        at += 1;
    }
    proof {
        assert forall|format: GlFormat|
            compressed_row(context@, format) is Some implies #[trigger] has_row(
            rows@,
            (FormatKey { kind: GlFormatResourceKind::Texture, format, samples: 1 }),
        ) by {
            lemma_compressed_is_listed(format);
            assert(list@[compressed_position(format)] == format);
        }
    }
}

/// The rows about the formats of a context. Where nothing was tried, nothing
/// is claimed beyond what every accepted version guarantees.
pub fn native_formats(
    profile: GlFamilyProfile,
    extensions: &GlExtensionSet,
    limits: &GlLimits,
    report: &ProbeReport,
) -> (result: Result<GlFormatTable, GlDiscoveryError>)
    requires
        extensions.wf(),
    ensures
        result is Ok,
        result->Ok_0.wf(),
        result->Ok_0@ == native_rows(
            FormatContext { profile, ledger: extensions@, limits: *limits, report: *report },
        ),
{
    let context: Ghost<FormatContext> = Ghost(
        FormatContext { profile, ledger: extensions@, limits: *limits, report: *report },
    );
    let mut rows: Vec<GlFormatCapabilities> = Vec::new();
    add_baseline(&mut rows, report, context);
    let ghost r1 = rows@;
    add_renderbuffers(&mut rows, 1, limits, context);
    let ghost r2 = rows@;
    add_renderbuffers(&mut rows, 4, limits, context);
    let ghost r3 = rows@;
    add_renderbuffers(&mut rows, 8, limits, context);
    let ghost r4 = rows@;
    let ghost mut r5 = rows@;
    let ghost mut r6 = rows@;
    if supports_multisample_texture_storage(profile) {
        add_all_multisample(&mut rows, GlFormat::Rgba8Unorm, limits, context);
        proof {
            r5 = rows@;
        }
        add_all_multisample(&mut rows, GlFormat::Rgba8Srgb, limits, context);
        proof {
            r6 = rows@;
        }
        if report.depth_texture_attachment == ProbeAnswer::Passed {
            add_all_multisample(&mut rows, GlFormat::Depth32Float, limits, context);
        }
    }
    let ghost r7 = rows@;
    add_probed(&mut rows, profile, extensions, report, context);
    let ghost r8 = rows@;
    add_all_compressed(&mut rows, profile, extensions, context);
    proof {
        lemma_kept(r1, r2);
        lemma_kept(r2, r3);
        lemma_kept(r3, r4);
        lemma_kept(r4, r5);
        lemma_kept(r5, r6);
        lemma_kept(r6, r7);
        lemma_kept(r7, r8);
        lemma_kept(r8, rows@);
        assert forall|key: FormatKey|
            native_row(context@, key) is Some implies #[trigger] has_row(rows@, key) by {
            lemma_every_row(context@, key, r1, r2, r3, r4, r5, r6, r7, r8, rows@);
        }
    }
    record_all(&rows, context)
}

proof fn lemma_every_row(
    context: FormatContext,
    key: FormatKey,
    r1: Seq<GlFormatCapabilities>,
    r2: Seq<GlFormatCapabilities>,
    r3: Seq<GlFormatCapabilities>,
    r4: Seq<GlFormatCapabilities>,
    r5: Seq<GlFormatCapabilities>,
    r6: Seq<GlFormatCapabilities>,
    r7: Seq<GlFormatCapabilities>,
    r8: Seq<GlFormatCapabilities>,
    rows: Seq<GlFormatCapabilities>,
)
    requires
        native_row(context, key) is Some,
        forall|k: FormatKey| has_row(r1, k) ==> #[trigger] has_row(r2, k),
        forall|k: FormatKey| has_row(r2, k) ==> #[trigger] has_row(r3, k),
        forall|k: FormatKey| has_row(r3, k) ==> #[trigger] has_row(r4, k),
        forall|k: FormatKey| has_row(r4, k) ==> #[trigger] has_row(r5, k),
        forall|k: FormatKey| has_row(r5, k) ==> #[trigger] has_row(r6, k),
        forall|k: FormatKey| has_row(r6, k) ==> #[trigger] has_row(r7, k),
        forall|k: FormatKey| has_row(r7, k) ==> #[trigger] has_row(r8, k),
        forall|k: FormatKey| has_row(r8, k) ==> #[trigger] has_row(rows, k),
        has_row(
            r1,
            (FormatKey {
                kind: GlFormatResourceKind::Texture,
                format: GlFormat::Rgba8Srgb,
                samples: 1,
            }),
        ),
        has_row(
            r1,
            (FormatKey {
                kind: GlFormatResourceKind::Texture,
                format: GlFormat::Rgba8Unorm,
                samples: 1,
            }),
        ),
        1 <= context.limits.max_samples ==> forall|format: GlFormat|
            (format is Rgba8Unorm || format is Rgba8Srgb) ==> #[trigger] has_row(
                r2,
                (FormatKey { kind: GlFormatResourceKind::Renderbuffer, format, samples: 1 }),
            ),
        4 <= context.limits.max_samples ==> forall|format: GlFormat|
            (format is Rgba8Unorm || format is Rgba8Srgb) ==> #[trigger] has_row(
                r3,
                (FormatKey { kind: GlFormatResourceKind::Renderbuffer, format, samples: 4 }),
            ),
        8 <= context.limits.max_samples ==> forall|format: GlFormat|
            (format is Rgba8Unorm || format is Rgba8Srgb) ==> #[trigger] has_row(
                r4,
                (FormatKey { kind: GlFormatResourceKind::Renderbuffer, format, samples: 8 }),
            ),
        has_multisample_textures(context.profile) ==> forall|samples: u32|
            (samples == 2 || samples == 4 || samples == 8 || samples == 16) && samples
                <= sample_ceiling(sample_class(GlFormat::Rgba8Unorm), context.limits)
                ==> #[trigger] has_row(
                r5,
                (FormatKey {
                    kind: GlFormatResourceKind::Texture,
                    format: GlFormat::Rgba8Unorm,
                    samples,
                }),
            ),
        has_multisample_textures(context.profile) ==> forall|samples: u32|
            (samples == 2 || samples == 4 || samples == 8 || samples == 16) && samples
                <= sample_ceiling(sample_class(GlFormat::Rgba8Srgb), context.limits)
                ==> #[trigger] has_row(
                r6,
                (FormatKey {
                    kind: GlFormatResourceKind::Texture,
                    format: GlFormat::Rgba8Srgb,
                    samples,
                }),
            ),
        has_multisample_textures(context.profile)
            && context.report.depth_texture_attachment is Passed ==> forall|samples: u32|
            (samples == 2 || samples == 4 || samples == 8 || samples == 16) && samples
                <= sample_ceiling(sample_class(GlFormat::Depth32Float), context.limits)
                ==> #[trigger] has_row(
                r7,
                (FormatKey {
                    kind: GlFormatResourceKind::Texture,
                    format: GlFormat::Depth32Float,
                    samples,
                }),
            ),
        forall|k: FormatKey|
            k.samples == 1 && (k.format is Depth32Float || k.format is Rgba16Float
                || k.format is Rgba32Float) && native_row(context, k) is Some ==> #[trigger] has_row(
                r8,
                k,
            ),
        forall|format: GlFormat|
            compressed_row(context, format) is Some ==> #[trigger] has_row(
                rows,
                (FormatKey { kind: GlFormatResourceKind::Texture, format, samples: 1 }),
            ),
    ensures
        has_row(rows, key),
{
    let plain = FormatKey { kind: key.kind, format: key.format, samples: key.samples };
    assert(plain == key);
    assert(has_row(r1, plain) ==> has_row(r2, plain));
    assert(has_row(r2, plain) ==> has_row(r3, plain));
    assert(has_row(r3, plain) ==> has_row(r4, plain));
    assert(has_row(r4, plain) ==> has_row(r5, plain));
    assert(has_row(r5, plain) ==> has_row(r6, plain));
    assert(has_row(r6, plain) ==> has_row(r7, plain));
    assert(has_row(r7, plain) ==> has_row(r8, plain));
    assert(has_row(r8, plain) ==> has_row(rows, plain));
}

fn record_all(rows: &Vec<GlFormatCapabilities>, context: Ghost<FormatContext>) -> (result: Result<
    GlFormatTable,
    GlDiscoveryError,
>)
    requires
        belongs(context@, rows@),
        forall|key: FormatKey|
            native_row(context@, key) is Some ==> #[trigger] has_row(rows@, key),
    ensures
        result is Ok,
        result->Ok_0.wf(),
        result->Ok_0@ == native_rows(context@),
{
    let mut table = GlFormatTable::new();
    let mut at: usize = 0;
    while at < rows.len()
        invariant
            at <= rows@.len(),
            table.wf(),
            belongs(context@, rows@),
            forall|key: FormatKey| #[trigger]
                table@.contains_key(key) ==> native_row(context@, key) == Some(table@[key]),
            forall|i: int| 0 <= i < at ==> table@.contains_key((#[trigger] rows@[i]).spec_key()),
        decreases rows@.len() - at,
    {
        let row = rows[at];
        proof {
            assert(native_row(context@, row.spec_key()) == Some(row));
            assert(!discovery::overclaims(row));
        }
        match table.record(row) {
            Ok(()) => {},
            Err(error) => {
                return Err(GlDiscoveryError::InvalidFormats(error));
            },
        }
        at += 1;
    }
    proof {
        assert forall|key: FormatKey| native_row(context@, key) is Some implies #[trigger]
            table@.contains_key(key) by {
            assert(has_row(rows@, key));
            let i = choose|i: int| 0 <= i < rows@.len() && (#[trigger] rows@[i]).spec_key() == key;
            assert(table@.contains_key(rows@[i].spec_key()));
        }
        assert(table@ =~= native_rows(context@));
    }
    Ok(table)
}

} // verus!
