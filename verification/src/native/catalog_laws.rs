//! What is told of formats, capabilities and limits, and what is asked for when
//! a context is made: each under its own name and its own token.

use vstd::prelude::*;
use crate::api::discovery::{FormatKey, GlCapability, GlFormatResourceKind, GlLimits, SnapshotModel};
use crate::api::extension::GlKnownExtension;
use crate::api::format::{GlFormat, TextureFormat};
use crate::api::gl::GlVersion;
use crate::format_laws;
use crate::format_laws::Coding;
use crate::native::capabilities;
use crate::native::egl;
use crate::native::egl::{EglGlesVersion, EglPbufferSize, EglSurfaceKind};
use crate::native::formats;
use crate::native::formats::FormatContext;
use crate::native::record_laws;
use crate::native::report;
use crate::native::wgl;
use crate::text;

verus! {

/// Whether a coding is a compression.
pub open spec fn is_compression(coding: Coding) -> bool {
    !(coding is Plain || coding is Packed || coding is SharedExponent)
}

/// The extensions that bring a way of compressing: one of them is enough.
pub open spec fn brings(format: GlFormat, extension: GlKnownExtension) -> bool {
    let t = format_laws::gl_texel(format);
    match t.coding {
        Coding::Bc(n) => if n <= 3 {
            if t.srgb {
                extension is CompressedTextureS3tcSrgb
            } else {
                extension is ExtTextureCompressionS3tc
            }
        } else if n <= 5 {
            extension is ExtTextureCompressionRgtc
        } else {
            extension is ArbTextureCompressionBptc
        },
        Coding::Astc(_, _) => if t.numbers is Float {
            extension is KhrTextureCompressionAstcHdr
        } else {
            extension is KhrTextureCompressionAstcLdr
        },
        Coding::Etc2 | Coding::Eac => extension is ArbEs3Compatibility
            || extension is OesCompressedEtc2Rgb8Texture,
        _ => false,
    }
}

/// A compressed format has a row just where its family comes with the context:
/// with embedded contexts, or with an extension that was acquired. Such a row
/// allows sampling and nothing that draws; texels can be copied from the
/// versions on that copy compressed images, and are known to be filtered where
/// an extension says so.
pub proof fn compressed_rows_come_with_their_family(
    context: FormatContext,
    format: GlFormat,
    extension: GlKnownExtension,
)
    requires
        is_compression(format_laws::gl_texel(format).coding),
    ensures
        ({
            let t = format_laws::gl_texel(format);
            let key = FormatKey { kind: GlFormatResourceKind::Texture, format, samples: 1 };
            let rows = formats::native_rows(context);
            let core = context.profile is Embedded && (t.coding is Etc2 || t.coding is Eac);
            let row = rows[key];
            let copies = record_laws::is_new_enough(context.profile, 0x403, 0x302);
            &&& core ==> rows.contains_key(key)
            &&& brings(format, extension) && context.ledger.is_acquired(extension)
                ==> rows.contains_key(key)
            &&& rows.contains_key(key) && !core ==> exists|by: GlKnownExtension|
                #[trigger] brings(format, by) && context.ledger.is_acquired(by)
            &&& rows.contains_key(key) ==> {
                &&& row.format == format && row.sample_count == 1
                &&& row.sampled
                &&& row.filterable <==> !core
                &&& !row.renderable && !row.blendable && !row.storage_read && !row.storage_write
                &&& row.copy_source == copies && row.copy_destination == copies
            }
            &&& forall|kind: GlFormatResourceKind, samples: u32|
                kind is Renderbuffer || samples != 1 ==> !(#[trigger] rows.contains_key(
                    FormatKey { kind, format, samples },
                ))
        }),
{
    let key = FormatKey { kind: GlFormatResourceKind::Texture, format, samples: 1 };
    if formats::native_rows(context).contains_key(key) {
        let found = formats::compressed_extension(format, context.ledger);
        if found is Some {
            assert(brings(format, found->0));
        }
    }
}

/// What is stored as it is has a row of its own: bytes of color can be sampled,
/// filtered, drawn to, blended and copied; what holds floats can be drawn to
/// only where that was seen; images are stored to only where that was seen.
pub proof fn plain_rows_say_what_was_seen(context: FormatContext)
    ensures
        ({
            let rows = formats::native_rows(context);
            let report = context.report;
            let bytes = rows[FormatKey {
                kind: GlFormatResourceKind::Texture,
                format: GlFormat::Rgba8Unorm,
                samples: 1,
            }];
            let srgb = rows[FormatKey {
                kind: GlFormatResourceKind::Texture,
                format: GlFormat::Rgba8Srgb,
                samples: 1,
            }];
            let depth = rows[FormatKey {
                kind: GlFormatResourceKind::Texture,
                format: GlFormat::Depth32Float,
                samples: 1,
            }];
            let half = FormatKey {
                kind: GlFormatResourceKind::Texture,
                format: GlFormat::Rgba16Float,
                samples: 1,
            };
            let float = FormatKey {
                kind: GlFormatResourceKind::Texture,
                format: GlFormat::Rgba32Float,
                samples: 1,
            };
            &&& bytes.sampled && bytes.filterable && bytes.renderable && bytes.blendable
            &&& bytes.copy_source && bytes.copy_destination
            &&& bytes.storage_read <==> report.rgba8_storage is Passed
            &&& bytes.storage_write <==> report.rgba8_storage is Passed
            &&& srgb.sampled && srgb.filterable && srgb.renderable && srgb.blendable
            &&& srgb.copy_source && srgb.copy_destination && !srgb.storage_read
                && !srgb.storage_write
            &&& depth.sampled && !depth.filterable && !depth.blendable
            &&& depth.renderable <==> report.depth_texture_attachment is Passed
            &&& rows.contains_key(half) <==> !(report.rgba16f_attachment is Unavailable)
            &&& rows.contains_key(half) ==> {
                &&& rows[half].sampled && rows[half].filterable
                &&& rows[half].renderable <==> report.rgba16f_attachment is Passed
                &&& rows[half].blendable <==> report.rgba16f_attachment is Passed
                    && context.profile is Desktop
                &&& rows[half].copy_source <==> report.rgba16f_attachment is Passed
                &&& rows[half].copy_destination <==> report.rgba16f_attachment is Passed
            }
            &&& rows.contains_key(float) <==> !(report.rgba32f_attachment is Unavailable)
            &&& rows.contains_key(float) ==> {
                &&& rows[float].sampled
                &&& rows[float].filterable <==> context.profile is Desktop
                    || context.ledger.is_acquired(GlKnownExtension::OesTextureFloatLinear)
                &&& rows[float].renderable <==> report.rgba32f_attachment is Passed
                &&& rows[float].blendable <==> report.rgba32f_attachment is Passed
                    && context.profile is Desktop
                &&& rows[float].copy_source <==> report.rgba32f_attachment is Passed
                &&& rows[float].copy_destination <==> report.rgba32f_attachment is Passed
            }
        }),
{
}

/// Renderbuffers and multisample textures are drawn to and never sampled or
/// copied, with no more samples than the context allows.
pub proof fn multisample_rows_are_only_drawn_to(context: FormatContext, key: FormatKey)
    requires
        formats::native_rows(context).contains_key(key),
        key.kind is Renderbuffer || key.samples != 1,
    ensures
        ({
            let row = formats::native_rows(context)[key];
            let depth = key.format is Depth32Float;
            &&& row.format == key.format && row.sample_count == key.samples
            &&& row.resource_kind == key.kind
            &&& depth || key.format is Rgba8Unorm || key.format is Rgba8Srgb
            &&& !depth ==> row.renderable && row.blendable
            &&& depth ==> !row.blendable
            &&& depth && key.kind is Renderbuffer ==> (row.renderable
                <==> context.report.depth_renderbuffer_attachment is Passed)
            &&& depth && key.kind is Texture ==> row.renderable
                && context.report.depth_texture_attachment is Passed
            &&& !row.sampled && !row.filterable && !row.copy_source && !row.copy_destination
            &&& !row.storage_read && !row.storage_write
            &&& key.kind is Renderbuffer && key.samples > 1 ==> key.samples
                <= context.limits.max_samples
            &&& key.kind is Texture && depth ==> key.samples
                <= context.limits.max_depth_texture_samples
            &&& key.kind is Texture && !depth ==> key.samples
                <= context.limits.max_color_texture_samples
            &&& key.kind is Texture ==> record_laws::is_new_enough(context.profile, 0x403, 0x301)
        }),
{
}

/// Every portable format is looked at.
#[verifier::rlimit(60)]
pub proof fn all_formats_are_looked_at(format: TextureFormat)
    ensures
        capabilities::all_formats().contains(format),
{
    let all = capabilities::all_formats();
    let at: int = match format {
        TextureFormat::R8Unorm => 0,
        TextureFormat::R8Snorm => 1,
        TextureFormat::R8Uint => 2,
        TextureFormat::R8Sint => 3,
        TextureFormat::Rg8Unorm => 4,
        TextureFormat::Rg8Snorm => 5,
        TextureFormat::Rg8Uint => 6,
        TextureFormat::Rg8Sint => 7,
        TextureFormat::Rgba8Unorm => 8,
        TextureFormat::Rgba8UnormSrgb => 9,
        TextureFormat::Rgba8Snorm => 10,
        TextureFormat::Rgba8Uint => 11,
        TextureFormat::Rgba8Sint => 12,
        TextureFormat::Bgra8Unorm => 13,
        TextureFormat::Bgra8UnormSrgb => 14,
        TextureFormat::R16Uint => 15,
        TextureFormat::R16Sint => 16,
        TextureFormat::R16Float => 17,
        TextureFormat::R16Unorm => 18,
        TextureFormat::R16Snorm => 19,
        TextureFormat::Rg16Uint => 20,
        TextureFormat::Rg16Sint => 21,
        TextureFormat::Rg16Float => 22,
        TextureFormat::Rg16Unorm => 23,
        TextureFormat::Rg16Snorm => 24,
        TextureFormat::Rgba16Uint => 25,
        TextureFormat::Rgba16Sint => 26,
        TextureFormat::Rgba16Unorm => 27,
        TextureFormat::Rgba16Snorm => 28,
        TextureFormat::Rgba16Float => 29,
        TextureFormat::Rgba32Float => 30,
        TextureFormat::Rgb9e5Ufloat => 31,
        TextureFormat::Rgb10a2Uint => 32,
        TextureFormat::Rgb10a2Unorm => 33,
        TextureFormat::Rg11b10Ufloat => 34,
        TextureFormat::R32Uint => 35,
        TextureFormat::R32Sint => 36,
        TextureFormat::R32Float => 37,
        TextureFormat::R64Uint => 38,
        TextureFormat::Rg32Uint => 39,
        TextureFormat::Rg32Sint => 40,
        TextureFormat::Rg32Float => 41,
        TextureFormat::Rgba32Uint => 42,
        TextureFormat::Rgba32Sint => 43,
        TextureFormat::Depth16Unorm => 44,
        TextureFormat::Depth24Plus => 45,
        TextureFormat::Depth24PlusStencil8 => 46,
        TextureFormat::Depth32Float => 47,
        TextureFormat::Depth32FloatStencil8 => 48,
        TextureFormat::Stencil8 => 49,
        TextureFormat::Bc1RgbaUnorm => 50,
        TextureFormat::Bc1RgbaUnormSrgb => 51,
        TextureFormat::Bc2RgbaUnorm => 52,
        TextureFormat::Bc2RgbaUnormSrgb => 53,
        TextureFormat::Bc3RgbaUnorm => 54,
        TextureFormat::Bc3RgbaUnormSrgb => 55,
        TextureFormat::Bc4RUnorm => 56,
        TextureFormat::Bc4RSnorm => 57,
        TextureFormat::Bc5RgUnorm => 58,
        TextureFormat::Bc5RgSnorm => 59,
        TextureFormat::Bc6hRgbUfloat => 60,
        TextureFormat::Bc6hRgbFloat => 61,
        TextureFormat::Bc7RgbaUnorm => 62,
        TextureFormat::Bc7RgbaUnormSrgb => 63,
        TextureFormat::Etc2Rgb8Unorm => 64,
        TextureFormat::Etc2Rgb8UnormSrgb => 65,
        TextureFormat::Etc2Rgb8A1Unorm => 66,
        TextureFormat::Etc2Rgb8A1UnormSrgb => 67,
        TextureFormat::Etc2Rgba8Unorm => 68,
        TextureFormat::Etc2Rgba8UnormSrgb => 69,
        TextureFormat::EacR11Unorm => 70,
        TextureFormat::EacR11Snorm => 71,
        TextureFormat::EacRg11Unorm => 72,
        TextureFormat::EacRg11Snorm => 73,
        TextureFormat::Astc4x4Unorm => 74,
        TextureFormat::Astc4x4UnormSrgb => 75,
        TextureFormat::Astc4x4Hdr => 76,
        TextureFormat::Astc5x4Unorm => 77,
        TextureFormat::Astc5x4UnormSrgb => 78,
        TextureFormat::Astc5x4Hdr => 79,
        TextureFormat::Astc5x5Unorm => 80,
        TextureFormat::Astc5x5UnormSrgb => 81,
        TextureFormat::Astc5x5Hdr => 82,
        TextureFormat::Astc6x5Unorm => 83,
        TextureFormat::Astc6x5UnormSrgb => 84,
        TextureFormat::Astc6x5Hdr => 85,
        TextureFormat::Astc6x6Unorm => 86,
        TextureFormat::Astc6x6UnormSrgb => 87,
        TextureFormat::Astc6x6Hdr => 88,
        TextureFormat::Astc8x5Unorm => 89,
        TextureFormat::Astc8x5UnormSrgb => 90,
        TextureFormat::Astc8x5Hdr => 91,
        TextureFormat::Astc8x6Unorm => 92,
        TextureFormat::Astc8x6UnormSrgb => 93,
        TextureFormat::Astc8x6Hdr => 94,
        TextureFormat::Astc8x8Unorm => 95,
        TextureFormat::Astc8x8UnormSrgb => 96,
        TextureFormat::Astc8x8Hdr => 97,
        TextureFormat::Astc10x5Unorm => 98,
        TextureFormat::Astc10x5UnormSrgb => 99,
        TextureFormat::Astc10x5Hdr => 100,
        TextureFormat::Astc10x6Unorm => 101,
        TextureFormat::Astc10x6UnormSrgb => 102,
        TextureFormat::Astc10x6Hdr => 103,
        TextureFormat::Astc10x8Unorm => 104,
        TextureFormat::Astc10x8UnormSrgb => 105,
        TextureFormat::Astc10x8Hdr => 106,
        TextureFormat::Astc10x10Unorm => 107,
        TextureFormat::Astc10x10UnormSrgb => 108,
        TextureFormat::Astc10x10Hdr => 109,
        TextureFormat::Astc12x10Unorm => 110,
        TextureFormat::Astc12x10UnormSrgb => 111,
        TextureFormat::Astc12x10Hdr => 112,
        TextureFormat::Astc12x12Unorm => 113,
        TextureFormat::Astc12x12UnormSrgb => 114,
        TextureFormat::Astc12x12Hdr => 115,
        TextureFormat::Nv12 => 116,
    };
    assert(all[at] == format);
}

/// The largest texture has just the levels down to one texel: with one level
/// less a side of two texels would be left.
pub proof fn the_last_level_is_one_texel(size: nat)
    requires
        size >= 1,
    ensures
        capabilities::levels(size) >= 1,
        vstd::arithmetic::power2::pow2((capabilities::levels(size) - 1) as nat) <= size,
        size < vstd::arithmetic::power2::pow2(capabilities::levels(size)),
    decreases size,
{
    vstd::arithmetic::power2::lemma2_to64();
    if size >= 2 {
        the_last_level_is_one_texel(size / 2);
        let n = capabilities::levels(size / 2);
        vstd::arithmetic::power2::lemma_pow2_unfold((n + 1) as nat);
        vstd::arithmetic::power2::lemma_pow2_unfold(n);
    }
}

/// A format is published as the record says, and as what can be drawn to only
/// where it has color; storage and depth are not published.
pub proof fn published_formats_say_what_the_record_says(
    format: TextureFormat,
    row: crate::api::discovery::GlFormatCapabilities,
)
    ensures
        ({
            let told = capabilities::published_format(format, row);
            let channels = format_laws::portable_texel(format).channels;
            let colored = !(channels is Depth || channels is DepthStencil || channels is Stencil);
            &&& told.format == format
            &&& told.color_attachment <==> row.renderable && colored
            &&& told.filterable == row.filterable
            &&& told.blendable == row.blendable
            &&& !told.depth_attachment && !told.stencil_attachment
            &&& !told.storage_read && !told.storage_write && !told.storage_read_write
            &&& !told.storage_atomic
        }),
{
}

/// Whether a list of capabilities says so of a name.
pub open spec fn tells(rows: Seq<report::CapabilityRow>, name: Seq<char>, supported: bool) -> bool {
    exists|i: int| 0 <= i < rows.len() && (#[trigger] rows[i]).name@ == name
        && rows[i].supported == supported
}

/// Every capability is printed under its own name.
pub proof fn capabilities_are_told_by_name(record: SnapshotModel)
    ensures
        ({
            let rows = report::capability_rows(record);
            &&& rows.len() == 9
            &&& tells(rows, "compute"@, record.supports(GlCapability::Compute))
            &&& tells(rows, "storage-buffer"@, record.supports(GlCapability::StorageBuffer))
            &&& tells(rows, "storage-image"@, record.supports(GlCapability::StorageImage))
            &&& tells(rows, "indirect-draw"@, record.supports(GlCapability::IndirectDraw))
            &&& tells(rows, "indirect-dispatch"@, record.supports(GlCapability::IndirectDispatch))
            &&& tells(rows, "multi-draw"@, record.supports(GlCapability::MultiDraw))
            &&& tells(
                rows,
                "multi-draw-indirect"@,
                record.supports(GlCapability::MultiDrawIndirect),
            )
            &&& tells(rows, "multiview"@, record.supports(GlCapability::Multiview))
            &&& tells(rows, "timer-query"@, record.supports(GlCapability::TimerQuery))
        }),
{
    let rows = report::capability_rows(record);
    assert(rows[0].name@ == "compute"@);
    assert(rows[1].name@ == "storage-buffer"@);
    assert(rows[2].name@ == "storage-image"@);
    assert(rows[3].name@ == "indirect-draw"@);
    assert(rows[4].name@ == "indirect-dispatch"@);
    assert(rows[5].name@ == "multi-draw"@);
    assert(rows[6].name@ == "multi-draw-indirect"@);
    assert(rows[7].name@ == "multiview"@);
    assert(rows[8].name@ == "timer-query"@);
}

/// Whether a list of limits says so of a name.
pub open spec fn tells_limit(rows: Seq<report::LimitModel>, name: Seq<char>, value: Seq<char>) -> bool {
    exists|i: int| 0 <= i < rows.len() && (#[trigger] rows[i]).name@ == name && rows[i].value
        == value
}

/// Every limit is printed under its own name, in digits.
pub proof fn limits_are_told_by_name(limits: GlLimits)
    ensures
        ({
            let rows = report::embedded_limits(limits);
            &&& rows.len() == 5
            &&& tells_limit(
                rows,
                "max-texture-size"@,
                text::decimal(limits.max_texture_size as nat),
            )
            &&& tells_limit(
                rows,
                "max-renderbuffer-size"@,
                text::decimal(limits.max_renderbuffer_size as nat),
            )
            &&& tells_limit(
                rows,
                "max-vertex-attributes"@,
                text::decimal(limits.max_vertex_attributes as nat),
            )
            &&& tells_limit(rows, "max-samples"@, text::decimal(limits.max_samples as nat))
        }),
        ({
            let rows = report::desktop_limits(limits);
            &&& rows.len() == 8
            &&& tells_limit(
                rows,
                "max_texture_size"@,
                text::decimal(limits.max_texture_size as nat),
            )
            &&& tells_limit(
                rows,
                "max_renderbuffer_size"@,
                text::decimal(limits.max_renderbuffer_size as nat),
            )
            &&& tells_limit(
                rows,
                "max_vertex_attributes"@,
                text::decimal(limits.max_vertex_attributes as nat),
            )
            &&& tells_limit(rows, "max_samples"@, text::decimal(limits.max_samples as nat))
            &&& tells_limit(
                rows,
                "uniform_buffer_offset_alignment"@,
                text::decimal(limits.uniform_buffer_offset_alignment as nat),
            )
            &&& tells_limit(
                rows,
                "storage_buffer_offset_alignment"@,
                text::decimal(limits.storage_buffer_offset_alignment as nat),
            )
            &&& tells_limit(
                rows,
                "max_multiview_view_count"@,
                text::decimal(limits.max_multiview_view_count as nat),
            )
        }),
{
    let rows = report::embedded_limits(limits);
    assert(rows[0].name@ == "max-texture-size"@);
    assert(rows[1].name@ == "max-renderbuffer-size"@);
    assert(rows[2].name@ == "max-vertex-attributes"@);
    assert(rows[4].name@ == "max-samples"@);
    let rows = report::desktop_limits(limits);
    assert(rows[0].name@ == "max_texture_size"@);
    assert(rows[1].name@ == "max_renderbuffer_size"@);
    assert(rows[2].name@ == "max_vertex_attributes"@);
    assert(rows[4].name@ == "max_samples"@);
    assert(rows[5].name@ == "uniform_buffer_offset_alignment"@);
    assert(rows[6].name@ == "storage_buffer_offset_alignment"@);
    assert(rows[7].name@ == "max_multiview_view_count"@);
}

/// Whether a list of pairs asks for a value of an attribute.
pub open spec fn asks_for(list: Seq<i32>, attribute: i32, value: int) -> bool {
    exists|i: int|
        0 <= i && 2 * i + 1 < list.len() && #[trigger] list[2 * i] == attribute && list[2 * i + 1]
            == value
}

proof fn lemma_asks(list: Seq<i32>, i: int)
    requires
        0 <= i,
        2 * i + 1 < list.len(),
    ensures
        asks_for(list, list[2 * i], list[2 * i + 1] as int),
{
}

/// EGL is asked for a configuration with eight bits of each color, depth of
/// twenty-four bits and stencil of eight, that OpenGL ES 3 draws to, on a
/// window where there is one and on a buffer where there is none.
pub proof fn configurations_are_asked_for(kind: EglSurfaceKind)
    ensures
        ({
            let list = egl::config_wish(kind);
            &&& list.len() == 17 && list.last() == 0x3038
            &&& asks_for(
                list,
                0x3033,
                if kind is Window {
                    4
                } else {
                    1
                },
            )
            &&& asks_for(list, 0x3040, 0x40)
            &&& asks_for(list, 0x3024, 8)
            &&& asks_for(list, 0x3023, 8)
            &&& asks_for(list, 0x3022, 8)
            &&& asks_for(list, 0x3021, 8)
            &&& asks_for(list, 0x3025, 24)
            &&& asks_for(list, 0x3026, 8)
        }),
{
    let list = egl::config_wish(kind);
    lemma_asks(list, 0);
    lemma_asks(list, 1);
    lemma_asks(list, 2);
    lemma_asks(list, 3);
    lemma_asks(list, 4);
    lemma_asks(list, 5);
    lemma_asks(list, 6);
    lemma_asks(list, 7);
}

/// EGL is asked for the major version three, and for the minor version wherever
/// it can be.
pub proof fn embedded_contexts_are_asked_for(version: EglGlesVersion, has_create_context: bool)
    ensures
        ({
            let list = egl::context_wish(version, has_create_context);
            let minor: int = match version {
                EglGlesVersion::V3_0 => 0,
                EglGlesVersion::V3_1 => 1,
                EglGlesVersion::V3_2 => 2,
            };
            &&& list.last() == 0x3038
            &&& asks_for(list, 0x3098, 3)
            &&& minor > 0 || has_create_context ==> asks_for(list, 0x30FB, minor)
            &&& minor == 0 && !has_create_context ==> list.len() == 3
        }),
{
    let list = egl::context_wish(version, has_create_context);
    lemma_asks(list, 0);
    if list.len() == 5 {
        lemma_asks(list, 1);
    }
}

/// EGL is asked for a buffer of the size that is wanted.
pub proof fn buffers_are_asked_for(size: EglPbufferSize)
    requires
        size.spec_checked() is Ok,
    ensures
        ({
            let list = egl::pbuffer_wish(size);
            &&& list.len() == 5 && list.last() == 0x3038
            &&& asks_for(list, 0x3057, size.width as int)
            &&& asks_for(list, 0x3056, size.height as int)
        }),
{
    let list = egl::pbuffer_wish(size);
    lemma_asks(list, 0);
    lemma_asks(list, 1);
}

/// WGL is asked for a core context of the version that is wanted.
pub proof fn desktop_contexts_are_asked_for(version: GlVersion)
    ensures
        ({
            let list = wgl::core_wish(version);
            &&& list.len() == 7 && list.last() == 0
            &&& asks_for(list, 0x2091, version.major as int)
            &&& asks_for(list, 0x2092, version.minor as int)
            &&& asks_for(list, 0x9126, 1)
        }),
{
    let list = wgl::core_wish(version);
    lemma_asks(list, 0);
    lemma_asks(list, 1);
    lemma_asks(list, 2);
}

} // verus!
