//! What a record says of a context that answers alike whenever it is asked.

use vstd::prelude::*;
use crate::api::discovery::GlLimits;
use crate::api::extension::{GlKnownExtension, LedgerModel};
use crate::api::gl::GlFamilyProfile;
use crate::native::discovery;
use crate::native::discovery::Ask;
use crate::native::probes::ProbeReport;
use crate::native::query::{Inspection, QueryStep};

verus! {

/// A context that answers alike whenever it is asked: its numbers, its indexed
/// numbers, its pairs, its floating-point numbers, its texts and the attachments
/// of its drawable, each by its token.
pub struct Context {
    pub number: spec_fn(u32) -> Option<i64>,
    pub numbered: spec_fn(u32, u32) -> Option<i64>,
    pub pair: spec_fn(u32) -> Option<(i64, i64)>,
    pub float: spec_fn(u32) -> Option<u32>,
    pub text: spec_fn(u32) -> Option<String>,
    pub listed: spec_fn(u32, u32) -> Option<String>,
    pub drawn: spec_fn(u32, u32) -> Option<i64>,
}

impl Context {
    /// Whether an answer is that of this context.
    pub open spec fn says(self, step: QueryStep) -> bool {
        match step {
            QueryStep::Integer { name, reply } => reply == (self.number)(name),
            QueryStep::Indexed { name, index, reply } => reply == (self.numbered)(name, index),
            QueryStep::Pair { name, reply } => reply == (self.pair)(name),
            QueryStep::Float { name, reply } => reply == (self.float)(name),
            QueryStep::Text { name, reply } => reply == (self.text)(name),
            QueryStep::IndexedText { name, index, reply } => reply == (self.listed)(name, index),
            QueryStep::Attachment { attachment, name, reply } => reply == (self.drawn)(
                attachment,
                name,
            ),
            _ => true,
        }
    }

    /// Whether all answers are those of this context.
    pub open spec fn answered(self, log: Seq<QueryStep>) -> bool {
        forall|i: int| 0 <= i < log.len() ==> self.says(#[trigger] log[i])
    }

    /// Whether this is what the context says of a token that every context has.
    pub open spec fn has(self, token: u32, value: int) -> bool {
        (self.number)(token) is Some && (self.number)(token)->0 == value
    }

    /// Whether this is what the context says of a token that not every context
    /// has: zero where there is no way to it, or no answer that fits.
    pub open spec fn may_have(self, way: bool, token: u32, value: int) -> bool {
        value == fitting_or_zero(way, (self.number)(token))
    }

    /// The same for one of several.
    pub open spec fn may_have_at(self, way: bool, token: u32, index: u32, value: int) -> bool {
        value == fitting_or_zero(way, (self.numbered)(token, index))
    }
}

/// An answer of 32 bits, or zero.
pub open spec fn fitting_or_zero(way: bool, reply: Option<i64>) -> int {
    if way && reply is Some && 0 <= reply->0 < 0x1_0000_0000 {
        reply->0 as int
    } else {
        0
    }
}

/// Whether one record is the beginning of another.
pub open spec fn begins(before: Seq<QueryStep>, after: Seq<QueryStep>) -> bool {
    before.len() <= after.len() && before == after.take(before.len() as int)
}

pub proof fn lemma_begins(a: Seq<QueryStep>, b: Seq<QueryStep>, c: Seq<QueryStep>)
    requires
        begins(a, b),
        begins(b, c),
    ensures
        begins(a, c),
{
    assert(a =~= c.take(a.len() as int)) by {
        assert forall|i: int| 0 <= i < a.len() implies a[i] == c[i] by {
            assert(b.take(a.len() as int)[i] == b[i]);
            assert(c.take(b.len() as int)[i] == c[i]);
        }
    }
}

pub proof fn lemma_pushed(log: Seq<QueryStep>, step: QueryStep)
    ensures
        begins(log, log.push(step)),
{
    assert(log =~= log.push(step).take(log.len() as int));
}

pub proof fn lemma_answered(context: Context, before: Seq<QueryStep>, after: Seq<QueryStep>)
    requires
        begins(before, after),
        context.answered(after),
    ensures
        context.answered(before),
{
    assert forall|i: int| 0 <= i < before.len() implies context.says(#[trigger] before[i]) by {
        assert(after.take(before.len() as int)[i] == after[i]);
    }
}

pub proof fn lemma_answers_grow(seen: Inspection, asks: Seq<Ask>, known: Seq<u32>, o: Seq<QueryStep>)
    ensures
        begins(seen.log, seen.answers(asks, known, o).0.log),
    decreases asks.len(),
{
    if asks.len() == 0 {
        assert(seen.log =~= seen.log.take(seen.log.len() as int));
    } else {
        let (m, value) = seen.answer(asks[0], o);
        assert(begins(seen.log, m.log)) by {
            if m.log.len() == seen.log.len() {
                assert(seen.log =~= seen.log.take(seen.log.len() as int));
            } else {
                lemma_pushed(seen.log, m.log.last());
                assert(m.log =~= seen.log.push(m.log.last()));
            }
        }
        match value {
            Ok(value) => {
                lemma_answers_grow(m, asks.skip(1), known.push(value), o);
                lemma_begins(
                    seen.log,
                    m.log,
                    m.answers(asks.skip(1), known.push(value), o).0.log,
                );
            },
            Err(_) => {},
        }
    }
}

/// Whether this is what a context says to one question.
pub open spec fn is_told(context: Context, ask: Ask, value: u32) -> bool {
    match ask {
        Ask::Required { token, .. } => context.has(token, value as int),
        Ask::Optional { enabled, token } => context.may_have(enabled, token, value as int),
        Ask::Indexed { enabled, token, index } => context.may_have_at(
            enabled,
            token,
            index,
            value as int,
        ),
    }
}

proof fn lemma_answers(
    context: Context,
    seen: Inspection,
    asks: Seq<Ask>,
    known: Seq<u32>,
    o: Seq<QueryStep>,
)
    requires
        seen.answers(asks, known, o).1 is Ok,
        context.answered(seen.answers(asks, known, o).0.log),
    ensures
        ({
            let values = seen.answers(asks, known, o).1->Ok_0;
            &&& values.len() == known.len() + asks.len()
            &&& values.take(known.len() as int) == known
            &&& forall|i: int|
                0 <= i < asks.len() ==> is_told(
                    context,
                    #[trigger] asks[i],
                    values[known.len() + i],
                )
        }),
    decreases asks.len(),
{
    if asks.len() == 0 {
        assert(known.take(known.len() as int) =~= known);
    } else {
        let (m, value) = seen.answer(asks[0], o);
        let value = value->Ok_0;
        let rest = asks.skip(1);
        let more = known.push(value);
        lemma_answers(context, m, rest, more, o);
        lemma_answers_grow(m, rest, more, o);
        let end = m.answers(rest, more, o).0.log;
        lemma_answered(context, m.log, end);
        let values = seen.answers(asks, known, o).1->Ok_0;
        assert(values.take(known.len() as int) =~= known) by {
            assert forall|i: int| 0 <= i < known.len() implies values[i] == known[i] by {
                assert(values.take(more.len() as int)[i] == more[i]);
            }
        }
        assert(values.take(more.len() as int)[known.len() as int] == value);
        if m.log.len() > seen.log.len() {
            assert(context.says(m.log[seen.log.len() as int]));
        }
        assert forall|i: int| 0 <= i < asks.len() implies is_told(
            context,
            #[trigger] asks[i],
            values[known.len() + i],
        ) by {
            if i > 0 {
                assert(rest[i - 1] == asks[i]);
            }
        }
    }
}

/// Whether a profile is desktop OpenGL from one version on, or OpenGL ES from
/// another on. WebGL is neither.
pub open spec fn is_from(profile: GlFamilyProfile, desktop: int, embedded: int) -> bool {
    match profile {
        GlFamilyProfile::Desktop { major, minor } => major * 0x100 + minor >= desktop,
        GlFamilyProfile::Embedded { major, minor } => major * 0x100 + minor >= embedded,
        GlFamilyProfile::WebGl2 => false,
    }
}

/// Whether a desktop context has an extension.
pub open spec fn has_by_extension(
    profile: GlFamilyProfile,
    ledger: LedgerModel,
    extension: GlKnownExtension,
) -> bool {
    profile is Desktop && ledger.is_acquired(extension)
}

/// Every limit of a record is what the context says of the token of that limit,
/// and of no other. Limits that not every context has are asked for where the
/// version or the extension that brings them is there, and are zero elsewhere.
pub proof fn limits_are_what_the_context_says(
    context: Context,
    seen: Inspection,
    profile: GlFamilyProfile,
    ledger: LedgerModel,
    report: ProbeReport,
    o: Seq<QueryStep>,
)
    requires
        seen.limits(profile, ledger, report, o).1 is Ok,
        context.answered(seen.limits(profile, ledger, report, o).0.log),
    ensures
        ({
            let limits = seen.limits(profile, ledger, report, o).1->Ok_0;
            let compute = is_from(profile, 0x403, 0x301) || has_by_extension(
                profile,
                ledger,
                GlKnownExtension::ArbComputeShader,
            );
            let storage = is_from(profile, 0x403, 0x301) || has_by_extension(
                profile,
                ledger,
                GlKnownExtension::ArbShaderStorageBufferObject,
            );
            let image = is_from(profile, 0x402, 0x301) || has_by_extension(
                profile,
                ledger,
                GlKnownExtension::ArbShaderImageLoadStore,
            );
            let multisample = is_from(profile, 0x403, 0x301);
            let multiview = ledger.is_acquired(GlKnownExtension::OvrMultiview2);
            &&& says_of_sizes(context, limits)
            &&& says_of_units(context, limits, profile)
            &&& says_of_uniforms(context, limits, compute)
            &&& says_of_storage(context, limits, storage, image)
            &&& says_of_samples(context, limits, multisample)
            &&& says_of_compute(context, limits, compute)
            &&& context.may_have(multiview, 0x9632, limits.max_multiview_view_count as int)
            &&& limits.max_multi_draw_indirect_count is None
            &&& limits.max_texture_anisotropy is Some ==> limits.max_texture_anisotropy == (
            context.float)(0x84FF)
            &&& limits.max_texture_anisotropy is Some <==> ledger.is_acquired(
                GlKnownExtension::ExtTextureFilterAnisotropic,
            ) && (context.float)(0x84FF) is Some && (context.float)(0x84FF)->0 as int
                % 0x8000_0000 < 0x7F80_0000
            &&& limits.query_counter_bits == (match report.query_counter_bits {
                Some(bits) => bits,
                None => 0,
            })
        }),
{
    let (m1, pair) = seen.integer_pair(0x0D3A, o);
    let (m2, anisotropy) = m1.anisotropy(ledger, o);
    let sizes = discovery::size_asks();
    let others = discovery::other_asks(
        discovery::has_viewports(profile),
        discovery::limit_routes(profile, ledger),
        crate::native::formats::has_multisample_textures(profile),
        ledger.is_acquired(GlKnownExtension::OvrMultiview2),
    );
    let (m3, first) = m2.answers(sizes, Seq::empty(), o);
    let (m4, second) = m3.answers(others, Seq::empty(), o);
    lemma_answers_grow(m2, sizes, Seq::empty(), o);
    lemma_answers_grow(m3, others, Seq::empty(), o);
    lemma_answered(context, m3.log, m4.log);
    lemma_answered(context, m2.log, m3.log);
    lemma_answers(context, m2, sizes, Seq::empty(), o);
    lemma_answers(context, m3, others, Seq::empty(), o);
    assert(context.says(m2.log[seen.log.len() as int]));
    if ledger.is_acquired(GlKnownExtension::ExtTextureFilterAnisotropic) {
        assert(context.says(m2.log[(seen.log.len() + 1) as int]));
    }
    let a = first->Ok_0;
    let b = second->Ok_0;
    assert(sizes.len() == 8 && others.len() == 32);
    assert forall|i: int| 0 <= i < 8 implies is_told(context, #[trigger] sizes[i], a[i]) by {}
    assert forall|i: int| 0 <= i < 32 implies is_told(context, #[trigger] others[i], b[i]) by {}
    let limits = seen.limits(profile, ledger, report, o).1->Ok_0;
    let routes = discovery::limit_routes(profile, ledger);
    assert(is_told(context, sizes[0], a[0]) && is_told(context, sizes[1], a[1]) && is_told(
        context,
        sizes[2],
        a[2],
    ) && is_told(context, sizes[3], a[3]) && is_told(context, sizes[4], a[4]) && is_told(
        context,
        sizes[5],
        a[5],
    ) && is_told(context, sizes[6], a[6]) && is_told(context, sizes[7], a[7]));
    assert(says_of_sizes(context, limits));
    assert(is_told(context, others[0], b[0]) && is_told(context, others[1], b[1]) && is_told(
        context,
        others[2],
        b[2],
    ) && is_told(context, others[3], b[3]));
    assert(says_of_units(context, limits, profile));
    assert(is_told(context, others[4], b[4]) && is_told(context, others[5], b[5]) && is_told(
        context,
        others[6],
        b[6],
    ) && is_told(context, others[7], b[7]) && is_told(context, others[8], b[8]) && is_told(
        context,
        others[9],
        b[9],
    ) && is_told(context, others[10], b[10]));
    assert(says_of_uniforms(context, limits, routes.compute));
    assert(is_told(context, others[11], b[11]) && is_told(context, others[12], b[12]) && is_told(
        context,
        others[13],
        b[13],
    ) && is_told(context, others[14], b[14]) && is_told(context, others[15], b[15]) && is_told(
        context,
        others[16],
        b[16],
    ) && is_told(context, others[17], b[17]) && is_told(context, others[18], b[18]) && is_told(
        context,
        others[19],
        b[19],
    ));
    assert(says_of_storage(context, limits, routes.storage, routes.image));
    assert(is_told(context, others[20], b[20]) && is_told(context, others[21], b[21]) && is_told(
        context,
        others[22],
        b[22],
    ) && is_told(context, others[23], b[23]));
    assert(is_told(context, others[24], b[24]) && is_told(context, others[25], b[25]) && is_told(
        context,
        others[26],
        b[26],
    ) && is_told(context, others[27], b[27]) && is_told(context, others[28], b[28]) && is_told(
        context,
        others[29],
        b[29],
    ) && is_told(context, others[30], b[30]) && is_told(context, others[31], b[31]));
}

/// What is said of sizes and counts that every context has.
pub open spec fn says_of_sizes(context: Context, limits: GlLimits) -> bool {
    &&& context.has(0x0D33, limits.max_texture_size as int)
    &&& context.has(0x8073, limits.max_3d_texture_size as int)
    &&& context.has(0x88FF, limits.max_array_texture_layers as int)
    &&& context.has(0x851C, limits.max_cube_map_texture_size as int)
    &&& context.has(0x84E8, limits.max_renderbuffer_size as int)
    &&& context.has(0x8CDF, limits.max_color_attachments as int)
    &&& context.has(0x8824, limits.max_draw_buffers as int)
    &&& context.has(0x8869, limits.max_vertex_attributes as int)
    &&& (context.pair)(0x0D3A) is Some
    &&& ((context.pair)(0x0D3A)->0).0 == limits.max_viewport_dimensions.0
    &&& ((context.pair)(0x0D3A)->0).1 == limits.max_viewport_dimensions.1
}

/// What is said of viewports and texture units.
pub open spec fn says_of_units(
    context: Context,
    limits: GlLimits,
    profile: GlFamilyProfile,
) -> bool {
    &&& context.may_have(
        profile matches GlFamilyProfile::Desktop { major, minor } && major == 4 && minor >= 1,
        0x825B,
        limits.max_viewports as int,
    )
    &&& context.has(0x8B4C, limits.max_vertex_texture_image_units as int)
    &&& context.has(0x8872, limits.max_fragment_texture_image_units as int)
    &&& context.has(0x8B4D, limits.max_combined_texture_image_units as int)
}

/// What is said of uniform buffers.
pub open spec fn says_of_uniforms(context: Context, limits: GlLimits, compute: bool) -> bool {
    &&& context.has(0x8A2F, limits.max_uniform_buffer_bindings as int)
    &&& context.has(0x8A30, limits.max_uniform_block_size as int)
    &&& context.has(0x8A34, limits.uniform_buffer_offset_alignment as int)
    &&& context.has(0x8A2B, limits.max_vertex_uniform_blocks as int)
    &&& context.has(0x8A2D, limits.max_fragment_uniform_blocks as int)
    &&& context.may_have(compute, 0x91BB, limits.max_compute_uniform_blocks as int)
    &&& context.has(0x8A2E, limits.max_combined_uniform_blocks as int)
}

/// What is said of storage buffers and images.
pub open spec fn says_of_storage(
    context: Context,
    limits: GlLimits,
    storage: bool,
    image: bool,
) -> bool {
    &&& context.may_have(storage, 0x90DD, limits.max_storage_buffer_bindings as int)
    &&& context.may_have(storage, 0x90DE, limits.max_storage_block_size as int)
    &&& context.may_have(storage, 0x90DF, limits.storage_buffer_offset_alignment as int)
    &&& context.may_have(storage, 0x90D6, limits.max_vertex_storage_blocks as int)
    &&& context.may_have(storage, 0x90DA, limits.max_fragment_storage_blocks as int)
    &&& context.may_have(storage, 0x90DB, limits.max_compute_storage_blocks as int)
    &&& context.may_have(storage, 0x90DC, limits.max_combined_storage_blocks as int)
    &&& context.may_have(image, 0x8F38, limits.max_image_units as int)
    &&& context.may_have(image, 0x90CF, limits.max_combined_image_units as int)
}

/// Whether a number of samples is what was said, or one where nothing was.
pub open spec fn samples_said(context: Context, way: bool, token: u32, samples: u32) -> bool {
    let said = fitting_or_zero(way, (context.number)(token));
    if said == 0 {
        samples == 1
    } else {
        samples == said
    }
}

/// What is said of samples.
pub open spec fn says_of_samples(context: Context, limits: GlLimits, multisample: bool) -> bool {
    &&& context.has(0x8D57, limits.max_samples as int)
    &&& samples_said(context, multisample, 0x910E, limits.max_color_texture_samples)
    &&& samples_said(context, multisample, 0x910F, limits.max_depth_texture_samples)
    &&& samples_said(context, multisample, 0x9110, limits.max_integer_samples)
}

/// What is said of compute.
pub open spec fn says_of_compute(context: Context, limits: GlLimits, compute: bool) -> bool {
    let count = limits.max_compute_work_group_count;
    let size = limits.max_compute_work_group_size;
    &&& context.may_have_at(compute, 0x91BE, 0, count.0 as int)
    &&& context.may_have_at(compute, 0x91BE, 1, count.1 as int)
    &&& context.may_have_at(compute, 0x91BE, 2, count.2 as int)
    &&& context.may_have_at(compute, 0x91BF, 0, size.0 as int)
    &&& context.may_have_at(compute, 0x91BF, 1, size.1 as int)
    &&& context.may_have_at(compute, 0x91BF, 2, size.2 as int)
    &&& context.may_have(compute, 0x90EB, limits.max_compute_work_group_invocations as int)
}

} // verus!
