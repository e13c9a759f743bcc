//! What a record tells of the texts, the extensions, the flags and the drawable
//! of a context, and what follows for its capabilities.

use vstd::prelude::*;
use crate::api::discovery::{GlCapability, GlSurfaceFacts, SnapshotModel};
use crate::api::extension::{GlKnownExtension, LedgerModel};
use crate::api::gl::GlFamilyProfile;
use crate::api::identity::ContextStamp;
use crate::native::discovery;
use crate::native::discovery_laws;
use crate::native::discovery_laws::Context;
use crate::native::formats;
use crate::native::probes;
use crate::native::probes::ProbeReport;
use crate::native::query::{Inspection, QueryStep};

verus! {

/// The last of all answers is one of them, and so are those before.
pub broadcast proof fn last_answers_are_answers(
    context: Context,
    log: Seq<QueryStep>,
    step: QueryStep,
)
    ensures
        #[trigger] context.answered(log.push(step)) ==> context.answered(log) && context.says(step),
{
    if context.answered(log.push(step)) {
        assert(log.push(step).last() == step);
        assert forall|i: int| 0 <= i < log.len() implies context.says(#[trigger] log[i]) by {
            assert(log.push(step)[i] == log[i]);
        }
    }
}

proof fn lemma_names_grow(
    seen: Inspection,
    ledger: LedgerModel,
    index: u32,
    count: u32,
    o: Seq<QueryStep>,
)
    ensures
        discovery_laws::begins(seen.log, seen.reported_names(ledger, index, count, o).0.log),
    decreases count - index,
{
    assert(seen.log =~= seen.log.take(seen.log.len() as int));
    if index < count {
        let (m, reply) = seen.indexed_string(0x1F03, index, o);
        discovery_laws::lemma_pushed(seen.log, m.log.last());
        if reply is Some {
            lemma_names_grow(m, ledger.reported(reply->0@), (index + 1) as u32, count, o);
            discovery_laws::lemma_begins(
                seen.log,
                m.log,
                seen.reported_names(ledger, index, count, o).0.log,
            );
        }
    }
}

proof fn lemma_extensions_grow(seen: Inspection, profile: GlFamilyProfile, o: Seq<QueryStep>)
    ensures
        discovery_laws::begins(seen.log, seen.extensions(profile, o).0.log),
{
    let (m, count) = seen.integer(0x821D, o);
    discovery_laws::lemma_pushed(seen.log, m.log.last());
    let answer = discovery::answered(count, "GL_NUM_EXTENSIONS");
    if answer is Ok {
        let empty = LedgerModel { raw: Set::empty(), known: Map::empty() };
        lemma_names_grow(m, empty, 0, answer->Ok_0, o);
        discovery_laws::lemma_begins(
            seen.log,
            m.log,
            m.reported_names(empty, 0, answer->Ok_0, o).0.log,
        );
    }
}

proof fn lemma_limits_grow(
    seen: Inspection,
    profile: GlFamilyProfile,
    ledger: LedgerModel,
    report: ProbeReport,
    o: Seq<QueryStep>,
)
    requires
        seen.limits(profile, ledger, report, o).1 is Ok,
    ensures
        discovery_laws::begins(seen.log, seen.limits(profile, ledger, report, o).0.log),
{
    let (m1, pair) = seen.integer_pair(0x0D3A, o);
    let (m2, anisotropy) = m1.anisotropy(ledger, o);
    let sizes = discovery::size_asks();
    let others = discovery::other_asks(
        discovery::has_viewports(profile),
        discovery::limit_routes(profile, ledger),
        formats::has_multisample_textures(profile),
        ledger.is_acquired(GlKnownExtension::OvrMultiview2),
    );
    let (m3, first) = m2.answers(sizes, Seq::empty(), o);
    let (m4, second) = m3.answers(others, Seq::empty(), o);
    discovery_laws::lemma_pushed(seen.log, m1.log.last());
    assert(discovery_laws::begins(m1.log, m2.log)) by {
        discovery_laws::lemma_pushed(m1.log, m2.log.last());
        assert(m1.log =~= m1.log.take(m1.log.len() as int));
    }
    discovery_laws::lemma_answers_grow(m2, sizes, Seq::empty(), o);
    discovery_laws::lemma_answers_grow(m3, others, Seq::empty(), o);
    discovery_laws::lemma_begins(seen.log, m1.log, m2.log);
    discovery_laws::lemma_begins(seen.log, m2.log, m3.log);
    discovery_laws::lemma_begins(seen.log, m3.log, m4.log);
}

/// What a context says of its flags, by the bits of its answers.
pub open spec fn says_of_flags(context: Context, record: SnapshotModel) -> bool {
    let flags = record.context.flags;
    let bits = (context.number)(0x821E);
    let robust = (context.number)(0x90F3);
    if record.context.profile is Desktop {
        &&& flags.forward_compatible <==> bits is Some && bits->0 & 1 != 0
        &&& flags.debug <==> bits is Some && bits->0 & 2 != 0
        &&& flags.no_error <==> bits is Some && bits->0 & 8 != 0
        &&& flags.robust_access <==> robust is Some && robust->0 != 0
    } else {
        !flags.forward_compatible && !flags.debug && !flags.no_error && !flags.robust_access
    }
}

/// What a context says of one color buffer of its drawable.
pub open spec fn says_of_color(
    context: Context,
    buffer: u32,
    bits: (u32, u32, u32, u32),
) -> bool {
    &&& (context.drawn)(buffer, 0x8CD0) is Some && (context.drawn)(buffer, 0x8CD0)->0 != 0
    &&& (context.drawn)(buffer, 0x8212) == Some(bits.0 as i64)
    &&& (context.drawn)(buffer, 0x8213) == Some(bits.1 as i64)
    &&& (context.drawn)(buffer, 0x8214) == Some(bits.2 as i64)
    &&& (context.drawn)(buffer, 0x8215) == Some(bits.3 as i64)
}

/// What a context says of its drawable: the widths are those of the buffer at
/// the back, or of the one at the front where there is none at the back.
pub open spec fn says_of_surface(context: Context, record: SnapshotModel) -> bool {
    match record.surface {
        GlSurfaceFacts::Observed { color_bits } => {
            &&& (context.number)(0x8CA6) == Some(0i64)
            &&& says_of_color(context, 0x0402, color_bits) || says_of_color(
                context,
                0x0400,
                color_bits,
            )
            &&& (context.drawn)(0x0402, 0x8CD0) is Some && (context.drawn)(0x0402, 0x8CD0)->0 != 0
                ==> says_of_color(context, 0x0402, color_bits)
        },
        _ => true,
    }
}

proof fn lemma_flags_grow(seen: Inspection, profile: GlFamilyProfile, o: Seq<QueryStep>)
    ensures
        discovery_laws::begins(seen.log, seen.context_flags(profile, o).0.log),
{
    let after = seen.context_flags(profile, o).0.log;
    assert(seen.log =~= after.take(seen.log.len() as int));
}

proof fn lemma_observing_grows(seen: Inspection, o: Seq<QueryStep>)
    ensures
        discovery_laws::begins(seen.log, seen.observe(o).0.log),
{
    let (m1, binding) = seen.integer(0x8CA6, o);
    discovery_laws::lemma_pushed(seen.log, m1.log.last());
    if binding == Some(0i64) {
        let (m2, buffer, remarks) = m1.color_buffer(o);
        assert(discovery_laws::begins(m1.log, m2.log)) by {
            assert(m1.log =~= m2.log.take(m1.log.len() as int));
        }
        discovery_laws::lemma_begins(seen.log, m1.log, m2.log);
        if buffer is Some {
            let m3 = m2.observe_buffer(buffer->0, o).0;
            assert(discovery_laws::begins(m2.log, m3.log)) by {
                assert(m2.log =~= m3.log.take(m2.log.len() as int));
            }
            discovery_laws::lemma_begins(seen.log, m2.log, m3.log);
        }
    }
}

proof fn lemma_surface(context: Context, seen: Inspection, o: Seq<QueryStep>)
    requires
        context.answered(seen.observe(o).0.log),
    ensures
        match seen.observe(o).1 {
            GlSurfaceFacts::Observed { color_bits } => {
                &&& (context.number)(0x8CA6) == Some(0i64)
                &&& says_of_color(context, 0x0402, color_bits) || says_of_color(
                    context,
                    0x0400,
                    color_bits,
                )
                &&& (context.drawn)(0x0402, 0x8CD0) is Some && (context.drawn)(
                    0x0402,
                    0x8CD0,
                )->0 != 0 ==> says_of_color(context, 0x0402, color_bits)
            },
            _ => true,
        },
{
    broadcast use last_answers_are_answers;

    let (m1, binding) = seen.integer(0x8CA6, o);
    if binding == Some(0i64) {
        let (m2, buffer, remarks) = m1.color_buffer(o);
        if buffer is Some {
            let m3 = m2.observe_buffer(buffer->0, o).0;
            assert(m3.log == seen.observe(o).0.log);
        }
    }
}

/// A record has the texts of its context, each from its own token, the flags
/// that the context says, and the widths of the drawable's color.
#[verifier::rlimit(40)]
pub proof fn records_say_what_the_context_says(
    context: Context,
    seen: Inspection,
    stamp: ContextStamp,
    driver: Seq<char>,
    o: Seq<QueryStep>,
)
    requires
        seen.discover(stamp, driver, o).1 is Ok,
        context.answered(seen.discover(stamp, driver, o).0.log),
    ensures
        ({
            let record = seen.discover(stamp, driver, o).1->Ok_0;
            &&& (context.text)(0x1F02) is Some && (context.text)(0x1F02)->0@
                == record.context.version
            &&& (context.text)(0x8B8C) is Some && (context.text)(0x8B8C)->0@
                == record.context.shading_language
            &&& (context.text)(0x1F00) is Some && (context.text)(0x1F00)->0@
                == record.context.vendor
            &&& (context.text)(0x1F01) is Some && (context.text)(0x1F01)->0@
                == record.context.renderer
            &&& says_of_flags(context, record)
            &&& says_of_surface(context, record)
            &&& discovery_laws::says_of_sizes(context, record.limits)
        }),
{
    broadcast use last_answers_are_answers;

    let m0 = seen.take_error(o).0;
    let (m1, version) = m0.required_string(0x1F02, "GL_VERSION", o);
    let (m2, glsl) = m1.required_string(0x8B8C, "GL_SHADING_LANGUAGE_VERSION", o);
    let (m3, vendor) = m2.required_string(0x1F00, "GL_VENDOR", o);
    let (m4, renderer) = m3.required_string(0x1F01, "GL_RENDERER", o);
    let profile = discovery::profile_in(version->Ok_0)->0;
    let (n1, names) = m4.extensions(profile, o);
    let ledger = names->Ok_0;
    let (n2, report) = n1.run_operation_probes(profile, ledger, o);
    let probed = probes::with_probes(ledger, profile, report);
    let (n3, limits) = n2.limits(profile, probed, report, o);
    let (n4, flags) = n3.context_flags(profile, o);
    let (n5, surface, remarks) = n4.observe(o);
    assert(n5.log == seen.discover(stamp, driver, o).0.log);
    lemma_extensions_grow(m4, profile, o);
    discovery_laws::lemma_pushed(n1.log, n2.log.last());
    lemma_limits_grow(n2, profile, probed, report, o);
    lemma_flags_grow(n3, profile, o);
    lemma_observing_grows(n4, o);
    discovery_laws::lemma_answered(context, n4.log, n5.log);
    discovery_laws::lemma_answered(context, n3.log, n4.log);
    discovery_laws::lemma_answered(context, n2.log, n3.log);
    discovery_laws::lemma_answered(context, n1.log, n2.log);
    discovery_laws::lemma_answered(context, m4.log, n1.log);
    lemma_surface(context, n4, o);
    discovery_laws::limits_are_what_the_context_says(context, n2, profile, probed, report, o);
}

proof fn lemma_names(
    context: Context,
    seen: Inspection,
    ledger: LedgerModel,
    index: u32,
    count: u32,
    o: Seq<QueryStep>,
)
    requires
        index <= count,
        seen.reported_names(ledger, index, count, o).1 is Ok,
        context.answered(seen.reported_names(ledger, index, count, o).0.log),
        forall|i: u32|
            0 <= i < index ==> (#[trigger] (context.listed)(0x1F03, i)) is Some
                && ledger.raw.contains((context.listed)(0x1F03, i)->0@),
        forall|name: Seq<char>|
            #[trigger] ledger.raw.contains(name) ==> exists|i: u32|
                0 <= i < index && (#[trigger] (context.listed)(0x1F03, i)) is Some
                    && (context.listed)(0x1F03, i)->0@ == name,
    ensures
        ({
            let all = seen.reported_names(ledger, index, count, o).1->Ok_0;
            &&& forall|i: u32|
                0 <= i < count ==> (#[trigger] (context.listed)(0x1F03, i)) is Some
                    && all.raw.contains((context.listed)(0x1F03, i)->0@)
            &&& forall|name: Seq<char>|
                #[trigger] all.raw.contains(name) ==> exists|i: u32|
                    0 <= i < count && (#[trigger] (context.listed)(0x1F03, i)) is Some
                        && (context.listed)(0x1F03, i)->0@ == name
        }),
    decreases count - index,
{
    if index < count {
        let (m, reply) = seen.indexed_string(0x1F03, index, o);
        let next = ledger.reported(reply->0@);
        let last = seen.reported_names(ledger, index, count, o).0;
        lemma_names_grow(m, next, (index + 1) as u32, count, o);
        discovery_laws::lemma_answered(context, m.log, last.log);
        last_answers_are_answers(context, seen.log, m.log.last());
        assert((context.listed)(0x1F03, index) == reply);
        assert forall|name: Seq<char>| #[trigger] next.raw.contains(name) implies exists|i: u32|
            0 <= i < index + 1 && (#[trigger] (context.listed)(0x1F03, i)) is Some
                && (context.listed)(0x1F03, i)->0@ == name by {
            if ledger.raw.contains(name) {
                let i = choose|i: u32|
                    0 <= i < index && (#[trigger] (context.listed)(0x1F03, i)) is Some
                        && (context.listed)(0x1F03, i)->0@ == name;
                assert((context.listed)(0x1F03, i) is Some);
            } else {
                assert((context.listed)(0x1F03, index) is Some);
            }
        }
        lemma_names(context, m, next, (index + 1) as u32, count, o);
    }
}

proof fn lemma_acquiring_keeps_names(
    ledger: LedgerModel,
    profile: GlFamilyProfile,
    wanted: Seq<GlKnownExtension>,
)
    ensures
        discovery::acquired_all(ledger, profile, wanted).raw == ledger.raw,
    decreases wanted.len(),
{
    if wanted.len() > 0 {
        let next = if wanted[0].spec_is_legal_for(profile) {
            ledger.moved(
                wanted[0],
                crate::api::extension::ExtensionProvenance::Reported,
                crate::api::extension::ExtensionProvenance::Acquired,
            )
        } else {
            ledger
        };
        lemma_acquiring_keeps_names(next, profile, wanted.skip(1));
    }
}

/// The ledger holds every name that the context lists, as many as it counts,
/// and no other.
pub proof fn extensions_are_what_the_context_lists(
    context: Context,
    seen: Inspection,
    profile: GlFamilyProfile,
    o: Seq<QueryStep>,
)
    requires
        seen.extensions(profile, o).1 is Ok,
        context.answered(seen.extensions(profile, o).0.log),
    ensures
        ({
            let ledger = seen.extensions(profile, o).1->Ok_0;
            let count = (context.number)(0x821D);
            &&& count is Some && 0 <= count->0
            &&& forall|i: u32|
                0 <= i < count->0 ==> (#[trigger] (context.listed)(0x1F03, i)) is Some
                    && ledger.raw.contains((context.listed)(0x1F03, i)->0@)
            &&& forall|name: Seq<char>|
                #[trigger] ledger.raw.contains(name) ==> exists|i: u32|
                    0 <= i < count->0 && (#[trigger] (context.listed)(0x1F03, i)) is Some
                        && (context.listed)(0x1F03, i)->0@ == name
        }),
{
    let (m, reply) = seen.integer(0x821D, o);
    let count = discovery::answered(reply, "GL_NUM_EXTENSIONS")->Ok_0;
    let empty = LedgerModel { raw: Set::empty(), known: Map::empty() };
    let (last, names) = m.reported_names(empty, 0, count, o);
    lemma_names_grow(m, empty, 0, count, o);
    discovery_laws::lemma_answered(context, m.log, last.log);
    last_answers_are_answers(context, seen.log, m.log.last());
    lemma_names(context, m, empty, 0, count, o);
    lemma_acquiring_keeps_names(names->Ok_0, profile, discovery::acquired_by_loading());
}

/// Whether a context is new enough, by the number of its version.
pub open spec fn is_new_enough(profile: GlFamilyProfile, desktop: int, embedded: int) -> bool {
    match profile {
        GlFamilyProfile::Desktop { major, minor } => major * 0x100 + minor >= desktop,
        GlFamilyProfile::Embedded { major, minor } => major * 0x100 + minor >= embedded,
        GlFamilyProfile::WebGl2 => false,
    }
}

/// Compute, storage and indirect work are supported just where the version has
/// them, or an extension was seen to work, and the operation itself passed.
/// Time is counted from the versions on that have it.
pub proof fn capabilities_come_with_versions(record: SnapshotModel, report: ProbeReport)
    ensures
        ({
            let done = discovery::with_capabilities(record, report);
            let profile = record.context.profile;
            let desktop = profile is Desktop;
            &&& done.supports(GlCapability::Compute) <==> report.compute is Passed && (
            is_new_enough(profile, 0x403, 0x301) || desktop && record.extensions.is_probed(
                GlKnownExtension::ArbComputeShader,
            ))
            &&& done.supports(GlCapability::StorageBuffer) <==> report.storage_buffer is Passed && (
            is_new_enough(profile, 0x403, 0x301) || desktop && record.extensions.is_probed(
                GlKnownExtension::ArbShaderStorageBufferObject,
            ))
            &&& done.supports(GlCapability::StorageImage) <==> report.storage_image is Passed && (
            is_new_enough(profile, 0x402, 0x301) || desktop && record.extensions.is_probed(
                GlKnownExtension::ArbShaderImageLoadStore,
            ))
            &&& done.supports(GlCapability::IndirectDraw) <==> report.indirect_draw is Passed
                && is_new_enough(profile, 0x400, 0x301)
            &&& done.supports(GlCapability::IndirectDispatch) <==> report.indirect_dispatch is Passed
                && is_new_enough(profile, 0x403, 0x301)
            &&& done.supports(GlCapability::TimerQuery) <==> is_new_enough(profile, 0x303, 0x300)
            &&& !done.supports(GlCapability::MultiDraw)
            &&& !done.supports(GlCapability::Multiview)
        }),
{
    let done = discovery::with_capabilities(record, report);
    assert(done.capabilities.contains_key(GlCapability::Compute));
}

} // verus!
