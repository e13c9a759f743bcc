//! What holds of all contexts of EGL.

use vstd::prelude::*;
use crate::api::identity::ContextStamp;
use crate::native::egl;
use crate::native::egl::{EglGlesVersion, EglPbufferSize, EglSurfaceKind};
use crate::native::egl_context;
use crate::native::egl_context::{EglCall, EglModel, EglStep, Station};

verus! {

/// What was made on EGL and not given back.
#[verifier::ext_equal]
pub struct EglLeftovers {
    pub displays: Set<u64>,
    pub contexts: Set<u64>,
    pub surfaces: Set<u64>,
}

/// What is there after one more step.
pub open spec fn left_after(left: EglLeftovers, step: EglStep) -> EglLeftovers {
    match step {
        EglStep::Call { call: EglCall::Initialize { display }, reply: Ok(_) } => EglLeftovers {
            displays: left.displays.insert(display),
            ..left
        },
        EglStep::Call { call: EglCall::Terminate { display }, .. } => EglLeftovers {
            displays: left.displays.remove(display),
            ..left
        },
        EglStep::Context { reply: Ok(context), .. } => EglLeftovers {
            contexts: left.contexts.insert(context),
            ..left
        },
        EglStep::Call { call: EglCall::DestroyContext { context, .. }, .. } => EglLeftovers {
            contexts: left.contexts.remove(context),
            ..left
        },
        EglStep::Window { reply: Ok(surface), .. } => EglLeftovers {
            surfaces: left.surfaces.insert(surface),
            ..left
        },
        EglStep::Pbuffer { reply: Ok(surface), .. } => EglLeftovers {
            surfaces: left.surfaces.insert(surface),
            ..left
        },
        EglStep::Call { call: EglCall::DestroySurface { surface, .. }, .. } => EglLeftovers {
            surfaces: left.surfaces.remove(surface),
            ..left
        },
        _ => left,
    }
}

/// What is there after these steps.
pub open spec fn left_by(log: Seq<EglStep>) -> EglLeftovers
    decreases log.len(),
{
    if log.len() == 0 {
        EglLeftovers { displays: Set::empty(), contexts: Set::empty(), surfaces: Set::empty() }
    } else {
        left_after(left_by(log.drop_last()), log.last())
    }
}

/// Whether the second holds nothing that the first does not.
pub open spec fn nothing_new(before: EglLeftovers, after: EglLeftovers) -> bool {
    &&& after.displays.subset_of(before.displays)
    &&& after.contexts.subset_of(before.contexts)
    &&& after.surfaces.subset_of(before.surfaces)
}

broadcast proof fn lemma_step(log: Seq<EglStep>, step: EglStep)
    ensures
        #[trigger] left_by(log.push(step)) == left_after(left_by(log), step),
{
    assert(log.push(step).drop_last() =~= log);
}

proof fn lemma_prepared(
    m: Station,
    display: u64,
    stamp: ContextStamp,
    kind: EglSurfaceKind,
    version: EglGlesVersion,
    o: Seq<EglStep>,
)
    ensures
        ({
            let after = m.prepared(display, stamp, kind, version, o).0;
            &&& left_by(after.log) == left_by(m.log)
            &&& after.leases == m.leases
        }),
{
    broadcast use lemma_step;

}

proof fn lemma_on_display(
    m: Station,
    display: u64,
    stamp: ContextStamp,
    kind: EglSurfaceKind,
    version: EglGlesVersion,
    o: Seq<EglStep>,
)
    ensures
        ({
            let (after, result) = m.on_display(display, stamp, kind, version, o);
            &&& after.leases == m.leases
            &&& left_by(after.log).displays == left_by(m.log).displays
            &&& result is Err ==> nothing_new(left_by(m.log), left_by(after.log))
            &&& result is Ok ==> {
                let c = result->Ok_0;
                &&& c.display == display
                &&& c.surface is Some
                &&& left_by(after.log) == (EglLeftovers {
                    contexts: left_by(m.log).contexts.insert(c.context),
                    surfaces: left_by(m.log).surfaces.insert(c.surface->0),
                    ..left_by(m.log)
                })
            }
        }),
{
    broadcast use lemma_step;

    assert forall|a: Station| #![trigger a.prepared(display, stamp, kind, version, o)] ({
        let after = a.prepared(display, stamp, kind, version, o).0;
        &&& left_by(after.log) == left_by(a.log)
        &&& after.leases == a.leases
    }) by {
        lemma_prepared(a, display, stamp, kind, version, o);
    }
}

/// A construction that fails gives back all that it made, and does not keep
/// the display in use. One that succeeds keeps one context, one surface and
/// one more use of its display.
pub proof fn failed_constructions_leave_nothing(
    m: Station,
    stamp: ContextStamp,
    native: u64,
    kind: EglSurfaceKind,
    version: EglGlesVersion,
    o: Seq<EglStep>,
)
    ensures
        ({
            let (after, result) = m.new_inner(stamp, native, kind, version, o);
            &&& result is Err ==> {
                &&& after.leases == m.leases
                &&& nothing_new(left_by(m.log), left_by(after.log))
            }
            &&& result is Ok ==> {
                let c = result->Ok_0;
                &&& after.leases == m.leases.insert(c.display)
                &&& c.surface is Some
                &&& left_by(after.log).contexts == left_by(m.log).contexts.insert(c.context)
                &&& left_by(after.log).surfaces == left_by(m.log).surfaces.insert(c.surface->0)
            }
        }),
{
    broadcast use lemma_step;

    let (m1, lease) = m.acquire_display(native, o);
    if lease is Ok {
        let display = lease->Ok_0;
        lemma_on_display(m1, display, stamp, kind, version, o);
        let (m2, result) = m1.on_display(display, stamp, kind, version, o);
        assert(m1.leases == m.leases.insert(display));
        if result is Err {
            assert(m2.release_display(display, o).leases =~= m.leases);
        }
    }
}

/// A display is terminated exactly when its last use ends.
pub proof fn displays_outlive_their_users(m: Station, display: u64, o: Seq<EglStep>)
    ensures
        ({
            let after = m.release_display(display, o);
            let ended = after.log.len() == m.log.len() + 1 && (after.log.last() matches
                EglStep::Call { call: EglCall::Terminate { display: d }, .. } && d == display);
            &&& ended == (m.leases.count(display) == 1)
            &&& !ended ==> after.log == m.log
            &&& ended ==> after.leases.count(display) == 0
        }),
{
}

/// Whether all that was done is to ask which thread this is.
pub open spec fn only_asked_the_thread(before: Station, after: Station) -> bool {
    &&& after.leases == before.leases
    &&& after.log.len() == before.log.len() + 1
    &&& after.log.drop_last() == before.log
    &&& after.log.last() is Thread
}

/// A loss is final. Whatever is tried with a lost context on its thread, EGL is
/// given nothing, the context stays lost, and the caller is told.
pub proof fn losses_are_final(
    m: Station,
    c: EglModel,
    size: EglPbufferSize,
    operation: &'static str,
    o: Seq<EglStep>,
)
    requires
        c.lifecycle is Lost,
    ensures
        ({
            let (after, d, result) = m.make_current(c, o);
            only_asked_the_thread(m, after) && d == c && result is Err
        }),
        ({
            let (after, d, result) = m.suspend(c, o);
            only_asked_the_thread(m, after) && d == c && result is Err
        }),
        ({
            let (after, d, result) = m.present(c, o);
            only_asked_the_thread(m, after) && d == c && result is Err
        }),
        m.resize(c, size, o).1 == c,
        m.load_glow(c, o).1 == c,
        m.load_glow(c, o).2 is Err,
        m.with_current(c, operation, o).1 == c,
        m.with_current(c, operation, o).2 is Err,
{
    let (m1, actual) = m.thread(o);
    assert(m1.log.drop_last() =~= m.log);
}

/// Another thread than the owner gets nothing done, and is told so.
pub proof fn other_threads_are_refused(
    m: Station,
    c: EglModel,
    size: EglPbufferSize,
    o: Seq<EglStep>,
)
    requires
        m.thread(o).1 != c.owner,
    ensures
        ({
            let (after, d, result) = m.make_current(c, o);
            only_asked_the_thread(m, after) && d == c && result is Err
        }),
        ({
            let (after, d, result) = m.suspend(c, o);
            only_asked_the_thread(m, after) && d == c && result is Err
        }),
        ({
            let (after, d, result) = m.present(c, o);
            only_asked_the_thread(m, after) && d == c && result is Err
        }),
        ({
            let (after, d, result) = m.resize(c, size, o);
            only_asked_the_thread(m, after) && d == c && result is Err
        }),
        ({
            let (after, d, result) = m.dispose(c, o);
            only_asked_the_thread(m, after) && d == c && result is Err
        }),
{
    let (m1, actual) = m.thread(o);
    assert(m1.log.drop_last() =~= m.log);
}

/// What is current and is not this context stays current.
pub proof fn siblings_stay_current(m: Station, c: EglModel, o: Seq<EglStep>)
    ensures
        ({
            let (after, result) = m.detach_self_if_current(c, o);
            let context = m.next(o)->CurrentContext_reply;
            let display = o[m.log.len() as int + 1]->CurrentDisplay_reply;
            !(context == Some(c.context) && display == Some(c.display)) ==> result is Ok
                && after.log.len() == m.log.len() + 2
        }),
{
}

/// A buffer off the screen is never shown.
pub proof fn pbuffers_are_never_shown(m: Station, c: EglModel, o: Seq<EglStep>)
    requires
        c.kind is Pbuffer,
    ensures
        m.present(c, o).2 is Err,
        forall|i: int|
            m.log.len() <= i < m.present(c, o).0.log.len() ==> !(
            #[trigger] m.present(c, o).0.log[i] matches EglStep::Call {
                call: EglCall::SwapBuffers { .. },
                ..
            }),
{
}

/// Whatever fails while a buffer is replaced, a context that has a surface
/// still has one; and if it fails before the new one is there, it is the old
/// one.
pub proof fn resizing_keeps_a_surface(m: Station, c: EglModel, size: EglPbufferSize, o: Seq<EglStep>)
    requires
        c.surface is Some,
    ensures
        m.resize(c, size, o).1.surface is Some,
        m.resize(c, size, o).1.kind == c.kind ==> m.resize(c, size, o).1.surface == c.surface
            || size == c.kind->Pbuffer_0,
        m.resize(c, size, o).1.kind != c.kind ==> m.resize(c, size, o).1.kind
            == EglSurfaceKind::Pbuffer(size),
{
}

/// A size that cannot be had leaves EGL untouched.
pub proof fn impossible_sizes_touch_nothing(
    m: Station,
    c: EglModel,
    size: EglPbufferSize,
    o: Seq<EglStep>,
)
    requires
        c.kind is Pbuffer,
        !egl::size_is_valid(size) || egl::extent_check(
            c.snapshot.limits.max_viewport_dimensions,
            (size.width, size.height),
        ) is Err,
    ensures
        ({
            let (after, d, result) = m.resize(c, size, o);
            only_asked_the_thread(m, after) && d == c && result is Err
        }),
{
    let (m1, actual) = m.thread(o);
    assert(m1.log.drop_last() =~= m.log);
}

/// A context that was disposed of stays so, and disposing of it again does
/// nothing.
pub proof fn disposal_is_final(m: Station, c: EglModel, o: Seq<EglStep>)
    requires
        c.lifecycle is Disposed,
    ensures
        m.dispose(c, o).1 == c,
        only_asked_the_thread(m, m.dispose(c, o).0),
        m.make_current(c, o).1 == c,
        m.make_current(c, o).2 is Err,
        m.thread(o).1 == c.owner ==> m.dispose(c, o).2 is Ok,
{
    let (m1, actual) = m.thread(o);
    assert(m1.log.drop_last() =~= m.log);
}

/// A context that takes commands has a surface, however it came about.
pub proof fn active_contexts_have_surfaces(
    m: Station,
    c: EglModel,
    size: EglPbufferSize,
    o: Seq<EglStep>,
)
    requires
        c.wf(),
    ensures
        m.make_current(c, o).1.wf(),
        m.suspend(c, o).1.wf(),
        m.present(c, o).1.wf(),
        m.resize(c, size, o).1.wf(),
        m.dispose(c, o).1.wf(),
{
}

/// A context is handed out only if its own version string meets what was asked
/// for, and if its buffer off the screen can be a viewport.
pub proof fn contexts_meet_their_floor(
    m: Station,
    display: u64,
    stamp: ContextStamp,
    kind: EglSurfaceKind,
    version: EglGlesVersion,
    o: Seq<EglStep>,
)
    requires
        m.prepared(display, stamp, kind, version, o).1 is Ok,
    ensures
        ({
            let record = m.prepared(display, stamp, kind, version, o).1->Ok_0;
            let observed = o[m.log.len() as int + 1]->GlVersion_reply;
            &&& egl::named_version(observed@) is Some
            &&& egl::named_version(observed@)->0.spec_satisfies(version)
            &&& record.stamp == stamp
            &&& egl_context::known_extent(kind) is Some ==> egl::extent_check(
                record.limits.max_viewport_dimensions,
                egl_context::known_extent(kind)->0,
            ) is Ok
        }),
{
    let (m1, driver) = m.asked(EglStep::LoadGl).asked(
        EglStep::GlVersion { reply: o[m.log.len() as int + 1]->GlVersion_reply },
    ).driver_identity(display, o);
    let steps = m1.next(o)->Discovery_steps;
    crate::native::discovery::records_are_complete(
        crate::native::query::Inspection { log: Seq::empty() },
        stamp,
        driver,
        steps,
    );
}

} // verus!
