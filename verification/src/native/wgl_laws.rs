//! What holds of all contexts of WGL.

use vstd::prelude::*;
use crate::api::gl::GlVersion;
use crate::api::identity::ContextStamp;
use crate::native::discovery;
use crate::native::drawable;
use crate::native::query::Inspection;
use crate::native::wgl;
use crate::native::wgl_surface;
use crate::native::wgl_surface::{Bench, OpenCleanup, WglCall, WglModel, WglStep, NULL};

verus! {

/// The contexts after one more step. What is to be deleted counts as gone.
pub open spec fn left_after(left: Set<u64>, step: WglStep) -> Set<u64> {
    match step {
        WglStep::CreateContext { reply, .. } => if reply != NULL {
            left.insert(reply)
        } else {
            left
        },
        WglStep::CreateAttribs { reply, .. } => if reply != NULL {
            left.insert(reply)
        } else {
            left
        },
        WglStep::Call { call: WglCall::DeleteContext { context }, .. } => left.remove(context),
        _ => left,
    }
}

/// The contexts that were made and not deleted.
pub open spec fn left_by(log: Seq<WglStep>) -> Set<u64>
    decreases log.len(),
{
    if log.len() == 0 {
        Set::empty()
    } else {
        left_after(left_by(log.drop_last()), log.last())
    }
}

broadcast proof fn lemma_step(log: Seq<WglStep>, step: WglStep)
    ensures
        #[trigger] left_by(log.push(step)) == left_after(left_by(log), step),
{
    assert(log.push(step).drop_last() =~= log);
}

proof fn lemma_created(m: Bench, hdc: u64, versions: Seq<GlVersion>, o: Seq<WglStep>)
    ensures
        ({
            let (after, context) = m.created(hdc, versions, o);
            left_by(after.log) == if context != NULL {
                left_by(m.log).insert(context)
            } else {
                left_by(m.log)
            }
        }),
    decreases versions.len(),
{
    broadcast use lemma_step;

    if versions.len() > 0 {
        let reply = m.next(o)->CreateAttribs_reply;
        let m1 = m.asked(
            WglStep::CreateAttribs { hdc, wish: wgl::core_wish(versions[0]), reply },
        );
        if reply == NULL {
            lemma_created(m1, hdc, versions.skip(1), o);
        }
    }
}

/// The contexts that a construction still has to hand over or to delete.
pub open spec fn pending_contexts(pending: OpenCleanup) -> Set<u64> {
    Set::new(|c: u64| c != NULL && (c == pending.bootstrap || c == pending.core))
}

proof fn lemma_core(m: Bench, pending: OpenCleanup, requested: Option<GlVersion>, o: Seq<WglStep>)
    requires
        pending.bootstrap == NULL,
        pending.core == NULL,
    ensures
        ({
            let (after, left, result) = m.core_made(pending, requested, o);
            &&& left.hwnd == pending.hwnd
            &&& left.hdc == pending.hdc
            &&& left_by(after.log).subset_of(left_by(m.log) + pending_contexts(left))
            &&& result is Ok ==> {
                &&& left.core == result->Ok_0
                &&& left.core != NULL
                &&& left.bootstrap == NULL
            }
        }),
{
    broadcast use lemma_step;

    let bootstrap = m.next(o)->CreateContext_reply;
    let m1 = m.asked(WglStep::CreateContext { hdc: pending.hdc, reply: bootstrap });
    let (m2, current) = m1.call(
        WglCall::MakeCurrent { hdc: pending.hdc, context: bootstrap },
        o,
    );
    let m3 = m2.asked(WglStep::HasCreateAttribs { reply: m2.next(o)->HasCreateAttribs_reply });
    lemma_created(m3, pending.hdc, Bench::wanted(requested), o);
}

proof fn lemma_on_device(
    m: Bench,
    stamp: ContextStamp,
    pending: OpenCleanup,
    extent: (u32, u32),
    requested: Option<GlVersion>,
    o: Seq<WglStep>,
)
    requires
        pending.bootstrap == NULL,
        pending.core == NULL,
    ensures
        ({
            let (after, left, result) = m.on_device(stamp, pending, extent, requested, o);
            &&& left.hwnd == pending.hwnd
            &&& left.hdc == pending.hdc
            &&& left_by(after.log).subset_of(left_by(m.log) + pending_contexts(left))
            &&& result is Ok ==> {
                &&& left.core == result->Ok_0.hglrc
                &&& left.core != NULL
                &&& left.bootstrap == NULL
                &&& result->Ok_0.hwnd == pending.hwnd
                &&& result->Ok_0.hdc == pending.hdc
            }
        }),
{
    broadcast use lemma_step;

    let (m1, outcome) = m.formatted(pending.hdc, o);
    lemma_core(m1, pending, requested, o);
    assert forall|a: Bench| #[trigger]
        left_by(a.prepared(stamp, extent, requested, o).0.log) == left_by(a.log) by {}
}

proof fn lemma_dropped(m: Bench, hdc: u64, context: u64, o: Seq<WglStep>)
    ensures
        ({
            let (after, gone) = m.dropped(hdc, context, o);
            &&& gone ==> left_by(after.log) == if context != NULL {
                left_by(m.log).remove(context)
            } else {
                left_by(m.log)
            }
            &&& !gone ==> after.log.last() is Call && !after.log.last()->Call_reply
        }),
{
    broadcast use lemma_step;

}

/// A construction that fails with a device context in hand ends in one of two
/// ways: all contexts of it are deleted and the device context is given back,
/// or the driver refused to let go and the device context is kept.
pub proof fn failed_openings_leave_nothing(
    m: Bench,
    stamp: ContextStamp,
    hwnd: u64,
    extent: (u32, u32),
    requested: Option<GlVersion>,
    o: Seq<WglStep>,
)
    requires
        m.open_from_hwnd(stamp, hwnd, extent, requested, o).1 is Err,
    ensures
        ({
            let hdc = m.next(o)->GetDc_reply;
            let after = m.open_from_hwnd(stamp, hwnd, extent, requested, o).0;
            if hdc == NULL {
                left_by(after.log) == left_by(m.log)
            } else {
                ||| (after.log.last() == (WglStep::ReleaseDc { hwnd, hdc }) && left_by(
                    after.log,
                ).subset_of(left_by(m.log)))
                ||| (after.log.last() is Call && !after.log.last()->Call_reply)
            }
        }),
{
    broadcast use lemma_step;

    let hdc = m.next(o)->GetDc_reply;
    let m1 = m.asked(WglStep::GetDc { hwnd, reply: hdc });
    let pending = OpenCleanup { hwnd, hdc, bootstrap: NULL, core: NULL };
    if hdc != NULL {
        lemma_on_device(m1, stamp, pending, extent, requested, o);
        let (m2, left, result) = m1.on_device(stamp, pending, extent, requested, o);
        lemma_dropped(m2, left.hdc, left.core, o);
        let (m3, gone) = m2.dropped(left.hdc, left.core, o);
        lemma_dropped(m3, left.hdc, left.bootstrap, o);
    }
}

/// A construction that succeeds keeps one context and no other.
pub proof fn openings_keep_one_context(
    m: Bench,
    stamp: ContextStamp,
    hwnd: u64,
    extent: (u32, u32),
    requested: Option<GlVersion>,
    o: Seq<WglStep>,
)
    requires
        m.open_from_hwnd(stamp, hwnd, extent, requested, o).1 is Ok,
    ensures
        ({
            let (after, result) = m.open_from_hwnd(stamp, hwnd, extent, requested, o);
            let c = result->Ok_0;
            &&& c.hglrc != NULL
            &&& c.hdc != NULL
            &&& c.hwnd == hwnd
            &&& c.stamp == stamp
            &&& c.extent == extent
            &&& left_by(after.log).subset_of(left_by(m.log).insert(c.hglrc))
        }),
{
    broadcast use lemma_step;

    let hdc = m.next(o)->GetDc_reply;
    let m1 = m.asked(WglStep::GetDc { hwnd, reply: hdc });
    let pending = OpenCleanup { hwnd, hdc, bootstrap: NULL, core: NULL };
    if hdc != NULL {
        lemma_on_device(m1, stamp, pending, extent, requested, o);
    }
}

/// A context is handed out only if its record is that of a desktop context at
/// the floor or above it, tells that floor, and bounds the drawable.
pub proof fn openings_meet_the_floor(
    m: Bench,
    stamp: ContextStamp,
    extent: (u32, u32),
    requested: Option<GlVersion>,
    o: Seq<WglStep>,
)
    requires
        m.prepared(stamp, extent, requested, o).1 is Ok,
    ensures
        ({
            let record = m.prepared(stamp, extent, requested, o).1->Ok_0;
            let observed = o[m.log.len() as int + 1]->GlText_reply;
            &&& record.context.profile is Desktop
            &&& record.context.profile->Desktop_major >= 4
            &&& record.context.flags.other.contains(discovery::floor_marker())
            &&& drawable::within(record.limits.max_viewport_dimensions, extent)
            &&& record.stamp == stamp
            &&& wgl::string_meets(
                observed@,
                match requested {
                    Some(floor) => floor,
                    None => wgl::required_version(),
                },
            )
        }),
{
    let m1 = m.asked(WglStep::LoadGl);
    let (m2, outcome) = m1.verified(requested, o);
    let (m3, driver) = m2.driver_identity(o);
    let steps = m3.next(o)->Discovery_steps;
    discovery::records_are_complete(Inspection { log: Seq::empty() }, stamp, driver, steps);
}

/// Whether all that was done is to ask which thread this is.
pub open spec fn only_asked_the_thread(before: Bench, after: Bench) -> bool {
    &&& after.current == before.current
    &&& after.log.len() == before.log.len() + 1
    &&& after.log.drop_last() == before.log
    &&& after.log.last() is Thread
}

/// A context that is not active gets nothing done on the driver, and what is
/// lost, poisoned or disposed of stays so.
pub proof fn inactive_contexts_are_refused(
    m: Bench,
    c: WglModel,
    extent: (u32, u32),
    interval: i32,
    operation: &'static str,
    o: Seq<WglStep>,
)
    requires
        !(c.lifecycle is Active),
    ensures
        only_asked_the_thread(m, m.bind_current(c, operation, o).0),
        m.bind_current(c, operation, o).1 is Err,
        only_asked_the_thread(m, m.present(c, o).0),
        m.present(c, o).1 is Err,
        only_asked_the_thread(m, m.set_swap_interval(c, interval, o).0),
        m.set_swap_interval(c, interval, o).1 is Err,
        !(c.lifecycle is Suspended) ==> {
            &&& m.resize(c, extent, o).1 == c
            &&& m.suspend(c, o).1 == c
            &&& m.resume(c, o).1 == c
            &&& m.resize(c, extent, o).2 is Err
            &&& m.suspend(c, o).2 is Err
            &&& m.resume(c, o).2 is Err
        },
{
    let (m1, actual) = m.thread(o);
    assert(m1.log.drop_last() =~= m.log);
}

/// Another thread than the owner gets nothing done, and is told so.
pub proof fn other_threads_are_refused(
    m: Bench,
    c: WglModel,
    extent: (u32, u32),
    operation: &'static str,
    o: Seq<WglStep>,
)
    requires
        m.thread(o).1 != c.owner,
    ensures
        only_asked_the_thread(m, m.bind_current(c, operation, o).0),
        m.bind_current(c, operation, o).1 is Err,
        only_asked_the_thread(m, m.present(c, o).0),
        m.resize(c, extent, o).1 == c,
        m.resize(c, extent, o).2 is Err,
        m.suspend(c, o).1 == c,
        m.suspend(c, o).2 is Err,
        m.resume(c, o).1 == c,
        m.resume(c, o).2 is Err,
{
    let (m1, actual) = m.thread(o);
    assert(m1.log.drop_last() =~= m.log);
}

/// Every operation that goes ahead has made its own context current just
/// before.
pub proof fn operations_bind_their_context(
    m: Bench,
    c: WglModel,
    operation: &'static str,
    o: Seq<WglStep>,
)
    requires
        m.bind_current(c, operation, o).1 is Ok,
    ensures
        ({
            let after = m.bind_current(c, operation, o).0;
            &&& after.log.last() == (WglStep::Call {
                call: WglCall::MakeCurrent { hdc: c.hdc, context: c.hglrc },
                reply: true,
            })
            &&& after.current == Some(c.hglrc)
        }),
{
}

/// A size is taken over whole or not at all, and a window without an area
/// suspends its context until it has one again.
pub proof fn sizes_decide_the_lifecycle(m: Bench, c: WglModel, extent: (u32, u32), o: Seq<WglStep>)
    ensures
        ({
            let (after, d, result) = m.resize(c, extent, o);
            &&& only_asked_the_thread(m, after)
            &&& result is Err ==> d == c
            &&& result is Ok ==> {
                &&& d.extent == extent
                &&& d.lifecycle == wgl_surface::lifecycle_for(extent)
                &&& drawable::within(c.snapshot.limits.max_viewport_dimensions, extent)
            }
        }),
{
    let (m1, actual) = m.thread(o);
    assert(m1.log.drop_last() =~= m.log);
}

/// Suspending and resuming leads back to where one was.
pub proof fn resuming_undoes_suspending(m: Bench, c: WglModel, o: Seq<WglStep>)
    requires
        m.suspend(c, o).2 is Ok,
        m.suspend(c, o).0.thread(o).1 == c.owner,
    ensures
        ({
            let (m1, c1, _) = m.suspend(c, o);
            let (m2, c2, result) = m1.resume(c1, o);
            result is Ok && c2 == c
        }),
{
}

/// A device context is given back only after its context is deleted.
pub proof fn device_contexts_outlive_their_contexts(m: Bench, c: WglModel, o: Seq<WglStep>)
    requires
        c.hglrc != NULL,
    ensures
        ({
            let (after, lifecycle) = m.release(c, o);
            let given_back = after.log.last() == (WglStep::ReleaseDc { hwnd: c.hwnd, hdc: c.hdc });
            &&& given_back == (lifecycle is Disposed)
            &&& lifecycle is Disposed ==> after.log[after.log.len() - 2] == (WglStep::Call {
                call: WglCall::DeleteContext { context: c.hglrc },
                reply: true,
            }) && after.current != Some(c.hglrc)
            &&& !(lifecycle is Disposed) ==> lifecycle is Poisoned
        }),
{
}

} // verus!
