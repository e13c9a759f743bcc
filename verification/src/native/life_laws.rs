//! How frames, submissions and objects come to their end.

use vstd::prelude::*;
use crate::api::command::GlPresentationLease;
use crate::api::gl::{GlFenceStatus, GlSurfaceAcquire};
use crate::api::identity::{ObjectId, QueryId};
use crate::api::resource::ReadbackStatus;
use crate::native::complete;
use crate::native::destroy;
use crate::native::link::{CommandModel, NativeCommand, NativeObject, NativeStep};
use crate::native::owner::{GeometryModel, Notice, Owner, PendingReadback};
use crate::platform::object::GlObjectName;

verus! {

/// A drawable is configured under a number that was not given before, for one
/// target, and then cannot be configured again.
pub proof fn drawables_are_configured_once(
    owner: Owner,
    target: ObjectId,
    other: ObjectId,
    o: Seq<NativeStep>,
    p: Seq<NativeStep>,
)
    requires
        owner.configure_presentation(target, o).1 is Ok,
    ensures
        ({
            let (after, lease) = owner.configure_presentation(target, o);
            &&& lease->Ok_0.id == owner.next_lease
            &&& after.next_lease == lease->Ok_0.id + 1
            &&& after.target == Some(target)
            &&& owner.target is Some ==> owner.target == Some(target)
            &&& after.leases.contains_key(lease->Ok_0.id)
            &&& after.leases[lease->Ok_0.id] is None
            &&& after.configure_presentation(other, p).1 is Err
        }),
{
    let (after, lease) = owner.configure_presentation(target, o);
    assert(after.leases.contains_key(lease->Ok_0.id));
    assert(after.leases != Map::<u64, crate::native::owner::AcquiredImage>::empty());
}

/// A frame that was acquired has the size that the drawable said, which is not
/// nothing, and a number that no frame had before; the surface had that size or
/// was given it; and the image that the surface handed out is held for it.
pub proof fn acquired_frames_are_of_the_drawable(
    owner: Owner,
    lease: GlPresentationLease,
    o: Seq<NativeStep>,
)
    requires
        owner.acquire_frame(lease, o).1 is Ok,
        owner.acquire_frame(lease, o).1->Ok_0 is Some,
    ensures
        ({
            let (after, result) = owner.acquire_frame(lease, o);
            let frame = result->Ok_0->0;
            &&& frame.lease == lease
            &&& frame.framebuffer == 0
            &&& !frame.suboptimal
            &&& frame.serial == owner.next_frame
            &&& after.next_frame == frame.serial + 1
            &&& frame.extent.width > 0 && frame.extent.height > 0
            &&& owner.leases.contains_key(lease.id) && owner.leases[lease.id] is None
            &&& after.leases.contains_key(lease.id)
            &&& match after.log.last() {
                NativeStep::AcquireSurface { reply: Ok(GlSurfaceAcquire::Lease(image)) } => {
                    after.leases[lease.id] == Some((frame.serial, image))
                },
                _ => false,
            }
            &&& match after.log[after.log.len() - 2] {
                NativeStep::SurfaceExtent { reply } => {
                    &&& reply is Some
                    &&& reply->0.width == frame.extent.width
                    &&& reply->0.height == frame.extent.height
                    &&& after.log[after.log.len() - 3] == (NativeStep::Extent {
                        reply: Ok(Some(frame.extent)),
                    })
                },
                NativeStep::Command {
                    command: CommandModel::Plain(NativeCommand::ResizeSurface(size)),
                    reply,
                } => {
                    &&& reply is Ok
                    &&& size.width == frame.extent.width
                    &&& size.height == frame.extent.height
                    &&& after.log[after.log.len() - 4] == (NativeStep::Extent {
                        reply: Ok(Some(frame.extent)),
                    })
                },
                _ => false,
            }
        }),
{
}

/// A frame that is presented is shown: the image that is held for it goes to
/// the surface, and the drawable is flipped. One that is dropped is consumed
/// and never shown. Either way the drawable holds no frame any longer.
pub proof fn ended_frames_are_shown_or_dropped(
    owner: Owner,
    lease: GlPresentationLease,
    expected: Option<u64>,
    present: bool,
    o: Seq<NativeStep>,
)
    requires
        owner.end_frame(lease, expected, present, o).1 is Ok,
    ensures
        ({
            let after = owner.end_frame(lease, expected, present, o).0;
            let held = owner.leases[lease.id]->0;
            &&& owner.leases.contains_key(lease.id) && owner.leases[lease.id] is Some
            &&& expected is Some ==> held.0 == expected->0
            &&& after.leases.contains_key(lease.id) && after.leases[lease.id] is None
            &&& present ==> match (after.log[after.log.len() - 2], after.log.last()) {
                (
                    NativeStep::Command {
                        command: CommandModel::Plain(NativeCommand::PresentSurface(image)),
                        reply,
                    },
                    NativeStep::Flip { reply: flipped },
                ) => image == held.1 && reply is Ok && flipped is Ok,
                _ => false,
            }
            &&& !present ==> match after.log.last() {
                NativeStep::Command {
                    command: CommandModel::Plain(NativeCommand::ConsumeSurface { lease: image, .. }),
                    reply,
                } => image == held.1 && reply is Ok,
                _ => false,
            }
        }),
{
}

/// What was acquired is what is presented: the image that the surface handed
/// out for a frame is the image that it is given back, and the receipt says so.
pub proof fn presented_frames_are_the_acquired(
    owner: Owner,
    lease: GlPresentationLease,
    receipt: u64,
    o: Seq<NativeStep>,
    p: Seq<NativeStep>,
)
    requires
        owner.acquire_frame(lease, o).1 is Ok,
        owner.acquire_frame(lease, o).1->Ok_0 is Some,
        ({
            let (held, frame) = owner.acquire_frame(lease, o);
            held.present(frame->Ok_0->0, receipt, p).presents[receipt] is Accepted
        }),
    ensures
        ({
            let (held, frame) = owner.acquire_frame(lease, o);
            let shown = held.present(frame->Ok_0->0, receipt, p);
            match (held.log.last(), shown.log[shown.log.len() - 2]) {
                (
                    NativeStep::AcquireSurface { reply: Ok(GlSurfaceAcquire::Lease(image)) },
                    NativeStep::Command {
                        command: CommandModel::Plain(NativeCommand::PresentSurface(given)),
                        reply,
                    },
                ) => given == image && reply is Ok,
                _ => false,
            }
        }),
{
    acquired_frames_are_of_the_drawable(owner, lease, o);
    let (held, result) = owner.acquire_frame(lease, o);
    let frame = result->Ok_0->0;
    assert(held.end_frame(frame.lease, Some(frame.serial), true, p).1 is Ok);
    ended_frames_are_shown_or_dropped(held, frame.lease, Some(frame.serial), true, p);
}

/// Whether notices hand out what was read back, ticket by ticket, and then wake
/// those who wait.
pub open spec fn hands_out(
    notices: Seq<Notice>,
    readbacks: Seq<PendingReadback>,
    waiters: Seq<u64>,
) -> bool {
    &&& notices.len() == readbacks.len() + waiters.len()
    &&& forall|i: int|
        0 <= i < readbacks.len() ==> #[trigger] notices[i] == (Notice::Publish {
            ticket: readbacks[i].ticket,
            bytes: readbacks[i].bytes,
            layout: readbacks[i].layout,
        })
    &&& forall|i: int|
        0 <= i < waiters.len() ==> #[trigger] notices[readbacks.len() + i] == (Notice::Wake {
            waiter: waiters[i],
        })
}

/// Whether notices end readbacks without bytes, and then wake those who wait.
pub open spec fn gives_up(
    notices: Seq<Notice>,
    readbacks: Seq<PendingReadback>,
    waiters: Seq<u64>,
    lost: bool,
) -> bool {
    &&& notices.len() == readbacks.len() + waiters.len()
    &&& forall|i: int|
        0 <= i < readbacks.len() ==> match #[trigger] notices[i] {
            Notice::Status { ticket, status } => {
                &&& ticket == readbacks[i].ticket
                &&& status is DeviceLost <==> lost
                &&& status is Failed <==> !lost
            },
            _ => false,
        }
    &&& forall|i: int|
        0 <= i < waiters.len() ==> #[trigger] notices[readbacks.len() + i] == (Notice::Wake {
            waiter: waiters[i],
        })
}

/// A submission is complete when its fence says so, and not before: then every
/// readback gets its bytes and every waiter is woken, once. While the fence is
/// pending nothing is told. Where it fails the readbacks end without bytes.
pub proof fn completions_follow_their_fence(owner: Owner, serial: u64, o: Seq<NativeStep>)
    requires
        owner.accepted(serial),
        owner.completions[serial - 1] is Pending,
    ensures
        ({
            let pending = owner.completions[serial - 1];
            let readbacks = pending->readbacks;
            let waiters = pending->waiters;
            let (after, state) = owner.completion_state(serial, o);
            let told = after.notices.skip(owner.notices.len() as int);
            &&& after.notices.len() >= owner.notices.len()
            &&& after.notices.take(owner.notices.len() as int) == owner.notices
            &&& after.completions.len() == owner.completions.len()
            &&& forall|i: int|
                0 <= i < owner.completions.len() && i != serial - 1
                    ==> #[trigger] after.completions[i] == owner.completions[i]
            &&& match after.log[owner.log.len() as int] {
                NativeStep::PollFence { fence, reply } => {
                    &&& fence == pending->fence
                    &&& match reply {
                        Ok(GlFenceStatus::Complete) => {
                            &&& state is Complete
                            &&& after.completions[serial - 1] is Complete
                            &&& hands_out(told, readbacks, waiters)
                            &&& match after.log.last() {
                                NativeStep::Command {
                                    command: CommandModel::Plain(
                                        NativeCommand::Destroy(NativeObject::Fence(gone)),
                                    ),
                                    ..
                                } => gone == fence,
                                _ => false,
                            }
                        },
                        Ok(GlFenceStatus::Pending) | Ok(GlFenceStatus::Unknown) => {
                            &&& state is Pending
                            &&& after.completions[serial - 1] == pending
                            &&& told.len() == 0
                        },
                        Ok(GlFenceStatus::Failed) => {
                            &&& state is Failed
                            &&& after.completions[serial - 1] is Failed
                            &&& gives_up(told, readbacks, waiters, false)
                        },
                        Err(_) => {
                            &&& state is Failed || state is DeviceLost
                            &&& state is DeviceLost <==> after.completions[serial - 1] is DeviceLost
                            &&& state is Failed <==> after.completions[serial - 1] is Failed
                            &&& gives_up(told, readbacks, waiters, state is DeviceLost)
                        },
                    }
                },
                _ => false,
            }
        }),
{
    let pending = owner.completions[serial - 1];
    let readbacks = pending->readbacks;
    let waiters = pending->waiters;
    let (after, state) = owner.completion_state(serial, o);
    let published = complete::publishes(readbacks) + complete::wakes(waiters);
    let failed = complete::given_up(readbacks, ReadbackStatus::Failed) + complete::wakes(waiters);
    let lost = complete::given_up(readbacks, ReadbackStatus::DeviceLost) + complete::wakes(waiters);
    let told = after.notices.skip(owner.notices.len() as int);
    assert((owner.notices + published).skip(owner.notices.len() as int) =~= published);
    assert((owner.notices + failed).skip(owner.notices.len() as int) =~= failed);
    assert((owner.notices + lost).skip(owner.notices.len() as int) =~= lost);
    assert(after.notices.take(owner.notices.len() as int) =~= owner.notices);
}

/// Who waits for a pending submission is remembered, once.
pub proof fn waiters_are_remembered_once(owner: Owner, serial: u64, waiter: u64)
    requires
        owner.accepted(serial),
        owner.completions[serial - 1] is Pending,
        owner.completions[serial - 1]->waiters.no_duplicates(),
    ensures
        ({
            let after = owner.awaited(serial, waiter).completions[serial - 1];
            let before = owner.completions[serial - 1];
            &&& after is Pending
            &&& after->waiters.contains(waiter)
            &&& after->waiters.no_duplicates()
            &&& after->fence == before->fence
            &&& after->readbacks == before->readbacks
            &&& forall|other: u64|
                other != waiter ==> after->waiters.contains(other) == #[trigger] before->waiters.contains(
                    other,
                )
        }),
{
    let before = owner.completions[serial - 1]->waiters;
    let longer = before.push(waiter);
    assert(longer.last() == waiter);
    assert forall|other: u64| other != waiter implies longer.contains(other)
        == #[trigger] before.contains(other) by {
        if before.contains(other) {
            let i = choose|i: int| 0 <= i < before.len() && before[i] == other;
            assert(longer[i] == other);
        }
    }
}

proof fn lemma_asking_keeps_ends(owner: Owner, serial: u64, o: Seq<NativeStep>)
    ensures
        ({
            let (after, state) = owner.completion_state(serial, o);
            &&& after.completions.len() == owner.completions.len()
            &&& forall|i: int|
                0 <= i < owner.completions.len() && !(#[trigger] owner.completions[i] is Pending)
                    ==> !(after.completions[i] is Pending)
            &&& owner.accepted(serial) ==> (state is Pending <==> after.completions[serial - 1]
                is Pending)
        }),
{
}

/// Asking whether anything is pending finds what is pending: where the answer
/// is no, every submission that was asked for has come to its end.
pub proof fn nothing_pending_is_missed(owner: Owner, at: nat, count: nat, o: Seq<NativeStep>)
    requires
        at <= count <= owner.completions.len(),
        count < u64::MAX,
        forall|i: int| 0 <= i < at ==> !(#[trigger] owner.completions[i] is Pending),
    ensures
        ({
            let (after, pending) = owner.any_pending(at, count, o);
            &&& !pending ==> forall|i: int|
                0 <= i < count ==> !(#[trigger] after.completions[i] is Pending)
            &&& pending ==> exists|i: int|
                0 <= i < count && #[trigger] after.completions[i] is Pending
        }),
    decreases count - at,
{
    if at < count {
        let serial = (at + 1) as u64;
        lemma_asking_keeps_ends(owner, serial, o);
        let (asked, state) = owner.completion_state(serial, o);
        if state is Pending {
            assert(asked.completions[at as int] is Pending);
        } else {
            nothing_pending_is_missed(asked, at + 1, count, o);
        }
    }
}

/// A buffer that is destroyed is the one behind its name, and no geometry that
/// uses it is known any longer; other geometry stays.
pub proof fn destroyed_buffers_leave_no_geometry(
    owner: Owner,
    name: GlObjectName,
    o: Seq<NativeStep>,
)
    requires
        owner.destroy_buffer(name, o).1 is Ok,
    ensures
        ({
            let after = owner.destroy_buffer(name, o).0;
            match after.log.last() {
                NativeStep::Command {
                    command: CommandModel::Plain(
                        NativeCommand::Destroy(NativeObject::Buffer(id)),
                    ),
                    reply,
                } => {
                    &&& reply is Ok
                    &&& id.slot + 1 == name@
                    &&& forall|key: GeometryModel, i: int|
                        #![trigger after.geometry_blocks.contains_key(key), key.vertices[i]]
                        after.geometry_blocks.contains_key(key) && 0 <= i < key.vertices.len()
                            ==> key.vertices[i].buffer != id
                    &&& forall|key: GeometryModel|
                        #[trigger] after.geometry_blocks.contains_key(key) && key.index is Some
                            ==> key.index->0.buffer != id
                    &&& forall|key: GeometryModel|
                        owner.geometry_blocks.contains_key(key) && destroy::spares_buffer(key, id)
                            ==> #[trigger] after.geometry_blocks.contains_key(key)
                },
                _ => false,
            }
        }),
{
}

proof fn lemma_queries_go(owner: Owner, queries: Seq<QueryId>, at: int, o: Seq<NativeStep>)
    requires
        0 <= at <= queries.len(),
        owner.destroy_queries(queries, at, o).1 is Ok,
    ensures
        ({
            let after = owner.destroy_queries(queries, at, o).0;
            &&& after.log.len() == owner.log.len() + queries.len() - at
            &&& after.query_sets == owner.query_sets
            &&& forall|i: int|
                0 <= i < owner.log.len() ==> #[trigger] after.log[i] == owner.log[i]
            &&& forall|i: int|
                at <= i < queries.len() ==> match #[trigger] after.log[owner.log.len() + i - at] {
                    NativeStep::Command {
                        command: CommandModel::Plain(
                            NativeCommand::Destroy(NativeObject::Query(gone)),
                        ),
                        reply,
                    } => reply is Ok && gone == queries[i],
                    _ => false,
                }
        }),
    decreases queries.len() - at,
{
    if at < queries.len() {
        let gone = owner.noting(
            crate::state::event::StateEvent::QueryRetired(queries[at]),
        ).plain(
            NativeCommand::Destroy(NativeObject::Query(queries[at])),
            "NativeProviderOwner::destroy",
            o,
        ).0;
        lemma_queries_go(gone, queries, at + 1, o);
        let after = owner.destroy_queries(queries, at, o).0;
        assert(after.log[owner.log.len() as int] == gone.log[owner.log.len() as int]);
        assert forall|i: int| at <= i < queries.len() implies match
            #[trigger] after.log[owner.log.len() + i - at] {
            NativeStep::Command {
                command: CommandModel::Plain(NativeCommand::Destroy(NativeObject::Query(gone))),
                reply,
            } => reply is Ok && gone == queries[i],
            _ => false,
        } by {
            if i > at {
                assert(owner.log.len() + i - at == gone.log.len() + i - (at + 1));
            }
        }
    }
}

/// All queries of a set go with it, and the set is found no more.
pub proof fn destroyed_sets_take_their_queries(
    owner: Owner,
    name: GlObjectName,
    o: Seq<NativeStep>,
)
    requires
        owner.destroy_query_set(name, o).1 is Ok,
    ensures
        ({
            let after = owner.destroy_query_set(name, o).0;
            let queries = owner.query_sets[name@ as u64].queries;
            &&& !after.query_sets.contains_key(name@ as u64)
            &&& after.log.len() == owner.log.len() + queries.len()
            &&& forall|i: int|
                0 <= i < queries.len() ==> match #[trigger] after.log[owner.log.len() + i] {
                    NativeStep::Command {
                        command: CommandModel::Plain(
                            NativeCommand::Destroy(NativeObject::Query(gone)),
                        ),
                        reply,
                    } => reply is Ok && gone == queries[i],
                    _ => false,
                }
        }),
{
    let key = name@ as u64;
    let queries = owner.query_sets[key].queries;
    let start = Owner { query_sets: owner.query_sets.remove(key), ..owner };
    lemma_queries_go(start, queries, 0, o);
    let after = owner.destroy_query_set(name, o).0;
    assert forall|i: int| 0 <= i < queries.len() implies match
        #[trigger] after.log[owner.log.len() + i] {
        NativeStep::Command {
            command: CommandModel::Plain(NativeCommand::Destroy(NativeObject::Query(gone))),
            reply,
        } => reply is Ok && gone == queries[i],
        _ => false,
    } by {
        assert(owner.log.len() + i == start.log.len() + i - 0);
    }
}

/// A raster pipeline takes its vertex array and its program with it; a compute
/// pipeline takes its program. Neither is found again.
pub proof fn destroyed_pipelines_take_their_programs(
    owner: Owner,
    name: GlObjectName,
    o: Seq<NativeStep>,
)
    ensures
        owner.raster_pipelines.contains_key(name@ as u64) ==> {
            let after = owner.destroy_raster_pipeline(name, o);
            let pipeline = owner.raster_pipelines[name@ as u64];
            &&& !after.raster_pipelines.contains_key(name@ as u64)
            &&& match (after.log[after.log.len() - 2], after.log.last()) {
                (
                    NativeStep::Command {
                        command: CommandModel::Plain(
                            NativeCommand::Destroy(NativeObject::VertexArray(array)),
                        ),
                        ..
                    },
                    NativeStep::Command {
                        command: CommandModel::Plain(
                            NativeCommand::Destroy(NativeObject::Program(program)),
                        ),
                        ..
                    },
                ) => array == pipeline.vertex_array && program == pipeline.program,
                _ => false,
            }
            &&& forall|key: GeometryModel|
                #[trigger] after.geometry_blocks.contains_key(key) ==> key.vertex_array
                    != pipeline.vertex_array
        },
        owner.compute_pipelines.contains_key(name@ as u64) ==> {
            let after = owner.destroy_compute_pipeline(name, o);
            &&& !after.compute_pipelines.contains_key(name@ as u64)
            &&& match after.log.last() {
                NativeStep::Command {
                    command: CommandModel::Plain(
                        NativeCommand::Destroy(NativeObject::Program(program)),
                    ),
                    ..
                } => program == owner.compute_pipelines[name@ as u64],
                _ => false,
            }
        },
{
}

} // verus!
