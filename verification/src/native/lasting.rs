//! What lasts from one call of the owner to the next: the numbers of geometry,
//! and the ends of submissions.

use vstd::prelude::*;
use std::sync::Arc;
use crate::api::command::{GlAcquiredFramebuffer, GlPresentationLease};
use crate::api::error::{CompletionFailure, CompletionState, DeviceLossInfo};
use crate::api::identity::{ObjectId, QueryId};
use crate::api::pipeline::{ComputePipelineDescriptor, RasterPipelineDescriptor};
use crate::api::resource::{
    BufferDescriptor, QuerySetDescriptor, ReadbackStatus, SamplerDescriptor,
    TextureDescriptor, TextureViewDescriptor,
};
use crate::api::shader::ShaderArtifact;
use crate::native::complete;
use crate::native::link::{CommandModel, NativeCommand, NativeObject, NativeStep};
use crate::native::owner;
use crate::native::owner::{
    CompletionModel, GeometryModel, Notice, Owner, PendingReadback, PresentState,
};
use crate::platform::object::{
    GlBindGroupEntry, GlBindGroupPacket, GlBindingResource, GlBufferSpan, GlObjectKind,
    GlObjectName, GlSamplerRef, GlShaderRef, GlTextureRef, GlTextureViewRef,
};
use crate::state::event::StateEvent;

verus! {

/// Whether no submission, no notice and no number differs.
pub open spec fn undisturbed(before: Owner, after: Owner) -> bool {
    &&& after.completions == before.completions
    &&& after.notices == before.notices
    &&& after.geometry_blocks == before.geometry_blocks
    &&& after.next_canonical == before.next_canonical
}

/// Whether every geometry that had a number still has it, and numbers are
/// still told apart.
pub open spec fn keeps_numbers(before: Owner, after: Owner) -> bool {
    &&& before.next_canonical <= after.next_canonical
    &&& forall|key: GeometryModel| #[trigger]
        before.geometry_blocks.contains_key(key) ==> after.geometry_blocks.contains_key(key)
            && after.geometry_blocks[key] == before.geometry_blocks[key]
    &&& owner::numbered(before.geometry_blocks, before.next_canonical) ==> owner::numbered(
        after.geometry_blocks,
        after.next_canonical,
    )
}

/// Equal geometry shares one number, and different geometry never does, as
/// long as the numbers are kept from the one question to the other.
pub proof fn equal_geometry_shares_one_number(
    owner: Owner,
    one: GeometryModel,
    operation: &'static str,
    later: Owner,
    other: GeometryModel,
    later_operation: &'static str,
)
    requires
        owner::numbered(owner.geometry_blocks, owner.next_canonical),
        owner.geometry_canonical(one, operation).1 is Ok,
        keeps_numbers(owner.geometry_canonical(one, operation).0, later),
        later.geometry_canonical(other, later_operation).1 is Ok,
    ensures
        owner.geometry_canonical(one, operation).1->Ok_0 == later.geometry_canonical(
            other,
            later_operation,
        ).1->Ok_0 <==> one == other,
{
    let (after, first) = owner.geometry_canonical(one, operation);
    assert(after.geometry_blocks.contains_key(one) && after.geometry_blocks[one] == first->Ok_0);
    assert(owner::numbered(after.geometry_blocks, after.next_canonical));
    assert(later.geometry_blocks.contains_key(one));
    assert(owner::numbered(later.geometry_blocks, later.next_canonical));
}

/// How a submission may go on: an end stays as it is, and what is pending
/// keeps its fence, its readbacks and everybody who waits for it until it ends.
pub open spec fn goes_on(before: CompletionModel, after: CompletionModel) -> bool {
    match before {
        CompletionModel::Pending { fence, readbacks, waiters } => match after {
            CompletionModel::Pending { fence: still, readbacks: owed, waiters: waiting } => {
                &&& still == fence
                &&& owed == readbacks
                &&& forall|waiter: u64| #[trigger]
                    waiters.contains(waiter) ==> waiting.contains(waiter)
            },
            _ => true,
        },
        _ => after == before,
    }
}

/// Whether no submission is forgotten and every one goes on.
pub open spec fn keeps_completions(before: Owner, after: Owner) -> bool {
    &&& before.completions.len() <= after.completions.len()
    &&& forall|i: int|
        0 <= i < before.completions.len() ==> goes_on(
            #[trigger] before.completions[i],
            after.completions[i],
        )
}

/// What is kept from one owner to the next and from there to a third is kept
/// from the first to the third.
pub proof fn keeping_goes_on(one: Owner, two: Owner, three: Owner)
    ensures
        keeps_numbers(one, two) && keeps_numbers(two, three) ==> keeps_numbers(one, three),
        keeps_completions(one, two) && keeps_completions(two, three) ==> keeps_completions(
            one,
            three,
        ),
{
    if keeps_completions(one, two) && keeps_completions(two, three) {
        assert forall|i: int| 0 <= i < one.completions.len() implies goes_on(
            #[trigger] one.completions[i],
            three.completions[i],
        ) by {
            assert(goes_on(one.completions[i], two.completions[i]));
            assert(goes_on(two.completions[i], three.completions[i]));
        }
    }
}

/// A serial that was never given out has failed. Once a submission has come to
/// an end, every later question gets that same end, asks no fence and tells
/// nobody anything.
pub proof fn ends_are_final(owner: Owner, later: Owner, serial: u64, o: Seq<NativeStep>)
    requires
        keeps_completions(owner, later),
    ensures
        !later.accepted(serial) ==> later.completion(serial, o).1 == CompletionState::Failed(
            CompletionFailure::NeverAccepted { serial },
        ),
        owner.accepted(serial) && !(owner.completions[serial - 1] is Pending) ==> {
            let (after, state) = later.completion(serial, o);
            &&& state == complete::state_of(owner.completions[serial - 1])
            &&& after == later.ready("NativeProviderOwner::completion", o).0
            &&& after.completions == later.completions
            &&& after.notices == later.notices
        },
{
    if owner.accepted(serial) {
        assert(goes_on(owner.completions[serial - 1], later.completions[serial - 1]));
    }
}

/// Whether somebody waits for a submission.
pub open spec fn waits(completion: CompletionModel, waiter: u64) -> bool {
    completion is Pending && completion->waiters.contains(waiter)
}

/// Whether a submission owes a readback.
pub open spec fn owes(completion: CompletionModel, readback: PendingReadback) -> bool {
    completion is Pending && completion->readbacks.contains(readback)
}

/// The notice that the bytes of a readback are there.
pub open spec fn published(readback: PendingReadback) -> Notice {
    Notice::Publish { ticket: readback.ticket, bytes: readback.bytes, layout: readback.layout }
}

/// What was told from one owner to the next.
pub open spec fn news(before: Owner, after: Owner) -> Seq<Notice> {
    after.notices.skip(before.notices.len() as int)
}

/// Whether everybody was told what happened to their submission: who waited
/// for one that ended is woken, a readback of one that is complete has its
/// bytes, one of another end is told that there will be none, and no other
/// readback gets bytes.
pub open spec fn told(before: Owner, after: Owner) -> bool {
    &&& before.notices.is_prefix_of(after.notices)
    &&& forall|i: int, waiter: u64|
        0 <= i < before.completions.len() && #[trigger] waits(before.completions[i], waiter) && !(
        after.completions[i] is Pending) ==> news(before, after).contains(Notice::Wake { waiter })
    &&& forall|i: int, readback: PendingReadback|
        0 <= i < before.completions.len() && #[trigger] owes(before.completions[i], readback)
            ==> match after.completions[i] {
            CompletionModel::Pending { .. } => true,
            CompletionModel::Complete => news(before, after).contains(published(readback)),
            CompletionModel::Failed(_) => news(before, after).contains(
                Notice::Status { ticket: readback.ticket, status: ReadbackStatus::Failed },
            ),
            CompletionModel::DeviceLost(_) => news(before, after).contains(
                Notice::Status { ticket: readback.ticket, status: ReadbackStatus::DeviceLost },
            ),
        }
    &&& forall|notice: Notice| #[trigger]
        news(before, after).contains(notice) && notice is Publish ==> exists|
            i: int,
            readback: PendingReadback,
        |
            0 <= i < before.completions.len() && #[trigger] owes(before.completions[i], readback)
                && after.completions[i] is Complete && notice == published(readback)
}

/// Whether everything lasts, and everybody was told what happened.
pub open spec fn lasts(before: Owner, after: Owner) -> bool {
    &&& keeps_numbers(before, after)
    &&& keeps_completions(before, after)
    &&& told(before, after)
}

/// Where nothing is disturbed, everything lasts and nobody is told anything.
pub proof fn what_is_undisturbed_lasts(before: Owner, after: Owner)
    requires
        undisturbed(before, after),
    ensures
        lasts(before, after),
        news(before, after) == Seq::<Notice>::empty(),
{
    assert(news(before, after) =~= Seq::<Notice>::empty());
    assert(before.notices =~= after.notices.subrange(0, before.notices.len() as int));
}

/// Giving out a number lasts: no number that was given out is taken back.
pub proof fn numbering_lasts(owner: Owner, key: GeometryModel, operation: &'static str)
    ensures
        lasts(owner, owner.canonical(operation).0),
        lasts(owner, owner.geometry_canonical(key, operation).0),
{
    what_is_undisturbed_lasts(owner, owner);
    let (after, _) = owner.canonical(operation);
    assert(news(owner, after) == news(owner, owner));
    let (after, _) = owner.geometry_canonical(key, operation);
    assert(news(owner, after) == news(owner, owner));
}

proof fn lemma_discard(owner: Owner, queries: Seq<QueryId>, at: int, o: Seq<NativeStep>)
    ensures
        undisturbed(owner, owner.discard_queries(queries, at, o)),
    decreases queries.len() - at,
{
    if at < queries.len() {
        let (gone, _) = owner.command(
            CommandModel::Plain(
                NativeCommand::Destroy(
                    NativeObject::Query(queries[at]),
                ),
            ),
            o,
        );
        lemma_discard(gone, queries, at + 1, o);
    }
}

proof fn lemma_queries(
    owner: Owner,
    made: Seq<QueryId>,
    count: u32,
    operation: &'static str,
    o: Seq<NativeStep>,
)
    ensures
        undisturbed(owner, owner.create_queries(made, count, operation, o).0),
    decreases count - made.len(),
{
    if made.len() < count {
        let reply = owner.next(o)->CreateQuery_reply;
        let asked = owner.asked(NativeStep::CreateQuery { reply });
        match reply {
            Ok(query) => {
                lemma_queries(asked, made.push(query), count, operation, o);
            },
            Err(_) => {
                lemma_discard(asked, made, 0, o);
            },
        }
    }
}

/// Making buffers, textures, views, samplers, query sets and shaders disturbs
/// nothing, whatever comes of it.
pub proof fn making_resources_disturbs_nothing(
    owner: Owner,
    buffer: BufferDescriptor,
    texture: TextureDescriptor,
    source: GlTextureRef,
    view: TextureViewDescriptor,
    sampler: SamplerDescriptor,
    queries: QuerySetDescriptor,
    shader: ShaderArtifact,
    o: Seq<NativeStep>,
)
    ensures
        undisturbed(owner, owner.create_buffer(buffer, o).0),
        undisturbed(owner, owner.create_texture(texture, o).0),
        undisturbed(owner, owner.create_texture_view(source, view, o).0),
        undisturbed(owner, owner.create_sampler(sampler, o).0),
        undisturbed(owner, owner.create_query_set(queries, o).0),
        undisturbed(owner, owner.create_shader(shader, o).0),
{
    let operation = "NativeProviderOwner::create_query_set";
    let (current, _) = owner.ready(operation, o);
    lemma_queries(current, Seq::empty(), queries.count, operation, o);
}

proof fn lemma_spans(
    owner: Owner,
    spans: Seq<GlBufferSpan>,
    at: int,
    operation: &'static str,
    o: Seq<NativeStep>,
)
    ensures
        undisturbed(owner, owner.check_spans(spans, at, operation, o).0),
    decreases spans.len() - at,
{
    if at < spans.len() {
        let (found, _) = owner.buffer_id(spans[at].buffer.name, operation, o);
        lemma_spans(found, spans, at + 1, operation, o);
    }
}

proof fn lemma_views(
    owner: Owner,
    views: Seq<GlTextureViewRef>,
    at: int,
    operation: &'static str,
    o: Seq<NativeStep>,
)
    ensures
        undisturbed(owner, owner.check_views(views, at, operation, o).0),
    decreases views.len() - at,
{
    if at < views.len() {
        let (found, _) = owner.check_view(views[at], operation, o);
        lemma_views(found, views, at + 1, operation, o);
    }
}

proof fn lemma_samplers(
    owner: Owner,
    samplers: Seq<GlSamplerRef>,
    at: int,
    operation: &'static str,
    o: Seq<NativeStep>,
)
    ensures
        undisturbed(owner, owner.check_samplers(samplers, at, operation, o).0),
    decreases samplers.len() - at,
{
    if at < samplers.len() {
        let (found, _) = owner.sampler_id(samplers[at].name, operation, o);
        lemma_samplers(found, samplers, at + 1, operation, o);
    }
}

proof fn lemma_entries(
    owner: Owner,
    entries: Seq<GlBindGroupEntry>,
    at: int,
    operation: &'static str,
    o: Seq<NativeStep>,
)
    ensures
        undisturbed(owner, owner.check_entries(entries, at, operation, o).0),
    decreases entries.len() - at,
{
    if at < entries.len() {
        match entries[at].resource {
            GlBindingResource::BufferArray(spans) => {
                lemma_spans(owner, spans@, 0, operation, o);
            },
            GlBindingResource::TextureArray(views) => {
                lemma_views(owner, views@, 0, operation, o);
            },
            GlBindingResource::SamplerArray(samplers) => {
                lemma_samplers(owner, samplers@, 0, operation, o);
            },
            _ => {},
        }
        let (found, _) = owner.check_entry(entries[at], operation, o);
        lemma_entries(found, entries, at + 1, operation, o);
    }
}

/// Making bind groups disturbs nothing, whatever comes of it.
pub proof fn making_groups_disturbs_nothing(
    owner: Owner,
    packet: Arc<GlBindGroupPacket>,
    o: Seq<NativeStep>,
)
    ensures
        undisturbed(owner, owner.create_bind_group(packet, o).0),
{
    let operation = "NativeProviderOwner::create_bind_group";
    let (current, _) = owner.ready(operation, o);
    lemma_entries(current, (*packet).entries@, 0, operation, o);
}

/// Making pipelines, and waiting until GL is idle, disturbs nothing, whatever
/// comes of it.
pub proof fn making_pipelines_disturbs_nothing(
    owner: Owner,
    raster: RasterPipelineDescriptor,
    vertex: GlShaderRef,
    fragment: Option<GlShaderRef>,
    compute: ComputePipelineDescriptor,
    shader: GlShaderRef,
    o: Seq<NativeStep>,
)
    ensures
        undisturbed(owner, owner.create_raster_pipeline(raster, vertex, fragment, o).0),
        undisturbed(owner, owner.create_compute_pipeline(compute, shader, o).0),
        undisturbed(owner, owner.wait_idle(o).0),
{
}

/// Configuring drawables, acquiring frames, and showing or ending them disturbs
/// nothing, whatever comes of it.
pub proof fn presenting_disturbs_nothing(
    owner: Owner,
    target: ObjectId,
    lease: GlPresentationLease,
    frame: GlAcquiredFramebuffer,
    expected: Option<u64>,
    shown: bool,
    receipt: u64,
    state: PresentState,
    o: Seq<NativeStep>,
)
    ensures
        undisturbed(owner, owner.supports_presentation(o).0),
        undisturbed(owner, owner.presentation_capabilities(o).0),
        undisturbed(owner, owner.configure_presentation(target, o).0),
        undisturbed(owner, owner.lease_capabilities(lease, o).0),
        undisturbed(owner, owner.acquire_frame(lease, o).0),
        undisturbed(owner, owner.end_frame(lease, expected, shown, o).0),
        undisturbed(owner, owner.release_presentation(lease, o)),
        undisturbed(owner, owner.present(frame, receipt, o)),
        undisturbed(owner, owner.terminate_present(frame, receipt, state, o)),
{
}

proof fn lemma_destroyed_queries(owner: Owner, queries: Seq<QueryId>, at: int, o: Seq<NativeStep>)
    ensures
        undisturbed(owner, owner.destroy_queries(queries, at, o).0),
    decreases queries.len() - at,
{
    if at < queries.len() {
        let event = StateEvent::QueryRetired(queries[at]);
        let (gone, _) = owner.noting(event).plain(
            NativeCommand::Destroy(
                NativeObject::Query(queries[at]),
            ),
            "NativeProviderOwner::destroy",
            o,
        );
        lemma_destroyed_queries(gone, queries, at + 1, o);
    }
}

/// Destroying an object ends no submission and tells nobody anything. Geometry
/// that it does not concern keeps its number, and no number is given anew.
pub proof fn destroying_ends_no_submission(
    owner: Owner,
    kind: GlObjectKind,
    name: GlObjectName,
    o: Seq<NativeStep>,
)
    ensures
        ({
            let (after, _) = owner.destroy(kind, name, o);
            &&& keeps_completions(owner, after)
            &&& told(owner, after)
            &&& after.completions == owner.completions
            &&& after.notices == owner.notices
            &&& after.next_canonical == owner.next_canonical
            &&& forall|key: GeometryModel| #[trigger]
                after.geometry_blocks.contains_key(key) ==> owner.geometry_blocks.contains_key(key)
                    && after.geometry_blocks[key] == owner.geometry_blocks[key]
            &&& !(kind is Buffer) && !(kind is RasterPipeline) ==> undisturbed(owner, after)
        }),
{
    let (current, _) = owner.ready("NativeProviderOwner::destroy", o);
    if kind is QuerySet {
        let key = name@ as u64;
        if current.query_sets.contains_key(key) {
            lemma_destroyed_queries(
                Owner { query_sets: current.query_sets.remove(key), ..current },
                current.query_sets[key].queries,
                0,
                o,
            );
        }
    }
    let (after, _) = owner.destroy(kind, name, o);
    what_is_undisturbed_lasts(
        owner,
        Owner {
            geometry_blocks: owner.geometry_blocks,
            next_canonical: owner.next_canonical,
            ..after
        },
    );
}

proof fn lemma_notices(readbacks: Seq<PendingReadback>, waiters: Seq<u64>, status: ReadbackStatus)
    ensures
        forall|waiter: u64| #[trigger]
            waiters.contains(waiter) ==> (complete::publishes(readbacks) + complete::wakes(
                waiters,
            )).contains(Notice::Wake { waiter }),
        forall|waiter: u64| #[trigger]
            waiters.contains(waiter) ==> (complete::given_up(readbacks, status) + complete::wakes(
                waiters,
            )).contains(Notice::Wake { waiter }),
        forall|readback: PendingReadback| #[trigger]
            readbacks.contains(readback) ==> (complete::publishes(readbacks) + complete::wakes(
                waiters,
            )).contains(published(readback)),
        forall|readback: PendingReadback| #[trigger]
            readbacks.contains(readback) ==> (complete::given_up(readbacks, status)
                + complete::wakes(waiters)).contains(
                Notice::Status { ticket: readback.ticket, status },
            ),
        forall|notice: Notice|
            (complete::publishes(readbacks) + complete::wakes(waiters)).contains(notice) && notice
                is Publish ==> exists|i: int|
                0 <= i < readbacks.len() && notice == published(#[trigger] readbacks[i]),
        forall|notice: Notice|
            (complete::given_up(readbacks, status) + complete::wakes(waiters)).contains(notice)
                ==> !(notice is Publish),
{
    let bytes = complete::publishes(readbacks);
    let none = complete::given_up(readbacks, status);
    let awake = complete::wakes(waiters);
    assert forall|waiter: u64| #[trigger] waiters.contains(waiter) implies (bytes + awake).contains(
        Notice::Wake { waiter },
    ) && (none + awake).contains(Notice::Wake { waiter }) by {
        let i = choose|i: int| 0 <= i < waiters.len() && waiters[i] == waiter;
        assert((bytes + awake)[bytes.len() + i] == Notice::Wake { waiter });
        assert((none + awake)[none.len() + i] == Notice::Wake { waiter });
    }
    assert forall|readback: PendingReadback| #[trigger] readbacks.contains(readback) implies (bytes
        + awake).contains(published(readback)) && (none + awake).contains(
        Notice::Status { ticket: readback.ticket, status },
    ) by {
        let i = choose|i: int| 0 <= i < readbacks.len() && readbacks[i] == readback;
        assert((bytes + awake)[i] == published(readback));
        assert((none + awake)[i] == Notice::Status { ticket: readback.ticket, status });
    }
    assert forall|notice: Notice|
        (bytes + awake).contains(notice) && notice is Publish implies exists|i: int|
        0 <= i < readbacks.len() && notice == published(#[trigger] readbacks[i]) by {
        let j = choose|j: int| 0 <= j < (bytes + awake).len() && (bytes + awake)[j] == notice;
        if j < bytes.len() {
            assert(notice == published(readbacks[j]));
        } else {
            assert(notice == Notice::Wake { waiter: waiters[j - bytes.len()] });
        }
    }
}

/// Asking for one submission lasts: it may end, and then everybody is told.
proof fn lemma_asking_lasts(owner: Owner, serial: u64, o: Seq<NativeStep>)
    ensures
        lasts(owner, owner.completion_state(serial, o).0),
        owner.completion_state(serial, o).0.completions.len() == owner.completions.len(),
{
    let (after, _) = owner.completion_state(serial, o);
    if undisturbed(owner, after) {
        what_is_undisturbed_lasts(owner, after);
    } else {
        let at = serial - 1;
        let completion = owner.completions[at];
        let readbacks = completion->readbacks;
        let waiters = completion->waiters;
        let status = if after.completions[at] is DeviceLost {
            ReadbackStatus::DeviceLost
        } else {
            ReadbackStatus::Failed
        };
        let bytes = complete::publishes(readbacks) + complete::wakes(waiters);
        let none = complete::given_up(readbacks, status) + complete::wakes(waiters);
        lemma_notices(readbacks, waiters, status);
        assert(owner.notices =~= after.notices.subrange(0, owner.notices.len() as int));
        assert(news(owner, after) =~= if after.completions[at] is Complete {
            bytes
        } else {
            none
        });
        assert forall|notice: Notice| #[trigger]
            news(owner, after).contains(notice) && notice is Publish implies exists|
            i: int,
            readback: PendingReadback,
        |
            0 <= i < owner.completions.len() && #[trigger] owes(owner.completions[i], readback)
                && after.completions[i] is Complete && notice == published(readback) by {
            let i = choose|i: int|
                0 <= i < readbacks.len() && notice == published(#[trigger] readbacks[i]);
            assert(owes(owner.completions[at], readbacks[i]));
        }
    }
}

proof fn lemma_lasting_twice(one: Owner, two: Owner, three: Owner)
    requires
        lasts(one, two),
        lasts(two, three),
        one.completions.len() == two.completions.len(),
    ensures
        lasts(one, three),
{
    keeping_goes_on(one, two, three);
    let first = news(one, two);
    let second = news(two, three);
    assert(news(one, three) =~= first + second);
    assert(one.notices =~= three.notices.subrange(0, one.notices.len() as int));
    assert forall|notice: Notice| #[trigger] first.contains(notice) implies news(
        one,
        three,
    ).contains(notice) by {
        let j = choose|j: int| 0 <= j < first.len() && first[j] == notice;
        assert((first + second)[j] == notice);
    }
    assert forall|notice: Notice| #[trigger] second.contains(notice) implies news(
        one,
        three,
    ).contains(notice) by {
        let j = choose|j: int| 0 <= j < second.len() && second[j] == notice;
        assert((first + second)[first.len() + j] == notice);
    }
    assert forall|i: int, waiter: u64|
        0 <= i < one.completions.len() && #[trigger] waits(one.completions[i], waiter) && !(
        three.completions[i] is Pending) implies news(one, three).contains(
        Notice::Wake { waiter },
    ) by {
        assert(goes_on(one.completions[i], two.completions[i]));
        assert(goes_on(two.completions[i], three.completions[i]));
        if two.completions[i] is Pending {
            assert(waits(two.completions[i], waiter));
        }
    }
    assert forall|i: int, readback: PendingReadback|
        0 <= i < one.completions.len() && #[trigger] owes(one.completions[i], readback) implies (
    match three.completions[i] {
        CompletionModel::Pending { .. } => true,
        CompletionModel::Complete => news(one, three).contains(published(readback)),
        CompletionModel::Failed(_) => news(one, three).contains(
            Notice::Status { ticket: readback.ticket, status: ReadbackStatus::Failed },
        ),
        CompletionModel::DeviceLost(_) => news(one, three).contains(
            Notice::Status { ticket: readback.ticket, status: ReadbackStatus::DeviceLost },
        ),
    }) by {
        assert(goes_on(one.completions[i], two.completions[i]));
        assert(goes_on(two.completions[i], three.completions[i]));
        if two.completions[i] is Pending {
            assert(owes(two.completions[i], readback));
        }
    }
    assert forall|notice: Notice| #[trigger]
        news(one, three).contains(notice) && notice is Publish implies exists|
        i: int,
        readback: PendingReadback,
    |
        0 <= i < one.completions.len() && #[trigger] owes(one.completions[i], readback)
            && three.completions[i] is Complete && notice == published(readback) by {
        let j = choose|j: int| 0 <= j < news(one, three).len() && news(one, three)[j] == notice;
        if j < first.len() {
            assert(first.contains(notice));
            let (i, readback) = choose|i: int, readback: PendingReadback|
                0 <= i < one.completions.len() && #[trigger] owes(one.completions[i], readback)
                    && two.completions[i] is Complete && notice == published(readback);
            assert(goes_on(two.completions[i], three.completions[i]));
            assert(owes(one.completions[i], readback));
        } else {
            assert(second[j - first.len()] == notice);
            assert(second.contains(notice));
            let (i, readback) = choose|i: int, readback: PendingReadback|
                0 <= i < two.completions.len() && #[trigger] owes(two.completions[i], readback)
                    && three.completions[i] is Complete && notice == published(readback);
            assert(goes_on(one.completions[i], two.completions[i]));
            assert(owes(one.completions[i], readback));
        }
    }
}

proof fn lemma_waiting_lasts(owner: Owner, serial: u64, waiter: u64)
    requires
        owner.accepted(serial),
    ensures
        lasts(owner, owner.awaited(serial, waiter)),
{
    let after = owner.awaited(serial, waiter);
    assert(news(owner, after) =~= Seq::<Notice>::empty());
    assert(owner.notices =~= after.notices.subrange(0, owner.notices.len() as int));
    assert forall|i: int| 0 <= i < owner.completions.len() implies goes_on(
        #[trigger] owner.completions[i],
        after.completions[i],
    ) by {
        if i == serial - 1 && owner.completions[i] is Pending {
            let waiters = owner.completions[i]->waiters;
            assert forall|other: u64| #[trigger] waiters.contains(other) implies waiters.push(
                waiter,
            ).contains(other) by {
                let k = choose|k: int| 0 <= k < waiters.len() && waiters[k] == other;
                assert(waiters.push(waiter)[k] == other);
            }
        }
    }
}

/// Asking for a submission, and waiting for it, lasts: only the submission
/// that is asked for can end by it. Who waited for it is woken then, and its
/// readbacks get their bytes if it is complete, and only then.
pub proof fn asking_lasts(owner: Owner, serial: u64, waiter: u64, o: Seq<NativeStep>)
    ensures
        lasts(owner, owner.completion(serial, o).0),
        lasts(owner, owner.completion_or_register_waker(serial, waiter, o).0),
        forall|i: int|
            0 <= i < owner.completions.len() && i != serial - 1 ==> {
                &&& owner.completion(serial, o).0.completions[i] == #[trigger] owner.completions[i]
                &&& owner.completion_or_register_waker(serial, waiter, o).0.completions[i]
                    == owner.completions[i]
            },
{
    let (current, _) = owner.ready("NativeProviderOwner::completion", o);
    what_is_undisturbed_lasts(owner, current);
    lemma_asking_lasts(current, serial, o);
    lemma_lasting_twice(owner, current, current.completion_state(serial, o).0);
    let (current, _) = owner.ready("NativeProviderOwner::completion_or_register_waker", o);
    what_is_undisturbed_lasts(owner, current);
    lemma_asking_lasts(current, serial, o);
    let (asked, state) = current.completion_state(serial, o);
    lemma_lasting_twice(owner, current, asked);
    if state is Pending {
        lemma_waiting_lasts(asked, serial, waiter);
        lemma_lasting_twice(owner, asked, asked.awaited(serial, waiter));
    }
}

/// Asking for all submissions in turn lasts.
pub proof fn asking_for_all_lasts(owner: Owner, at: nat, count: nat, o: Seq<NativeStep>)
    ensures
        lasts(owner, owner.any_pending(at, count, o).0),
    decreases count - at,
{
    if at >= count {
        what_is_undisturbed_lasts(owner, owner);
    } else {
        let (asked, state) = owner.completion_state((at + 1) as u64, o);
        lemma_asking_lasts(owner, (at + 1) as u64, o);
        if !(state is Pending) {
            asking_for_all_lasts(asked, at + 1, count, o);
            lemma_lasting_twice(owner, asked, asked.any_pending(at + 1, count, o).0);
        }
    }
}

proof fn lemma_loss(completions: Seq<CompletionModel>, at: int)
    requires
        0 <= at,
    ensures
        forall|i: int, waiter: u64|
            at <= i < completions.len() && #[trigger] waits(completions[i], waiter)
                ==> complete::loss_notices(completions, at).contains(Notice::Wake { waiter }),
        forall|i: int, readback: PendingReadback|
            at <= i < completions.len() && #[trigger] owes(completions[i], readback)
                ==> complete::loss_notices(completions, at).contains(
                Notice::Status { ticket: readback.ticket, status: ReadbackStatus::DeviceLost },
            ),
        forall|notice: Notice| #[trigger]
            complete::loss_notices(completions, at).contains(notice) ==> !(notice is Publish),
    decreases completions.len() - at,
{
    if at < completions.len() {
        lemma_loss(completions, at + 1);
        let all = complete::loss_notices(completions, at);
        let rest = complete::loss_notices(completions, at + 1);
        if completions[at] is Pending {
            let readbacks = completions[at]->readbacks;
            let waiters = completions[at]->waiters;
            let own = complete::given_up(readbacks, ReadbackStatus::DeviceLost) + complete::wakes(
                waiters,
            );
            lemma_notices(readbacks, waiters, ReadbackStatus::DeviceLost);
            assert(all == own + rest);
            assert forall|notice: Notice| #[trigger] own.contains(notice) implies all.contains(
                notice,
            ) by {
                let j = choose|j: int| 0 <= j < own.len() && own[j] == notice;
                assert(all[j] == notice);
            }
            assert forall|notice: Notice| #[trigger] rest.contains(notice) implies all.contains(
                notice,
            ) by {
                let j = choose|j: int| 0 <= j < rest.len() && rest[j] == notice;
                assert(all[own.len() + j] == notice);
            }
            assert forall|notice: Notice| #[trigger] all.contains(notice) implies !(notice
                is Publish) by {
                let j = choose|j: int| 0 <= j < all.len() && all[j] == notice;
                if j < own.len() {
                    assert(own[j] == notice);
                    assert(own.contains(notice));
                } else {
                    assert(rest[j - own.len()] == notice);
                    assert(rest.contains(notice));
                }
            }
        }
    }
}

/// A loss of the device lasts: what had ended stays, everything else ends as
/// lost, and everybody who waited is told.
pub proof fn a_loss_lasts(owner: Owner, info: DeviceLossInfo, o: Seq<NativeStep>)
    ensures
        lasts(owner, owner.device_lost(info, o)),
{
    let after = owner.device_lost(info, o);
    lemma_loss(owner.completions, 0);
    assert(owner.notices =~= after.notices.subrange(0, owner.notices.len() as int));
    assert(news(owner, after) =~= complete::loss_notices(owner.completions, 0));
}

} // verus!
