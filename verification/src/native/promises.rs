//! What a submission promises: a refusal means that GL was given nothing, and
//! what was accepted comes to an end.

use vstd::prelude::*;
use std::sync::Arc;
use crate::api::command::{
    BufferCopy, ComputeDispatch, CopyRecord, DrawInputs, GlSubmissionBatch, LocatedColor,
    QueryPoint, RasterBegin, RasterDraw, RasterIndirect, RecordedCommand, RecordedPayload,
    TextureCopy, UploadDescriptor, VertexBufferUse,
};
use crate::api::gl::{GlTextureView, GlVertexBufferBinding};
use crate::api::resource::{
    BufferUploadDescriptor, Extent3d, Origin3d, QueryType, ReadbackTicket,
    TextureSubresourceLayers, TextureUploadDescriptor,
};
use crate::native::execute;
use crate::native::execute::ActionModel;
use crate::native::lasting;
use crate::native::link;
use crate::native::link::NativeStep;
use crate::native::owner::Owner;
use crate::platform::object::GlObjectName;
use crate::translate_raster::GlRasterDrawScalars;

verus! {

/// Whether a step only asks and leaves GL as it is.
pub open spec fn is_question(step: NativeStep) -> bool {
    match step {
        NativeStep::Current { .. } => true,
        NativeStep::Ready { .. } => true,
        NativeStep::Stamp { .. } => true,
        NativeStep::Find { .. } => true,
        NativeStep::FindTexture { .. } => true,
        NativeStep::Extent { .. } => true,
        _ => false,
    }
}

/// Whether only questions were asked, and nothing was remembered but numbers.
pub open spec fn only_asked(before: Owner, after: Owner) -> bool {
    &&& link::grows(before.log, after.log)
    &&& forall|i: int|
        before.log.len() <= i < after.log.len() ==> is_question(#[trigger] after.log[i])
    &&& after == (Owner {
        log: after.log,
        next_canonical: after.next_canonical,
        geometry_blocks: after.geometry_blocks,
        ..before
    })
    &&& lasting::keeps_numbers(before, after)
}

proof fn lemma_asked_twice(one: Owner, two: Owner, three: Owner)
    requires
        only_asked(one, two),
        only_asked(two, three),
    ensures
        only_asked(one, three),
{
    assert forall|i: int| one.log.len() <= i < three.log.len() implies is_question(
        #[trigger] three.log[i],
    ) by {
        if i < two.log.len() {
            assert(two.log[i] == three.log[i]);
        }
    }
}

proof fn lemma_find(
    owner: Owner,
    name: GlObjectName,
    index: u32,
    expected: Option<QueryType>,
    operation: &'static str,
    o: Seq<NativeStep>,
)
    ensures
        only_asked(owner, owner.ready(operation, o).0),
        only_asked(owner, owner.stamp(o).0),
        only_asked(owner, owner.drawable_extent(o).0),
        only_asked(owner, owner.buffer_id(name, operation, o).0),
        only_asked(owner, owner.texture_id(name, operation, o).0),
        only_asked(owner, owner.query_id(name, index, expected, operation, o).0),
        only_asked(owner, owner.canonical(operation).0),
        only_asked(owner, owner.number_pass(operation).0),
{
}

proof fn lemma_attachment(
    owner: Owner,
    name: GlObjectName,
    operation: &'static str,
    o: Seq<NativeStep>,
)
    ensures
        only_asked(owner, owner.attachment_view(name, operation, o).0),
{
}

proof fn lemma_colors(
    owner: Owner,
    colors: Seq<LocatedColor>,
    at: int,
    views: Seq<GlTextureView>,
    operation: &'static str,
    o: Seq<NativeStep>,
)
    ensures
        only_asked(owner, owner.lower_colors(colors, at, views, operation, o).0),
    decreases colors.len() - at,
{
    if at < colors.len() {
        let name = colors[at].attachment.view->Texture_0.native->0;
        lemma_attachment(owner, name, operation, o);
        let (found, outcome) = owner.attachment_view(name, operation, o);
        if outcome is Ok {
            lemma_colors(found, colors, at + 1, views.push(outcome->Ok_0), operation, o);
            lemma_asked_twice(
                owner,
                found,
                found.lower_colors(colors, at + 1, views.push(outcome->Ok_0), operation, o).0,
            );
        }
    }
}

proof fn lemma_vertices(
    owner: Owner,
    buffers: Seq<VertexBufferUse>,
    at: int,
    bindings: Seq<GlVertexBufferBinding>,
    operation: &'static str,
    o: Seq<NativeStep>,
)
    ensures
        only_asked(owner, owner.lower_vertices(buffers, at, bindings, operation, o).0),
    decreases buffers.len() - at,
{
    if at < buffers.len() {
        let name = buffers[at].buffer.native->0;
        lemma_find(owner, name, 0, None, operation, o);
        let (found, outcome) = owner.buffer_id(name, operation, o);
        if outcome is Ok {
            let more = bindings.push(
                GlVertexBufferBinding {
                    slot: buffers[at].slot,
                    buffer: outcome->Ok_0,
                    offset: buffers[at].range.offset,
                },
            );
            lemma_vertices(found, buffers, at + 1, more, operation, o);
            lemma_asked_twice(
                owner,
                found,
                found.lower_vertices(buffers, at + 1, more, operation, o).0,
            );
        }
    }
}

proof fn lemma_draw(
    owner: Owner,
    inputs: DrawInputs,
    scalars: GlRasterDrawScalars,
    operation: &'static str,
    o: Seq<NativeStep>,
)
    ensures
        only_asked(owner, owner.lower_draw(inputs, scalars, operation, o).0),
{
    let (current, ready) = owner.ready(operation, o);
    lemma_find(owner, inputs.pipeline.native->0, 0, None, operation, o);
    if ready is Ok {
        let key = inputs.pipeline.native->0@ as u64;
        if current.raster_pipelines.contains_key(key) {
            lemma_vertices(current, inputs.vertex_buffers@, 0, Seq::empty(), operation, o);
            let (found, geometry) = current.lower_vertices(
                inputs.vertex_buffers@,
                0,
                Seq::empty(),
                operation,
                o,
            );
            lemma_asked_twice(owner, current, found);
            if geometry is Ok {
                lemma_find(found, inputs.index->0.buffer.native->0, 0, None, operation, o);
                let (indexed, _) = found.lower_index(inputs, operation, o);
                assert(only_asked(found, indexed));
                lemma_asked_twice(owner, found, indexed);
            }
        }
    }
}

proof fn lemma_begin(owner: Owner, begin: RasterBegin, o: Seq<NativeStep>)
    ensures
        only_asked(owner, owner.lower_raster_begin(begin, o).0),
{
    let operation = "NativeProviderOwner::submit phase A raster-begin";
    let colors = begin.colors@;
    let (current, ready) = owner.ready(operation, o);
    lemma_colors(current, colors, 0, Seq::empty(), operation, o);
    let (found, _) = current.lower_colors(colors, 0, Seq::empty(), operation, o);
    assert(only_asked(owner, current));
    lemma_asked_twice(owner, current, found);
}

proof fn lemma_raster_draw(owner: Owner, draw: RasterDraw, o: Seq<NativeStep>)
    ensures
        only_asked(owner, owner.lower_raster_draw(draw, o).0),
{
    let scalars = crate::translate_raster::drawn_scalars(draw);
    lemma_draw(
        owner,
        draw.inputs,
        scalars->Ok_0,
        "NativeProviderOwner::submit phase A raster-draw",
        o,
    );
}

proof fn lemma_raster_indirect(owner: Owner, indirect: RasterIndirect, o: Seq<NativeStep>)
    ensures
        only_asked(owner, owner.lower_raster_indirect(indirect, o).0),
{
    let operation = "NativeProviderOwner::submit phase A raster-indirect";
    let scalars = crate::native::lower::indirect_scalars(indirect.inputs);
    lemma_draw(owner, indirect.inputs, scalars->Ok_0, operation, o);
    let (lowered, _) = owner.lower_draw(indirect.inputs, scalars->Ok_0, operation, o);
    lemma_find(lowered, indirect.arguments.native->0, 0, None, operation, o);
    lemma_asked_twice(
        owner,
        lowered,
        lowered.buffer_id(indirect.arguments.native->0, operation, o).0,
    );
}

proof fn lemma_copies(
    owner: Owner,
    buffers: BufferCopy,
    textures: TextureCopy,
    o: Seq<NativeStep>,
)
    ensures
        only_asked(owner, owner.lower_buffer_copy(buffers, o).0),
        only_asked(owner, owner.lower_texture_copy(textures, o).0),
{
}

proof fn lemma_uploads(
    owner: Owner,
    buffer: BufferUploadDescriptor,
    texture: TextureUploadDescriptor,
    o: Seq<NativeStep>,
)
    ensures
        only_asked(owner, owner.lower_buffer_upload(buffer, o).0),
        only_asked(owner, owner.lower_texture_upload(texture, o).0),
{
}

proof fn lemma_readback(owner: Owner, ticket: ReadbackTicket, o: Seq<NativeStep>)
    ensures
        only_asked(owner, owner.lower_readback(ticket, o).0),
{
}

proof fn lemma_dispatch(owner: Owner, dispatch: ComputeDispatch, o: Seq<NativeStep>)
    ensures
        only_asked(owner, owner.lower_compute_dispatch(dispatch, o).0),
{
}

proof fn lemma_queries(owner: Owner, point: QueryPoint, o: Seq<NativeStep>)
    ensures
        only_asked(owner, owner.lower_query_begin(point, o).0),
        only_asked(owner, owner.lower_query_end(point, o).0),
        only_asked(owner, owner.lower_timestamp(point, o).0),
{
}

proof fn lemma_payload(owner: Owner, payload: RecordedPayload, o: Seq<NativeStep>)
    ensures
        only_asked(owner, owner.lower_payload(payload, o).0),
{
    match payload {
        RecordedPayload::Copy(CopyRecord::Buffer(copy)) => {
            lemma_copies(owner, copy, arbitrary(), o);
        },
        RecordedPayload::Copy(CopyRecord::Texture(copy)) => {
            lemma_copies(owner, arbitrary(), copy, o);
        },
        RecordedPayload::Upload(UploadDescriptor::Buffer(upload)) => {
            lemma_uploads(owner, upload, arbitrary(), o);
        },
        RecordedPayload::Upload(UploadDescriptor::Texture(upload)) => {
            lemma_uploads(owner, arbitrary(), upload, o);
        },
        RecordedPayload::Readback(ticket) => {
            lemma_readback(owner, ticket, o);
        },
        RecordedPayload::ComputeDispatch(dispatch) => {
            lemma_dispatch(owner, dispatch, o);
        },
        RecordedPayload::QueryBegin(point) => {
            lemma_queries(owner, point, o);
        },
        RecordedPayload::QueryEnd(point) => {
            lemma_queries(owner, point, o);
        },
        RecordedPayload::TimestampWrite(point) => {
            lemma_queries(owner, point, o);
        },
        RecordedPayload::RasterBegin(begin) => {
            lemma_begin(owner, begin, o);
        },
        RecordedPayload::RasterDraw(draw) => {
            lemma_raster_draw(owner, draw, o);
        },
        RecordedPayload::RasterIndirect(indirect) => {
            lemma_raster_indirect(owner, indirect, o);
        },
        _ => {},
    }
}

spec fn command_at(commands: Seq<Arc<RecordedCommand>>, at: int) -> RecordedCommand {
    *commands[at]
}

proof fn lemma_commands(
    owner: Owner,
    commands: Seq<Arc<RecordedCommand>>,
    at: int,
    actions: Seq<ActionModel>,
    o: Seq<NativeStep>,
)
    ensures
        only_asked(owner, owner.lower_commands(commands, at, actions, o).0),
    decreases commands.len() - at,
{
    if at < commands.len() {
        lemma_payload(owner, command_at(commands, at).payload, o);
        let (lowered, outcome) = owner.lower_command(command_at(commands, at), o);
        assert(only_asked(owner, lowered));
        if outcome is Ok {
            let more = match outcome->Ok_0 {
                Some(action) => actions.push(action),
                None => actions,
            };
            lemma_commands(lowered, commands, at + 1, more, o);
            lemma_asked_twice(
                owner,
                lowered,
                lowered.lower_commands(commands, at + 1, more, o).0,
            );
        }
    }
}

/// Lowering only asks: no command is given and nothing is made or destroyed,
/// whether it succeeds or refuses. It changes nothing that the owner remembers
/// but the numbers that it gave out.
pub proof fn lowering_only_asks(
    owner: Owner,
    batches: Seq<GlSubmissionBatch>,
    at: int,
    actions: Seq<ActionModel>,
    o: Seq<NativeStep>,
)
    ensures
        only_asked(owner, owner.lower_batches(batches, at, actions, o).0),
    decreases batches.len() - at,
{
    if at < batches.len() {
        lemma_commands(owner, batches[at].commands@, 0, actions, o);
        let (lowered, outcome) = owner.lower_commands(batches[at].commands@, 0, actions, o);
        if outcome is Ok {
            lowering_only_asks(lowered, batches, at + 1, outcome->Ok_0, o);
            lemma_asked_twice(
                owner,
                lowered,
                lowered.lower_batches(batches, at + 1, outcome->Ok_0, o).0,
            );
        }
    }
}

/// A refused submission gave GL nothing and left no trace but numbers.
pub proof fn refused_submissions_give_nothing(
    owner: Owner,
    batches: Seq<GlSubmissionBatch>,
    o: Seq<NativeStep>,
)
    requires
        owner.submit(batches, o).1 is Err,
    ensures
        only_asked(owner, owner.submit(batches, o).0),
{
    lowering_only_asks(owner, batches, 0, Seq::empty(), o);
    let (lowered, outcome) = owner.lower_batches(batches, 0, Seq::empty(), o);
    if outcome is Ok {
        let (current, _) = lowered.ready("NativeProviderOwner::submit phase B", o);
        assert(only_asked(lowered, current));
        lemma_asked_twice(owner, lowered, current);
    }
}

spec fn same_program(before: Owner, after: Owner) -> bool {
    &&& after.state.pipeline == before.state.pipeline
    &&& after.state.current_program == before.state.current_program
}

proof fn lemma_entry_keeps(
    owner: Owner,
    entry: crate::platform::object::GlBindGroupEntry,
    offsets: Seq<u32>,
    used: int,
    o: Seq<NativeStep>,
)
    ensures
        lasting::undisturbed(owner, owner.flush_entry(entry, offsets, used, o).0),
        same_program(owner, owner.flush_entry(entry, offsets, used, o).0),
{
    match entry.resource {
        crate::platform::object::GlBindingResource::BufferArray(spans) => {
            lemma_uniforms_keep(owner, entry.slot, spans@, 0, offsets, used, o);
        },
        crate::platform::object::GlBindingResource::TextureArray(views) => {
            lemma_textures_keep(owner, entry.slot, views@, 0, o);
        },
        crate::platform::object::GlBindingResource::SamplerArray(samplers) => {
            lemma_samplers_keep(owner, entry.slot, samplers@, 0, o);
        },
        _ => {},
    }
}

proof fn lemma_uniforms_keep(
    owner: Owner,
    slot: u32,
    spans: Seq<crate::platform::object::GlBufferSpan>,
    at: int,
    offsets: Seq<u32>,
    used: int,
    o: Seq<NativeStep>,
)
    ensures
        lasting::undisturbed(owner, owner.flush_uniforms(slot, spans, at, offsets, used, o).0),
        same_program(owner, owner.flush_uniforms(slot, spans, at, offsets, used, o).0),
    decreases spans.len() - at,
{
    if at < spans.len() {
        let (bound, _) = owner.flush_uniform(
            execute::slot_after(slot, at),
            spans[at],
            execute::offset_at(offsets, used),
            o,
        );
        lemma_uniforms_keep(
            bound,
            slot,
            spans,
            at + 1,
            offsets,
            execute::advanced(offsets, used),
            o,
        );
    }
}

proof fn lemma_textures_keep(
    owner: Owner,
    slot: u32,
    views: Seq<crate::platform::object::GlTextureViewRef>,
    at: int,
    o: Seq<NativeStep>,
)
    ensures
        lasting::undisturbed(owner, owner.flush_textures(slot, views, at, o).0),
        same_program(owner, owner.flush_textures(slot, views, at, o).0),
    decreases views.len() - at,
{
    if at < views.len() {
        let (bound, _) = owner.flush_texture(execute::slot_after(slot, at), views[at], o);
        lemma_textures_keep(bound, slot, views, at + 1, o);
    }
}

proof fn lemma_samplers_keep(
    owner: Owner,
    slot: u32,
    samplers: Seq<crate::platform::object::GlSamplerRef>,
    at: int,
    o: Seq<NativeStep>,
)
    ensures
        lasting::undisturbed(owner, owner.flush_samplers(slot, samplers, at, o).0),
        same_program(owner, owner.flush_samplers(slot, samplers, at, o).0),
    decreases samplers.len() - at,
{
    if at < samplers.len() {
        let (bound, _) = owner.flush_sampler(execute::slot_after(slot, at), samplers[at], o);
        lemma_samplers_keep(bound, slot, samplers, at + 1, o);
    }
}

proof fn lemma_entries_keep(
    owner: Owner,
    entries: Seq<crate::platform::object::GlBindGroupEntry>,
    at: int,
    offsets: Seq<u32>,
    used: int,
    o: Seq<NativeStep>,
)
    ensures
        lasting::undisturbed(owner, owner.flush_entries(entries, at, offsets, used, o).0),
        same_program(owner, owner.flush_entries(entries, at, offsets, used, o).0),
    decreases entries.len() - at,
{
    if at < entries.len() {
        lemma_entry_keeps(owner, entries[at], offsets, used, o);
        let (bound, outcome) = owner.flush_entry(entries[at], offsets, used, o);
        if outcome is Ok {
            lemma_entries_keep(bound, entries, at + 1, offsets, outcome->Ok_0, o);
        }
    }
}

spec fn entries_of(owner: Owner, name: GlObjectName) -> Seq<
    crate::platform::object::GlBindGroupEntry,
> {
    (*owner.bind_groups[name@ as u64]).entries@
}

proof fn lemma_flush_keeps(
    owner: Owner,
    groups: Seq<crate::state::context::BoundGroup>,
    at: int,
    o: Seq<NativeStep>,
)
    ensures
        lasting::undisturbed(owner, owner.flush_bindings(groups, at, o).0),
        same_program(owner, owner.flush_bindings(groups, at, o).0),
    decreases groups.len() - at,
{
    if at < groups.len() {
        let group = groups[at];
        lemma_entries_keep(
            owner,
            entries_of(owner, group.name),
            0,
            group.dynamic_offsets,
            0,
            o,
        );
        let (bound, outcome) = owner.flush_group(group, o);
        if outcome is Ok {
            lemma_flush_keeps(bound, groups, at + 1, o);
        }
    }
}

proof fn lemma_settle_keeps(owner: Owner, o: Seq<NativeStep>)
    ensures
        lasting::undisturbed(owner, owner.settle_bindings(o).0),
        same_program(owner, owner.settle_bindings(o).0),
{
    lemma_flush_keeps(
        owner,
        crate::state::context::flush_of(owner.state.bindings, owner.state.dirty_bindings),
        0,
        o,
    );
}

proof fn lemma_staging_keeps(
    state: crate::state::context::StateModel,
    groups: Seq<crate::state::context::BoundGroup>,
    at: int,
)
    ensures
        Owner::staging(state, groups, at).pipeline == state.pipeline,
        Owner::staging(state, groups, at).current_program == state.current_program,
    decreases groups.len() - at,
{
    if at < groups.len() {
        lemma_staging_keeps(state.with_group(groups[at]), groups, at + 1);
    }
}

proof fn lemma_draw_keeps(owner: Owner, action: execute::DrawModel, o: Seq<NativeStep>)
    ensures
        lasting::undisturbed(owner, owner.prepare_raster_draw(action, o).0),
{
    let start = if action.has_dynamic_state {
        owner.doubting(crate::state::knowledge::StateDomain::RasterPipeline)
    } else {
        owner
    };
    let (installed, _) = start.settle_pipeline(action, o);
    let left = if action.has_dynamic_state {
        installed.doubting(crate::state::knowledge::StateDomain::RasterPipeline)
    } else {
        installed
    };
    lemma_staging_keeps(left.state, action.bind_groups, 0);
    lemma_settle_keeps(left.knowing(Owner::staging(left.state, action.bind_groups, 0)), o);
}

proof fn lemma_pass_keeps(owner: Owner, action: execute::BeginModel, o: Seq<NativeStep>)
    ensures
        lasting::undisturbed(owner, owner.execute_raster_begin(action, o).0),
        lasting::undisturbed(owner, owner.execute_raster_end(o).0),
{
}

proof fn lemma_raster_keeps(
    owner: Owner,
    action: execute::DrawModel,
    command: crate::api::gl::GlIndirectCommandRange,
    o: Seq<NativeStep>,
)
    ensures
        lasting::undisturbed(owner, owner.execute_raster_draw(action, o).0),
        lasting::undisturbed(owner, owner.execute_raster_indirect(action, command, o).0),
{
    lemma_draw_keeps(owner, action, o);
}

proof fn lemma_dispatch_keeps(
    owner: Owner,
    program: crate::api::identity::ProgramId,
    program_key: crate::state::context::CanonicalBlockId,
    groups: crate::api::gl::GlDispatchGroups,
    bind_groups: Seq<crate::state::context::BoundGroup>,
    o: Seq<NativeStep>,
)
    ensures
        lasting::undisturbed(owner, owner.execute_compute_dispatch(program, program_key, groups, bind_groups, o).0),
{
    let (selected, _) = owner.settle_compute(program, program_key, o);
    lemma_settle_keeps(selected.knowing(Owner::staging(selected.state, bind_groups, 0)), o);
}

proof fn lemma_query_keeps(
    owner: Owner,
    query: crate::api::identity::QueryId,
    ty: QueryType,
    state_key: crate::state::context::CanonicalBlockId,
    o: Seq<NativeStep>,
)
    ensures
        lasting::undisturbed(owner, owner.execute_query_begin(query, ty, state_key, o).0),
        lasting::undisturbed(owner, owner.execute_query_end(ty, o).0),
        lasting::undisturbed(owner, owner.execute_timestamp(query, o).0),
{
}

proof fn lemma_action_keeps(owner: Owner, action: ActionModel, o: Seq<NativeStep>)
    ensures
        lasting::undisturbed(owner, owner.execute_action(action, o).0),
{
    match action {
        ActionModel::RasterBegin(begin) => {
            lemma_pass_keeps(owner, begin, o);
        },
        ActionModel::RasterEnd => {
            lemma_pass_keeps(owner, arbitrary(), o);
        },
        ActionModel::RasterDraw(draw) => {
            lemma_raster_keeps(owner, draw, arbitrary(), o);
        },
        ActionModel::RasterIndirect { draw, command } => {
            lemma_raster_keeps(owner, draw, command, o);
        },
        ActionModel::ComputeDispatch { program, program_key, groups, bind_groups } => {
            lemma_dispatch_keeps(owner, program, program_key, groups, bind_groups, o);
        },
        ActionModel::QueryBegin { query, ty, state_key } => {
            lemma_query_keeps(owner, query, ty, state_key, o);
        },
        ActionModel::QueryEnd { ty } => {
            lemma_query_keeps(owner, arbitrary(), ty, arbitrary(), o);
        },
        ActionModel::Timestamp(query) => {
            lemma_query_keeps(owner, query, arbitrary(), arbitrary(), o);
        },
        _ => {},
    }
}

proof fn lemma_actions_keep(
    owner: Owner,
    actions: Seq<ActionModel>,
    at: int,
    readbacks: Seq<crate::native::owner::PendingReadback>,
    o: Seq<NativeStep>,
)
    ensures
        lasting::undisturbed(owner, owner.execute_actions(actions, at, readbacks, o).0),
    decreases actions.len() - at,
{
    if at < actions.len() {
        lemma_action_keeps(owner, actions[at], o);
        let (done, outcome) = owner.execute_action(actions[at], o);
        if outcome is Ok {
            let more = match outcome->Ok_0 {
                Some(readback) => readbacks.push(readback),
                None => readbacks,
            };
            lemma_actions_keep(done, actions, at + 1, more, o);
        }
    }
}

/// An accepted submission has its serial, and under it a state: it is pending,
/// or it has failed. If it has failed, every readback of it was told so.
/// Earlier submissions keep theirs.
pub proof fn accepted_submissions_have_a_state(
    owner: Owner,
    actions: Seq<ActionModel>,
    o: Seq<NativeStep>,
)
    requires
        owner.commit(actions, o).1 is Ok,
    ensures
        ({
            let (after, serial) = owner.commit(actions, o);
            let before = owner.completions;
            &&& serial->Ok_0 == before.len() + 1
            &&& after.completions.len() == before.len() + 1
            &&& after.completions.take(before.len() as int) == before
            &&& {
                ||| after.completions.last() is Pending && after.notices == owner.notices
                ||| {
                    &&& !(after.completions.last() is Pending)
                    &&& !(after.completions.last() is Complete)
                    &&& after.notices == owner.notices + execute::statuses(
                        execute::readback_tickets(actions),
                        execute::if_lost(after.completions.last() is DeviceLost),
                    )
                }
            }
        }),
{
    let (current, _) = owner.ready("NativeProviderOwner::submit phase B", o);
    lemma_actions_keep(current, actions, 0, Seq::empty(), o);
    let (after, _) = owner.commit(actions, o);
    assert(after.completions.take(owner.completions.len() as int) =~= owner.completions);
}

/// Dynamic values do not linger: after a draw with some of its own, no pipeline
/// and no program counts as installed, so that the next draw installs its
/// pipeline completely.
pub proof fn dynamic_values_do_not_linger(
    owner: Owner,
    action: execute::DrawModel,
    wanted: crate::state::context::RasterPipelinePacket,
    o: Seq<NativeStep>,
)
    requires
        action.has_dynamic_state,
    ensures
        ({
            let after = owner.execute_raster_draw(action, o).0.state;
            &&& after.pipeline is None
            &&& after.current_program is None
            &&& after.pipeline_diff(wanted) == crate::state::context::full_diff()
        }),
{
    let domain = crate::state::knowledge::StateDomain::RasterPipeline;
    let (installed, _) = owner.doubting(domain).settle_pipeline(action, o);
    let left = installed.doubting(domain);
    lemma_staging_keeps(left.state, action.bind_groups, 0);
    lemma_settle_keeps(left.knowing(Owner::staging(left.state, action.bind_groups, 0)), o);
}

/// A submission lasts, whether it is accepted or refused: what was submitted
/// before goes on as it was.
pub proof fn submitting_lasts(owner: Owner, batches: Seq<GlSubmissionBatch>, o: Seq<NativeStep>)
    ensures
        lasting::lasts(owner, owner.submit(batches, o).0),
{
    let (after, serial) = owner.submit(batches, o);
    lowering_only_asks(owner, batches, 0, Seq::empty(), o);
    let (lowered, outcome) = owner.lower_batches(batches, 0, Seq::empty(), o);
    if outcome is Ok && serial is Ok {
        let actions = outcome->Ok_0;
        let (current, _) = lowered.ready("NativeProviderOwner::submit phase B", o);
        lemma_actions_keep(current, actions, 0, Seq::empty(), o);
        accepted_submissions_have_a_state(lowered, actions, o);
        let before = owner.completions;
        assert forall|i: int| 0 <= i < before.len() implies after.completions[i]
            == #[trigger] before[i] by {
            assert(after.completions.take(before.len() as int)[i] == before[i]);
        }
        let statuses = after.notices.skip(owner.notices.len() as int);
        assert(owner.notices =~= after.notices.subrange(0, owner.notices.len() as int));
        assert forall|notice: crate::native::owner::Notice| #[trigger]
            lasting::news(owner, after).contains(notice) implies !(notice is Publish) by {
            let j = choose|j: int| 0 <= j < statuses.len() && statuses[j] == notice;
            assert(after.notices[owner.notices.len() + j] == notice);
        }
    } else {
        let held = Owner {
            next_canonical: owner.next_canonical,
            geometry_blocks: owner.geometry_blocks,
            ..after
        };
        refused_submissions_give_nothing(owner, batches, o);
        lasting::what_is_undisturbed_lasts(owner, held);
    }
}

} // verus!
