//! What a submission asks of a context: every recorded command, once it was
//! lowered and carried out, was given as what it says.

use vstd::prelude::*;
use std::sync::Arc;
use crate::api::command::{
    BoundGroupUse, ColorClearValue, ComputeDispatch, CopyRecord, DrawInputs, FrameAttachment, LoadOp,
    LocatedColor, QueryPoint, RecordedCommand, RecordedPayload, UploadDescriptor, VertexBufferUse,
};
use crate::api::gl::{
    GlAttachmentTarget, GlBufferRange, GlColorAttachment, GlDrawCommand, GlPassAttachmentView,
    GlRenderTarget, GlTextureRegion, GlTextureView,
};
use crate::api::identity::{BufferId, TextureId};
use crate::api::resource::{
    Buffer, Extent3d, Origin3d, ReadbackRequest, Texture, TextureSubresourceLayers,
};
use crate::format_laws;
use crate::native::execute;
use crate::native::execute::{ActionModel, DrawModel};
use crate::native::link::{CommandModel, NativeCommand, NativeStep};
use crate::native::lower;
use crate::native::owner::{NativeTextureView, Owner, PendingReadback};
use crate::state::context::BoundGroup;
use crate::translate_raster;
use crate::translate_raster::GlRasterDrawScalars;

verus! {

/// Whether this is the buffer.
pub open spec fn is_buffer(id: BufferId, buffer: Buffer) -> bool {
    buffer.native is Some && id.slot + 1 == buffer.native->0@ && id.generation == 0
}

/// Whether this is the texture.
pub open spec fn is_texture(id: TextureId, texture: Texture) -> bool {
    texture.native is Some && id.slot + 1 == texture.native->0@ && id.generation == 0
}

/// Whether these are so many bytes of a buffer, from an offset on.
pub open spec fn is_range(range: GlBufferRange, buffer: Buffer, offset: int, size: int) -> bool {
    is_buffer(range.buffer, buffer) && range.offset == offset && range.size == size
}

/// Whether this is a box of texels of a texture.
pub open spec fn is_region(
    region: GlTextureRegion,
    texture: Texture,
    layers: TextureSubresourceLayers,
    origin: Origin3d,
    extent: Extent3d,
) -> bool {
    &&& is_texture(region.subresource.texture, texture)
    &&& region.subresource.mip_level == layers.mip_level
    &&& region.subresource.base_layer == layers.base_layer
    &&& region.subresource.layer_count == layers.layer_count
    &&& region.subresource.aspect is Color <==> layers.aspect is Color
    &&& region.subresource.aspect is DepthOnly <==> layers.aspect is Depth
    &&& region.subresource.aspect is StencilOnly <==> layers.aspect is Stencil
    &&& region.origin.x == origin.x && region.origin.y == origin.y && region.origin.z == origin.z
    &&& region.extent.width == extent.width
    &&& region.extent.height == extent.height
    &&& region.extent.depth_or_layers == extent.depth
}

/// Whether a draw draws just the vertices from one to another, or just the
/// indices, for just the instances.
pub open spec fn draws_span(
    draw: GlDrawCommand,
    indexed: bool,
    start: int,
    end: int,
    instances: int,
) -> bool {
    match draw {
        GlDrawCommand::Indexed(draw) => {
            &&& indexed
            &&& draw.first_index == start
            &&& draw.first_index + draw.index_count == end
            &&& draw.instance_count == instances
        },
        GlDrawCommand::NonIndexed(draw) => {
            &&& !indexed
            &&& draw.first_vertex == start
            &&& draw.first_vertex + draw.vertex_count == end
            &&& draw.instance_count == instances
        },
    }
}

/// Whether the largest power of two up to eight that divides a number is this.
pub open spec fn is_alignment_of(alignment: u32, bytes: u32) -> bool {
    &&& alignment == 1 || alignment == 2 || alignment == 4 || alignment == 8
    &&& bytes as int % alignment as int == 0
    &&& alignment < 8 ==> bytes as int % (2 * alignment as int) != 0
}

/// Whether a step gives what a recorded command says. The owner is the one that
/// carries it out.
pub open spec fn gives(payload: RecordedPayload, step: NativeStep, owner: Owner) -> bool {
    match payload {
        RecordedPayload::Copy(CopyRecord::Buffer(copy)) => match step {
            NativeStep::Command {
                command: CommandModel::Plain(NativeCommand::CopyBuffer { source, destination }),
                reply,
            } => {
                &&& reply is Ok
                &&& is_range(source, copy.src, copy.src_offset as int, copy.size as int)
                &&& is_range(destination, copy.dst, copy.dst_offset as int, copy.size as int)
            },
            _ => false,
        },
        RecordedPayload::Copy(CopyRecord::Texture(copy)) => match step {
            NativeStep::Command {
                command: CommandModel::Plain(NativeCommand::CopyTexture { source, destination }),
                reply,
            } => {
                &&& reply is Ok
                &&& is_region(source, copy.src, copy.src_subresource, copy.src_origin, copy.extent)
                &&& is_region(
                    destination,
                    copy.dst,
                    copy.dst_subresource,
                    copy.dst_origin,
                    copy.extent,
                )
            },
            _ => false,
        },
        RecordedPayload::Upload(UploadDescriptor::Buffer(upload)) => match step {
            NativeStep::Command {
                command: CommandModel::Plain(NativeCommand::UploadBuffer { destination, bytes }),
                reply,
            } => {
                &&& reply is Ok
                &&& bytes == upload.bytes
                &&& is_range(
                    destination,
                    upload.dst,
                    upload.dst_offset as int,
                    (upload.bytes@.len() as u64) as int,
                )
            },
            _ => false,
        },
        RecordedPayload::Upload(UploadDescriptor::Texture(upload)) => match step {
            NativeStep::Command {
                command: CommandModel::Plain(
                    NativeCommand::UploadTexture { destination, layout, bytes },
                ),
                reply,
            } => {
                &&& reply is Ok
                &&& bytes == upload.bytes
                &&& is_region(
                    destination,
                    upload.dst,
                    upload.subresource,
                    upload.origin,
                    upload.extent,
                )
                &&& layout.bytes_per_row == upload.source_layout.bytes_per_row
                &&& layout.rows_per_image == upload.source_layout.rows_per_image
                &&& layout.offset == 0
                &&& layout.format is Rgba8
                &&& is_alignment_of(layout.alignment, layout.bytes_per_row)
                &&& layout.repack_limit == upload.bytes@.len() as u64
            },
            _ => false,
        },
        RecordedPayload::Readback(ticket) => match (ticket.request, step) {
            (
                ReadbackRequest::Buffer { src, range },
                NativeStep::ReadBuffer { source, reply },
            ) => reply is Ok && is_range(source, src, range.offset as int, range.size as int),
            (
                ReadbackRequest::Texture { src, subresource, origin, extent },
                NativeStep::ReadTexture { source, layout, reply },
            ) => {
                &&& reply is Ok
                &&& is_region(source, src, subresource, origin, extent)
                &&& layout.bytes_per_row == 4 * extent.width
                &&& layout.rows_per_image == extent.height
                &&& layout.offset == 0
                &&& layout.format is Rgba8
                &&& layout.alignment == 4
            },
            _ => false,
        },
        RecordedPayload::RasterDraw(draw) => match step {
            NativeStep::Command {
                command: CommandModel::Plain(NativeCommand::Draw(given)),
                reply,
            } => {
                &&& reply is Ok
                &&& draws_span(
                    given,
                    draw.inputs.index is Some,
                    draw.range.start as int,
                    draw.range.end as int,
                    draw.instances.end as int,
                )
                &&& draw.instances.start == 0
                &&& draw.base_vertex == 0
            },
            _ => false,
        },
        RecordedPayload::RasterIndirect(indirect) => match step {
            NativeStep::Command {
                command: CommandModel::Plain(NativeCommand::DrawIndirect(given)),
                reply,
            } => {
                &&& reply is Ok
                &&& is_range(
                    given.range,
                    indirect.arguments,
                    0,
                    indirect.arguments.descriptor.size as int,
                )
                &&& given.command_offset == indirect.arguments_offset
                &&& given.draw_count == 1 && indirect.draw_count == 1 && indirect.count is None
                &&& given.stride == indirect.stride
                &&& given.abi is Indexed <==> indirect.inputs.index is Some
            },
            _ => false,
        },
        RecordedPayload::ComputeDispatch(dispatch) => match step {
            NativeStep::Command {
                command: CommandModel::Plain(NativeCommand::Dispatch(groups)),
                reply,
            } => {
                &&& reply is Ok
                &&& groups.x == dispatch.x && groups.y == dispatch.y && groups.z == dispatch.z
                &&& dispatch.immediates@.len() == 0
            },
            _ => false,
        },
        RecordedPayload::QueryBegin(point) => match step {
            NativeStep::Command {
                command: CommandModel::Plain(NativeCommand::BeginOcclusionQuery(query)),
                reply,
            } => reply is Ok,
            _ => false,
        },
        RecordedPayload::QueryEnd(point) => match step {
            NativeStep::Command {
                command: CommandModel::Plain(NativeCommand::EndOcclusionQuery),
                reply,
            } => reply is Ok,
            _ => false,
        },
        RecordedPayload::TimestampWrite(point) => match step {
            NativeStep::Command {
                command: CommandModel::Plain(NativeCommand::WriteTimestamp(query)),
                reply,
            } => reply is Ok,
            _ => false,
        },
        RecordedPayload::RasterBegin(_) => match step {
            NativeStep::Command { command: CommandModel::BeginPass { .. }, reply } => reply is Ok,
            _ => false,
        },
        RecordedPayload::RasterEnd => match step {
            NativeStep::Command { command: CommandModel::Plain(NativeCommand::EndPass), reply } =>
                reply is Ok,
            NativeStep::Command { command: CommandModel::Plain(NativeCommand::Destroy(_)), reply } =>
                reply is Ok,
            _ => false,
        },
        _ => false,
    }
}

/// Whether a command, lowered by one owner and carried out by another, ended
/// with the step that gives it.
pub open spec fn is_given(
    owner: Owner,
    payload: RecordedPayload,
    o: Seq<NativeStep>,
    other: Owner,
    p: Seq<NativeStep>,
) -> bool {
    let done = other.execute_action(owner.lower_payload(payload, o).1->Ok_0, p).0;
    &&& done.log.len() > other.log.len()
    &&& gives(payload, done.log.last(), other)
}

proof fn lemma_copies_given(
    owner: Owner,
    payload: RecordedPayload,
    o: Seq<NativeStep>,
    other: Owner,
    p: Seq<NativeStep>,
)
    requires
        payload is Copy,
        owner.lower_payload(payload, o).1 is Ok,
        other.execute_action(owner.lower_payload(payload, o).1->Ok_0, p).1 is Ok,
    ensures
        is_given(owner, payload, o, other, p),
{
}

proof fn lemma_uploads_given(
    owner: Owner,
    payload: RecordedPayload,
    o: Seq<NativeStep>,
    other: Owner,
    p: Seq<NativeStep>,
)
    requires
        payload is Upload,
        owner.lower_payload(payload, o).1 is Ok,
        other.execute_action(owner.lower_payload(payload, o).1->Ok_0, p).1 is Ok,
    ensures
        is_given(owner, payload, o, other, p),
{
}

proof fn lemma_readbacks_given(
    owner: Owner,
    payload: RecordedPayload,
    o: Seq<NativeStep>,
    other: Owner,
    p: Seq<NativeStep>,
)
    requires
        payload is Readback,
        owner.lower_payload(payload, o).1 is Ok,
        other.execute_action(owner.lower_payload(payload, o).1->Ok_0, p).1 is Ok,
    ensures
        is_given(owner, payload, o, other, p),
{
}

proof fn lemma_executed_draw(owner: Owner, draw: DrawModel, o: Seq<NativeStep>)
    requires
        owner.execute_raster_draw(draw, o).1 is Ok,
    ensures
        owner.execute_raster_draw(draw, o).0.log.len() > owner.log.len(),
        match owner.execute_raster_draw(draw, o).0.log.last() {
            NativeStep::Command { command: given, reply } => reply is Ok && given
                == CommandModel::Plain(NativeCommand::Draw(draw.draw)),
            _ => false,
        },
{
    lemma_preparing_grows(owner, draw, o);
    let prepared = owner.prepare_raster_draw(draw, o);
    assert(prepared.1 is Ok);
}

proof fn lemma_executed_indirect(
    owner: Owner,
    draw: DrawModel,
    command: crate::api::gl::GlIndirectCommandRange,
    o: Seq<NativeStep>,
)
    requires
        owner.execute_raster_indirect(draw, command, o).1 is Ok,
    ensures
        owner.execute_raster_indirect(draw, command, o).0.log.len() > owner.log.len(),
        match owner.execute_raster_indirect(draw, command, o).0.log.last() {
            NativeStep::Command { command: given, reply } => reply is Ok && given
                == CommandModel::Plain(NativeCommand::DrawIndirect(command)),
            _ => false,
        },
{
    lemma_preparing_grows(owner, draw, o);
    let prepared = owner.prepare_raster_draw(draw, o);
    assert(prepared.1 is Ok);
}

proof fn lemma_lowered_draw(
    owner: Owner,
    inputs: DrawInputs,
    scalars: GlRasterDrawScalars,
    operation: &'static str,
    o: Seq<NativeStep>,
)
    requires
        owner.lower_draw(inputs, scalars, operation, o).1 is Ok,
    ensures
        owner.lower_draw(inputs, scalars, operation, o).1->Ok_0.draw == scalars.draw.draw,
{
}

proof fn lemma_lowered_raster_draw(
    owner: Owner,
    draw: crate::api::command::RasterDraw,
    o: Seq<NativeStep>,
)
    requires
        owner.lower_raster_draw(draw, o).1 is Ok,
    ensures
        owner.lower_raster_draw(draw, o).1->Ok_0 is RasterDraw,
        draws_span(
            owner.lower_raster_draw(draw, o).1->Ok_0->RasterDraw_0.draw,
            draw.inputs.index is Some,
            draw.range.start as int,
            draw.range.end as int,
            draw.instances.end as int,
        ),
        draw.instances.start == 0,
        draw.base_vertex == 0,
{
    let scalars = translate_raster::drawn_scalars(draw)->Ok_0;
    lemma_lowered_draw(
        owner,
        draw.inputs,
        scalars,
        "NativeProviderOwner::submit phase A raster-draw",
        o,
    );
}

proof fn lemma_lowered_indirect(
    owner: Owner,
    indirect: crate::api::command::RasterIndirect,
    o: Seq<NativeStep>,
)
    requires
        owner.lower_raster_indirect(indirect, o).1 is Ok,
    ensures
        ({
            let action = owner.lower_raster_indirect(indirect, o).1->Ok_0;
            let given = action->command;
            &&& action is RasterIndirect
            &&& is_range(
                given.range,
                indirect.arguments,
                0,
                indirect.arguments.descriptor.size as int,
            )
            &&& given.command_offset == indirect.arguments_offset
            &&& given.draw_count == 1 && indirect.draw_count == 1 && indirect.count is None
            &&& given.stride == indirect.stride
            &&& given.abi is Indexed <==> indirect.inputs.index is Some
        }),
{
}

#[verifier::spinoff_prover]
#[verifier::rlimit(60)]
proof fn lemma_draws_given(
    owner: Owner,
    draw: crate::api::command::RasterDraw,
    o: Seq<NativeStep>,
    other: Owner,
    p: Seq<NativeStep>,
)
    requires
        owner.lower_raster_draw(draw, o).1 is Ok,
        other.execute_raster_draw(owner.lower_raster_draw(draw, o).1->Ok_0->RasterDraw_0, p).1
            is Ok,
    ensures
        ({
            let done = other.execute_raster_draw(
                owner.lower_raster_draw(draw, o).1->Ok_0->RasterDraw_0,
                p,
            ).0;
            &&& done.log.len() > other.log.len()
            &&& gives(RecordedPayload::RasterDraw(draw), done.log.last(), other)
        }),
{
    lemma_lowered_raster_draw(owner, draw, o);
    lemma_executed_draw(other, owner.lower_raster_draw(draw, o).1->Ok_0->RasterDraw_0, p);
}

#[verifier::spinoff_prover]
#[verifier::rlimit(60)]
proof fn lemma_indirect_draws_given(
    owner: Owner,
    indirect: crate::api::command::RasterIndirect,
    o: Seq<NativeStep>,
    other: Owner,
    p: Seq<NativeStep>,
)
    requires
        owner.lower_raster_indirect(indirect, o).1 is Ok,
        other.execute_raster_indirect(
            owner.lower_raster_indirect(indirect, o).1->Ok_0->RasterIndirect_draw,
            owner.lower_raster_indirect(indirect, o).1->Ok_0->command,
            p,
        ).1 is Ok,
    ensures
        ({
            let done = other.execute_raster_indirect(
                owner.lower_raster_indirect(indirect, o).1->Ok_0->RasterIndirect_draw,
                owner.lower_raster_indirect(indirect, o).1->Ok_0->command,
                p,
            ).0;
            &&& done.log.len() > other.log.len()
            &&& gives(RecordedPayload::RasterIndirect(indirect), done.log.last(), other)
        }),
{
    lemma_lowered_indirect(owner, indirect, o);
    let action = owner.lower_raster_indirect(indirect, o).1->Ok_0;
    lemma_executed_indirect(other, action->RasterIndirect_draw, action->command, p);
}

proof fn lemma_dispatches_given(
    owner: Owner,
    payload: RecordedPayload,
    o: Seq<NativeStep>,
    other: Owner,
    p: Seq<NativeStep>,
)
    requires
        payload is ComputeDispatch,
        owner.lower_payload(payload, o).1 is Ok,
        other.execute_action(owner.lower_payload(payload, o).1->Ok_0, p).1 is Ok,
    ensures
        is_given(owner, payload, o, other, p),
{
    let action = owner.lower_payload(payload, o).1->Ok_0;
    let selected = other.settle_compute(
        action->ComputeDispatch_program,
        action->program_key,
        p,
    ).0;
    lemma_settling_grows(
        selected.knowing(Owner::staging(selected.state, action->ComputeDispatch_bind_groups, 0)),
        p,
    );
}

proof fn lemma_queries_given(
    owner: Owner,
    payload: RecordedPayload,
    o: Seq<NativeStep>,
    other: Owner,
    p: Seq<NativeStep>,
)
    requires
        payload is QueryBegin || payload is QueryEnd || payload is TimestampWrite,
        owner.lower_payload(payload, o).1 is Ok,
        other.execute_action(owner.lower_payload(payload, o).1->Ok_0, p).1 is Ok,
    ensures
        is_given(owner, payload, o, other, p),
{
}

proof fn lemma_passes_given(
    owner: Owner,
    payload: RecordedPayload,
    o: Seq<NativeStep>,
    other: Owner,
    p: Seq<NativeStep>,
)
    requires
        payload is RasterBegin || payload is RasterEnd,
        owner.lower_payload(payload, o).1 is Ok,
        other.execute_action(owner.lower_payload(payload, o).1->Ok_0, p).1 is Ok,
    ensures
        is_given(owner, payload, o, other, p),
{
}

/// A recorded command that was lowered by one owner and carried out by another
/// ends with the step that gives what the command says: which bytes, which
/// texels, which vertices, how many groups.
#[verifier::spinoff_prover]
#[verifier::rlimit(60)]
pub proof fn commands_are_given_as_recorded(
    owner: Owner,
    payload: RecordedPayload,
    o: Seq<NativeStep>,
    other: Owner,
    p: Seq<NativeStep>,
)
    requires
        owner.lower_payload(payload, o).1 is Ok,
        other.execute_action(owner.lower_payload(payload, o).1->Ok_0, p).1 is Ok,
    ensures
        is_given(owner, payload, o, other, p),
{
    if payload is Copy {
        lemma_copies_given(owner, payload, o, other, p);
    } else if payload is Upload {
        lemma_uploads_given(owner, payload, o, other, p);
    } else if payload is Readback {
        lemma_readbacks_given(owner, payload, o, other, p);
    } else if payload is RasterDraw {
        lemma_lowered_raster_draw(owner, payload->RasterDraw_0, o);
        lemma_draws_given(owner, payload->RasterDraw_0, o, other, p);
    } else if payload is RasterIndirect {
        lemma_lowered_indirect(owner, payload->RasterIndirect_0, o);
        lemma_indirect_draws_given(owner, payload->RasterIndirect_0, o, other, p);
    } else if payload is ComputeDispatch {
        lemma_dispatches_given(owner, payload, o, other, p);
    } else if payload is QueryBegin || payload is QueryEnd || payload is TimestampWrite {
        lemma_queries_given(owner, payload, o, other, p);
    } else if payload is RasterBegin || payload is RasterEnd {
        lemma_passes_given(owner, payload, o, other, p);
    }
}

/// What is read back is kept for its ticket; nothing else keeps anything.
pub proof fn readbacks_are_kept_for_their_tickets(
    owner: Owner,
    action: ActionModel,
    o: Seq<NativeStep>,
)
    requires
        owner.execute_action(action, o).1 is Ok,
    ensures
        ({
            let (done, kept) = owner.execute_action(action, o);
            match (action, done.log.last()) {
                (
                    ActionModel::ReadBuffer { ticket, .. },
                    NativeStep::ReadBuffer { reply, .. },
                ) => kept->Ok_0 == Some(
                    PendingReadback { ticket, bytes: reply->Ok_0, layout: None },
                ),
                (
                    ActionModel::ReadTexture { ticket, .. },
                    NativeStep::ReadTexture { reply, .. },
                ) => {
                    &&& kept->Ok_0 is Some
                    &&& kept->Ok_0->0.ticket == ticket
                    &&& kept->Ok_0->0.bytes == reply->Ok_0.bytes
                    &&& kept->Ok_0->0.layout is Some
                    &&& kept->Ok_0->0.layout->0.bytes_per_row == reply->Ok_0.layout.bytes_per_row
                    &&& kept->Ok_0->0.layout->0.rows_per_image == reply->Ok_0.layout.rows_per_image
                    &&& kept->Ok_0->0.layout->0.total_size == reply->Ok_0.bytes@.len() as u64
                },
                (ActionModel::ReadBuffer { .. }, _) | (ActionModel::ReadTexture { .. }, _) => false,
                _ => kept->Ok_0 is None,
            }
        }),
{
}

/// Whether a record goes on where another ends.
pub open spec fn extends(after: Seq<NativeStep>, before: Seq<NativeStep>) -> bool {
    before.len() <= after.len() && forall|i: int|
        0 <= i < before.len() ==> #[trigger] after[i] == before[i]
}

proof fn lemma_entries_grow(
    owner: Owner,
    entries: Seq<crate::platform::object::GlBindGroupEntry>,
    at: int,
    offsets: Seq<u32>,
    used: int,
    o: Seq<NativeStep>,
)
    ensures
        extends(owner.flush_entries(entries, at, offsets, used, o).0.log, owner.log),
        owner.flush_entries(entries, at, offsets, used, o).0.state.mode == owner.state.mode,
    decreases entries.len() - at,
{
    if at < entries.len() {
        let (bound, outcome) = owner.flush_entry(entries[at], offsets, used, o);
        let entry = entries[at];
        match entry.resource {
            crate::platform::object::GlBindingResource::BufferArray(spans) => {
                lemma_uniforms_grow(owner, entry.slot, spans@, 0, offsets, used, o);
            },
            crate::platform::object::GlBindingResource::TextureArray(views) => {
                lemma_textures_grow(owner, entry.slot, views@, 0, o);
            },
            crate::platform::object::GlBindingResource::SamplerArray(samplers) => {
                lemma_samplers_grow(owner, entry.slot, samplers@, 0, o);
            },
            _ => {},
        }
        if outcome is Ok {
            lemma_entries_grow(bound, entries, at + 1, offsets, outcome->Ok_0, o);
        }
    }
}

proof fn lemma_uniforms_grow(
    owner: Owner,
    slot: u32,
    spans: Seq<crate::platform::object::GlBufferSpan>,
    at: int,
    offsets: Seq<u32>,
    used: int,
    o: Seq<NativeStep>,
)
    ensures
        extends(owner.flush_uniforms(slot, spans, at, offsets, used, o).0.log, owner.log),
        owner.flush_uniforms(slot, spans, at, offsets, used, o).0.state.mode == owner.state.mode,
    decreases spans.len() - at,
{
    if at < spans.len() {
        let bound = owner.flush_uniform(
            execute::slot_after(slot, at),
            spans[at],
            execute::offset_at(offsets, used),
            o,
        ).0;
        lemma_uniforms_grow(
            bound,
            slot,
            spans,
            at + 1,
            offsets,
            execute::advanced(offsets, used),
            o,
        );
    }
}

proof fn lemma_textures_grow(
    owner: Owner,
    slot: u32,
    views: Seq<crate::platform::object::GlTextureViewRef>,
    at: int,
    o: Seq<NativeStep>,
)
    ensures
        extends(owner.flush_textures(slot, views, at, o).0.log, owner.log),
        owner.flush_textures(slot, views, at, o).0.state.mode == owner.state.mode,
    decreases views.len() - at,
{
    if at < views.len() {
        let bound = owner.flush_texture(execute::slot_after(slot, at), views[at], o).0;
        lemma_textures_grow(bound, slot, views, at + 1, o);
    }
}

proof fn lemma_samplers_grow(
    owner: Owner,
    slot: u32,
    samplers: Seq<crate::platform::object::GlSamplerRef>,
    at: int,
    o: Seq<NativeStep>,
)
    ensures
        extends(owner.flush_samplers(slot, samplers, at, o).0.log, owner.log),
        owner.flush_samplers(slot, samplers, at, o).0.state.mode == owner.state.mode,
    decreases samplers.len() - at,
{
    if at < samplers.len() {
        let bound = owner.flush_sampler(execute::slot_after(slot, at), samplers[at], o).0;
        lemma_samplers_grow(bound, slot, samplers, at + 1, o);
    }
}

proof fn lemma_bindings_grow(owner: Owner, groups: Seq<BoundGroup>, at: int, o: Seq<NativeStep>)
    ensures
        extends(owner.flush_bindings(groups, at, o).0.log, owner.log),
        owner.flush_bindings(groups, at, o).0.state.mode == owner.state.mode,
    decreases groups.len() - at,
{
    if at < groups.len() {
        let group = groups[at];
        let (bound, outcome) = owner.flush_group(group, o);
        lemma_entries_grow(
            owner,
            (*owner.bind_groups[group.name@ as u64]).entries@,
            0,
            group.dynamic_offsets,
            0,
            o,
        );
        if outcome is Ok {
            lemma_bindings_grow(bound, groups, at + 1, o);
        }
    }
}

proof fn lemma_settling_grows(owner: Owner, o: Seq<NativeStep>)
    ensures
        extends(owner.settle_bindings(o).0.log, owner.log),
        owner.settle_bindings(o).0.state.mode == owner.state.mode,
{
    let groups = crate::state::context::flush_of(owner.state.bindings, owner.state.dirty_bindings);
    lemma_bindings_grow(owner, groups, 0, o);
}

proof fn lemma_preparing_grows(owner: Owner, action: DrawModel, o: Seq<NativeStep>)
    ensures
        extends(owner.prepare_raster_draw(action, o).0.log, owner.log),
{
    let start = if action.has_dynamic_state {
        owner.doubting(crate::state::knowledge::StateDomain::RasterPipeline)
    } else {
        owner
    };
    let installed = start.settle_pipeline(action, o).0;
    let left = if action.has_dynamic_state {
        installed.doubting(crate::state::knowledge::StateDomain::RasterPipeline)
    } else {
        installed
    };
    lemma_settling_grows(left.knowing(Owner::staging(left.state, action.bind_groups, 0)), o);
}

/// Whether the groups of a draw are those that were recorded, with their
/// dynamic offsets.
pub open spec fn are_groups(bound: Seq<BoundGroup>, groups: Seq<BoundGroupUse>) -> bool {
    &&& bound.len() == groups.len()
    &&& forall|i: int|
        0 <= i < groups.len() ==> {
            &&& (#[trigger] bound[i]).index == groups[i].index
            &&& Some(bound[i].name) == groups[i].group.native
            &&& bound[i].group == groups[i].group.id
            &&& bound[i].dynamic_offsets == groups[i].dynamic_offsets@
        }
}

proof fn lemma_vertices(
    owner: Owner,
    buffers: Seq<VertexBufferUse>,
    at: int,
    bindings: Seq<crate::api::gl::GlVertexBufferBinding>,
    operation: &'static str,
    o: Seq<NativeStep>,
)
    requires
        0 <= at <= buffers.len(),
        bindings.len() == at,
        forall|i: int| 0 <= i < buffers.len() ==> (#[trigger] buffers[i]).buffer.native is Some,
        forall|i: int|
            0 <= i < at ==> {
                &&& (#[trigger] bindings[i]).slot == buffers[i].slot
                &&& bindings[i].offset == buffers[i].range.offset
                &&& is_buffer(bindings[i].buffer, buffers[i].buffer)
            },
        owner.lower_vertices(buffers, at, bindings, operation, o).1 is Ok,
    ensures
        ({
            let all = owner.lower_vertices(buffers, at, bindings, operation, o).1->Ok_0;
            &&& all.len() == buffers.len()
            &&& forall|i: int|
                0 <= i < buffers.len() ==> {
                    &&& (#[trigger] all[i]).slot == buffers[i].slot
                    &&& all[i].offset == buffers[i].range.offset
                    &&& is_buffer(all[i].buffer, buffers[i].buffer)
                }
        }),
        owner.lower_vertices(buffers, at, bindings, operation, o).0.raster_pipelines
            == owner.raster_pipelines,
    decreases buffers.len() - at,
{
    if at < buffers.len() {
        let (found, outcome) = owner.buffer_id(buffers[at].buffer.native->0, operation, o);
        let binding = crate::api::gl::GlVertexBufferBinding {
            slot: buffers[at].slot,
            buffer: outcome->Ok_0,
            offset: buffers[at].range.offset,
        };
        lemma_vertices(found, buffers, at + 1, bindings.push(binding), operation, o);
    }
}

/// A draw that was lowered has the program, the vertex array and the state of
/// its pipeline, with its own dynamic values in the place of the pipeline's;
/// its vertex buffers, its indices and its groups are those that were recorded.
pub proof fn draws_are_of_their_inputs(
    owner: Owner,
    inputs: DrawInputs,
    scalars: GlRasterDrawScalars,
    operation: &'static str,
    o: Seq<NativeStep>,
)
    requires
        lower::unbacked_input(inputs, None) is None,
        owner.lower_draw(inputs, scalars, operation, o).1 is Ok,
    ensures
        ({
            let draw = owner.lower_draw(inputs, scalars, operation, o).1->Ok_0;
            let pipeline = owner.raster_pipelines[inputs.pipeline.native->0@ as u64];
            &&& inputs.pipeline.native is Some
            &&& owner.raster_pipelines.contains_key(inputs.pipeline.native->0@ as u64)
            &&& draw.program == pipeline.program
            &&& draw.vertex_array == pipeline.vertex_array
            &&& draw.packet == pipeline.packet
            &&& draw.draw == scalars.draw.draw
            &&& draw.state.topology == pipeline.state.topology
            &&& draw.state.cull_mode == pipeline.state.cull_mode
            &&& draw.state.front_face == pipeline.state.front_face
            &&& draw.state.color_targets == pipeline.state.color_targets
            &&& draw.state.multisample == pipeline.state.multisample
            &&& scalars.viewport is Some ==> draw.state.viewport == scalars.viewport->0
            &&& scalars.viewport is None ==> draw.state.viewport == pipeline.state.viewport
            &&& draw.state.scissor == scalars.scissor
            &&& draw.state.blend_constant == scalars.blend_constant
            &&& draw.state.depth_stencil is Some <==> pipeline.state.depth_stencil is Some
            &&& draw.state.depth_stencil is Some ==> {
                let own = draw.state.depth_stencil->0;
                let made = pipeline.state.depth_stencil->0;
                &&& own.stencil_reference == scalars.stencil_reference
                &&& own.depth_write_enabled == made.depth_write_enabled
                &&& own.depth_compare == made.depth_compare
                &&& own.depth_bias == made.depth_bias
                &&& own.stencil_front == made.stencil_front
                &&& own.stencil_back == made.stencil_back
            }
            &&& !draw.has_dynamic_state ==> draw.state == pipeline.state
            &&& draw.geometry.len() == inputs.vertex_buffers@.len()
            &&& forall|i: int|
                0 <= i < inputs.vertex_buffers@.len() ==> {
                    &&& (#[trigger] draw.geometry[i]).slot == inputs.vertex_buffers@[i].slot
                    &&& draw.geometry[i].offset == inputs.vertex_buffers@[i].range.offset
                    &&& is_buffer(draw.geometry[i].buffer, inputs.vertex_buffers@[i].buffer)
                }
            &&& draw.index is Some <==> inputs.index is Some
            &&& inputs.index is Some ==> {
                &&& is_buffer(draw.index->0.buffer, inputs.index->0.buffer)
                &&& draw.index->0.offset == inputs.index->0.range.offset
                &&& draw.index->0.format is Uint16 <==> inputs.index->0.format is Uint16
            }
            &&& are_groups(draw.bind_groups, inputs.groups@)
        }),
{
    let current = owner.ready(operation, o).0;
    lemma_vertices(current, inputs.vertex_buffers@, 0, Seq::empty(), operation, o);
    let (lowered, outcome) = owner.lower_draw(inputs, scalars, operation, o);
    let groups = inputs.groups@;
    assert forall|i: int| 0 <= i < groups.len() implies (#[trigger] groups[i]).group.native
        is Some by {
        if groups[i].group.native is None {
            assert(lower::unbacked_group(groups) is Some);
        }
    }
}

/// A dispatch that was lowered has the program of its pipeline and the groups
/// that were recorded.
pub proof fn dispatches_are_of_their_inputs(
    owner: Owner,
    dispatch: ComputeDispatch,
    o: Seq<NativeStep>,
)
    requires
        owner.lower_compute_dispatch(dispatch, o).1 is Ok,
    ensures
        ({
            let action = owner.lower_compute_dispatch(dispatch, o).1->Ok_0;
            &&& action is ComputeDispatch
            &&& dispatch.pipeline.native is Some
            &&& owner.compute_pipelines.contains_key(dispatch.pipeline.native->0@ as u64)
            &&& action->ComputeDispatch_program
                == owner.compute_pipelines[dispatch.pipeline.native->0@ as u64]
            &&& are_groups(action->ComputeDispatch_bind_groups, dispatch.groups@)
        }),
{
    let groups = dispatch.groups@;
    assert forall|i: int| 0 <= i < groups.len() implies (#[trigger] groups[i]).group.native
        is Some by {
        if groups[i].group.native is None {
            assert(lower::unbacked_group(groups) is Some);
        }
    }
}

/// A query is the one at its place in its set, and only a query of samples has
/// a begin and an end.
pub proof fn queries_are_of_their_sets(owner: Owner, point: QueryPoint, o: Seq<NativeStep>)
    ensures
        owner.lower_query_begin(point, o).1 is Ok ==> {
            let set = owner.query_sets[point.set.native->0@ as u64];
            let action = owner.lower_query_begin(point, o).1->Ok_0;
            &&& point.index < set.queries.len()
            &&& action is QueryBegin
            &&& action->query == set.queries[point.index as int]
            &&& action->QueryBegin_ty is Occlusion
            &&& set.ty is Occlusion
        },
        owner.lower_timestamp(point, o).1 is Ok ==> {
            let set = owner.query_sets[point.set.native->0@ as u64];
            let action = owner.lower_timestamp(point, o).1->Ok_0;
            &&& point.index < set.queries.len()
            &&& action == ActionModel::Timestamp(set.queries[point.index as int])
            &&& set.ty is Timestamp
        },
{
}

/// Whether an attachment of a pass is treated as it was recorded.
pub open spec fn treats(
    gl: GlColorAttachment,
    color: crate::api::command::ColorAttachment,
) -> bool {
    &&& gl.load is Clear <==> color.load is Clear
    &&& gl.store is Discard <==> color.store is Discard
    &&& gl.resolve_target is None
    &&& match color.load {
        LoadOp::Clear(ColorClearValue::Float(value)) => gl.clear == value,
        LoadOp::Clear(ColorClearValue::Sint(value)) => gl.clear == value,
        LoadOp::Clear(ColorClearValue::Uint(value)) => gl.clear == value,
        LoadOp::Load => true,
    }
}

/// Whether an attachment shows what a view shows.
pub open spec fn shows(
    view: GlTextureView,
    color: crate::api::command::ColorAttachment,
    views: Map<u64, NativeTextureView>,
) -> bool {
    &&& color.view is Texture
    &&& color.view->Texture_0.native is Some
    &&& views.contains_key(color.view->Texture_0.native->0@ as u64)
    &&& {
        let record = views[color.view->Texture_0.native->0@ as u64];
        &&& view.target == GlAttachmentTarget::Texture(record.texture)
        &&& view.format == record.format
        &&& view.mip_level == record.mip_level
        &&& view.array_layer == record.base_layer
        &&& view.layer_count == record.layer_count
    }
}

proof fn lemma_colors(
    owner: Owner,
    colors: Seq<LocatedColor>,
    at: int,
    views: Seq<GlTextureView>,
    operation: &'static str,
    o: Seq<NativeStep>,
)
    requires
        0 <= at <= colors.len(),
        views.len() == at,
        forall|i: int|
            0 <= i < colors.len() ==> (#[trigger] colors[i]).attachment.view is Texture
                && colors[i].attachment.view->Texture_0.native is Some,
        forall|i: int|
            0 <= i < at ==> shows(#[trigger] views[i], colors[i].attachment, owner.views),
        owner.lower_colors(colors, at, views, operation, o).1 is Ok,
    ensures
        ({
            let all = owner.lower_colors(colors, at, views, operation, o).1->Ok_0;
            &&& all.len() == colors.len()
            &&& forall|i: int|
                0 <= i < colors.len() ==> shows(#[trigger] all[i], colors[i].attachment, owner.views)
        }),
    decreases colors.len() - at,
{
    if at < colors.len() {
        let (found, outcome) = owner.attachment_view(
            colors[at].attachment.view->Texture_0.native->0,
            operation,
            o,
        );
        lemma_colors(found, colors, at + 1, views.push(outcome->Ok_0), operation, o);
    }
}

proof fn lemma_accepted(colors: Seq<LocatedColor>)
    requires
        lower::color_refusal(colors) is None,
    ensures
        forall|i: int|
            0 <= i < colors.len() ==> (#[trigger] colors[i]).attachment.view is Texture
                && colors[i].attachment.view->Texture_0.native is Some
                && colors[i].attachment.resolve is None,
    decreases colors.len(),
{
    if colors.len() > 0 {
        lemma_accepted(colors.drop_last());
        assert forall|i: int| 0 <= i < colors.len() implies (
        #[trigger] colors[i]).attachment.view is Texture
            && colors[i].attachment.view->Texture_0.native is Some
            && colors[i].attachment.resolve is None by {
            if i < colors.len() - 1 {
                assert(colors[i] == colors.drop_last()[i]);
            }
        }
    }
}

/// A pass on textures that was lowered and begun has the attachments that were
/// recorded, each at its location, cleared to its color or kept, and given up
/// or kept at the end, as was recorded; and the framebuffer that it is begun on
/// was made of the same views.
pub proof fn passes_are_begun_as_recorded(
    owner: Owner,
    colors: Seq<LocatedColor>,
    o: Seq<NativeStep>,
    other: Owner,
    p: Seq<NativeStep>,
)
    requires
        owner.lower_offscreen_begin(colors, o).1 is Ok,
        other.execute_action(owner.lower_offscreen_begin(colors, o).1->Ok_0, p).1 is Ok,
    ensures
        ({
            let done = other.execute_action(owner.lower_offscreen_begin(colors, o).1->Ok_0, p).0;
            &&& done.log.len() == other.log.len() + 2
            &&& match (done.log[other.log.len() as int], done.log.last()) {
                (
                    NativeStep::CreateFramebuffer { framebuffer, reply: made },
                    NativeStep::Command {
                        command: CommandModel::BeginPass { target, colors: given, depth_stencil },
                        reply,
                    },
                ) => {
                    &&& reply is Ok && made is Ok
                    &&& target == GlRenderTarget::Offscreen(made->Ok_0)
                    &&& done.active_framebuffer == Some(made->Ok_0)
                    &&& depth_stencil is None && framebuffer.depth_stencil is None
                    &&& framebuffer.colors.len() == colors.len()
                    &&& framebuffer.draw_buffers.len() == colors.len()
                    &&& given.len() == colors.len()
                    &&& forall|i: int|
                        0 <= i < colors.len() ==> {
                            &&& framebuffer.draw_buffers[i] == (#[trigger] colors[i]).location
                            &&& shows(framebuffer.colors[i], colors[i].attachment, owner.views)
                            &&& given[i].view == GlPassAttachmentView::Allocated(
                                framebuffer.colors[i],
                            )
                            &&& treats(given[i], colors[i].attachment)
                        }
                },
                _ => false,
            }
        }),
{
    let operation = "NativeProviderOwner::submit phase A raster-begin";
    lemma_accepted(colors);
    let current = owner.ready(operation, o).0;
    lemma_colors(current, colors, 0, Seq::empty(), operation, o);
}

/// Whether a command asks for no work.
pub open spec fn is_bound_only(command: RecordedCommand) -> bool {
    command.payload is ComputeBegin || command.payload is ComputeEnd
}

/// Whether an action is of the kind of a command.
pub open spec fn is_of(action: ActionModel, payload: RecordedPayload) -> bool {
    match payload {
        RecordedPayload::Copy(CopyRecord::Buffer(_)) => action is CopyBuffer,
        RecordedPayload::Copy(CopyRecord::Texture(_)) => action is CopyTexture,
        RecordedPayload::Upload(UploadDescriptor::Buffer(_)) => action is UploadBuffer,
        RecordedPayload::Upload(UploadDescriptor::Texture(_)) => action is UploadTexture,
        RecordedPayload::Readback(ticket) => match ticket.request {
            ReadbackRequest::Buffer { .. } => action is ReadBuffer && action->ReadBuffer_ticket
                == ticket,
            ReadbackRequest::Texture { .. } => action is ReadTexture && action->ReadTexture_ticket
                == ticket,
        },
        RecordedPayload::RasterBegin(_) => action is RasterBegin,
        RecordedPayload::RasterEnd => action is RasterEnd,
        RecordedPayload::RasterDraw(_) => action is RasterDraw,
        RecordedPayload::RasterIndirect(_) => action is RasterIndirect,
        RecordedPayload::ComputeDispatch(_) => action is ComputeDispatch,
        RecordedPayload::QueryBegin(_) => action is QueryBegin,
        RecordedPayload::QueryEnd(_) => action is QueryEnd,
        RecordedPayload::TimestampWrite(_) => action is Timestamp,
        _ => false,
    }
}

/// The commands that ask for work, in order, from a position on.
pub open spec fn working(commands: Seq<Arc<RecordedCommand>>, at: int) -> Seq<RecordedPayload>
    decreases commands.len() - at,
{
    if at >= commands.len() {
        Seq::empty()
    } else if is_bound_only(*commands[at]) {
        working(commands, at + 1)
    } else {
        seq![commands[at].payload] + working(commands, at + 1)
    }
}

/// What lowering one command gives.
pub open spec fn lowered_at(
    owner: Owner,
    commands: Seq<Arc<RecordedCommand>>,
    at: int,
    o: Seq<NativeStep>,
) -> (Owner, Result<Option<ActionModel>, crate::api::error::RhiError>) {
    owner.lower_command(*commands[at], o)
}

/// The actions of a batch stand behind those that were there, one for each
/// command that asks for work, in the order of the commands.
pub proof fn actions_keep_the_order_of_commands(
    owner: Owner,
    commands: Seq<Arc<RecordedCommand>>,
    at: int,
    before: Seq<ActionModel>,
    o: Seq<NativeStep>,
)
    requires
        0 <= at <= commands.len(),
        owner.lower_commands(commands, at, before, o).1 is Ok,
    ensures
        ({
            let actions = owner.lower_commands(commands, at, before, o).1->Ok_0;
            let asked = working(commands, at);
            &&& actions.len() == before.len() + asked.len()
            &&& forall|i: int| 0 <= i < before.len() ==> #[trigger] actions[i] == before[i]
            &&& forall|i: int|
                0 <= i < asked.len() ==> is_of(actions[before.len() + i], #[trigger] asked[i])
        }),
    decreases commands.len() - at,
{
    if at < commands.len() {
        let (lowered, outcome) = lowered_at(owner, commands, at, o);
        let rest = working(commands, at + 1);
        match outcome->Ok_0 {
            None => {
                actions_keep_the_order_of_commands(lowered, commands, at + 1, before, o);
            },
            Some(action) => {
                let longer = before.push(action);
                actions_keep_the_order_of_commands(lowered, commands, at + 1, longer, o);
                let actions = owner.lower_commands(commands, at, before, o).1->Ok_0;
                let asked = working(commands, at);
                assert(is_of(action, commands[at].payload));
                assert forall|i: int| 0 <= i < asked.len() implies is_of(
                    actions[before.len() + i],
                    #[trigger] asked[i],
                ) by {
                    if i == 0 {
                        assert(actions[before.len() as int] == longer[before.len() as int]);
                    } else {
                        assert(asked[i] == rest[i - 1]);
                    }
                }
                assert forall|i: int| 0 <= i < before.len() implies #[trigger] actions[i]
                    == before[i] by {
                    assert(longer[i] == before[i]);
                }
            },
        }
    }
}

proof fn lemma_staging_keeps_mode(
    state: crate::state::context::StateModel,
    groups: Seq<BoundGroup>,
    at: int,
)
    ensures
        Owner::staging(state, groups, at).mode == state.mode,
    decreases groups.len() - at,
{
    if at < groups.len() {
        lemma_staging_keeps_mode(state.with_group(groups[at]), groups, at + 1);
    }
}

/// Where nothing is taken on trust, a draw installs its whole pipeline first and
/// binds its own geometry last, just before it draws.
pub proof fn draws_are_prepared(owner: Owner, action: DrawModel, o: Seq<NativeStep>)
    requires
        owner.state.mode is Oracle,
        owner.execute_raster_draw(action, o).1 is Ok,
    ensures
        ({
            let log = owner.execute_raster_draw(action, o).0.log;
            &&& log.len() >= owner.log.len() + 3
            &&& match (log[owner.log.len() as int], log[log.len() - 2], log.last()) {
                (
                    NativeStep::Command {
                        command: CommandModel::ApplyPipeline { program, vertex_array, state, diff },
                        reply: installed,
                    },
                    NativeStep::Command {
                        command: CommandModel::BindVertices {
                            vertex_array: bound,
                            vertices,
                            index,
                        },
                        reply: taken,
                    },
                    NativeStep::Command {
                        command: CommandModel::Plain(NativeCommand::Draw(draw)),
                        reply: drawn,
                    },
                ) => {
                    &&& installed is Ok && taken is Ok && drawn is Ok
                    &&& program == action.program
                    &&& vertex_array == action.vertex_array
                    &&& state == action.state
                    &&& diff.program && diff.raster && diff.depth_stencil && diff.blend
                        && diff.multisample
                    &&& bound == action.vertex_array
                    &&& vertices == action.geometry
                    &&& index == action.index
                    &&& draw == action.draw
                },
                _ => false,
            }
        }),
{
    let start = if action.has_dynamic_state {
        owner.doubting(crate::state::knowledge::StateDomain::RasterPipeline)
    } else {
        owner
    };
    let installed = start.settle_pipeline(action, o).0;
    let left = if action.has_dynamic_state {
        installed.doubting(crate::state::knowledge::StateDomain::RasterPipeline)
    } else {
        installed
    };
    let staged = left.knowing(Owner::staging(left.state, action.bind_groups, 0));
    lemma_settling_grows(staged, o);
    lemma_staging_keeps_mode(left.state, action.bind_groups, 0);
    let bound = staged.settle_bindings(o).0;
    assert(bound.log[owner.log.len() as int] == installed.log[owner.log.len() as int]);
}

/// A pass on the drawable that was lowered is on the frame that is held: with
/// its number, its size and its texels, at location zero, treated as recorded.
pub proof fn drawable_passes_are_on_the_held_frame(
    owner: Owner,
    frame: FrameAttachment,
    color: crate::api::command::ColorAttachment,
    location: u32,
    o: Seq<NativeStep>,
)
    requires
        owner.lower_default_begin(frame, color, location, o).1 is Ok,
    ensures
        ({
            let action = owner.lower_default_begin(frame, color, location, o).1->Ok_0;
            let begin = action->RasterBegin_0;
            let acquired = frame.native->0;
            &&& action is RasterBegin
            &&& location == 0
            &&& color.resolve is None
            &&& frame.native is Some
            &&& owner.leases.contains_key(acquired.lease.id)
            &&& owner.leases[acquired.lease.id] is Some
            &&& (owner.leases[acquired.lease.id]->0).0 == acquired.serial
            &&& begin.framebuffer is None && begin.depth_stencil is None
            &&& match begin.target {
                GlRenderTarget::Default(target) => {
                    &&& target.frame_serial == acquired.serial
                    &&& target.width == acquired.extent.width
                    &&& target.height == acquired.extent.height
                    &&& target.sample_count == 1
                    &&& format_laws::gl_texel(target.color_format) == format_laws::portable_texel(
                        frame.format,
                    )
                    &&& begin.colors.len() == 1
                    &&& begin.colors[0].view == GlPassAttachmentView::DefaultColor(target)
                    &&& treats(begin.colors[0], color)
                },
                _ => false,
            }
        }),
{
    format_laws::formats_keep_their_texels(frame.format);
    let operation = "NativeProviderOwner::submit phase A raster-begin-default";
    let current = owner.ready(operation, o).0;
    assert(current.leases == owner.leases);
}

/// A submission that is accepted ends with a fence and a flush, and waits for
/// that fence with what it read back. Nobody waits for it yet.
pub proof fn submissions_wait_for_their_fence(
    owner: Owner,
    readbacks: Seq<PendingReadback>,
    o: Seq<NativeStep>,
)
    requires
        owner.accept_submission(readbacks, o).1 is Ok,
    ensures
        ({
            let after = owner.accept_submission(readbacks, o).0;
            &&& after.log.len() == owner.log.len() + 2
            &&& after.completions.len() == owner.completions.len() + 1
            &&& match (after.log[owner.log.len() as int], after.log.last()) {
                (
                    NativeStep::CreateFence { reply: Ok(fence) },
                    NativeStep::Command {
                        command: CommandModel::Plain(NativeCommand::Flush),
                        reply,
                    },
                ) => {
                    &&& reply is Ok
                    &&& after.completions.last() is Pending
                    &&& after.completions.last()->fence == fence
                    &&& after.completions.last()->readbacks == readbacks
                    &&& after.completions.last()->waiters.len() == 0
                },
                _ => false,
            }
        }),
{
}

} // verus!
