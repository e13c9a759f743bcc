//! What holds of the state authority as a whole.

use vstd::prelude::*;
use crate::state::cache::ResourceRef;
use crate::state::context;
use crate::state::context::{
    BoundGroup, CanonicalBlockId, RasterPipelineBlocks, RasterPipelinePacket, StateModel,
};
use crate::state::event::StateEvent;
use crate::state::knowledge::{ExecutionMode, StateDomain};

verus! {

/// What is unknown never stands in for a command.
pub proof fn unknown_state_is_emitted<T>(mode: ExecutionMode, wanted: T)
    ensures
        context::must_emit(mode, None, wanted),
{
}

/// In oracle mode every command is emitted, whatever is known.
pub proof fn the_oracle_emits_everything<T>(
    state: StateModel,
    pipeline: RasterPipelinePacket,
    known: Option<T>,
    wanted: T,
)
    requires
        state.mode is Oracle,
    ensures
        state.pipeline_diff(pipeline) == context::full_diff(),
        context::must_emit(state.mode, known, wanted),
{
}

/// A pipeline that was installed and not disturbed since needs no command.
pub proof fn installed_pipelines_are_skipped(state: StateModel, pipeline: RasterPipelinePacket)
    requires
        state.mode is Optimized,
    ensures
        state.with_pipeline(pipeline).pipeline_diff(pipeline) == context::no_diff(),
{
}

/// Between two pipelines exactly the blocks are installed that differ.
pub proof fn only_differing_blocks_are_installed(
    state: StateModel,
    installed: RasterPipelinePacket,
    wanted: RasterPipelinePacket,
)
    requires
        state.mode is Optimized,
        installed.identity != wanted.identity,
    ensures
        ({
            let diff = state.with_pipeline(installed).pipeline_diff(wanted);
            &&& diff.program == (installed.blocks.program != wanted.blocks.program)
            &&& diff.raster == (installed.blocks.raster != wanted.blocks.raster)
            &&& diff.depth_stencil == (installed.blocks.depth_stencil
                != wanted.blocks.depth_stencil)
            &&& diff.blend == (installed.blocks.blend != wanted.blocks.blend)
            &&& diff.multisample == (installed.blocks.multisample != wanted.blocks.multisample)
        }),
{
}

/// A compute program in between makes the raster program due again, and only
/// that.
pub proof fn compute_work_makes_the_raster_program_due(
    state: StateModel,
    pipeline: RasterPipelinePacket,
    program: CanonicalBlockId,
)
    requires
        state.mode is Optimized,
        program != pipeline.blocks.program,
    ensures
        ({
            let between = StateModel {
                current_program: Some(program),
                compute: Some(program),
                ..state.with_pipeline(pipeline)
            };
            let diff = between.pipeline_diff(pipeline);
            diff.program && !diff.raster && !diff.depth_stencil && !diff.blend && !diff.multisample
        }),
{
}

/// After a failure in the raster domain a pipeline is installed completely.
pub proof fn failures_force_a_complete_pipeline(state: StateModel, pipeline: RasterPipelinePacket)
    ensures
        state.after(StateEvent::DomainFailed(StateDomain::RasterPipeline)).pipeline_diff(pipeline)
            == context::full_diff(),
{
}

/// Whether the event leaves no context of before.
pub open spec fn ends_the_context(event: StateEvent) -> bool {
    event is ContextLost || event is ContextRestored || event is DeviceReplaced
}

/// After the context is lost or restored, or the device replaced, nothing
/// counts as installed, and every bound group is dirty again.
pub proof fn a_new_context_is_unknown(
    state: StateModel,
    event: StateEvent,
    pipeline: RasterPipelinePacket,
    slot: u32,
)
    requires
        ends_the_context(event),
    ensures
        ({
            let fresh = state.after(event);
            &&& fresh.pipeline_diff(pipeline) == context::full_diff()
            &&& fresh.pass is None && fresh.geometry is None && fresh.query is None
            &&& context::slot_value(fresh.texture_slots, slot) is None
            &&& context::slot_value(fresh.uniform_slots, slot) is None
            &&& context::slot_value(fresh.sampler_slots, slot) is None
            &&& fresh.bindings == state.bindings
            &&& fresh.dirty_bindings == state.bindings.dom()
            &&& fresh.prepared_pipeline(pipeline) is Err
        }),
{
}

/// One identity stands for one pipeline: asking for another under it fails.
pub proof fn identities_do_not_change(
    state: StateModel,
    pipeline: RasterPipelinePacket,
    other: RasterPipelineBlocks,
)
    requires
        other != pipeline.blocks,
        state.pipeline_packets.contains_key(pipeline.identity@ as u64),
        state.pipeline_packets[pipeline.identity@ as u64] == pipeline.blocks,
    ensures
        state.prepared_pipeline(pipeline) is Ok,
        state.prepared_pipeline(RasterPipelinePacket { blocks: other, ..pipeline }) is Err,
{
}

/// A retired resource never turns up in a later flush.
pub proof fn retired_resources_are_not_flushed(
    state: StateModel,
    resource: ResourceRef,
    groups: Seq<BoundGroup>,
)
    requires
        context::flushes(
            state.without_resource(resource).bindings,
            state.without_resource(resource).dirty_bindings,
            groups,
        ),
        state.wf(),
    ensures
        forall|i: int|
            0 <= i < groups.len() ==> !(#[trigger] groups[i]).dependencies.contains(resource),
{
    let after = state.without_resource(resource);
    assert forall|i: int| 0 <= i < groups.len() implies !(
    #[trigger] groups[i]).dependencies.contains(resource) by {
        let index = groups[i].index as u64;
        assert(after.dirty_bindings.contains(index));
        assert(after.bindings.contains_key(index));
    }
}

/// A group that was staged anew stays in every flush until one is
/// acknowledged, and then nothing is dirty.
pub proof fn staged_groups_wait_for_a_flush(
    state: StateModel,
    group: BoundGroup,
    groups: Seq<BoundGroup>,
)
    requires
        state.wf(),
        !(state.bindings.contains_key(group.index as u64) && state.bindings[group.index as u64]
            == group),
        context::flushes(
            state.with_group(group).bindings,
            state.with_group(group).dirty_bindings,
            groups,
        ),
    ensures
        groups.contains(group),
        state.with_group(group).acknowledged(groups).dirty_bindings == Set::<u64>::empty(),
{
    let staged = state.with_group(group);
    assert(staged.dirty_bindings.contains(group.index as u64));
    let i = choose|i: int|
        0 <= i < groups.len() && (#[trigger] groups[i]).index == group.index as u64;
    assert(groups[i] == staged.bindings[groups[i].index as u64]);
    assert(groups[i] == group);
    assert forall|index: u64| staged.dirty_bindings.contains(index) implies context::settled(
        staged.bindings,
        groups,
    ).contains(index) by {
        let k = choose|k: int| 0 <= k < groups.len() && (#[trigger] groups[k]).index == index;
        assert(groups[k] == staged.bindings[groups[k].index as u64]);
    }
    assert(staged.acknowledged(groups).dirty_bindings =~= Set::empty());
}

/// A group that was staged after a flush was taken stays dirty when that flush
/// is acknowledged, unless the flush holds the very same packet.
pub proof fn acknowledgements_are_of_packets(
    state: StateModel,
    group: BoundGroup,
    groups: Seq<BoundGroup>,
)
    requires
        state.wf(),
        !(state.bindings.contains_key(group.index as u64) && state.bindings[group.index as u64]
            == group),
        !groups.contains(group),
    ensures
        ({
            let after = state.with_group(group).acknowledged(groups);
            &&& after.dirty_bindings.contains(group.index as u64)
            &&& after.bindings[group.index as u64] == group
        }),
{
}

} // verus!
