//! What the executor of a context does with errors, slots and attachments, and
//! with several draws.

use vstd::prelude::*;
use crate::api::error::GlError;
use crate::api::format::GlFormat;
use crate::api::gl::{GlDrawCommand, RasterStateModel};
use crate::api::identity::{BufferId, ProgramId, TextureId};
use crate::format_laws;
use crate::format_laws::Channels;
use crate::native::call::GlStep;
use crate::native::exec_raster;
use crate::native::exec_raster::GlRasterValidationInfo;
use crate::native::machine::{Drawing, Machine};
use crate::native::provider;
use crate::native::provider::Provider;
use crate::native::raster_laws;

verus! {

/// The error of a context is told as what it is: none, want of memory, the loss
/// of the context, after which the context counts as lost, or another.
pub proof fn errors_are_told(context: Provider, operation: &'static str, o: Seq<GlStep>)
    ensures
        ({
            let (after, result) = context.driver_error(operation, o);
            &&& after.log.len() == context.log.len() + 1
            &&& match after.log.last() {
                GlStep::Error { reply } => {
                    &&& result is Ok <==> reply == 0
                    &&& reply == 0x0505 <==> result is Err && result->Err_0 is OutOfMemory
                    &&& reply == 0x0507 <==> result is Err && result->Err_0 is ContextLost
                    &&& reply == 0x0507 ==> after.lifecycle is Lost
                    &&& reply != 0x0507 ==> after.lifecycle == context.lifecycle
                },
                _ => false,
            }
        }),
{
}

/// A context that is not active refuses, and one that is active does not.
pub proof fn only_active_contexts_take_commands(context: Provider, operation: &'static str)
    ensures
        context.ready(operation) is Ok <==> context.lifecycle is Active,
{
}

/// No slot is given twice.
pub proof fn slots_are_given_once(context: Provider, first: &'static str, second: &'static str)
    requires
        context.slot(first).1 is Ok,
        context.slot(first).0.slot(second).1 is Ok,
    ensures
        context.slot(first).1->Ok_0 < context.slot(first).0.slot(second).1->Ok_0,
        context.slot(first).0.next_slot > context.slot(first).1->Ok_0,
{
}

/// An object is found only by a number that this context gave for the very
/// object: not by that of another context, nor by that of an earlier object in
/// its slot.
pub proof fn objects_are_found_by_their_own_number(
    context: Provider,
    operation: &'static str,
    buffer: BufferId,
    texture: TextureId,
    program: ProgramId,
)
    ensures
        context.buffer(operation, buffer) is Ok <==> buffer.stamp == context.stamp
            && context.buffers.contains_key(buffer.slot as u64)
            && context.buffers[buffer.slot as u64].generation == buffer.generation,
        context.buffer(operation, buffer) is Ok ==> context.buffer(operation, buffer)->Ok_0
            == context.buffers[buffer.slot as u64],
        context.texture(operation, texture) is Ok <==> texture.stamp == context.stamp
            && context.textures.contains_key(texture.slot as u64)
            && context.textures[texture.slot as u64].generation == texture.generation,
        context.program(operation, program) is Ok <==> program.stamp == context.stamp
            && context.programs.contains_key(program.slot as u64)
            && context.programs[program.slot as u64].generation == program.generation,
        buffer.stamp != context.stamp ==> context.buffer(operation, buffer) == Err::<
            provider::NativeBuffer,
            _,
        >(GlError::WrongContext { operation }),
{
}

/// Depth, stencil and both together are attached each at its own point; color
/// is attached at none of them.
pub proof fn planes_have_their_attachment_points(format: GlFormat)
    ensures
        provider::attachment_point(format) == (match format_laws::gl_texel(format).channels {
            Channels::Depth => Some(0x8D00u32),
            Channels::Stencil => Some(0x8D20u32),
            Channels::DepthStencil => Some(0x821Au32),
            _ => None,
        }),
        provider::stencil_plane(format) <==> format_laws::gl_texel(format).channels is Stencil
            || format_laws::gl_texel(format).channels is DepthStencil,
{
}

/// State is accepted just where every pixel of its viewport and of its scissor
/// is one of the target, and where its samples and targets are there.
pub proof fn accepted_state_lies_inside(
    state: RasterStateModel,
    info: GlRasterValidationInfo,
    x: int,
    y: int,
)
    requires
        exec_raster::state_is_valid(state, info),
    ensures
        state.viewport.x <= x < state.viewport.x + state.viewport.width ==> x < info.width,
        state.viewport.y <= y < state.viewport.y + state.viewport.height ==> y < info.height,
        state.scissor is Some && state.scissor->0.x <= x < state.scissor->0.x
            + state.scissor->0.width ==> x < info.width,
        state.scissor is Some && state.scissor->0.y <= y < state.scissor->0.y
            + state.scissor->0.height ==> y < info.height,
        state.multisample.sample_count > 0,
        state.multisample.sample_count > 1 ==> state.multisample.sample_count <= info.max_samples,
        state.color_targets.len() <= info.max_color_targets,
{
}

/// Whether a drawing is what a draw asks for.
pub open spec fn is_drawn(done: Drawing, draw: GlDrawCommand) -> bool {
    match draw {
        GlDrawCommand::NonIndexed(draw) => {
            &&& done.indices is None
            &&& done.first == draw.first_vertex
            &&& done.count == draw.vertex_count
            &&& done.instances == draw.instance_count
        },
        GlDrawCommand::Indexed(draw) => {
            &&& done.indices is Some
            &&& done.count == draw.index_count
            &&& done.instances == draw.instance_count
        },
    }
}

proof fn lemma_draws(
    context: Provider,
    draws: Seq<GlDrawCommand>,
    o: Seq<GlStep>,
    start: Machine,
)
    requires
        raster_laws::believes_rightly(context, start.run(context.log)),
        context.single_draws(draws, o).1 is Ok,
    ensures
        ({
            let n = start.run(context.log);
            let m = start.run(context.single_draws(draws, o).0.log);
            &&& m.drawings.len() == n.drawings.len() + draws.len()
            &&& forall|i: int|
                0 <= i < n.drawings.len() ==> #[trigger] m.drawings[i] == n.drawings[i]
            &&& forall|i: int|
                0 <= i < draws.len() ==> is_drawn(
                    m.drawings[n.drawings.len() + i],
                    #[trigger] draws[i],
                )
        }),
    decreases draws.len(),
{
    if draws.len() > 0 {
        raster_laws::draws_draw_what_they_say(context, draws[0], o, start);
        let one = context.draw_raster(draws[0], o).0;
        let rest = draws.skip(1);
        lemma_draws(one, rest, o, start);
        let n = start.run(context.log);
        let between = start.run(one.log);
        let m = start.run(context.single_draws(draws, o).0.log);
        assert forall|i: int| 0 <= i < n.drawings.len() implies #[trigger] m.drawings[i]
            == n.drawings[i] by {
            assert(m.drawings[i] == between.drawings[i]);
        }
        assert forall|i: int| 0 <= i < draws.len() implies is_drawn(
            m.drawings[n.drawings.len() + i],
            #[trigger] draws[i],
        ) by {
            if i == 0 {
                assert(m.drawings[n.drawings.len() as int]
                    == between.drawings[n.drawings.len() as int]);
            } else {
                assert(rest[i - 1] == draws[i]);
                assert(n.drawings.len() + i == between.drawings.len() + (i - 1));
            }
        }
    }
}

/// Several draws draw each of them, once and in order.
pub proof fn several_draws_draw_each(
    context: Provider,
    draws: Seq<GlDrawCommand>,
    o: Seq<GlStep>,
    start: Machine,
)
    requires
        raster_laws::believes_rightly(context, start.run(context.log)),
        context.multi_draw(draws, o).1 is Ok,
    ensures
        ({
            let n = start.run(context.log);
            let m = start.run(context.multi_draw(draws, o).0.log);
            &&& m.drawings.len() == n.drawings.len() + draws.len()
            &&& forall|i: int|
                0 <= i < draws.len() ==> is_drawn(
                    m.drawings[n.drawings.len() + i],
                    #[trigger] draws[i],
                )
        }),
{
    lemma_draws(context, draws, o, start);
}

} // verus!
