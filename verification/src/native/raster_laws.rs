//! What an installed pipeline makes of a context, and what a draw draws.

use vstd::prelude::*;
use crate::api::gl::{
    GlBlendFactor, GlBlendOperation, GlDepthCompareFunction, GlDepthStencilState, GlDrawCommand,
    GlStencilFaceState, GlStencilOperation, RasterStateModel,
};
use crate::api::identity::{ProgramId, VertexArrayId};
use crate::float;
use crate::native::call::{GlCall, GlStep};
use crate::native::exec_raster;
use crate::native::machine;
use crate::native::machine::{Area, Machine};
use crate::native::meaning;
use crate::native::meaning::Channel;
use crate::native::provider::Provider;

verus! {

/// Whether a capability is switched on, or off.
pub open spec fn switched(m: Machine, capability: u32, on: bool) -> bool {
    m.enabled.contains_key(capability) && m.enabled[capability] == on
}

/// Whether a token compares as a word says.
pub open spec fn compares(token: u32, compare: GlDepthCompareFunction) -> bool {
    forall|value: int, stored: int|
        #[trigger] meaning::passes(token, value, stored) == meaning::holds(compare, value, stored)
}

/// Whether a token changes a stencil value as a word says.
pub open spec fn changes(token: u32, operation: GlStencilOperation) -> bool {
    forall|stored: int, reference: int|
        #[trigger] meaning::stencil_after(token, stored, reference) == meaning::changed(
            operation,
            stored,
            reference,
        )
}

/// Whether a token weighs as a word says.
pub open spec fn weighs(token: u32, factor: GlBlendFactor) -> bool {
    forall|c: Channel| #[trigger] meaning::weight(token, c) == meaning::counted(factor, c)
}

/// Whether a token mixes as a word says.
pub open spec fn mixes(token: u32, operation: GlBlendOperation) -> bool {
    forall|src: int, dst: int|
        #[trigger] meaning::mixed(token, src, dst) == meaning::combined(operation, src, dst)
}

proof fn lemma_compares(compare: GlDepthCompareFunction)
    ensures
        compares(exec_raster::comparison_of(compare), compare),
{
}

proof fn lemma_changes(operation: GlStencilOperation)
    ensures
        changes(exec_raster::stencil_token(operation), operation),
{
}

proof fn lemma_weighs(factor: GlBlendFactor)
    ensures
        weighs(exec_raster::factor_token(factor), factor),
{
}

proof fn lemma_mixes(operation: GlBlendOperation)
    ensures
        mixes(exec_raster::blend_token(operation), operation),
{
}

/// Whether the stencil of a face is tested and changed as a state says.
pub open spec fn tests_face(
    m: Machine,
    face: u32,
    state: GlStencilFaceState,
    reference: u32,
) -> bool {
    &&& m.stencil_tests.contains_key(face)
    &&& compares(m.stencil_tests[face].function, state.compare)
    &&& m.stencil_tests[face].reference == reference as i32
    &&& m.stencil_tests[face].mask == state.read_mask
    &&& m.stencil_masks.contains_key(face)
    &&& m.stencil_masks[face] == state.write_mask
    &&& m.stencil_changes.contains_key(face)
    &&& changes(m.stencil_changes[face].fail, state.fail_op)
    &&& changes(m.stencil_changes[face].depth_fail, state.depth_fail_op)
    &&& changes(m.stencil_changes[face].pass, state.pass_op)
}

/// Whether the viewport, the scissor and the faces are those of a state.
pub open spec fn shapes(m: Machine, state: RasterStateModel) -> bool {
    &&& m.viewport == Some(
        Area {
            x: state.viewport.x as i32,
            y: state.viewport.y as i32,
            width: state.viewport.width as i32,
            height: state.viewport.height as i32,
        },
    )
    &&& m.depth_range == Some((state.viewport.min_depth, state.viewport.max_depth))
    &&& switched(m, 0x0C11, state.scissor is Some)
    &&& state.scissor is Some ==> m.scissor == Some(
        Area {
            x: state.scissor->0.x as i32,
            y: state.scissor->0.y as i32,
            width: state.scissor->0.width as i32,
            height: state.scissor->0.height as i32,
        },
    )
    &&& switched(m, 0x0B44, !(state.cull_mode is Neither))
    &&& state.cull_mode is Front ==> m.culled == Some(0x0404u32)
    &&& state.cull_mode is Back ==> m.culled == Some(0x0405u32)
    &&& state.front_face is Clockwise ==> m.front == Some(0x0900u32)
    &&& state.front_face is CounterClockwise ==> m.front == Some(0x0901u32)
}

/// Whether depth and stencil are tested as a state says. Without one they are
/// not tested at all.
pub open spec fn tests_depth(m: Machine, state: Option<GlDepthStencilState>) -> bool {
    &&& switched(m, 0x0B71, state is Some)
    &&& switched(m, 0x0B90, state is Some)
    &&& match state {
        None => switched(m, 0x8037, false),
        Some(state) => {
            let flat = float::spec_is_zero(state.depth_bias.factor) && float::spec_is_zero(
                state.depth_bias.units,
            );
            &&& m.depth_written == Some(state.depth_write_enabled)
            &&& m.depth_function is Some
            &&& compares(m.depth_function->0, state.depth_compare)
            &&& switched(m, 0x8037, !flat)
            &&& !flat ==> m.bias == Some((state.depth_bias.factor, state.depth_bias.units))
            &&& tests_face(m, 0x0404, state.stencil_front, state.stencil_reference)
            &&& tests_face(m, 0x0405, state.stencil_back, state.stencil_reference)
        },
    }
}

/// Whether color is written and blended as all targets of a state say.
pub open spec fn paints(m: Machine, state: RasterStateModel) -> bool {
    &&& forall|i: int|
        0 <= i < state.color_targets.len() ==> {
            let target = #[trigger] state.color_targets[i];
            &&& m.channels == Some(
                (
                    target.write_mask & 1u8 == 1u8,
                    target.write_mask & 2u8 == 2u8,
                    target.write_mask & 4u8 == 4u8,
                    target.write_mask & 8u8 == 8u8,
                ),
            )
            &&& switched(m, 0x0BE2, target.blend is Some)
            &&& match target.blend {
                None => true,
                Some(blend) => {
                    &&& m.weights is Some && m.equations is Some
                    &&& weighs(m.weights->0.src_color, blend.color.src_factor)
                    &&& weighs(m.weights->0.dst_color, blend.color.dst_factor)
                    &&& weighs(m.weights->0.src_alpha, blend.alpha.src_factor)
                    &&& weighs(m.weights->0.dst_alpha, blend.alpha.dst_factor)
                    &&& mixes((m.equations->0).0, blend.color.operation)
                    &&& mixes((m.equations->0).1, blend.alpha.operation)
                    &&& m.constant == Some(state.blend_constant)
                },
            }
        }
    &&& state.color_targets.len() > 0
    &&& switched(m, 0x809D, true)
    &&& switched(m, 0x809E, state.multisample.alpha_to_coverage_enabled)
}

proof fn lemma_shape(context: Provider, state: RasterStateModel, start: Machine)
    ensures
        ({
            let after = context.apply_shape(state);
            let m = start.run(after.log);
            &&& shapes(m, state)
            &&& m.program == start.run(context.log).program
            &&& m.vertex_array == start.run(context.log).vertex_array
            &&& m.drawn == start.run(context.log).drawn
            &&& m.drawings == start.run(context.log).drawings
            &&& after == (Provider { log: after.log, ..context })
        }),
{
    broadcast use machine::one_more_step;

}

/// What the later parts of an installation leave alone.
pub open spec fn same_shape(m: Machine, n: Machine) -> bool {
    &&& m.viewport == n.viewport
    &&& m.depth_range == n.depth_range
    &&& m.scissor == n.scissor
    &&& m.culled == n.culled
    &&& m.front == n.front
    &&& m.enabled.contains_key(0x0C11) == n.enabled.contains_key(0x0C11)
    &&& m.enabled[0x0C11] == n.enabled[0x0C11]
    &&& m.enabled.contains_key(0x0B44) == n.enabled.contains_key(0x0B44)
    &&& m.enabled[0x0B44] == n.enabled[0x0B44]
    &&& m.program == n.program
    &&& m.vertex_array == n.vertex_array
    &&& m.drawn == n.drawn
    &&& m.drawings == n.drawings
}

/// What the last part of an installation leaves alone.
pub open spec fn same_depth(m: Machine, n: Machine) -> bool {
    &&& m.depth_written == n.depth_written
    &&& m.depth_function == n.depth_function
    &&& m.bias == n.bias
    &&& m.stencil_tests == n.stencil_tests
    &&& m.stencil_masks == n.stencil_masks
    &&& m.stencil_changes == n.stencil_changes
    &&& m.enabled.contains_key(0x0B71) == n.enabled.contains_key(0x0B71)
    &&& m.enabled[0x0B71] == n.enabled[0x0B71]
    &&& m.enabled.contains_key(0x0B90) == n.enabled.contains_key(0x0B90)
    &&& m.enabled[0x0B90] == n.enabled[0x0B90]
    &&& m.enabled.contains_key(0x8037) == n.enabled.contains_key(0x8037)
    &&& m.enabled[0x8037] == n.enabled[0x8037]
}

proof fn lemma_face(
    context: Provider,
    face: u32,
    state: GlStencilFaceState,
    reference: u32,
    start: Machine,
)
    ensures
        ({
            let after = context.apply_stencil_face(face, state, reference);
            let m = start.run(after.log);
            let n = start.run(context.log);
            &&& tests_face(m, face, state, reference)
            &&& m == (Machine {
                stencil_tests: n.stencil_tests.insert(face, m.stencil_tests[face]),
                stencil_masks: n.stencil_masks.insert(face, m.stencil_masks[face]),
                stencil_changes: n.stencil_changes.insert(face, m.stencil_changes[face]),
                ..n
            })
            &&& after == (Provider { log: after.log, ..context })
        }),
{
    broadcast use machine::one_more_step;

    lemma_compares(state.compare);
    lemma_changes(state.fail_op);
    lemma_changes(state.depth_fail_op);
    lemma_changes(state.pass_op);
}

proof fn lemma_depth(
    context: Provider,
    op: &'static str,
    state: GlDepthStencilState,
    start: Machine,
)
    ensures
        ({
            let (after, result) = context.apply_depth_stencil(op, state);
            let m = start.run(after.log);
            &&& result is Ok ==> tests_depth(m, Some(state))
            &&& same_shape(m, start.run(context.log))
            &&& after == (Provider { log: after.log, ..context })
        }),
{
    broadcast use machine::one_more_step;

    lemma_compares(state.depth_compare);
    let m1 = context.call(GlCall::Enable { capability: 0x0B71 }).call(
        GlCall::DepthMask { write: state.depth_write_enabled },
    ).call(GlCall::DepthFunc { function: exec_raster::comparison_of(state.depth_compare) });
    let m2 = if float::spec_is_zero(state.depth_bias.factor) && float::spec_is_zero(
        state.depth_bias.units,
    ) {
        m1.call(GlCall::Disable { capability: 0x8037 })
    } else {
        m1.call(GlCall::Enable { capability: 0x8037 }).call(
            GlCall::PolygonOffset {
                factor: state.depth_bias.factor,
                units: state.depth_bias.units,
            },
        )
    };
    let m3 = m2.call(GlCall::Enable { capability: 0x0B90 });
    lemma_face(m3, 0x0404, state.stencil_front, state.stencil_reference, start);
    let m4 = m3.apply_stencil_face(0x0404, state.stencil_front, state.stencil_reference);
    lemma_face(m4, 0x0405, state.stencil_back, state.stencil_reference, start);
}

proof fn lemma_paint(context: Provider, op: &'static str, state: RasterStateModel, start: Machine)
    ensures
        ({
            let (after, result) = context.apply_color_state(op, state);
            let m = start.run(after.log);
            &&& result is Ok ==> paints(m, state)
            &&& same_shape(m, start.run(context.log))
            &&& same_depth(m, start.run(context.log))
            &&& after == (Provider { log: after.log, ..context })
        }),
{
    broadcast use machine::one_more_step;

    if state.color_targets.len() > 0 && exec_raster::targets_agree(state.color_targets) {
        let target = state.color_targets[0];
        let mask = target.write_mask;
        assert((mask & 1 != 0) == (mask & 1 == 1) && (mask & 2 != 0) == (mask & 2 == 2) && (mask & 4
            != 0) == (mask & 4 == 4) && (mask & 8 != 0) == (mask & 8 == 8)) by (bit_vector);
        match target.blend {
            Some(blend) => {
                lemma_weighs(blend.color.src_factor);
                lemma_weighs(blend.color.dst_factor);
                lemma_weighs(blend.alpha.src_factor);
                lemma_weighs(blend.alpha.dst_factor);
                lemma_mixes(blend.color.operation);
                lemma_mixes(blend.alpha.operation);
            },
            None => {},
        }
    }
}

proof fn lemma_state(context: Provider, op: &'static str, state: RasterStateModel, start: Machine)
    ensures
        ({
            let (after, result) = context.apply_raster_state(op, state);
            let m = start.run(after.log);
            let n = start.run(context.log);
            &&& result is Ok ==> {
                &&& shapes(m, state)
                &&& tests_depth(m, state.depth_stencil)
                &&& paints(m, state)
            }
            &&& m.program == n.program
            &&& m.vertex_array == n.vertex_array
            &&& m.drawn == n.drawn
            &&& m.drawings == n.drawings
            &&& after == (Provider { log: after.log, ..context })
        }),
{
    broadcast use machine::one_more_step;

    lemma_shape(context, state, start);
    let m1 = context.apply_shape(state);
    match state.depth_stencil {
        Some(depth_stencil) => {
            lemma_depth(m1, op, depth_stencil, start);
            let (m2, outcome) = m1.apply_depth_stencil(op, depth_stencil);
            if outcome is Ok {
                lemma_paint(m2, op, state, start);
            }
        },
        None => {
            let m2 = m1.call(GlCall::Disable { capability: 0x0B71 }).call(
                GlCall::Disable { capability: 0x0B90 },
            ).call(GlCall::Disable { capability: 0x8037 });
            lemma_paint(m2, op, state, start);
        },
    }
}

/// After a pipeline was installed the context has its whole state, whatever was
/// set before: viewport, scissor and faces, the tests of depth and stencil, and
/// what is written and blended.
pub proof fn installed_pipelines_are_in_force(
    context: Provider,
    program: ProgramId,
    vertex_array: VertexArrayId,
    state: RasterStateModel,
    o: Seq<GlStep>,
    start: Machine,
)
    requires
        context.set_raster_pipeline(program, vertex_array, state, o).1 is Ok,
    ensures
        ({
            let m = start.run(context.set_raster_pipeline(program, vertex_array, state, o).0.log);
            &&& shapes(m, state)
            &&& tests_depth(m, state.depth_stencil)
            &&& paints(m, state)
        }),
{
    broadcast use machine::one_more_step;

    let op = "set-raster-pipeline";
    let m1 = context.ensure_program(op, program).0;
    let m2 = m1.ensure_vertex_array(op, vertex_array).0;
    lemma_state(m2, op, state, start);
}

/// Whether what is believed to be selected is selected.
pub open spec fn believes_rightly(context: Provider, m: Machine) -> bool {
    &&& context.bound_program is Some && context.program("", context.bound_program->0) is Ok
        ==> m.program == Some(context.program("", context.bound_program->0)->Ok_0.raw)
    &&& context.bound_vertex_array is Some && context.vertex_array(
        "",
        context.bound_vertex_array->0,
    ) is Ok ==> m.vertex_array == Some(
        context.vertex_array("", context.bound_vertex_array->0)->Ok_0.raw,
    )
}

/// An installation selects the program and the vertex array of its pipeline, and
/// what is believed afterwards is right.
pub proof fn installed_pipelines_are_selected(
    context: Provider,
    program: ProgramId,
    vertex_array: VertexArrayId,
    state: RasterStateModel,
    o: Seq<GlStep>,
    start: Machine,
)
    requires
        believes_rightly(context, start.run(context.log)),
        context.set_raster_pipeline(program, vertex_array, state, o).1 is Ok,
    ensures
        ({
            let after = context.set_raster_pipeline(program, vertex_array, state, o).0;
            let m = start.run(after.log);
            &&& believes_rightly(after, m)
            &&& m.program == Some(context.programs[program.slot as u64].raw)
            &&& m.vertex_array == Some(context.vertex_arrays[vertex_array.slot as u64].raw)
            &&& after.raster is Some
            &&& after.raster->0.program == program
            &&& after.raster->0.topology == state.topology
        }),
{
    broadcast use machine::one_more_step;

    let op = "set-raster-pipeline";
    let m1 = context.ensure_program(op, program).0;
    let m2 = m1.ensure_vertex_array(op, vertex_array).0;
    lemma_state(m2, op, state, start);
}

/// A draw that succeeds draws once, with the installed program and the bound
/// vertex array: the vertices or indices that it names, as often as it says, as
/// the primitives of the pipeline. Nothing else changes.
pub proof fn draws_draw_what_they_say(
    context: Provider,
    draw: GlDrawCommand,
    o: Seq<GlStep>,
    start: Machine,
)
    requires
        believes_rightly(context, start.run(context.log)),
        context.draw_raster(draw, o).1 is Ok,
    ensures
        ({
            let after = context.draw_raster(draw, o).0;
            let n = start.run(context.log);
            let m = start.run(after.log);
            let done = m.drawings.last();
            let array = context.vertex_arrays[context.bound_vertex_array->0.slot as u64];
            &&& believes_rightly(after, m)
            &&& m.drawings == n.drawings.push(done)
            &&& m == (Machine { drawings: m.drawings, program: m.program, ..n })
            &&& done.program == Some(context.programs[context.raster->0.program.slot as u64].raw)
            &&& done.vertex_array == Some(array.raw)
            &&& done.framebuffer == n.drawn
            &&& forall|vertices: nat|
                #[trigger] meaning::made_in(done.mode, vertices) == meaning::primitives(
                    context.raster->0.topology,
                    vertices,
                )
            &&& match draw {
                GlDrawCommand::NonIndexed(draw) => {
                    &&& done.indices is None
                    &&& done.first == draw.first_vertex
                    &&& done.count == draw.vertex_count
                    &&& done.instances == draw.instance_count
                },
                GlDrawCommand::Indexed(draw) => {
                    let index = array.index->0;
                    &&& array.index is Some
                    &&& done.indices is Some
                    &&& meaning::index_bits(done.indices->0) == (if index.format is Uint16 {
                        16int
                    } else {
                        32int
                    })
                    &&& done.first == index.offset + draw.first_index * (meaning::index_bits(
                        done.indices->0,
                    ) / 8)
                    &&& done.count == draw.index_count
                    &&& done.instances == draw.instance_count
                },
            }
        }),
{
    broadcast use machine::one_more_step;

    let m = context.ensure_program("draw-raster", context.raster->0.program).0;
    assert(start.run(context.draw_raster(draw, o).0.log).drawings.len() == start.run(
        context.log,
    ).drawings.len() + 1);
}

} // verus!
