//! The commands of an owner, on the executor of its context.
//!
//! Passes, whole pipelines, vertex arrays and draws are executed by
//! [`NativeGlProvider`]. The other commands are left to whoever holds it.

use vstd::prelude::*;
use crate::api::error::GlError;
use crate::native::call;
use crate::native::call::{GlCalls, GlStep};
use crate::native::exec_framebuffer::PassRequest;
use crate::native::link::{CommandModel, NativeCommand, NativeObject};
use crate::native::provider::{NativeGlProvider, Provider};
use crate::state::context::RasterPipelineDiff;

verus! {

impl Provider {
    /// The executor after a command, and the answer to it. A command that is
    /// not executed here has no answer and changes nothing.
    pub open spec fn command(self, command: CommandModel, o: Seq<GlStep>) -> (
        Provider,
        Option<Result<(), GlError>>,
    ) {
        match command {
            CommandModel::BeginPass { target, colors, depth_stencil } => answered(
                self.begin_render_pass(PassRequest { target, colors, depth_stencil }, o),
            ),
            CommandModel::ApplyPipeline { program, vertex_array, state, diff } => if diff
                == crate::state::context::full_diff() {
                answered(self.set_raster_pipeline(program, vertex_array, state, o))
            } else {
                (self, None)
            },
            CommandModel::BindVertices { vertex_array, vertices, index } => answered(
                self.bind_vertex_array(vertex_array, vertices, index, o),
            ),
            CommandModel::Plain(NativeCommand::EndPass) => answered(self.end_render_pass(o)),
            CommandModel::Plain(NativeCommand::Draw(draw)) => answered(self.draw_raster(draw, o)),
            CommandModel::Plain(
                NativeCommand::Destroy(NativeObject::VertexArray(vertex_array)),
            ) => answered(self.destroy_vertex_array(vertex_array, o)),
            CommandModel::Plain(
                NativeCommand::Destroy(NativeObject::Framebuffer(framebuffer)),
            ) => answered(self.destroy_framebuffer(framebuffer, o)),
            CommandModel::Plain(_) => (self, None),
        }
    }

    /// Whether an object is one of this context and still there. Of objects
    /// whose table is kept elsewhere nothing is known.
    pub open spec fn find(self, operation: &'static str, object: NativeObject) -> Option<
        Result<(), GlError>,
    > {
        match object {
            NativeObject::Buffer(id) => Some(found(self.buffer(operation, id))),
            NativeObject::Texture(id) => Some(found(self.texture(operation, id))),
            NativeObject::Program(id) => Some(found(self.program(operation, id))),
            NativeObject::VertexArray(id) => Some(found(self.vertex_array(operation, id))),
            NativeObject::Framebuffer(id) => Some(found(self.framebuffer(operation, id))),
            NativeObject::Sampler(_) | NativeObject::Shader(_) | NativeObject::Query(_)
            | NativeObject::Fence(_) => None,
        }
    }
}

/// Whether something was found.
pub open spec fn found<T>(entry: Result<T, GlError>) -> Result<(), GlError> {
    match entry {
        Ok(_) => Ok(()),
        Err(error) => Err(error),
    }
}

fn presence<T>(entry: Result<T, GlError>) -> (result: Result<(), GlError>)
    ensures
        result == found(entry),
{
    match entry {
        Ok(_) => Ok(()),
        Err(error) => Err(error),
    }
}

/// An outcome, as the answer to a command.
pub open spec fn answered(outcome: (Provider, Result<(), GlError>)) -> (
    Provider,
    Option<Result<(), GlError>>,
) {
    (outcome.0, Some(outcome.1))
}

fn is_full(diff: RasterPipelineDiff) -> (result: bool)
    ensures
        result == (diff == crate::state::context::full_diff()),
{
    diff.program && diff.raster && diff.depth_stencil && diff.blend && diff.multisample
}

impl<G: GlCalls> NativeGlProvider<G> {
    /// Looks an object up, if its table is kept here.
    pub fn find(&self, operation: &'static str, object: NativeObject) -> (result: Option<
        Result<(), GlError>,
    >)
        requires
            self.wf(),
        ensures
            result == self@.find(operation, object),
    {
        match object {
            NativeObject::Buffer(id) => Some(presence(self.buffer(operation, id))),
            NativeObject::Texture(id) => Some(presence(self.texture(operation, id))),
            NativeObject::Program(id) => Some(presence(self.program(operation, id))),
            NativeObject::VertexArray(id) => Some(presence(self.vertex_array(operation, id))),
            NativeObject::Framebuffer(id) => Some(presence(self.framebuffer(operation, id))),
            _ => None,
        }
    }

    /// Executes a command, if it is one of those that are executed here.
    pub fn command(&mut self, command: &NativeCommand) -> (result: Option<Result<(), GlError>>)
        requires
            old(self).wf(),
        ensures
            final(self).wf(),
            call::grows(old(self)@.log, final(self)@.log),
            forall|o: Seq<GlStep>|
                call::grows(final(self)@.log, o) ==> #[trigger] old(self)@.command(command@, o) == (
                    final(self)@,
                    result,
                ),
    {
        match command {
            NativeCommand::BeginPass(descriptor) => Some(self.begin_render_pass(descriptor)),
            NativeCommand::EndPass => Some(self.end_render_pass()),
            NativeCommand::ApplyPipeline { pipeline, diff } => {
                if is_full(*diff) {
                    Some(self.set_raster_pipeline(pipeline))
                } else {
                    None
                }
            },
            NativeCommand::BindVertices { vertex_array, vertices, index } => Some(
                self.bind_vertex_array(*vertex_array, vertices, *index),
            ),
            NativeCommand::Draw(draw) => Some(self.draw_raster(*draw)),
            NativeCommand::Destroy(NativeObject::VertexArray(vertex_array)) => Some(
                self.destroy_vertex_array(*vertex_array),
            ),
            NativeCommand::Destroy(NativeObject::Framebuffer(framebuffer)) => Some(
                self.destroy_framebuffer(*framebuffer),
            ),
            _ => None,
        }
    }
}

} // verus!
