//! The objects of one context, and what is bound on it.

use vstd::prelude::*;
use crate::api::discovery::{FormatKey, GlFormatCapabilities, GlFormatTable, GlLimits};
use crate::api::error::{GlContextLifecycle, GlError, Message};
use crate::api::format::GlFormat;
use crate::api::gl::{
    GlBufferDesc, GlFamilyProfile, GlFramebufferDescriptor, GlIndexBinding, GlPrimitiveTopology,
    GlRenderTarget, GlRenderbufferDesc, GlTextureDesc, GlVertexLayout,
};
use crate::api::identity::{
    BufferId, ContextStamp, FramebufferId, ProgramId, RenderbufferId, TextureId, VertexArrayId,
};
use crate::native::call;
use crate::native::call::{CallLink, GlCall, GlCalls, GlStep};
use crate::native::gl_const;
use crate::native::link::{FramebufferModel, VertexLayoutModel};
use crate::shelf::Shelf;
use crate::table::Table;

verus! {

/// A buffer of the context.
#[derive(Clone, Copy, Debug, PartialEq, Eq, Structural)]
pub struct NativeBuffer {
    pub generation: u32,
    pub raw: u32,
    pub desc: GlBufferDesc,
}

/// A texture of the context.
#[derive(Clone, Copy, Debug, PartialEq, Eq, Structural)]
pub struct NativeTexture {
    pub generation: u32,
    pub raw: u32,
    pub desc: GlTextureDesc,
}

/// A renderbuffer of the context.
#[derive(Clone, Copy, Debug, PartialEq, Eq, Structural)]
pub struct NativeRenderbuffer {
    pub generation: u32,
    pub raw: u32,
    pub desc: GlRenderbufferDesc,
}

/// A program of the context.
#[derive(Clone, Copy, Debug, PartialEq, Eq, Structural)]
pub struct NativeProgram {
    pub generation: u32,
    pub raw: u32,
}

/// A vertex array of the context.
#[derive(Debug)]
pub struct NativeVertexArray {
    pub generation: u32,
    pub raw: u32,
    pub layout: GlVertexLayout,
    pub index: Option<GlIndexBinding>,
}

/// A vertex array by value.
#[verifier::ext_equal]
pub struct VertexArrayModel {
    pub generation: u32,
    pub raw: u32,
    pub layout: VertexLayoutModel,
    pub index: Option<GlIndexBinding>,
}

impl View for NativeVertexArray {
    type V = VertexArrayModel;

    open spec fn view(&self) -> VertexArrayModel {
        VertexArrayModel {
            generation: self.generation,
            raw: self.raw,
            layout: self.layout@,
            index: self.index,
        }
    }
}

/// A framebuffer of the context.
#[derive(Debug)]
pub struct NativeFramebuffer {
    pub generation: u32,
    pub raw: u32,
    pub descriptor: GlFramebufferDescriptor,
}

/// A framebuffer by value.
#[verifier::ext_equal]
pub struct FramebufferRecord {
    pub generation: u32,
    pub raw: u32,
    pub descriptor: FramebufferModel,
}

impl View for NativeFramebuffer {
    type V = FramebufferRecord;

    open spec fn view(&self) -> FramebufferRecord {
        FramebufferRecord {
            generation: self.generation,
            raw: self.raw,
            descriptor: self.descriptor@,
        }
    }
}

/// The pass that is open.
#[derive(Debug)]
pub struct ActivePass {
    pub target: GlRenderTarget,
    pub width: u32,
    pub height: u32,
    pub samples: u32,
    pub discard_color: Vec<bool>,
    pub discard_depth_stencil: Option<bool>,
}

/// The open pass by value.
#[verifier::ext_equal]
pub struct PassModel {
    pub target: GlRenderTarget,
    pub width: u32,
    pub height: u32,
    pub samples: u32,
    pub discard_color: Seq<bool>,
    pub discard_depth_stencil: Option<bool>,
}

impl View for ActivePass {
    type V = PassModel;

    open spec fn view(&self) -> PassModel {
        PassModel {
            target: self.target,
            width: self.width,
            height: self.height,
            samples: self.samples,
            discard_color: self.discard_color@,
            discard_depth_stencil: self.discard_depth_stencil,
        }
    }
}

/// The pipeline that is installed.
#[derive(Clone, Copy, Debug, PartialEq, Eq, Structural)]
pub struct ActiveRaster {
    pub program: ProgramId,
    pub topology: GlPrimitiveTopology,
}

/// The objects of a context, and what is bound on it, by value.
#[verifier::ext_equal]
pub struct Provider {
    pub log: Seq<GlStep>,
    pub stamp: ContextStamp,
    pub lifecycle: GlContextLifecycle,
    pub profile: GlFamilyProfile,
    pub limits: GlLimits,
    pub formats: Map<FormatKey, GlFormatCapabilities>,
    pub buffers: Map<u64, NativeBuffer>,
    pub textures: Map<u64, NativeTexture>,
    pub renderbuffers: Map<u64, NativeRenderbuffer>,
    pub programs: Map<u64, NativeProgram>,
    pub vertex_arrays: Map<u64, VertexArrayModel>,
    pub framebuffers: Map<u64, FramebufferRecord>,
    pub pass: Option<PassModel>,
    pub raster: Option<ActiveRaster>,
    pub bound_program: Option<ProgramId>,
    pub bound_vertex_array: Option<VertexArrayId>,
    pub next_slot: u32,
}

/// The refusal of arguments.
pub open spec fn invalid(operation: &'static str, text: &'static str) -> GlError {
    GlError::Validation { operation, message: Message::Text(text) }
}

/// The refusal of arguments.
pub fn validation(operation: &'static str, text: &'static str) -> (result: GlError)
    ensures
        result == invalid(operation, text),
{
    GlError::Validation { operation, message: Message::Text(text) }
}

impl Provider {
    /// The answer to the next command, according to a record.
    pub open spec fn next(self, o: Seq<GlStep>) -> GlStep {
        o[self.log.len() as int]
    }

    /// The context after one more command.
    pub open spec fn asked(self, step: GlStep) -> Provider {
        Provider { log: self.log.push(step), ..self }
    }

    /// The context after one more command that answers nothing.
    pub open spec fn call(self, call: GlCall) -> Provider {
        self.asked(GlStep::Call { call })
    }

    /// Whether the context takes commands.
    pub open spec fn ready(self, operation: &'static str) -> Result<(), GlError> {
        if self.lifecycle is Active {
            Ok(())
        } else {
            Err(self.lifecycle.spec_refusal(operation))
        }
    }

    /// The context after it was asked for an error, and that error.
    pub open spec fn driver_error(self, operation: &'static str, o: Seq<GlStep>) -> (
        Provider,
        Result<(), GlError>,
    ) {
        let reply = self.next(o)->Error_reply;
        let m = self.asked(GlStep::Error { reply });
        if reply == gl_const::NO_ERROR {
            (m, Ok(()))
        } else if reply == gl_const::OUT_OF_MEMORY {
            (m, Err(GlError::OutOfMemory { operation }))
        } else if reply == gl_const::CONTEXT_LOST {
            (
                Provider { lifecycle: GlContextLifecycle::Lost, ..m },
                Err(GlError::ContextLost { operation }),
            )
        } else {
            (
                m,
                Err(
                    GlError::Driver {
                        operation,
                        message: Message::Text("the driver reported an error"),
                    },
                ),
            )
        }
    }

    /// A buffer, if it is one of this context and still there.
    pub open spec fn buffer(self, operation: &'static str, id: BufferId) -> Result<NativeBuffer, GlError> {
        if id.stamp != self.stamp {
            Err(GlError::WrongContext { operation })
        } else if !self.buffers.contains_key(id.slot as u64) || self.buffers[id.slot as u64].generation
            != id.generation {
            Err(GlError::StaleObject { operation })
        } else {
            Ok(self.buffers[id.slot as u64])
        }
    }

    /// A texture, if it is one of this context and still there.
    pub open spec fn texture(self, operation: &'static str, id: TextureId) -> Result<NativeTexture, GlError> {
        if id.stamp != self.stamp {
            Err(GlError::WrongContext { operation })
        } else if !self.textures.contains_key(id.slot as u64) || self.textures[id.slot as u64].generation
            != id.generation {
            Err(GlError::StaleObject { operation })
        } else {
            Ok(self.textures[id.slot as u64])
        }
    }

    /// A renderbuffer, if it is one of this context and still there.
    pub open spec fn renderbuffer(self, operation: &'static str, id: RenderbufferId) -> Result<NativeRenderbuffer, GlError> {
        if id.stamp != self.stamp {
            Err(GlError::WrongContext { operation })
        } else if !self.renderbuffers.contains_key(id.slot as u64) || self.renderbuffers[id.slot as u64].generation
            != id.generation {
            Err(GlError::StaleObject { operation })
        } else {
            Ok(self.renderbuffers[id.slot as u64])
        }
    }

    /// A program, if it is one of this context and still there.
    pub open spec fn program(self, operation: &'static str, id: ProgramId) -> Result<NativeProgram, GlError> {
        if id.stamp != self.stamp {
            Err(GlError::WrongContext { operation })
        } else if !self.programs.contains_key(id.slot as u64) || self.programs[id.slot as u64].generation
            != id.generation {
            Err(GlError::StaleObject { operation })
        } else {
            Ok(self.programs[id.slot as u64])
        }
    }

    /// A vertex array, if it is one of this context and still there.
    pub open spec fn vertex_array(self, operation: &'static str, id: VertexArrayId) -> Result<VertexArrayModel, GlError> {
        if id.stamp != self.stamp {
            Err(GlError::WrongContext { operation })
        } else if !self.vertex_arrays.contains_key(id.slot as u64) || self.vertex_arrays[id.slot as u64].generation
            != id.generation {
            Err(GlError::StaleObject { operation })
        } else {
            Ok(self.vertex_arrays[id.slot as u64])
        }
    }

    /// A framebuffer, if it is one of this context and still there.
    pub open spec fn framebuffer(self, operation: &'static str, id: FramebufferId) -> Result<FramebufferRecord, GlError> {
        if id.stamp != self.stamp {
            Err(GlError::WrongContext { operation })
        } else if !self.framebuffers.contains_key(id.slot as u64) || self.framebuffers[id.slot as u64].generation
            != id.generation {
            Err(GlError::StaleObject { operation })
        } else {
            Ok(self.framebuffers[id.slot as u64])
        }
    }

    /// The next free slot.
    pub open spec fn slot(self, operation: &'static str) -> (Provider, Result<u32, GlError>) {
        if self.next_slot == u32::MAX {
            (self, Err(invalid(operation, "object slots are exhausted")))
        } else {
            (Provider { next_slot: (self.next_slot + 1) as u32, ..self }, Ok(self.next_slot))
        }
    }

    /// Selects a program, unless it is selected already.
    pub open spec fn ensure_program(self, operation: &'static str, program: ProgramId) -> (
        Provider,
        Result<(), GlError>,
    ) {
        match self.program(operation, program) {
            Err(error) => (self, Err(error)),
            Ok(entry) => if self.bound_program == Some(program) {
                (self, Ok(()))
            } else {
                (
                    Provider {
                        bound_program: Some(program),
                        ..self.call(GlCall::UseProgram { program: entry.raw })
                    },
                    Ok(()),
                )
            },
        }
    }

    /// Binds a vertex array, unless it is bound already.
    pub open spec fn ensure_vertex_array(
        self,
        operation: &'static str,
        vertex_array: VertexArrayId,
    ) -> (Provider, Result<(), GlError>) {
        match self.vertex_array(operation, vertex_array) {
            Err(error) => (self, Err(error)),
            Ok(entry) => if self.bound_vertex_array == Some(vertex_array) {
                (self, Ok(()))
            } else {
                (
                    Provider {
                        bound_vertex_array: Some(vertex_array),
                        ..self.call(GlCall::BindVertexArray { vertex_array: entry.raw })
                    },
                    Ok(()),
                )
            },
        }
    }
}

/// The objects of a context, and what is bound on it.
pub struct NativeGlProvider<G> {
    pub link: CallLink<G>,
    pub stamp: ContextStamp,
    pub lifecycle: GlContextLifecycle,
    pub profile: GlFamilyProfile,
    pub limits: GlLimits,
    pub formats: GlFormatTable,
    pub buffers: Table<NativeBuffer>,
    pub textures: Table<NativeTexture>,
    pub renderbuffers: Table<NativeRenderbuffer>,
    pub programs: Table<NativeProgram>,
    pub vertex_arrays: Shelf<NativeVertexArray>,
    pub framebuffers: Shelf<NativeFramebuffer>,
    pub pass: Option<ActivePass>,
    pub raster: Option<ActiveRaster>,
    pub bound_program: Option<ProgramId>,
    pub bound_vertex_array: Option<VertexArrayId>,
    pub next_slot: u32,
}

/// The open pass by value, if there is one.
pub open spec fn pass_model(pass: Option<ActivePass>) -> Option<PassModel> {
    match pass {
        Some(pass) => Some(pass@),
        None => None,
    }
}

impl<G> View for NativeGlProvider<G> {
    type V = Provider;

    open spec fn view(&self) -> Provider {
        Provider {
            log: self.link@,
            stamp: self.stamp,
            lifecycle: self.lifecycle,
            profile: self.profile,
            limits: self.limits,
            formats: self.formats@,
            buffers: self.buffers@,
            textures: self.textures@,
            renderbuffers: self.renderbuffers@,
            programs: self.programs@,
            vertex_arrays: self.vertex_arrays@,
            framebuffers: self.framebuffers@,
            pass: pass_model(self.pass),
            raster: self.raster,
            bound_program: self.bound_program,
            bound_vertex_array: self.bound_vertex_array,
            next_slot: self.next_slot,
        }
    }
}

impl<G: GlCalls> NativeGlProvider<G> {
    pub open spec fn wf(&self) -> bool {
        &&& self.formats.wf()
        &&& self.buffers.wf()
        &&& self.textures.wf()
        &&& self.renderbuffers.wf()
        &&& self.programs.wf()
        &&& self.vertex_arrays.wf()
        &&& self.framebuffers.wf()
    }

    /// A context without any object.
    pub fn new(
        gl: G,
        stamp: ContextStamp,
        profile: GlFamilyProfile,
        limits: GlLimits,
        formats: GlFormatTable,
    ) -> (result: Self)
        requires
            formats.wf(),
        ensures
            result.wf(),
            result@ == (Provider {
                log: Seq::empty(),
                stamp,
                lifecycle: GlContextLifecycle::Active,
                profile,
                limits,
                formats: formats@,
                buffers: Map::empty(),
                textures: Map::empty(),
                renderbuffers: Map::empty(),
                programs: Map::empty(),
                vertex_arrays: Map::empty(),
                framebuffers: Map::empty(),
                pass: None,
                raster: None,
                bound_program: None,
                bound_vertex_array: None,
                next_slot: 0,
            }),
    {
        NativeGlProvider {
            link: CallLink::new(gl),
            stamp,
            lifecycle: GlContextLifecycle::Active,
            profile,
            limits,
            formats,
            buffers: Table::new(),
            textures: Table::new(),
            renderbuffers: Table::new(),
            programs: Table::new(),
            vertex_arrays: Shelf::new(),
            framebuffers: Shelf::new(),
            pass: None,
            raster: None,
            bound_program: None,
            bound_vertex_array: None,
            next_slot: 0,
        }
    }

    /// Whether the context takes commands.
    pub fn assert_ready(&self, operation: &'static str) -> (result: Result<(), GlError>)
        ensures
            result == self@.ready(operation),
    {
        if self.lifecycle.accepts_commands() {
            Ok(())
        } else {
            Err(self.lifecycle.refusal(operation))
        }
    }

    /// Gives a command that answers nothing.
    pub fn call(&mut self, call: GlCall)
        requires
            old(self).wf(),
        ensures
            final(self).wf(),
            final(self)@ == old(self)@.call(call),
    {
        self.link.call(call);
    }

    /// Asks for an error. A loss ends the context.
    pub fn driver_error(&mut self, operation: &'static str) -> (result: Result<(), GlError>)
        requires
            old(self).wf(),
        ensures
            final(self).wf(),
            call::grows(old(self)@.log, final(self)@.log),
            forall|o: Seq<GlStep>|
                call::grows(final(self)@.log, o) ==> #[trigger] old(self)@.driver_error(operation, o) == (
                    final(self)@,
                    result,
                ),
    {
        let reply = self.link.get_error();
        if reply == gl_const::NO_ERROR {
            Ok(())
        } else if reply == gl_const::OUT_OF_MEMORY {
            Err(GlError::OutOfMemory { operation })
        } else if reply == gl_const::CONTEXT_LOST {
            self.lifecycle = GlContextLifecycle::Lost;
            Err(GlError::ContextLost { operation })
        } else {
            Err(
                GlError::Driver {
                    operation,
                    message: Message::Text("the driver reported an error"),
                },
            )
        }
    }

    pub fn buffer(&self, operation: &'static str, id: BufferId) -> (result: Result<NativeBuffer, GlError>)
        requires
            self.wf(),
        ensures
            result == self@.buffer(operation, id),
    {
        if id.stamp != self.stamp {
            return Err(GlError::WrongContext { operation });
        }
        match self.buffers.get(id.slot as u64) {
            Some(entry) => if entry.generation == id.generation {
                Ok(*entry)
            } else {
                Err(GlError::StaleObject { operation })
            },
            None => Err(GlError::StaleObject { operation }),
        }
    }

    pub fn texture(&self, operation: &'static str, id: TextureId) -> (result: Result<NativeTexture, GlError>)
        requires
            self.wf(),
        ensures
            result == self@.texture(operation, id),
    {
        if id.stamp != self.stamp {
            return Err(GlError::WrongContext { operation });
        }
        match self.textures.get(id.slot as u64) {
            Some(entry) => if entry.generation == id.generation {
                Ok(*entry)
            } else {
                Err(GlError::StaleObject { operation })
            },
            None => Err(GlError::StaleObject { operation }),
        }
    }

    pub fn renderbuffer(&self, operation: &'static str, id: RenderbufferId) -> (result: Result<NativeRenderbuffer, GlError>)
        requires
            self.wf(),
        ensures
            result == self@.renderbuffer(operation, id),
    {
        if id.stamp != self.stamp {
            return Err(GlError::WrongContext { operation });
        }
        match self.renderbuffers.get(id.slot as u64) {
            Some(entry) => if entry.generation == id.generation {
                Ok(*entry)
            } else {
                Err(GlError::StaleObject { operation })
            },
            None => Err(GlError::StaleObject { operation }),
        }
    }

    pub fn program(&self, operation: &'static str, id: ProgramId) -> (result: Result<NativeProgram, GlError>)
        requires
            self.wf(),
        ensures
            result == self@.program(operation, id),
    {
        if id.stamp != self.stamp {
            return Err(GlError::WrongContext { operation });
        }
        match self.programs.get(id.slot as u64) {
            Some(entry) => if entry.generation == id.generation {
                Ok(*entry)
            } else {
                Err(GlError::StaleObject { operation })
            },
            None => Err(GlError::StaleObject { operation }),
        }
    }

    pub fn vertex_array(&self, operation: &'static str, id: VertexArrayId) -> (result: Result<&NativeVertexArray, GlError>)
        requires
            self.wf(),
        ensures
            match self@.vertex_array(operation, id) {
                Ok(model) => result is Ok && result->Ok_0@ == model,
                Err(error) => result == Err::<&NativeVertexArray, _>(error),
            },
    {
        if id.stamp != self.stamp {
            return Err(GlError::WrongContext { operation });
        }
        match self.vertex_arrays.get(id.slot as u64) {
            Some(entry) => if entry.generation == id.generation {
                Ok(entry)
            } else {
                Err(GlError::StaleObject { operation })
            },
            None => Err(GlError::StaleObject { operation }),
        }
    }

    pub fn framebuffer(&self, operation: &'static str, id: FramebufferId) -> (result: Result<&NativeFramebuffer, GlError>)
        requires
            self.wf(),
        ensures
            match self@.framebuffer(operation, id) {
                Ok(model) => result is Ok && result->Ok_0@ == model,
                Err(error) => result == Err::<&NativeFramebuffer, _>(error),
            },
    {
        if id.stamp != self.stamp {
            return Err(GlError::WrongContext { operation });
        }
        match self.framebuffers.get(id.slot as u64) {
            Some(entry) => if entry.generation == id.generation {
                Ok(entry)
            } else {
                Err(GlError::StaleObject { operation })
            },
            None => Err(GlError::StaleObject { operation }),
        }
    }

    /// The next free slot.
    pub fn slot(&mut self, operation: &'static str) -> (result: Result<u32, GlError>)
        requires
            old(self).wf(),
        ensures
            final(self).wf(),
            (final(self)@, result) == old(self)@.slot(operation),
    {
        if self.next_slot == u32::MAX {
            return Err(validation(operation, "object slots are exhausted"));
        }
        let slot = self.next_slot;
        self.next_slot = slot + 1;
        Ok(slot)
    }

    /// Selects a program, unless it is selected already.
    pub fn ensure_program(&mut self, operation: &'static str, program: ProgramId) -> (result: Result<
        (),
        GlError,
    >)
        requires
            old(self).wf(),
        ensures
            final(self).wf(),
            (final(self)@, result) == old(self)@.ensure_program(operation, program),
    {
        let entry = match self.program(operation, program) {
            Ok(value) => value,
            Err(error) => {
                return Err(error);
            },
        };
        if let Some(bound) = self.bound_program {
            if bound == program {
                return Ok(());
            }
        }
        self.link.call(GlCall::UseProgram { program: entry.raw });
        self.bound_program = Some(program);
        Ok(())
    }

    /// Binds a vertex array, unless it is bound already.
    pub fn ensure_vertex_array(
        &mut self,
        operation: &'static str,
        vertex_array: VertexArrayId,
    ) -> (result: Result<(), GlError>)
        requires
            old(self).wf(),
        ensures
            final(self).wf(),
            (final(self)@, result) == old(self)@.ensure_vertex_array(operation, vertex_array),
    {
        let raw = match self.vertex_array(operation, vertex_array) {
            Ok(entry) => entry.raw,
            Err(error) => {
                return Err(error);
            },
        };
        if let Some(bound) = self.bound_vertex_array {
            if bound == vertex_array {
                return Ok(());
            }
        }
        self.link.call(GlCall::BindVertexArray { vertex_array: raw });
        self.bound_vertex_array = Some(vertex_array);
        Ok(())
    }
}

/// Where depth and stencil of a format are attached, if anywhere.
pub open spec fn attachment_point(format: GlFormat) -> Option<u32> {
    match format {
        GlFormat::Depth16Unorm | GlFormat::Depth24Unorm | GlFormat::Depth32Float => Some(
            gl_const::DEPTH_ATTACHMENT,
        ),
        GlFormat::Depth24PlusStencil8 | GlFormat::Depth32FloatStencil8 => Some(
            gl_const::DEPTH_STENCIL_ATTACHMENT,
        ),
        GlFormat::Stencil8 => Some(gl_const::STENCIL_ATTACHMENT),
        _ => None,
    }
}

pub fn depth_attachment_point(format: GlFormat) -> (result: Option<u32>)
    ensures
        result == attachment_point(format),
{
    match format {
        GlFormat::Depth16Unorm | GlFormat::Depth24Unorm | GlFormat::Depth32Float => Some(
            gl_const::DEPTH_ATTACHMENT,
        ),
        GlFormat::Depth24PlusStencil8 | GlFormat::Depth32FloatStencil8 => Some(
            gl_const::DEPTH_STENCIL_ATTACHMENT,
        ),
        GlFormat::Stencil8 => Some(gl_const::STENCIL_ATTACHMENT),
        _ => None,
    }
}

/// Whether a format has stencil.
pub open spec fn stencil_plane(format: GlFormat) -> bool {
    format is Depth24PlusStencil8 || format is Depth32FloatStencil8 || format is Stencil8
}

pub fn has_stencil_plane(format: GlFormat) -> (result: bool)
    ensures
        result == stencil_plane(format),
{
    match format {
        GlFormat::Depth24PlusStencil8 | GlFormat::Depth32FloatStencil8 | GlFormat::Stencil8 => true,
        _ => false,
    }
}

} // verus!
