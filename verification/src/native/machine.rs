//! What a GL context does with the commands that it is given.
//!
//! The settings of a context follow from the commands alone. The tokens are
//! written out as the numbers that GL gives them.

use vstd::prelude::*;
use crate::api::gl::GlColorBits;
use crate::native::call::{GlCall, GlCorners, GlStep};

verus! {

/// The object behind an attachment point.
pub enum Attached {
    Texture { target: u32, texture: u32, level: i32 },
    Renderbuffer { renderbuffer: u32 },
}

/// Where an attribute is read from, and how.
pub struct Pointer {
    pub buffer: Option<u32>,
    pub components: i32,
    pub kind: u32,
    /// Whether integers are brought into the unit interval. Nothing for
    /// attributes that stay integers.
    pub normalized: Option<bool>,
    pub stride: i32,
    pub offset: i32,
}

/// A test of the stencil: the comparison, the reference and the bits compared.
pub struct StencilTest {
    pub function: u32,
    pub reference: i32,
    pub mask: u32,
}

/// What becomes of the stencil.
pub struct StencilChange {
    pub fail: u32,
    pub depth_fail: u32,
    pub pass: u32,
}

/// The weights of a blend.
pub struct Weights {
    pub src_color: u32,
    pub dst_color: u32,
    pub src_alpha: u32,
    pub dst_alpha: u32,
}

/// A rectangle.
pub struct Area {
    pub x: i32,
    pub y: i32,
    pub width: i32,
    pub height: i32,
}

/// One drawing, with what it was drawn with.
pub struct Drawing {
    pub mode: u32,
    /// The first vertex, or the byte of the first index.
    pub first: i32,
    pub count: i32,
    pub instances: i32,
    /// The type of the indices, if there are any.
    pub indices: Option<u32>,
    pub program: Option<u32>,
    pub vertex_array: Option<u32>,
    pub framebuffer: Option<Option<u32>>,
}

/// One copy between framebuffers.
pub struct Copying {
    pub from: Option<Option<u32>>,
    pub to: Option<Option<u32>>,
    pub source: GlCorners,
    pub destination: GlCorners,
    pub mask: u32,
    pub filter: u32,
}

/// The settings of a context. What was never set is not known.
#[verifier::ext_equal]
pub struct Machine {
    /// The framebuffer that is drawn to, and the one that is read from. Without
    /// a name it is the drawable.
    pub drawn: Option<Option<u32>>,
    pub read: Option<Option<u32>>,
    /// Which buffers are drawn to, by framebuffer.
    pub targets: Map<Option<u32>, Seq<u32>>,
    /// What is attached, by framebuffer and attachment point.
    pub attached: Map<(Option<u32>, u32), Attached>,
    /// What whole buffers were cleared to, by framebuffer.
    pub color: Map<(Option<u32>, u32), GlColorBits>,
    pub depth: Map<Option<u32>, u32>,
    pub stencil: Map<Option<u32>, int>,
    /// The contents that may be lost, by framebuffer and attachment point.
    pub given_up: Set<(Option<u32>, u32)>,
    pub enabled: Map<u32, bool>,
    pub program: Option<u32>,
    pub vertex_array: Option<u32>,
    pub array_buffer: Option<u32>,
    /// The attributes, by vertex array and location.
    pub pointers: Map<(Option<u32>, u32), Pointer>,
    pub read_from: Set<(Option<u32>, u32)>,
    pub divisors: Map<(Option<u32>, u32), u32>,
    /// The buffer of the indices, by vertex array.
    pub indices: Map<Option<u32>, Option<u32>>,
    pub viewport: Option<Area>,
    pub depth_range: Option<(u32, u32)>,
    pub scissor: Option<Area>,
    pub culled: Option<u32>,
    pub front: Option<u32>,
    pub depth_written: Option<bool>,
    pub depth_function: Option<u32>,
    pub bias: Option<(u32, u32)>,
    /// The stencil, by face.
    pub stencil_tests: Map<u32, StencilTest>,
    pub stencil_masks: Map<u32, u32>,
    pub stencil_changes: Map<u32, StencilChange>,
    pub channels: Option<(bool, bool, bool, bool)>,
    pub weights: Option<Weights>,
    pub equations: Option<(u32, u32)>,
    pub constant: Option<GlColorBits>,
    pub drawings: Seq<Drawing>,
    pub copies: Seq<Copying>,
}

impl Machine {
    /// Whether a clear reaches the whole buffer.
    pub open spec fn clears_all(self) -> bool {
        self.enabled.contains_key(0x0C11) && !self.enabled[0x0C11]
    }

    /// Where an attribute is read from after its pointer was set.
    pub open spec fn pointed(self, location: u32, pointer: Pointer) -> Machine {
        Machine {
            pointers: self.pointers.insert((self.vertex_array, location), pointer),
            ..self
        }
    }

    /// The machine after a drawing.
    pub open spec fn drew(
        self,
        mode: u32,
        first: i32,
        count: i32,
        instances: i32,
        indices: Option<u32>,
    ) -> Machine {
        Machine {
            drawings: self.drawings.push(
                Drawing {
                    mode,
                    first,
                    count,
                    instances,
                    indices,
                    program: self.program,
                    vertex_array: self.vertex_array,
                    framebuffer: self.drawn,
                },
            ),
            ..self
        }
    }

    /// The machine after a command.
    pub open spec fn given(self, call: GlCall) -> Machine {
        match call {
            GlCall::BindFramebuffer { target, framebuffer } => Machine {
                drawn: if target == 0x8D40 || target == 0x8CA9 {
                    Some(framebuffer)
                } else {
                    self.drawn
                },
                read: if target == 0x8D40 || target == 0x8CA8 {
                    Some(framebuffer)
                } else {
                    self.read
                },
                ..self
            },
            GlCall::FramebufferTexture2d { target, attachment, texture_target, texture, level } =>
                Machine {
                attached: self.attached.insert(
                    (self.drawn->0, attachment),
                    Attached::Texture { target: texture_target, texture, level },
                ),
                ..self
            },
            GlCall::FramebufferRenderbuffer {
                target,
                attachment,
                renderbuffer_target,
                renderbuffer,
            } => Machine {
                attached: self.attached.insert(
                    (self.drawn->0, attachment),
                    Attached::Renderbuffer { renderbuffer },
                ),
                ..self
            },
            GlCall::Enable { capability } => Machine {
                enabled: self.enabled.insert(capability, true),
                ..self
            },
            GlCall::Disable { capability } => Machine {
                enabled: self.enabled.insert(capability, false),
                ..self
            },
            GlCall::ClearColor { index, color } => Machine {
                color: if self.clears_all() {
                    self.color.insert((self.drawn->0, index), color)
                } else {
                    self.color.remove((self.drawn->0, index))
                },
                ..self
            },
            GlCall::ClearDepthStencil { depth, stencil } => Machine {
                depth: if self.clears_all() {
                    self.depth.insert(self.drawn->0, depth)
                } else {
                    self.depth.remove(self.drawn->0)
                },
                stencil: if self.clears_all() {
                    self.stencil.insert(self.drawn->0, stencil as int)
                } else {
                    self.stencil.remove(self.drawn->0)
                },
                ..self
            },
            GlCall::ClearDepth { depth } => Machine {
                depth: if self.clears_all() {
                    self.depth.insert(self.drawn->0, depth)
                } else {
                    self.depth.remove(self.drawn->0)
                },
                ..self
            },
            GlCall::ClearStencil { stencil } => Machine {
                stencil: if self.clears_all() {
                    self.stencil.insert(self.drawn->0, stencil as int)
                } else {
                    self.stencil.remove(self.drawn->0)
                },
                ..self
            },
            GlCall::BlitFramebuffer { source, destination, mask, filter } => Machine {
                copies: self.copies.push(
                    Copying { from: self.read, to: self.drawn, source, destination, mask, filter },
                ),
                ..self
            },
            GlCall::UseProgram { program } => Machine { program: Some(program), ..self },
            GlCall::BindVertexArray { vertex_array } => Machine {
                vertex_array: Some(vertex_array),
                ..self
            },
            GlCall::BindBuffer { target, buffer } => if target == 0x8892 {
                Machine { array_buffer: buffer, ..self }
            } else if target == 0x8893 {
                Machine { indices: self.indices.insert(self.vertex_array, buffer), ..self }
            } else {
                self
            },
            GlCall::VertexAttribPointerF32 { location, size, kind, normalized, stride, offset } =>
                self.pointed(
                location,
                Pointer {
                    buffer: self.array_buffer,
                    components: size,
                    kind,
                    normalized: Some(normalized),
                    stride,
                    offset,
                },
            ),
            GlCall::VertexAttribPointerI32 { location, size, kind, stride, offset } => self.pointed(
                location,
                Pointer {
                    buffer: self.array_buffer,
                    components: size,
                    kind,
                    normalized: None,
                    stride,
                    offset,
                },
            ),
            GlCall::EnableVertexAttribArray { location } => Machine {
                read_from: self.read_from.insert((self.vertex_array, location)),
                ..self
            },
            GlCall::VertexAttribDivisor { location, divisor } => Machine {
                divisors: self.divisors.insert((self.vertex_array, location), divisor),
                ..self
            },
            GlCall::Viewport { x, y, width, height } => Machine {
                viewport: Some(Area { x, y, width, height }),
                ..self
            },
            GlCall::DepthRange { near, far } => Machine { depth_range: Some((near, far)), ..self },
            GlCall::Scissor { x, y, width, height } => Machine {
                scissor: Some(Area { x, y, width, height }),
                ..self
            },
            GlCall::CullFace { face } => Machine { culled: Some(face), ..self },
            GlCall::FrontFace { face } => Machine { front: Some(face), ..self },
            GlCall::DepthMask { write } => Machine { depth_written: Some(write), ..self },
            GlCall::DepthFunc { function } => Machine { depth_function: Some(function), ..self },
            GlCall::PolygonOffset { factor, units } => Machine {
                bias: Some((factor, units)),
                ..self
            },
            GlCall::StencilFuncSeparate { face, function, reference, mask } => Machine {
                stencil_tests: self.stencil_tests.insert(
                    face,
                    StencilTest { function, reference, mask },
                ),
                ..self
            },
            GlCall::StencilMaskSeparate { face, mask } => Machine {
                stencil_masks: self.stencil_masks.insert(face, mask),
                ..self
            },
            GlCall::StencilOpSeparate { face, fail, depth_fail, pass } => Machine {
                stencil_changes: self.stencil_changes.insert(
                    face,
                    StencilChange { fail, depth_fail, pass },
                ),
                ..self
            },
            GlCall::ColorMask { red, green, blue, alpha } => Machine {
                channels: Some((red, green, blue, alpha)),
                ..self
            },
            GlCall::BlendFuncSeparate { src_color, dst_color, src_alpha, dst_alpha } => Machine {
                weights: Some(Weights { src_color, dst_color, src_alpha, dst_alpha }),
                ..self
            },
            GlCall::BlendEquationSeparate { color, alpha } => Machine {
                equations: Some((color, alpha)),
                ..self
            },
            GlCall::BlendColor { color } => Machine { constant: Some(color), ..self },
            GlCall::DrawArrays { mode, first, count } => self.drew(mode, first, count, 1, None),
            GlCall::DrawArraysInstanced { mode, first, count, instances } => self.drew(
                mode,
                first,
                count,
                instances,
                None,
            ),
            GlCall::DrawElements { mode, count, kind, offset } => self.drew(
                mode,
                offset,
                count,
                1,
                Some(kind),
            ),
            GlCall::DrawElementsInstanced { mode, count, kind, offset, instances } => self.drew(
                mode,
                offset,
                count,
                instances,
                Some(kind),
            ),
            GlCall::DeleteFramebuffer { .. } | GlCall::DeleteVertexArray { .. } => self,
        }
    }

    /// The machine after a step.
    pub open spec fn stepped(self, step: GlStep) -> Machine {
        match step {
            GlStep::Call { call } => self.given(call),
            GlStep::DrawBuffers { buffers } => Machine {
                targets: self.targets.insert(self.drawn->0, buffers),
                ..self
            },
            GlStep::Invalidate { target, attachments } => Machine {
                given_up: self.given_up.union(
                    Set::new(
                        |at: (Option<u32>, u32)|
                            at.0 == self.drawn->0 && attachments.contains(at.1),
                    ),
                ),
                ..self
            },
            _ => self,
        }
    }

    /// The machine after all steps of a record.
    pub open spec fn run(self, steps: Seq<GlStep>) -> Machine
        decreases steps.len(),
    {
        if steps.len() == 0 {
            self
        } else {
            self.run(steps.drop_last()).stepped(steps.last())
        }
    }
}

/// One more step is made where the others ended.
pub broadcast proof fn one_more_step(machine: Machine, steps: Seq<GlStep>, step: GlStep)
    ensures
        #[trigger] machine.run(steps.push(step)) == machine.run(steps).stepped(step),
{
    assert(steps.push(step).drop_last() =~= steps);
}

} // verus!
