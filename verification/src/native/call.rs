//! The commands that are given to a context, one by one.
//!
//! The library assumes nothing of the answers, and records what it gave.

use vstd::prelude::*;
use crate::api::error::Message;
use crate::api::gl::GlColorBits;

verus! {

/// The corners of a rectangle.
#[derive(Clone, Copy, Debug, PartialEq, Eq, Structural)]
pub struct GlCorners {
    pub x0: i32,
    pub y0: i32,
    pub x1: i32,
    pub y1: i32,
}

/// A command that answers nothing. Floating-point numbers are bit patterns.
#[derive(Clone, Copy, Debug, PartialEq, Eq, Structural)]
pub enum GlCall {
    BindFramebuffer { target: u32, framebuffer: Option<u32> },
    DeleteFramebuffer { framebuffer: u32 },
    FramebufferTexture2d {
        target: u32,
        attachment: u32,
        texture_target: u32,
        texture: u32,
        level: i32,
    },
    FramebufferRenderbuffer {
        target: u32,
        attachment: u32,
        renderbuffer_target: u32,
        renderbuffer: u32,
    },
    Enable { capability: u32 },
    Disable { capability: u32 },
    ClearColor { index: u32, color: GlColorBits },
    ClearDepthStencil { depth: u32, stencil: i32 },
    ClearDepth { depth: u32 },
    ClearStencil { stencil: u32 },
    BlitFramebuffer { source: GlCorners, destination: GlCorners, mask: u32, filter: u32 },
    UseProgram { program: u32 },
    BindVertexArray { vertex_array: u32 },
    DeleteVertexArray { vertex_array: u32 },
    BindBuffer { target: u32, buffer: Option<u32> },
    VertexAttribPointerF32 {
        location: u32,
        size: i32,
        kind: u32,
        normalized: bool,
        stride: i32,
        offset: i32,
    },
    VertexAttribPointerI32 { location: u32, size: i32, kind: u32, stride: i32, offset: i32 },
    EnableVertexAttribArray { location: u32 },
    VertexAttribDivisor { location: u32, divisor: u32 },
    Viewport { x: i32, y: i32, width: i32, height: i32 },
    DepthRange { near: u32, far: u32 },
    Scissor { x: i32, y: i32, width: i32, height: i32 },
    CullFace { face: u32 },
    FrontFace { face: u32 },
    DepthMask { write: bool },
    DepthFunc { function: u32 },
    PolygonOffset { factor: u32, units: u32 },
    StencilFuncSeparate { face: u32, function: u32, reference: i32, mask: u32 },
    StencilMaskSeparate { face: u32, mask: u32 },
    StencilOpSeparate { face: u32, fail: u32, depth_fail: u32, pass: u32 },
    ColorMask { red: bool, green: bool, blue: bool, alpha: bool },
    BlendFuncSeparate { src_color: u32, dst_color: u32, src_alpha: u32, dst_alpha: u32 },
    BlendEquationSeparate { color: u32, alpha: u32 },
    BlendColor { color: GlColorBits },
    DrawArrays { mode: u32, first: i32, count: i32 },
    DrawArraysInstanced { mode: u32, first: i32, count: i32, instances: i32 },
    DrawElements { mode: u32, count: i32, kind: u32, offset: i32 },
    DrawElementsInstanced { mode: u32, count: i32, kind: u32, offset: i32, instances: i32 },
}

/// One command, and its answer if it has one.
#[allow(inconsistent_fields)]
pub enum GlStep {
    /// In this step a command was given.
    Call { call: GlCall },
    /// In this step the buffers to draw to were selected.
    DrawBuffers { buffers: Seq<u32> },
    /// In this step attachments were given up.
    Invalidate { target: u32, attachments: Seq<u32> },
    /// In this step a framebuffer was made.
    CreateFramebuffer { reply: Result<u32, Message> },
    /// In this step a vertex array was made.
    CreateVertexArray { reply: Result<u32, Message> },
    /// In this step the bound framebuffer was examined.
    Status { target: u32, reply: u32 },
    /// In this step one pending error was taken.
    Error { reply: u32 },
}

/// Whether the second record begins with the first.
pub open spec fn grows(before: Seq<GlStep>, after: Seq<GlStep>) -> bool {
    before.len() <= after.len() && forall|i: int|
        0 <= i < before.len() ==> before[i] == #[trigger] after[i]
}

/// A current context.
pub trait GlCalls {
    /// Gives a command that answers nothing.
    fn call(&mut self, call: GlCall);

    fn draw_buffers(&mut self, buffers: &Vec<u32>);

    fn invalidate_framebuffer(&mut self, target: u32, attachments: &Vec<u32>);

    fn create_framebuffer(&mut self) -> Result<u32, Message>;

    fn create_vertex_array(&mut self) -> Result<u32, Message>;

    fn check_framebuffer_status(&mut self, target: u32) -> u32;

    fn get_error(&mut self) -> u32;
}

/// A context with the record of what it was given.
pub struct CallLink<G> {
    gl: G,
    log: Ghost<Seq<GlStep>>,
}

impl<G> View for CallLink<G> {
    type V = Seq<GlStep>;

    closed spec fn view(&self) -> Seq<GlStep> {
        self.log@
    }
}

impl<G: GlCalls> CallLink<G> {
    /// The context that is given the commands.
    pub closed spec fn spec_gl(&self) -> G {
        self.gl
    }

    pub fn new(gl: G) -> (result: Self)
        ensures
            result.spec_gl() == gl,
            result@ == Seq::<GlStep>::empty(),
    {
        CallLink { gl, log: Ghost(Seq::empty()) }
    }

    pub fn call(&mut self, call: GlCall)
        ensures
            exists|asked: &mut G|
                {
                    &&& *asked == old(self).spec_gl()
                    &&& *final(asked) == final(self).spec_gl()
                    &&& #[trigger] call_ensures(G::call, (asked, call), ())
                },
            final(self)@ == old(self)@.push(GlStep::Call { call }),
    {
        self.gl.call(call);
        proof {
            self.log@ = self.log@.push(GlStep::Call { call });
        }
    }

    pub fn draw_buffers(&mut self, buffers: &Vec<u32>)
        ensures
            exists|asked: &mut G|
                {
                    &&& *asked == old(self).spec_gl()
                    &&& *final(asked) == final(self).spec_gl()
                    &&& #[trigger] call_ensures(G::draw_buffers, (asked, buffers), ())
                },
            final(self)@ == old(self)@.push(GlStep::DrawBuffers { buffers: buffers@ }),
    {
        self.gl.draw_buffers(buffers);
        proof {
            self.log@ = self.log@.push(GlStep::DrawBuffers { buffers: buffers@ });
        }
    }

    pub fn invalidate_framebuffer(&mut self, target: u32, attachments: &Vec<u32>)
        ensures
            exists|asked: &mut G|
                {
                    &&& *asked == old(self).spec_gl()
                    &&& *final(asked) == final(self).spec_gl()
                    &&& #[trigger] call_ensures(G::invalidate_framebuffer, (asked, target, attachments), ())
                },
            final(self)@ == old(self)@.push(
                GlStep::Invalidate { target, attachments: attachments@ },
            ),
    {
        self.gl.invalidate_framebuffer(target, attachments);
        proof {
            self.log@ = self.log@.push(GlStep::Invalidate { target, attachments: attachments@ });
        }
    }

    pub fn create_framebuffer(&mut self) -> (reply: Result<u32, Message>)
        ensures
            exists|asked: &mut G|
                {
                    &&& *asked == old(self).spec_gl()
                    &&& *final(asked) == final(self).spec_gl()
                    &&& #[trigger] call_ensures(G::create_framebuffer, (asked,), reply)
                },
            final(self)@ == old(self)@.push(GlStep::CreateFramebuffer { reply }),
    {
        let reply = self.gl.create_framebuffer();
        proof {
            self.log@ = self.log@.push(GlStep::CreateFramebuffer { reply });
        }
        reply
    }

    pub fn create_vertex_array(&mut self) -> (reply: Result<u32, Message>)
        ensures
            exists|asked: &mut G|
                {
                    &&& *asked == old(self).spec_gl()
                    &&& *final(asked) == final(self).spec_gl()
                    &&& #[trigger] call_ensures(G::create_vertex_array, (asked,), reply)
                },
            final(self)@ == old(self)@.push(GlStep::CreateVertexArray { reply }),
    {
        let reply = self.gl.create_vertex_array();
        proof {
            self.log@ = self.log@.push(GlStep::CreateVertexArray { reply });
        }
        reply
    }

    pub fn check_framebuffer_status(&mut self, target: u32) -> (reply: u32)
        ensures
            exists|asked: &mut G|
                {
                    &&& *asked == old(self).spec_gl()
                    &&& *final(asked) == final(self).spec_gl()
                    &&& #[trigger] call_ensures(G::check_framebuffer_status, (asked, target), reply)
                },
            final(self)@ == old(self)@.push(GlStep::Status { target, reply }),
    {
        let reply = self.gl.check_framebuffer_status(target);
        proof {
            self.log@ = self.log@.push(GlStep::Status { target, reply });
        }
        reply
    }

    pub fn get_error(&mut self) -> (reply: u32)
        ensures
            exists|asked: &mut G|
                {
                    &&& *asked == old(self).spec_gl()
                    &&& *final(asked) == final(self).spec_gl()
                    &&& #[trigger] call_ensures(G::get_error, (asked,), reply)
                },
            final(self)@ == old(self)@.push(GlStep::Error { reply }),
    {
        let reply = self.gl.get_error();
        proof {
            self.log@ = self.log@.push(GlStep::Error { reply });
        }
        reply
    }
}

} // verus!
