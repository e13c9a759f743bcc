//! One triangle, drawn and read back.
//!
//! A fixture runs it to see that compiler, vertex path, rasterizer and readback
//! work together on a context. Ordinary submissions do not pass here.

use vstd::prelude::*;
use crate::api::error::{GlError, Message};
use crate::native::gl_const;
use crate::native::work_recorder::WorkRecorder;

verus! {

pub const VERTEX_SHADER: u32 = 0x8B31;

pub const FRAGMENT_SHADER: u32 = 0x8B30;

pub const RGBA: u32 = 0x1908;

/// The bits of the floating-point number one.
pub const ONE_BITS: u32 = 0x3F80_0000;

/// A command that answers nothing. Floating-point numbers are bit patterns.
#[derive(Clone, Copy, Debug, PartialEq, Eq)]
pub enum WorkCall {
    ShaderSource { shader: u32, source: &'static str },
    CompileShader { shader: u32 },
    DeleteShader { shader: u32 },
    AttachShader { program: u32, shader: u32 },
    LinkProgram { program: u32 },
    DeleteProgram { program: u32 },
    BindVertexArray { vertex_array: Option<u32> },
    DeleteVertexArray { vertex_array: u32 },
    UseProgram { program: Option<u32> },
    Viewport { x: i32, y: i32, width: i32, height: i32 },
    ClearColor { red: u32, green: u32, blue: u32, alpha: u32 },
    Clear { mask: u32 },
    DrawArrays { mode: u32, first: i32, count: i32 },
    Finish,
}

/// One command, and its answer if it has one.
#[allow(inconsistent_fields)]
pub enum WorkStep {
    /// In this step a command was given.
    Call { call: WorkCall },
    /// In this step a shader was made.
    CreateShader { kind: u32, reply: Result<u32, Message> },
    /// In this step it was asked whether a shader is compiled.
    Compiled { shader: u32, reply: bool },
    /// In this step the remarks on a shader were read.
    ShaderLog { shader: u32, reply: Message },
    /// In this step a program was made.
    CreateProgram { reply: Result<u32, Message> },
    /// In this step it was asked whether a program is linked.
    Linked { program: u32, reply: bool },
    /// In this step the remarks on a program were read.
    ProgramLog { program: u32, reply: Message },
    /// In this step a vertex array was made.
    CreateVertexArray { reply: Result<u32, Message> },
    /// In this step pixels were read.
    ReadPixels { width: i32, height: i32, format: u32, kind: u32, length: usize, reply: Vec<u8> },
    /// In this step one pending error was taken.
    Error { reply: u32 },
}

/// Whether the second record begins with the first.
pub open spec fn grows(before: Seq<WorkStep>, after: Seq<WorkStep>) -> bool {
    before.len() <= after.len() && forall|i: int|
        0 <= i < before.len() ==> before[i] == #[trigger] after[i]
}

/// A current context.
pub trait WorkCalls {
    /// Gives a command that answers nothing.
    fn call(&mut self, call: WorkCall);

    fn create_shader(&mut self, kind: u32) -> Result<u32, Message>;

    fn get_shader_compile_status(&mut self, shader: u32) -> bool;

    fn get_shader_info_log(&mut self, shader: u32) -> Message;

    fn create_program(&mut self) -> Result<u32, Message>;

    fn get_program_link_status(&mut self, program: u32) -> bool;

    fn get_program_info_log(&mut self, program: u32) -> Message;

    fn create_vertex_array(&mut self) -> Result<u32, Message>;

    /// Reads the pixels of the rectangle at the origin into this many bytes, the
    /// lowest row first.
    fn read_pixels(
        &mut self,
        width: i32,
        height: i32,
        format: u32,
        kind: u32,
        length: usize,
    ) -> Vec<u8>;

    fn get_error(&mut self) -> u32;
}

/// What tells the fixtures of the platforms apart.
#[derive(Clone, Copy, Debug)]
pub struct WorkPlan {
    pub operation: &'static str,
    pub shader_operation: &'static str,
    pub vertex: &'static str,
    pub fragment: &'static str,
    /// What is said if an error is left at the end.
    pub complaint: &'static str,
}

/// What was given so far, by value.
#[verifier::ext_equal]
pub struct Work {
    pub log: Seq<WorkStep>,
}

impl Work {
    /// The next step, according to a record.
    pub open spec fn next(self, o: Seq<WorkStep>) -> WorkStep {
        o[self.log.len() as int]
    }

    /// The record after one more step.
    pub open spec fn asked(self, step: WorkStep) -> Work {
        Work { log: self.log.push(step) }
    }

    pub open spec fn call(self, call: WorkCall) -> Work {
        self.asked(WorkStep::Call { call })
    }

    /// A compiled shader. What does not compile is deleted.
    pub open spec fn compile(
        self,
        kind: u32,
        source: &'static str,
        operation: &'static str,
        o: Seq<WorkStep>,
    ) -> (Work, Result<u32, GlError>) {
        let reply = self.next(o)->CreateShader_reply;
        let m1 = self.asked(WorkStep::CreateShader { kind, reply });
        match reply {
            Err(message) => (m1, Err(GlError::Driver { operation, message })),
            Ok(shader) => {
                let m2 = m1.call(WorkCall::ShaderSource { shader, source }).call(
                    WorkCall::CompileShader { shader },
                );
                let compiled = m2.next(o)->Compiled_reply;
                let m3 = m2.asked(WorkStep::Compiled { shader, reply: compiled });
                if compiled {
                    (m3, Ok(shader))
                } else {
                    let message = m3.next(o)->ShaderLog_reply;
                    (
                        m3.asked(WorkStep::ShaderLog { shader, reply: message }).call(
                            WorkCall::DeleteShader { shader },
                        ),
                        Err(GlError::Driver { operation, message }),
                    )
                }
            },
        }
    }

    /// The same triangle, some times.
    pub open spec fn drawn(self, draws: nat) -> Work
        decreases draws,
    {
        if draws == 0 {
            self
        } else {
            self.drawn((draws - 1) as nat).call(
                WorkCall::DrawArrays { mode: gl_const::TRIANGLES, first: 0, count: 3 },
            )
        }
    }

    /// The picture, if it is wanted.
    pub open spec fn picture(self, width: u32, height: u32, wanted: bool, o: Seq<WorkStep>) -> (
        Work,
        Option<Vec<u8>>,
    ) {
        if wanted {
            let reply = self.next(o)->ReadPixels_reply;
            (
                self.asked(
                    WorkStep::ReadPixels {
                        width: width as i32,
                        height: height as i32,
                        format: RGBA,
                        kind: gl_const::UNSIGNED_BYTE,
                        length: (width * height * 4) as usize,
                        reply,
                    },
                ),
                Some(reply),
            )
        } else {
            (self, None)
        }
    }

    /// The drawing with a linked program.
    pub open spec fn with_program(
        self,
        plan: WorkPlan,
        vertex: u32,
        fragment: u32,
        program: u32,
        size: (u32, u32),
        draws: u32,
        read_color: bool,
        o: Seq<WorkStep>,
    ) -> (Work, Result<Option<Vec<u8>>, GlError>) {
        let operation = plan.operation;
        let reply = self.next(o)->CreateVertexArray_reply;
        let m1 = self.asked(WorkStep::CreateVertexArray { reply });
        match reply {
            Err(message) => (m1, Err(GlError::Driver { operation, message })),
            Ok(vertex_array) => {
                let m2 = m1.call(
                    WorkCall::BindVertexArray { vertex_array: Some(vertex_array) },
                ).call(WorkCall::UseProgram { program: Some(program) }).call(
                    WorkCall::Viewport {
                        x: 0,
                        y: 0,
                        width: size.0 as i32,
                        height: size.1 as i32,
                    },
                ).call(WorkCall::ClearColor { red: 0, green: 0, blue: 0, alpha: ONE_BITS }).call(
                    WorkCall::Clear { mask: gl_const::COLOR_BUFFER_BIT },
                ).drawn(draws as nat).call(WorkCall::Finish);
                let (m3, color) = m2.picture(size.0, size.1, read_color, o);
                let m4 = m3.call(WorkCall::BindVertexArray { vertex_array: None }).call(
                    WorkCall::UseProgram { program: None },
                ).call(WorkCall::DeleteVertexArray { vertex_array }).call(
                    WorkCall::DeleteProgram { program },
                ).call(WorkCall::DeleteShader { shader: vertex }).call(
                    WorkCall::DeleteShader { shader: fragment },
                );
                let code = m4.next(o)->Error_reply;
                let m5 = m4.asked(WorkStep::Error { reply: code });
                if code != gl_const::NO_ERROR {
                    (
                        m5,
                        Err(
                            GlError::Driver {
                                operation,
                                message: Message::Text(plan.complaint),
                            },
                        ),
                    )
                } else {
                    (m5, Ok(color))
                }
            },
        }
    }

    /// The drawing with two compiled shaders.
    pub open spec fn with_shaders(
        self,
        plan: WorkPlan,
        vertex: u32,
        fragment: u32,
        size: (u32, u32),
        draws: u32,
        read_color: bool,
        o: Seq<WorkStep>,
    ) -> (Work, Result<Option<Vec<u8>>, GlError>) {
        let operation = plan.operation;
        let reply = self.next(o)->CreateProgram_reply;
        let m1 = self.asked(WorkStep::CreateProgram { reply });
        match reply {
            Err(message) => (m1, Err(GlError::Driver { operation, message })),
            Ok(program) => {
                let m2 = m1.call(WorkCall::AttachShader { program, shader: vertex }).call(
                    WorkCall::AttachShader { program, shader: fragment },
                ).call(WorkCall::LinkProgram { program });
                let linked = m2.next(o)->Linked_reply;
                let m3 = m2.asked(WorkStep::Linked { program, reply: linked });
                if !linked {
                    let message = m3.next(o)->ProgramLog_reply;
                    (
                        m3.asked(WorkStep::ProgramLog { program, reply: message }).call(
                            WorkCall::DeleteProgram { program },
                        ).call(WorkCall::DeleteShader { shader: vertex }).call(
                            WorkCall::DeleteShader { shader: fragment },
                        ),
                        Err(GlError::Driver { operation, message }),
                    )
                } else {
                    m3.with_program(plan, vertex, fragment, program, size, draws, read_color, o)
                }
            },
        }
    }

    /// The drawing.
    pub open spec fn draw(
        self,
        plan: WorkPlan,
        size: (u32, u32),
        draws: u32,
        read_color: bool,
        o: Seq<WorkStep>,
    ) -> (Work, Result<Option<Vec<u8>>, GlError>) {
        let (m1, vertex) = self.compile(VERTEX_SHADER, plan.vertex, plan.shader_operation, o);
        match vertex {
            Err(error) => (m1, Err(error)),
            Ok(vertex) => {
                let (m2, fragment) = m1.compile(
                    FRAGMENT_SHADER,
                    plan.fragment,
                    plan.shader_operation,
                    o,
                );
                match fragment {
                    Err(error) => (
                        m2.call(WorkCall::DeleteShader { shader: vertex }),
                        Err(error),
                    ),
                    Ok(fragment) => m2.with_shaders(
                        plan,
                        vertex,
                        fragment,
                        size,
                        draws,
                        read_color,
                        o,
                    ),
                }
            },
        }
    }
}

/// The objects that were made and not deleted.
#[verifier::ext_equal]
pub struct Leftovers {
    pub shaders: Set<u32>,
    pub programs: Set<u32>,
    pub vertex_arrays: Set<u32>,
}

/// No object.
pub open spec fn nothing_left() -> Leftovers {
    Leftovers { shaders: Set::empty(), programs: Set::empty(), vertex_arrays: Set::empty() }
}

/// The objects that are there after one more step.
pub open spec fn left_after(left: Leftovers, step: WorkStep) -> Leftovers {
    match step {
        WorkStep::CreateShader { reply: Ok(shader), .. } => Leftovers {
            shaders: left.shaders.insert(shader),
            ..left
        },
        WorkStep::CreateProgram { reply: Ok(program) } => Leftovers {
            programs: left.programs.insert(program),
            ..left
        },
        WorkStep::CreateVertexArray { reply: Ok(vertex_array) } => Leftovers {
            vertex_arrays: left.vertex_arrays.insert(vertex_array),
            ..left
        },
        WorkStep::Call { call: WorkCall::DeleteShader { shader } } => Leftovers {
            shaders: left.shaders.remove(shader),
            ..left
        },
        WorkStep::Call { call: WorkCall::DeleteProgram { program } } => Leftovers {
            programs: left.programs.remove(program),
            ..left
        },
        WorkStep::Call { call: WorkCall::DeleteVertexArray { vertex_array } } => Leftovers {
            vertex_arrays: left.vertex_arrays.remove(vertex_array),
            ..left
        },
        _ => left,
    }
}

/// The objects that are there after these steps.
pub open spec fn left_by(log: Seq<WorkStep>) -> Leftovers
    decreases log.len(),
{
    if log.len() == 0 {
        nothing_left()
    } else {
        left_after(left_by(log.drop_last()), log.last())
    }
}

/// Whether the last thing that happened is that a program or a vertex array
/// could not be made.
pub open spec fn stopped_short(log: Seq<WorkStep>) -> bool {
    log.len() > 0 && match log.last() {
        WorkStep::CreateProgram { reply } => reply is Err,
        WorkStep::CreateVertexArray { reply } => reply is Err,
        _ => false,
    }
}

impl Work {
    proof fn lemma_asked(self, step: WorkStep)
        ensures
            left_by(self.asked(step).log) == left_after(left_by(self.log), step),
    {
        assert(self.log.push(step).drop_last() =~= self.log);
    }

    proof fn lemma_drawn(self, draws: nat)
        ensures
            left_by(self.drawn(draws).log) == left_by(self.log),
        decreases draws,
    {
        if draws > 0 {
            self.lemma_drawn((draws - 1) as nat);
            self.drawn((draws - 1) as nat).lemma_asked(
                WorkStep::Call {
                    call: WorkCall::DrawArrays { mode: gl_const::TRIANGLES, first: 0, count: 3 },
                },
            );
        }
    }

    proof fn lemma_compile(
        self,
        kind: u32,
        source: &'static str,
        operation: &'static str,
        o: Seq<WorkStep>,
    )
        ensures
            ({
                let (m, shader) = self.compile(kind, source, operation, o);
                &&& shader is Ok ==> left_by(m.log) == (Leftovers {
                    shaders: left_by(self.log).shaders.insert(shader->Ok_0),
                    ..left_by(self.log)
                })
                &&& shader is Err ==> left_by(m.log) == (Leftovers {
                    shaders: left_by(m.log).shaders,
                    ..left_by(self.log)
                })
                &&& shader is Err ==> forall|s: u32|
                    left_by(m.log).shaders.contains(s) ==> #[trigger] left_by(
                        self.log,
                    ).shaders.contains(s)
            }),
    {
        broadcast use group_left;

    }
}

/// One more step changes what is left by that step alone.
pub broadcast proof fn steps_add_up(work: Work, step: WorkStep)
    ensures
        #[trigger] left_by(work.asked(step).log) == left_after(left_by(work.log), step),
{
    work.lemma_asked(step);
}

/// Drawing makes nothing and deletes nothing.
pub broadcast proof fn drawing_makes_nothing(work: Work, draws: nat)
    ensures
        #[trigger] left_by(work.drawn(draws).log) == left_by(work.log),
{
    work.lemma_drawn(draws);
}

pub broadcast group group_left {
    steps_add_up,
    drawing_makes_nothing,
}

/// Nothing that was made outlives the drawing, whatever fails, except where
/// the failure is that a program or a vertex array cannot be made.
pub proof fn drawings_leave_nothing(
    plan: WorkPlan,
    size: (u32, u32),
    draws: u32,
    read_color: bool,
    o: Seq<WorkStep>,
)
    ensures
        ({
            let (m, result) = (Work { log: Seq::empty() }).draw(plan, size, draws, read_color, o);
            stopped_short(m.log) || left_by(m.log) == nothing_left()
        }),
{
    broadcast use group_left;

    let start = Work { log: Seq::empty() };
    start.lemma_compile(VERTEX_SHADER, plan.vertex, plan.shader_operation, o);
    let (m1, vertex) = start.compile(VERTEX_SHADER, plan.vertex, plan.shader_operation, o);
    if vertex is Ok {
        m1.lemma_compile(FRAGMENT_SHADER, plan.fragment, plan.shader_operation, o);
    }
    let (m, result) = start.draw(plan, size, draws, read_color, o);
    if !stopped_short(m.log) {
        assert(left_by(m.log) =~= nothing_left());
    }
}

/// A picture comes exactly from drawings that succeed and were asked for one.
pub proof fn pictures_are_asked_for(
    work: Work,
    plan: WorkPlan,
    size: (u32, u32),
    draws: u32,
    read_color: bool,
    o: Seq<WorkStep>,
)
    ensures
        ({
            let result = work.draw(plan, size, draws, read_color, o).1;
            result is Ok ==> (result->Ok_0 is Some) == read_color
        }),
{
}

/// A context with the record of what it was given.
pub struct WorkLink<G> {
    link: WorkRecorder<G>,
}

impl<G> View for WorkLink<G> {
    type V = Work;

    closed spec fn view(&self) -> Work {
        Work { log: self.link@ }
    }
}

impl<G: WorkCalls> WorkLink<G> {
    pub fn new(gl: G) -> (result: Self)
        ensures
            result@.log == Seq::<WorkStep>::empty(),
    {
        WorkLink { link: WorkRecorder::new(gl) }
    }

    pub open spec fn wf(&self) -> bool {
        true
    }

    fn call(&mut self, call: WorkCall)
        ensures
            final(self)@ == old(self)@.call(call),
    {
        self.link.call(call);
    }

    /// Makes and compiles a shader.
    pub fn compile_evidence_shader(
        &mut self,
        kind: u32,
        source: &'static str,
        operation: &'static str,
    ) -> (result: Result<u32, GlError>)
        requires
            old(self).wf(),
        ensures
            final(self).wf(),
            grows(old(self)@.log, final(self)@.log),
            forall|o: Seq<WorkStep>|
                grows(final(self)@.log, o) ==> #[trigger] old(self)@.compile(kind, source, operation, o) == (
                    final(self)@,
                    result,
                ),
    {
        let reply = self.link.create_shader(kind);
        match reply {
            Err(message) => Err(GlError::Driver { operation, message }),
            Ok(shader) => {
                self.call(WorkCall::ShaderSource { shader, source });
                self.call(WorkCall::CompileShader { shader });
                let compiled = self.link.get_shader_compile_status(shader);
                if compiled {
                    Ok(shader)
                } else {
                    let message = self.link.get_shader_info_log(shader);
                    self.call(WorkCall::DeleteShader { shader });
                    Err(GlError::Driver { operation, message })
                }
            },
        }
    }

    fn draw_with_program(
        &mut self,
        plan: WorkPlan,
        vertex: u32,
        fragment: u32,
        program: u32,
        size: (u32, u32),
        draws: u32,
        read_color: bool,
    ) -> (result: Result<Option<Vec<u8>>, GlError>)
        requires
            old(self).wf(),
            read_color ==> size.0 * size.1 * 4 <= usize::MAX,
        ensures
            final(self).wf(),
            grows(old(self)@.log, final(self)@.log),
            forall|o: Seq<WorkStep>|
                grows(final(self)@.log, o) ==> #[trigger] old(self)@.with_program(plan, vertex, fragment, program, size, draws, read_color, o) == (
                    final(self)@,
                    result,
                ),
    {
        let operation = plan.operation;
        let reply = self.link.create_vertex_array();
        let vertex_array = match reply {
            Ok(vertex_array) => vertex_array,
            Err(message) => {
                return Err(GlError::Driver { operation, message });
            },
        };
        self.call(WorkCall::BindVertexArray { vertex_array: Some(vertex_array) });
        self.call(WorkCall::UseProgram { program: Some(program) });
        self.call(
            WorkCall::Viewport { x: 0, y: 0, width: size.0 as i32, height: size.1 as i32 },
        );
        self.call(WorkCall::ClearColor { red: 0, green: 0, blue: 0, alpha: ONE_BITS });
        self.call(WorkCall::Clear { mask: gl_const::COLOR_BUFFER_BIT });
        let ghost cleared = self@;
        let mut done: u32 = 0;
        while done < draws
            invariant
                done <= draws,
                self@ == cleared.drawn(done as nat),
                grows(cleared.log, self@.log),
            decreases draws - done,
        {
            self.call(WorkCall::DrawArrays { mode: gl_const::TRIANGLES, first: 0, count: 3 });
            done += 1;
        }
        self.call(WorkCall::Finish);
        let color = if read_color {
            proof {
                assert(size.0 * size.1 <= usize::MAX && size.0 <= usize::MAX && size.1
                    <= usize::MAX) by (nonlinear_arith)
                    requires
                        size.0 * size.1 * 4 <= usize::MAX,
                        usize::MAX >= 0xFFFF_FFFF,
                ;
            }
            let length: usize = size.0 as usize * size.1 as usize * 4;
            let reply = self.link.read_pixels(
                size.0 as i32,
                size.1 as i32,
                RGBA,
                gl_const::UNSIGNED_BYTE,
                length,
            );
            Some(reply)
        } else {
            None
        };
        self.call(WorkCall::BindVertexArray { vertex_array: None });
        self.call(WorkCall::UseProgram { program: None });
        self.call(WorkCall::DeleteVertexArray { vertex_array });
        self.call(WorkCall::DeleteProgram { program });
        self.call(WorkCall::DeleteShader { shader: vertex });
        self.call(WorkCall::DeleteShader { shader: fragment });
        let code = self.link.get_error();
        if code != gl_const::NO_ERROR {
            return Err(GlError::Driver { operation, message: Message::Text(plan.complaint) });
        }
        Ok(color)
    }

    fn draw_with_shaders(
        &mut self,
        plan: WorkPlan,
        vertex: u32,
        fragment: u32,
        size: (u32, u32),
        draws: u32,
        read_color: bool,
    ) -> (result: Result<Option<Vec<u8>>, GlError>)
        requires
            old(self).wf(),
            read_color ==> size.0 * size.1 * 4 <= usize::MAX,
        ensures
            final(self).wf(),
            grows(old(self)@.log, final(self)@.log),
            forall|o: Seq<WorkStep>|
                grows(final(self)@.log, o) ==> #[trigger] old(self)@.with_shaders(plan, vertex, fragment, size, draws, read_color, o) == (
                    final(self)@,
                    result,
                ),
    {
        let operation = plan.operation;
        let reply = self.link.create_program();
        let program = match reply {
            Ok(program) => program,
            Err(message) => {
                return Err(GlError::Driver { operation, message });
            },
        };
        self.call(WorkCall::AttachShader { program, shader: vertex });
        self.call(WorkCall::AttachShader { program, shader: fragment });
        self.call(WorkCall::LinkProgram { program });
        let linked = self.link.get_program_link_status(program);
        if !linked {
            let message = self.link.get_program_info_log(program);
            self.call(WorkCall::DeleteProgram { program });
            self.call(WorkCall::DeleteShader { shader: vertex });
            self.call(WorkCall::DeleteShader { shader: fragment });
            return Err(GlError::Driver { operation, message });
        }
        self.draw_with_program(plan, vertex, fragment, program, size, draws, read_color)
    }

    /// Draws the triangle some times, and reads the picture if it is wanted.
    pub fn draw(
        &mut self,
        plan: WorkPlan,
        size: (u32, u32),
        draws: u32,
        read_color: bool,
    ) -> (result: Result<Option<Vec<u8>>, GlError>)
        requires
            old(self).wf(),
            read_color ==> size.0 * size.1 * 4 <= usize::MAX,
        ensures
            final(self).wf(),
            grows(old(self)@.log, final(self)@.log),
            forall|o: Seq<WorkStep>|
                grows(final(self)@.log, o) ==> #[trigger] old(self)@.draw(plan, size, draws, read_color, o) == (
                    final(self)@,
                    result,
                ),
    {
        let vertex = match self.compile_evidence_shader(VERTEX_SHADER, plan.vertex, plan.shader_operation) {
            Ok(value) => value,
            Err(error) => {
                return Err(error);
            },
        };
        match self.compile_evidence_shader(
            FRAGMENT_SHADER,
            plan.fragment,
            plan.shader_operation,
        ) {
            Err(error) => {
                self.call(WorkCall::DeleteShader { shader: vertex });
                Err(error)
            },
            Ok(fragment) => self.draw_with_shaders(
                plan,
                vertex,
                fragment,
                size,
                draws,
                read_color,
            ),
        }
    }
}

} // verus!
