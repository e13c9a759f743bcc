//! The commands of a drawing, each with its record.
//!
//! Nothing is assumed of the answers. A step is recorded exactly when its command
//! was given.

use vstd::prelude::*;
use crate::api::error::Message;
use crate::native::workload::{WorkCall, WorkCalls, WorkStep};

verus! {

/// A context with the record of what it was given.
pub struct WorkRecorder<G> {
    calls: G,
    log: Ghost<Seq<WorkStep>>,
}

impl<G> View for WorkRecorder<G> {
    type V = Seq<WorkStep>;

    closed spec fn view(&self) -> Seq<WorkStep> {
        self.log@
    }
}

impl<G: WorkCalls> WorkRecorder<G> {
    /// The context that is given the commands.
    pub closed spec fn spec_calls(&self) -> G {
        self.calls
    }

    pub fn new(calls: G) -> (result: Self)
        ensures
            result.spec_calls() == calls,
            result@ == Seq::<WorkStep>::empty(),
    {
        WorkRecorder { calls, log: Ghost(Seq::empty()) }
    }

    pub fn call(&mut self, call: WorkCall)
        ensures
            exists|asked: &mut G|
                {
                    &&& *asked == old(self).spec_calls()
                    &&& *final(asked) == final(self).spec_calls()
                    &&& #[trigger] call_ensures(G::call, (asked, call), ())
                },
            final(self)@ == old(self)@.push(WorkStep::Call { call }),
    {
        self.calls.call(call);
        proof {
            self.log@ = self.log@.push(WorkStep::Call { call });
        }
    }

    pub fn create_shader(&mut self, kind: u32) -> (reply: Result<u32, Message>)
        ensures
            exists|asked: &mut G|
                {
                    &&& *asked == old(self).spec_calls()
                    &&& *final(asked) == final(self).spec_calls()
                    &&& #[trigger] call_ensures(G::create_shader, (asked, kind), reply)
                },
            final(self)@ == old(self)@.push(WorkStep::CreateShader { kind, reply }),
    {
        let reply = self.calls.create_shader(kind);
        proof {
            self.log@ = self.log@.push(WorkStep::CreateShader { kind, reply });
        }
        reply
    }

    pub fn get_shader_compile_status(&mut self, shader: u32) -> (reply: bool)
        ensures
            exists|asked: &mut G|
                {
                    &&& *asked == old(self).spec_calls()
                    &&& *final(asked) == final(self).spec_calls()
                    &&& #[trigger] call_ensures(G::get_shader_compile_status, (asked, shader), reply)
                },
            final(self)@ == old(self)@.push(WorkStep::Compiled { shader, reply }),
    {
        let reply = self.calls.get_shader_compile_status(shader);
        proof {
            self.log@ = self.log@.push(WorkStep::Compiled { shader, reply });
        }
        reply
    }

    pub fn get_shader_info_log(&mut self, shader: u32) -> (reply: Message)
        ensures
            exists|asked: &mut G|
                {
                    &&& *asked == old(self).spec_calls()
                    &&& *final(asked) == final(self).spec_calls()
                    &&& #[trigger] call_ensures(G::get_shader_info_log, (asked, shader), reply)
                },
            final(self)@ == old(self)@.push(WorkStep::ShaderLog { shader, reply }),
    {
        let reply = self.calls.get_shader_info_log(shader);
        proof {
            self.log@ = self.log@.push(WorkStep::ShaderLog { shader, reply });
        }
        reply
    }

    pub fn create_program(&mut self) -> (reply: Result<u32, Message>)
        ensures
            exists|asked: &mut G|
                {
                    &&& *asked == old(self).spec_calls()
                    &&& *final(asked) == final(self).spec_calls()
                    &&& #[trigger] call_ensures(G::create_program, (asked,), reply)
                },
            final(self)@ == old(self)@.push(WorkStep::CreateProgram { reply }),
    {
        let reply = self.calls.create_program();
        proof {
            self.log@ = self.log@.push(WorkStep::CreateProgram { reply });
        }
        reply
    }

    pub fn get_program_link_status(&mut self, program: u32) -> (reply: bool)
        ensures
            exists|asked: &mut G|
                {
                    &&& *asked == old(self).spec_calls()
                    &&& *final(asked) == final(self).spec_calls()
                    &&& #[trigger] call_ensures(G::get_program_link_status, (asked, program), reply)
                },
            final(self)@ == old(self)@.push(WorkStep::Linked { program, reply }),
    {
        let reply = self.calls.get_program_link_status(program);
        proof {
            self.log@ = self.log@.push(WorkStep::Linked { program, reply });
        }
        reply
    }

    pub fn get_program_info_log(&mut self, program: u32) -> (reply: Message)
        ensures
            exists|asked: &mut G|
                {
                    &&& *asked == old(self).spec_calls()
                    &&& *final(asked) == final(self).spec_calls()
                    &&& #[trigger] call_ensures(G::get_program_info_log, (asked, program), reply)
                },
            final(self)@ == old(self)@.push(WorkStep::ProgramLog { program, reply }),
    {
        let reply = self.calls.get_program_info_log(program);
        proof {
            self.log@ = self.log@.push(WorkStep::ProgramLog { program, reply });
        }
        reply
    }

    pub fn create_vertex_array(&mut self) -> (reply: Result<u32, Message>)
        ensures
            exists|asked: &mut G|
                {
                    &&& *asked == old(self).spec_calls()
                    &&& *final(asked) == final(self).spec_calls()
                    &&& #[trigger] call_ensures(G::create_vertex_array, (asked,), reply)
                },
            final(self)@ == old(self)@.push(WorkStep::CreateVertexArray { reply }),
    {
        let reply = self.calls.create_vertex_array();
        proof {
            self.log@ = self.log@.push(WorkStep::CreateVertexArray { reply });
        }
        reply
    }

    pub fn read_pixels(&mut self, width: i32, height: i32, format: u32, kind: u32, length: usize) -> (reply: Vec<u8>)
        ensures
            exists|asked: &mut G|
                {
                    &&& *asked == old(self).spec_calls()
                    &&& *final(asked) == final(self).spec_calls()
                    &&& #[trigger] call_ensures(G::read_pixels, (asked, width, height, format, kind, length), reply)
                },
            final(self)@ == old(self)@.push(WorkStep::ReadPixels { width, height, format, kind, length, reply }),
    {
        let reply = self.calls.read_pixels(width, height, format, kind, length);
        proof {
            self.log@ = self.log@.push(WorkStep::ReadPixels { width, height, format, kind, length, reply });
        }
        reply
    }

    pub fn get_error(&mut self) -> (reply: u32)
        ensures
            exists|asked: &mut G|
                {
                    &&& *asked == old(self).spec_calls()
                    &&& *final(asked) == final(self).spec_calls()
                    &&& #[trigger] call_ensures(G::get_error, (asked,), reply)
                },
            final(self)@ == old(self)@.push(WorkStep::Error { reply }),
    {
        let reply = self.calls.get_error();
        proof {
            self.log@ = self.log@.push(WorkStep::Error { reply });
        }
        reply
    }
}

} // verus!
