//! The calls of EGL, each with its record.
//!
//! Nothing is assumed of the answers. A step is recorded exactly when its call
//! was made.

use vstd::prelude::*;
use crate::api::discovery::GlDiscoverySnapshot;
use crate::api::error::{GlError, Message};
use crate::api::identity::{ContextStamp, OwnerThreadIdentity};
use crate::native::discovery;
use crate::native::discovery::{discover_with_query_identified, NativeDiscoveryError};
use crate::native::egl::EglError;
use crate::native::egl_context::{EglCall, EglCalls, EglStep};
use crate::native::query::{Inspection, QueryLink, QueryStep};
use crate::native::workload::{Work, WorkLink, WorkPlan, WorkStep};

verus! {

/// EGL with the record of what it was asked.
pub struct EglRecorder<E> {
    calls: E,
    log: Ghost<Seq<EglStep>>,
}

impl<E> View for EglRecorder<E> {
    type V = Seq<EglStep>;

    closed spec fn view(&self) -> Seq<EglStep> {
        self.log@
    }
}

impl<E: EglCalls> EglRecorder<E> {
    /// The EGL that is asked.
    pub closed spec fn spec_calls(&self) -> E {
        self.calls
    }

    pub fn new(calls: E) -> (result: Self)
        ensures
            result.spec_calls() == calls,
            result@ == Seq::<EglStep>::empty(),
    {
        EglRecorder { calls, log: Ghost(Seq::empty()) }
    }

    pub fn current_thread(&mut self) -> (reply: OwnerThreadIdentity)
        ensures
            exists|asked: &mut E|
                {
                    &&& *asked == old(self).spec_calls()
                    &&& *final(asked) == final(self).spec_calls()
                    &&& #[trigger] call_ensures(E::current_thread, (asked,), reply)
                },
            final(self)@ == old(self)@.push(EglStep::Thread { reply }),
    {
        let reply = self.calls.current_thread();
        proof {
            self.log@ = self.log@.push(EglStep::Thread { reply });
        }
        reply
    }

    pub fn load_required(&mut self) -> (reply: Result<(), Message>)
        ensures
            exists|asked: &mut E|
                {
                    &&& *asked == old(self).spec_calls()
                    &&& *final(asked) == final(self).spec_calls()
                    &&& #[trigger] call_ensures(E::load_required, (asked,), reply)
                },
            final(self)@ == old(self)@.push(EglStep::Load { reply }),
    {
        let reply = self.calls.load_required();
        proof {
            self.log@ = self.log@.push(EglStep::Load { reply });
        }
        reply
    }

    pub fn get_display(&mut self, native: u64) -> (reply: Option<u64>)
        ensures
            exists|asked: &mut E|
                {
                    &&& *asked == old(self).spec_calls()
                    &&& *final(asked) == final(self).spec_calls()
                    &&& #[trigger] call_ensures(E::get_display, (asked, native), reply)
                },
            final(self)@ == old(self)@.push(EglStep::Display { native, reply }),
    {
        let reply = self.calls.get_display(native);
        proof {
            self.log@ = self.log@.push(EglStep::Display { native, reply });
        }
        reply
    }

    pub fn call(&mut self, call: EglCall) -> (reply: Result<(), EglError>)
        ensures
            exists|asked: &mut E|
                {
                    &&& *asked == old(self).spec_calls()
                    &&& *final(asked) == final(self).spec_calls()
                    &&& #[trigger] call_ensures(E::call, (asked, call), reply)
                },
            final(self)@ == old(self)@.push(EglStep::Call { call, reply }),
    {
        let reply = self.calls.call(call);
        proof {
            self.log@ = self.log@.push(EglStep::Call { call, reply });
        }
        reply
    }

    pub fn query_string(&mut self, display: u64, name: i32) -> (reply: Result<String, EglError>)
        ensures
            exists|asked: &mut E|
                {
                    &&& *asked == old(self).spec_calls()
                    &&& *final(asked) == final(self).spec_calls()
                    &&& #[trigger] call_ensures(E::query_string, (asked, display, name), reply)
                },
            final(self)@ == old(self)@.push(EglStep::Text { display, name, reply }),
    {
        let reply = self.calls.query_string(display, name);
        proof {
            self.log@ = self.log@.push(EglStep::Text { display, name, reply });
        }
        reply
    }

    pub fn choose_first_config(&mut self, display: u64, wish: &Vec<i32>) -> (reply: Result<Option<u64>, EglError>)
        ensures
            exists|asked: &mut E|
                {
                    &&& *asked == old(self).spec_calls()
                    &&& *final(asked) == final(self).spec_calls()
                    &&& #[trigger] call_ensures(E::choose_first_config, (asked, display, wish), reply)
                },
            final(self)@ == old(self)@.push(EglStep::Config { display, wish: wish@, reply }),
    {
        let reply = self.calls.choose_first_config(display, wish);
        proof {
            self.log@ = self.log@.push(EglStep::Config { display, wish: wish@, reply });
        }
        reply
    }

    pub fn create_context(&mut self, display: u64, config: u64, wish: &Vec<i32>) -> (reply: Result<u64, EglError>)
        ensures
            exists|asked: &mut E|
                {
                    &&& *asked == old(self).spec_calls()
                    &&& *final(asked) == final(self).spec_calls()
                    &&& #[trigger] call_ensures(E::create_context, (asked, display, config, wish), reply)
                },
            final(self)@ == old(self)@.push(EglStep::Context { display, config, wish: wish@, reply }),
    {
        let reply = self.calls.create_context(display, config, wish);
        proof {
            self.log@ = self.log@.push(EglStep::Context { display, config, wish: wish@, reply });
        }
        reply
    }

    pub fn create_window_surface(&mut self, display: u64, config: u64, window: u64) -> (reply: Result<u64, EglError>)
        ensures
            exists|asked: &mut E|
                {
                    &&& *asked == old(self).spec_calls()
                    &&& *final(asked) == final(self).spec_calls()
                    &&& #[trigger] call_ensures(E::create_window_surface, (asked, display, config, window), reply)
                },
            final(self)@ == old(self)@.push(EglStep::Window { display, config, window, reply }),
    {
        let reply = self.calls.create_window_surface(display, config, window);
        proof {
            self.log@ = self.log@.push(EglStep::Window { display, config, window, reply });
        }
        reply
    }

    pub fn create_pbuffer_surface(&mut self, display: u64, config: u64, wish: &Vec<i32>) -> (reply: Result<u64, EglError>)
        ensures
            exists|asked: &mut E|
                {
                    &&& *asked == old(self).spec_calls()
                    &&& *final(asked) == final(self).spec_calls()
                    &&& #[trigger] call_ensures(E::create_pbuffer_surface, (asked, display, config, wish), reply)
                },
            final(self)@ == old(self)@.push(EglStep::Pbuffer { display, config, wish: wish@, reply }),
    {
        let reply = self.calls.create_pbuffer_surface(display, config, wish);
        proof {
            self.log@ = self.log@.push(EglStep::Pbuffer { display, config, wish: wish@, reply });
        }
        reply
    }

    pub fn query_surface(&mut self, display: u64, surface: u64, side: i32) -> (reply: Result<i32, EglError>)
        ensures
            exists|asked: &mut E|
                {
                    &&& *asked == old(self).spec_calls()
                    &&& *final(asked) == final(self).spec_calls()
                    &&& #[trigger] call_ensures(E::query_surface, (asked, display, surface, side), reply)
                },
            final(self)@ == old(self)@.push(EglStep::Measure { display, surface, side, reply }),
    {
        let reply = self.calls.query_surface(display, surface, side);
        proof {
            self.log@ = self.log@.push(EglStep::Measure { display, surface, side, reply });
        }
        reply
    }

    pub fn get_current_context(&mut self) -> (reply: Option<u64>)
        ensures
            exists|asked: &mut E|
                {
                    &&& *asked == old(self).spec_calls()
                    &&& *final(asked) == final(self).spec_calls()
                    &&& #[trigger] call_ensures(E::get_current_context, (asked,), reply)
                },
            final(self)@ == old(self)@.push(EglStep::CurrentContext { reply }),
    {
        let reply = self.calls.get_current_context();
        proof {
            self.log@ = self.log@.push(EglStep::CurrentContext { reply });
        }
        reply
    }

    pub fn get_current_display(&mut self) -> (reply: Option<u64>)
        ensures
            exists|asked: &mut E|
                {
                    &&& *asked == old(self).spec_calls()
                    &&& *final(asked) == final(self).spec_calls()
                    &&& #[trigger] call_ensures(E::get_current_display, (asked,), reply)
                },
            final(self)@ == old(self)@.push(EglStep::CurrentDisplay { reply }),
    {
        let reply = self.calls.get_current_display();
        proof {
            self.log@ = self.log@.push(EglStep::CurrentDisplay { reply });
        }
        reply
    }

    pub fn load_glow(&mut self)
        ensures
            exists|asked: &mut E|
                {
                    &&& *asked == old(self).spec_calls()
                    &&& *final(asked) == final(self).spec_calls()
                    &&& #[trigger] call_ensures(E::load_glow, (asked,), ())
                },
            final(self)@ == old(self)@.push(EglStep::LoadGl),
    {
        self.calls.load_glow();
        proof {
            self.log@ = self.log@.push(EglStep::LoadGl);
        }
    }

    pub fn gl_version(&mut self) -> (reply: String)
        ensures
            exists|asked: &mut E|
                {
                    &&& *asked == old(self).spec_calls()
                    &&& *final(asked) == final(self).spec_calls()
                    &&& #[trigger] call_ensures(E::gl_version, (asked,), reply)
                },
            final(self)@ == old(self)@.push(EglStep::GlVersion { reply }),
    {
        let reply = self.calls.gl_version();
        proof {
            self.log@ = self.log@.push(EglStep::GlVersion { reply });
        }
        reply
    }

    /// Looks at the current context.
    pub fn discover(&mut self, stamp: ContextStamp, driver: &str) -> (result: Result<
        GlDiscoverySnapshot,
        NativeDiscoveryError,
    >)
        ensures
            result is Ok ==> result->Ok_0.wf(),
            exists|steps: Seq<QueryStep>|
                {
                    &&& final(self)@ == old(self)@.push(
                        EglStep::Discovery { stamp, driver: driver@, steps },
                    )
                    &&& #[trigger] (Inspection { log: Seq::empty() }).discover(
                        stamp,
                        driver@,
                        steps,
                    ) == (
                        Inspection { log: steps },
                        discovery::record_result(result),
                    )
                },
    {
        let query = self.calls.query();
        let probes = self.calls.probes();
        let mut link = QueryLink::new(query, probes);
        let ghost start = link@;
        assert(start == (Inspection { log: Seq::empty() }));
        let outcome = discover_with_query_identified(&mut link, stamp, driver);
        proof {
            let step = EglStep::Discovery { stamp, driver: driver@, steps: link@.log };
            self.log@ = self.log@.push(step);
            assert(start.discover(stamp, driver@, link@.log) == (
                link@,
                discovery::record_result(outcome),
            ));
        }
        outcome
    }

    /// Draws a triangle on the current context.
    pub fn draw(&mut self, plan: WorkPlan, size: (u32, u32), draws: u32, read_color: bool) -> (
        result: Result<Option<Vec<u8>>, GlError>)
        requires
            read_color ==> size.0 * size.1 * 4 <= usize::MAX,
        ensures
            exists|steps: Seq<WorkStep>|
                {
                    &&& final(self)@ == old(self)@.push(EglStep::Drawing { steps })
                    &&& #[trigger] (Work { log: Seq::empty() }).draw(
                        plan,
                        size,
                        draws,
                        read_color,
                        steps,
                    ) == (
                        Work { log: steps },
                        result,
                    )
                },
    {
        let mut link = WorkLink::new(self.calls.work());
        let ghost start = link@;
        assert(start == (Work { log: Seq::empty() }));
        let outcome = link.draw(plan, size, draws, read_color);
        proof {
            let step = EglStep::Drawing { steps: link@.log };
            self.log@ = self.log@.push(step);
            assert(start.draw(plan, size, draws, read_color, link@.log) == (link@, outcome));
        }
        outcome
    }
}

} // verus!
