//! The calls of WGL, each with its record.
//!
//! Nothing is assumed of the answers. A step is recorded exactly when its call
//! was made.

use vstd::prelude::*;
use crate::api::discovery::GlDiscoverySnapshot;
use crate::api::error::{GlError, Message};
use crate::api::identity::{ContextStamp, OwnerThreadIdentity};
use crate::native::discovery;
use crate::native::discovery::{discover_with_query_identified, NativeDiscoveryError};
use crate::native::gdi::PixelFormatDescriptor;
use crate::native::query::{Inspection, QueryLink, QueryStep};
use crate::native::wgl_surface::{WglCall, WglCalls, WglStep};
use crate::native::workload::{Work, WorkLink, WorkPlan, WorkStep};

verus! {

/// WGL with the record of what it was asked.
pub struct WglRecorder<W> {
    calls: W,
    log: Ghost<Seq<WglStep>>,
}

impl<W> View for WglRecorder<W> {
    type V = Seq<WglStep>;

    closed spec fn view(&self) -> Seq<WglStep> {
        self.log@
    }
}

impl<W: WglCalls> WglRecorder<W> {
    /// The WGL that is asked.
    pub closed spec fn spec_calls(&self) -> W {
        self.calls
    }

    pub fn new(calls: W) -> (result: Self)
        ensures
            result.spec_calls() == calls,
            result@ == Seq::<WglStep>::empty(),
    {
        WglRecorder { calls, log: Ghost(Seq::empty()) }
    }

    pub fn current_thread(&mut self) -> (reply: OwnerThreadIdentity)
        ensures
            exists|asked: &mut W|
                {
                    &&& *asked == old(self).spec_calls()
                    &&& *final(asked) == final(self).spec_calls()
                    &&& #[trigger] call_ensures(W::current_thread, (asked,), reply)
                },
            final(self)@ == old(self)@.push(WglStep::Thread { reply }),
    {
        let reply = self.calls.current_thread();
        proof {
            self.log@ = self.log@.push(WglStep::Thread { reply });
        }
        reply
    }

    pub fn last_os_error(&mut self) -> (reply: Message)
        ensures
            exists|asked: &mut W|
                {
                    &&& *asked == old(self).spec_calls()
                    &&& *final(asked) == final(self).spec_calls()
                    &&& #[trigger] call_ensures(W::last_os_error, (asked,), reply)
                },
            final(self)@ == old(self)@.push(WglStep::OsError { reply }),
    {
        let reply = self.calls.last_os_error();
        proof {
            self.log@ = self.log@.push(WglStep::OsError { reply });
        }
        reply
    }

    pub fn get_dc(&mut self, hwnd: u64) -> (reply: u64)
        ensures
            exists|asked: &mut W|
                {
                    &&& *asked == old(self).spec_calls()
                    &&& *final(asked) == final(self).spec_calls()
                    &&& #[trigger] call_ensures(W::get_dc, (asked, hwnd), reply)
                },
            final(self)@ == old(self)@.push(WglStep::GetDc { hwnd, reply }),
    {
        let reply = self.calls.get_dc(hwnd);
        proof {
            self.log@ = self.log@.push(WglStep::GetDc { hwnd, reply });
        }
        reply
    }

    pub fn release_dc(&mut self, hwnd: u64, hdc: u64)
        ensures
            exists|asked: &mut W|
                {
                    &&& *asked == old(self).spec_calls()
                    &&& *final(asked) == final(self).spec_calls()
                    &&& #[trigger] call_ensures(W::release_dc, (asked, hwnd, hdc), ())
                },
            final(self)@ == old(self)@.push(WglStep::ReleaseDc { hwnd, hdc }),
    {
        self.calls.release_dc(hwnd, hdc);
        proof {
            self.log@ = self.log@.push(WglStep::ReleaseDc { hwnd, hdc });
        }
    }

    pub fn get_pixel_format(&mut self, hdc: u64) -> (reply: i32)
        ensures
            exists|asked: &mut W|
                {
                    &&& *asked == old(self).spec_calls()
                    &&& *final(asked) == final(self).spec_calls()
                    &&& #[trigger] call_ensures(W::get_pixel_format, (asked, hdc), reply)
                },
            final(self)@ == old(self)@.push(WglStep::PixelFormat { hdc, reply }),
    {
        let reply = self.calls.get_pixel_format(hdc);
        proof {
            self.log@ = self.log@.push(WglStep::PixelFormat { hdc, reply });
        }
        reply
    }

    pub fn choose_pixel_format(&mut self, hdc: u64, format: PixelFormatDescriptor) -> (reply: i32)
        ensures
            exists|asked: &mut W|
                {
                    &&& *asked == old(self).spec_calls()
                    &&& *final(asked) == final(self).spec_calls()
                    &&& #[trigger] call_ensures(W::choose_pixel_format, (asked, hdc, format), reply)
                },
            final(self)@ == old(self)@.push(WglStep::ChoosePixelFormat { hdc, format, reply }),
    {
        let reply = self.calls.choose_pixel_format(hdc, format);
        proof {
            self.log@ = self.log@.push(WglStep::ChoosePixelFormat { hdc, format, reply });
        }
        reply
    }

    pub fn call(&mut self, call: WglCall) -> (reply: bool)
        ensures
            exists|asked: &mut W|
                {
                    &&& *asked == old(self).spec_calls()
                    &&& *final(asked) == final(self).spec_calls()
                    &&& #[trigger] call_ensures(W::call, (asked, call), reply)
                },
            final(self)@ == old(self)@.push(WglStep::Call { call, reply }),
    {
        let reply = self.calls.call(call);
        proof {
            self.log@ = self.log@.push(WglStep::Call { call, reply });
        }
        reply
    }

    pub fn create_context(&mut self, hdc: u64) -> (reply: u64)
        ensures
            exists|asked: &mut W|
                {
                    &&& *asked == old(self).spec_calls()
                    &&& *final(asked) == final(self).spec_calls()
                    &&& #[trigger] call_ensures(W::create_context, (asked, hdc), reply)
                },
            final(self)@ == old(self)@.push(WglStep::CreateContext { hdc, reply }),
    {
        let reply = self.calls.create_context(hdc);
        proof {
            self.log@ = self.log@.push(WglStep::CreateContext { hdc, reply });
        }
        reply
    }

    pub fn has_create_context_attribs(&mut self) -> (reply: bool)
        ensures
            exists|asked: &mut W|
                {
                    &&& *asked == old(self).spec_calls()
                    &&& *final(asked) == final(self).spec_calls()
                    &&& #[trigger] call_ensures(W::has_create_context_attribs, (asked,), reply)
                },
            final(self)@ == old(self)@.push(WglStep::HasCreateAttribs { reply }),
    {
        let reply = self.calls.has_create_context_attribs();
        proof {
            self.log@ = self.log@.push(WglStep::HasCreateAttribs { reply });
        }
        reply
    }

    pub fn create_context_attribs(&mut self, hdc: u64, wish: &Vec<i32>) -> (reply: u64)
        ensures
            exists|asked: &mut W|
                {
                    &&& *asked == old(self).spec_calls()
                    &&& *final(asked) == final(self).spec_calls()
                    &&& #[trigger] call_ensures(W::create_context_attribs, (asked, hdc, wish), reply)
                },
            final(self)@ == old(self)@.push(WglStep::CreateAttribs { hdc, wish: wish@, reply }),
    {
        let reply = self.calls.create_context_attribs(hdc, wish);
        proof {
            self.log@ = self.log@.push(WglStep::CreateAttribs { hdc, wish: wish@, reply });
        }
        reply
    }

    pub fn get_current_context(&mut self) -> (reply: u64)
        ensures
            exists|asked: &mut W|
                {
                    &&& *asked == old(self).spec_calls()
                    &&& *final(asked) == final(self).spec_calls()
                    &&& #[trigger] call_ensures(W::get_current_context, (asked,), reply)
                },
            final(self)@ == old(self)@.push(WglStep::CurrentContext { reply }),
    {
        let reply = self.calls.get_current_context();
        proof {
            self.log@ = self.log@.push(WglStep::CurrentContext { reply });
        }
        reply
    }

    pub fn has_swap_interval(&mut self) -> (reply: bool)
        ensures
            exists|asked: &mut W|
                {
                    &&& *asked == old(self).spec_calls()
                    &&& *final(asked) == final(self).spec_calls()
                    &&& #[trigger] call_ensures(W::has_swap_interval, (asked,), reply)
                },
            final(self)@ == old(self)@.push(WglStep::HasSwapInterval { reply }),
    {
        let reply = self.calls.has_swap_interval();
        proof {
            self.log@ = self.log@.push(WglStep::HasSwapInterval { reply });
        }
        reply
    }

    pub fn load_glow(&mut self)
        ensures
            exists|asked: &mut W|
                {
                    &&& *asked == old(self).spec_calls()
                    &&& *final(asked) == final(self).spec_calls()
                    &&& #[trigger] call_ensures(W::load_glow, (asked,), ())
                },
            final(self)@ == old(self)@.push(WglStep::LoadGl),
    {
        self.calls.load_glow();
        proof {
            self.log@ = self.log@.push(WglStep::LoadGl);
        }
    }

    pub fn gl_string(&mut self, name: u32) -> (reply: String)
        ensures
            exists|asked: &mut W|
                {
                    &&& *asked == old(self).spec_calls()
                    &&& *final(asked) == final(self).spec_calls()
                    &&& #[trigger] call_ensures(W::gl_string, (asked, name), reply)
                },
            final(self)@ == old(self)@.push(WglStep::GlText { name, reply }),
    {
        let reply = self.calls.gl_string(name);
        proof {
            self.log@ = self.log@.push(WglStep::GlText { name, reply });
        }
        reply
    }

    pub fn gl_integer(&mut self, name: u32) -> (reply: i32)
        ensures
            exists|asked: &mut W|
                {
                    &&& *asked == old(self).spec_calls()
                    &&& *final(asked) == final(self).spec_calls()
                    &&& #[trigger] call_ensures(W::gl_integer, (asked, name), reply)
                },
            final(self)@ == old(self)@.push(WglStep::GlInteger { name, reply }),
    {
        let reply = self.calls.gl_integer(name);
        proof {
            self.log@ = self.log@.push(WglStep::GlInteger { name, reply });
        }
        reply
    }

    pub fn gl_error(&mut self) -> (reply: u32)
        ensures
            exists|asked: &mut W|
                {
                    &&& *asked == old(self).spec_calls()
                    &&& *final(asked) == final(self).spec_calls()
                    &&& #[trigger] call_ensures(W::gl_error, (asked,), reply)
                },
            final(self)@ == old(self)@.push(WglStep::GlError { reply }),
    {
        let reply = self.calls.gl_error();
        proof {
            self.log@ = self.log@.push(WglStep::GlError { reply });
        }
        reply
    }

    /// Looks at the current context.
    pub fn discover(&mut self, stamp: ContextStamp, driver: &str) -> (result: Result<
        GlDiscoverySnapshot,
        NativeDiscoveryError,
    >)
        ensures
            result is Ok ==> result->Ok_0.wf(),
            exists|steps: Seq<QueryStep>|
                {
                    &&& final(self)@ == old(self)@.push(
                        WglStep::Discovery { stamp, driver: driver@, steps },
                    )
                    &&& #[trigger] (Inspection { log: Seq::empty() }).discover(
                        stamp,
                        driver@,
                        steps,
                    ) == (
                        Inspection { log: steps },
                        discovery::record_result(result),
                    )
                },
    {
        let query = self.calls.query();
        let probes = self.calls.probes();
        let mut link = QueryLink::new(query, probes);
        let ghost start = link@;
        assert(start == (Inspection { log: Seq::empty() }));
        let outcome = discover_with_query_identified(&mut link, stamp, driver);
        proof {
            let step = WglStep::Discovery { stamp, driver: driver@, steps: link@.log };
            self.log@ = self.log@.push(step);
            assert(start.discover(stamp, driver@, link@.log) == (
                link@,
                discovery::record_result(outcome),
            ));
        }
        outcome
    }

    /// Draws a triangle on the current context.
    pub fn draw(&mut self, plan: WorkPlan, size: (u32, u32), draws: u32, read_color: bool) -> (
        result: Result<Option<Vec<u8>>, GlError>)
        requires
            read_color ==> size.0 * size.1 * 4 <= usize::MAX,
        ensures
            exists|steps: Seq<WorkStep>|
                {
                    &&& final(self)@ == old(self)@.push(WglStep::Drawing { steps })
                    &&& #[trigger] (Work { log: Seq::empty() }).draw(
                        plan,
                        size,
                        draws,
                        read_color,
                        steps,
                    ) == (
                        Work { log: steps },
                        result,
                    )
                },
    {
        let mut link = WorkLink::new(self.calls.work());
        let ghost start = link@;
        assert(start == (Work { log: Seq::empty() }));
        let outcome = link.draw(plan, size, draws, read_color);
        proof {
            let step = WglStep::Drawing { steps: link@.log };
            self.log@ = self.log@.push(step);
            assert(start.draw(plan, size, draws, read_color, link@.log) == (link@, outcome));
        }
        outcome
    }
}

} // verus!
