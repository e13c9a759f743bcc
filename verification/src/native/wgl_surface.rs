//! Contexts of WGL, from their making to their end.
//!
//! The host owns its window. The device context, the pixel format and the
//! contexts on it are owned here, and what a failed construction has made is
//! taken back as far as the driver lets go of it.

use vstd::prelude::*;
use std::sync::Arc;
use vstd::string::*;
use crate::api::discovery::{GlDiscoverySnapshot, GlSurfaceFacts, SnapshotModel};
use crate::api::error::{GlContextLifecycle, GlError, Message, RhiError};
use crate::api::gl::{GlFamilyProfile, GlSurfaceSize, GlVersion};
use crate::api::identity::{ContextStamp, OwnerThreadIdentity};
use crate::native::adopt::adopt_discovered_owner;
use crate::native::capabilities;
use crate::native::capabilities::{v13_capability_snapshot, GlCapabilitySnapshot};
use crate::native::drawable;
use crate::native::drawable::has_zero;
use crate::native::egl::{HostDisplay, HostWindow};
use crate::native::egl_context;
use crate::native::egl_context::{adapter_name, InitialSurface};
use crate::native::gdi;
use crate::native::gdi::PixelFormatDescriptor;
use crate::native::gl_const;
use crate::native::glow_const;
use crate::native::query::{Inspection, NativeGlProbes, NativeGlQuery, QueryStep};
use crate::native::report;
use crate::native::report::{
    list_capabilities, list_desktop_limits, list_typed, CapabilityRow, LimitRow, TypedExtension,
};
use crate::native::wgl;
use crate::native::wgl::{
    check_drawable_extent, core_context_attributes, desktop_context_requests, driver_identity_from,
    host_hwnd, is_supported_desktop_test_version, meets_required_desktop_context, meets_version,
    required_desktop_context, verify_recorded_desktop_floor, WglContextError, WglDiscoveryError,
    WglFailure, WglReason, WglWorkerDescriptor,
};
use crate::native::wgl_recorder::WglRecorder;
use crate::native::workload::{Work, WorkCalls, WorkPlan, WorkStep};
use crate::platform::presentation::SharedDriver;
use crate::platform::provider::GlProvider;
use crate::text;

verus! {

/// The handle that is none.
pub const NULL: u64 = 0;

/// A call of WGL that succeeds or fails.
#[derive(Clone, Copy, Debug, PartialEq, Eq, Structural)]
pub enum WglCall {
    SetPixelFormat { hdc: u64, pixel_format: i32, format: PixelFormatDescriptor },
    /// A context that is `NULL` detaches the thread.
    MakeCurrent { hdc: u64, context: u64 },
    DeleteContext { context: u64 },
    SwapBuffers { hdc: u64 },
    SwapInterval { interval: i32 },
}

/// One call, and its answer.
#[allow(inconsistent_fields)]
pub enum WglStep {
    /// In this step the thread was asked for.
    Thread { reply: OwnerThreadIdentity },
    /// In this step the last error of the system was read.
    OsError { reply: Message },
    /// In this step a device context was leased.
    GetDc { hwnd: u64, reply: u64 },
    /// In this step a device context was given back.
    ReleaseDc { hwnd: u64, hdc: u64 },
    /// In this step the pixel format of a device context was asked for.
    PixelFormat { hdc: u64, reply: i32 },
    /// In this step a pixel format was chosen.
    ChoosePixelFormat { hdc: u64, format: PixelFormatDescriptor, reply: i32 },
    /// In this step something was called that succeeds or fails.
    Call { call: WglCall, reply: bool },
    /// In this step a context without a version was made.
    CreateContext { hdc: u64, reply: u64 },
    /// In this step it was asked whether a version can be asked for.
    HasCreateAttribs { reply: bool },
    /// In this step a context of a version was made.
    CreateAttribs { hdc: u64, wish: Seq<i32>, reply: u64 },
    /// In this step the current context was asked for.
    CurrentContext { reply: u64 },
    /// In this step it was asked whether the swap interval can be set.
    HasSwapInterval { reply: bool },
    /// In this step the functions of the current context were loaded.
    LoadGl,
    /// In this step a text of the current context was read.
    GlText { name: u32, reply: String },
    /// In this step a number of the current context was read.
    GlInteger { name: u32, reply: i32 },
    /// In this step one pending error of the current context was taken.
    GlError { reply: u32 },
    /// In this step the current context was looked at.
    Discovery { stamp: ContextStamp, driver: Seq<char>, steps: Seq<QueryStep> },
    /// In this step a triangle was drawn on the current context.
    Drawing { steps: Seq<WorkStep> },
}

/// Whether the second record begins with the first.
pub open spec fn grows(before: Seq<WglStep>, after: Seq<WglStep>) -> bool {
    before.len() <= after.len() && forall|i: int|
        0 <= i < before.len() ==> before[i] == #[trigger] after[i]
}

/// WGL on one thread, and the contexts that it makes current there.
pub trait WglCalls {
    type Query: NativeGlQuery;

    type Probes: NativeGlProbes;

    type Work: WorkCalls;

    fn current_thread(&mut self) -> OwnerThreadIdentity;

    fn last_os_error(&mut self) -> Message;

    fn get_dc(&mut self, hwnd: u64) -> u64;

    fn release_dc(&mut self, hwnd: u64, hdc: u64);

    fn get_pixel_format(&mut self, hdc: u64) -> i32;

    fn choose_pixel_format(&mut self, hdc: u64, format: PixelFormatDescriptor) -> i32;

    /// Does something that succeeds or fails.
    fn call(&mut self, call: WglCall) -> bool;

    fn create_context(&mut self, hdc: u64) -> u64;

    /// Loads the extensions. Whether a version can be asked for.
    fn has_create_context_attribs(&mut self) -> bool;

    fn create_context_attribs(&mut self, hdc: u64, wish: &Vec<i32>) -> u64;

    fn get_current_context(&mut self) -> u64;

    /// Loads the extensions. Whether the swap interval can be set.
    fn has_swap_interval(&mut self) -> bool;

    /// Loads the functions of the current context.
    fn load_glow(&mut self);

    fn gl_string(&mut self, name: u32) -> String;

    fn gl_integer(&mut self, name: u32) -> i32;

    fn gl_error(&mut self) -> u32;

    /// The questions that the current context answers.
    fn query(&mut self) -> Self::Query;

    /// The operations that can be tried on the current context.
    fn probes(&mut self) -> Self::Probes;

    /// The commands of a drawing on the current context.
    fn work(&mut self) -> Self::Work;
}

/// WGL on one thread, by value.
#[verifier::ext_equal]
pub struct Bench {
    pub log: Seq<WglStep>,
    /// The context that was made current last. Nothing is decided by it: every
    /// operation makes its context current itself.
    pub current: Option<u64>,
}

/// What a construction has made and not handed over.
#[derive(Clone, Copy, Debug, PartialEq, Eq, Structural)]
pub struct OpenCleanup {
    pub hwnd: u64,
    pub hdc: u64,
    pub bootstrap: u64,
    pub core: u64,
}

/// A context by value.
#[verifier::ext_equal]
pub struct WglModel {
    pub stamp: ContextStamp,
    pub hwnd: u64,
    pub hdc: u64,
    pub hglrc: u64,
    pub snapshot: SnapshotModel,
    pub owner: OwnerThreadIdentity,
    pub lifecycle: GlContextLifecycle,
    pub extent: (u32, u32),
}

/// The workload of the fixture. At four by four pixels the triangle covers the
/// two pixels in the middle of the second row.
pub open spec fn wgl_plan() -> WorkPlan {
    WorkPlan {
        operation: "WGL evidence draw",
        shader_operation: "WGL evidence draw",
        vertex: "#version 400 core\nvoid main() { const vec2 p[3]=vec2[3](vec2(-0.6,-0.5),vec2(0.6,-0.5),vec2(0.0,0.0)); gl_Position=vec4(p[gl_VertexID],0.0,1.0); }",
        fragment: "#version 400 core\nout vec4 o; void main() { o=vec4(48.0/255.0,176.0/255.0,112.0/255.0,1.0); }",
        complaint: "OpenGL reported an error while executing the evidence workload",
    }
}

fn evidence_plan() -> (result: WorkPlan)
    ensures
        result == wgl_plan(),
{
    WorkPlan {
        operation: "WGL evidence draw",
        shader_operation: "WGL evidence draw",
        vertex: "#version 400 core\nvoid main() { const vec2 p[3]=vec2[3](vec2(-0.6,-0.5),vec2(0.6,-0.5),vec2(0.0,0.0)); gl_Position=vec4(p[gl_VertexID],0.0,1.0); }",
        fragment: "#version 400 core\nout vec4 o; void main() { o=vec4(48.0/255.0,176.0/255.0,112.0/255.0,1.0); }",
        complaint: "OpenGL reported an error while executing the evidence workload",
    }
}

/// A drawable without an area suspends its context.
pub open spec fn lifecycle_for(extent: (u32, u32)) -> GlContextLifecycle {
    if drawable::spec_has_zero(extent) {
        GlContextLifecycle::Suspended
    } else {
        GlContextLifecycle::Active
    }
}

fn initial_lifecycle(extent: (u32, u32)) -> (result: GlContextLifecycle)
    ensures
        result == lifecycle_for(extent),
{
    if has_zero(extent) {
        GlContextLifecycle::Suspended
    } else {
        GlContextLifecycle::Active
    }
}

impl Bench {
    /// The next step, according to a record.
    pub open spec fn next(self, o: Seq<WglStep>) -> WglStep {
        o[self.log.len() as int]
    }

    /// The record after one more step.
    pub open spec fn asked(self, step: WglStep) -> Bench {
        Bench { log: self.log.push(step), ..self }
    }

    pub open spec fn thread(self, o: Seq<WglStep>) -> (Bench, OwnerThreadIdentity) {
        let reply = self.next(o)->Thread_reply;
        (self.asked(WglStep::Thread { reply }), reply)
    }

    pub open spec fn os_error(self, o: Seq<WglStep>) -> (Bench, Message) {
        let reply = self.next(o)->OsError_reply;
        (self.asked(WglStep::OsError { reply }), reply)
    }

    pub open spec fn call(self, call: WglCall, o: Seq<WglStep>) -> (Bench, bool) {
        let reply = self.next(o)->Call_reply;
        (self.asked(WglStep::Call { call, reply }), reply)
    }

    pub open spec fn gl_text(self, name: u32, o: Seq<WglStep>) -> (Bench, String) {
        let reply = self.next(o)->GlText_reply;
        (self.asked(WglStep::GlText { name, reply }), reply)
    }

    pub open spec fn gl_error(self, o: Seq<WglStep>) -> (Bench, u32) {
        let reply = self.next(o)->GlError_reply;
        (self.asked(WglStep::GlError { reply }), reply)
    }

    /// Detaches a context if it is current, and deletes it. Whether it is gone.
    pub open spec fn dropped(self, hdc: u64, context: u64, o: Seq<WglStep>) -> (Bench, bool) {
        if context == NULL {
            (self, true)
        } else {
            let current = self.next(o)->CurrentContext_reply;
            let m1 = self.asked(WglStep::CurrentContext { reply: current });
            let (m2, detached) = if current == context {
                m1.call(WglCall::MakeCurrent { hdc, context: NULL }, o)
            } else {
                (m1, true)
            };
            if !detached {
                (m2, false)
            } else {
                m2.call(WglCall::DeleteContext { context }, o)
            }
        }
    }

    /// Takes back what a failed construction has made. A device context that
    /// may still be bound is not given back.
    pub open spec fn cleaned(self, pending: OpenCleanup, o: Seq<WglStep>) -> Bench {
        let (m1, core_gone) = self.dropped(pending.hdc, pending.core, o);
        if !core_gone {
            m1
        } else {
            let (m2, bootstrap_gone) = m1.dropped(pending.hdc, pending.bootstrap, o);
            if !bootstrap_gone {
                m2
            } else {
                m2.asked(WglStep::ReleaseDc { hwnd: pending.hwnd, hdc: pending.hdc })
            }
        }
    }

    /// The first of these versions that can be had.
    pub open spec fn created(self, hdc: u64, versions: Seq<GlVersion>, o: Seq<WglStep>) -> (
        Bench,
        u64,
    )
        decreases versions.len(),
    {
        if versions.len() == 0 {
            (self, NULL)
        } else {
            let wish = wgl::core_wish(versions[0]);
            let reply = self.next(o)->CreateAttribs_reply;
            let m1 = self.asked(WglStep::CreateAttribs { hdc, wish, reply });
            if reply != NULL {
                (m1, reply)
            } else {
                m1.created(hdc, versions.skip(1), o)
            }
        }
    }

    /// The versions that are tried.
    pub open spec fn wanted(requested: Option<GlVersion>) -> Seq<GlVersion> {
        match requested {
            Some(version) => seq![version],
            None => wgl::desktop_requests(),
        }
    }

    /// Installs the pixel format on a device context that has none.
    pub open spec fn formatted(self, hdc: u64, o: Seq<WglStep>) -> (Bench, Result<(), WglFailure>) {
        let installed = self.next(o)->PixelFormat_reply;
        let m1 = self.asked(WglStep::PixelFormat { hdc, reply: installed });
        if installed != 0 {
            (m1, Err(WglFailure::PixelFormatAlreadyConfigured))
        } else {
            let format = gdi::window_format();
            let chosen = m1.next(o)->ChoosePixelFormat_reply;
            let m2 = m1.asked(WglStep::ChoosePixelFormat { hdc, format, reply: chosen });
            if chosen == 0 {
                let (m3, text) = m2.os_error(o);
                (m3, Err(WglFailure::ChoosePixelFormat(text)))
            } else {
                let (m3, set) = m2.call(
                    WglCall::SetPixelFormat { hdc, pixel_format: chosen, format },
                    o,
                );
                if !set {
                    let (m4, text) = m3.os_error(o);
                    (m4, Err(WglFailure::SetPixelFormat(text)))
                } else {
                    (m3, Ok(()))
                }
            }
        }
    }

    /// The context of a version, current, without the one that was needed to
    /// ask for it.
    pub open spec fn core_made(self, pending: OpenCleanup, requested: Option<GlVersion>, o: Seq<WglStep>) -> (
        Bench,
        OpenCleanup,
        Result<u64, WglFailure>,
    ) {
        let hdc = pending.hdc;
        let bootstrap = self.next(o)->CreateContext_reply;
        let m1 = self.asked(WglStep::CreateContext { hdc, reply: bootstrap });
        if bootstrap == NULL {
            let (m2, text) = m1.os_error(o);
            (m2, pending, Err(WglFailure::CreateBootstrapContext(text)))
        } else {
            let p1 = OpenCleanup { bootstrap, ..pending };
            let (m2, current) = m1.call(WglCall::MakeCurrent { hdc, context: bootstrap }, o);
            if !current {
                let (m3, text) = m2.os_error(o);
                (m3, p1, Err(WglFailure::MakeBootstrapCurrent(text)))
            } else {
                let loaded = m2.next(o)->HasCreateAttribs_reply;
                let m3 = m2.asked(WglStep::HasCreateAttribs { reply: loaded });
                if !loaded {
                    (m3, p1, Err(WglFailure::MissingCreateContextAttribs))
                } else {
                    let (m4, core) = m3.created(hdc, Self::wanted(requested), o);
                    if core == NULL {
                        let (m5, text) = m4.os_error(o);
                        (m5, p1, Err(WglFailure::CreateCoreContext(text)))
                    } else {
                        let p2 = OpenCleanup { core, ..p1 };
                        let (m5, bound) = m4.call(WglCall::MakeCurrent { hdc, context: core }, o);
                        if !bound {
                            let (m6, text) = m5.os_error(o);
                            (m6, p2, Err(WglFailure::MakeCoreCurrent(text)))
                        } else {
                            let (m6, _) = m5.call(WglCall::DeleteContext { context: bootstrap }, o);
                            (m6, OpenCleanup { bootstrap: NULL, ..p2 }, Ok(core))
                        }
                    }
                }
            }
        }
    }

    /// Whether the current context is the one that was asked for.
    pub open spec fn verified(self, requested: Option<GlVersion>, o: Seq<WglStep>) -> (
        Bench,
        Result<(), WglFailure>,
    ) {
        let (m1, version) = self.gl_text(glow_const::VERSION, o);
        let (m2, code) = m1.gl_error(o);
        let observed = Message::Owned(Arc::new(version));
        if code != gl_const::NO_ERROR {
            (m2, Err(WglFailure::ActualContext { version: observed, profile_mask: 0 }))
        } else {
            let profile_mask = m2.next(o)->GlInteger_reply;
            let m3 = m2.asked(
                WglStep::GlInteger { name: glow_const::CONTEXT_PROFILE_MASK, reply: profile_mask },
            );
            let (m4, code) = m3.gl_error(o);
            let floor = match requested {
                Some(floor) => floor,
                None => wgl::required_version(),
            };
            if code != gl_const::NO_ERROR || (profile_mask & 1i32) == 0 || !wgl::string_meets(
                version@,
                floor,
            ) {
                (m4, Err(WglFailure::ActualContext { version: observed, profile_mask }))
            } else {
                (m4, Ok(()))
            }
        }
    }

    /// What the driver says of itself. Its errors are taken here, so that
    /// nobody else finds them.
    pub open spec fn driver_identity(self, o: Seq<WglStep>) -> (Bench, Seq<char>) {
        let (m1, vendor) = self.gl_text(glow_const::VENDOR, o);
        let (m2, renderer) = m1.gl_text(glow_const::RENDERER, o);
        let (m3, _) = m2.gl_error(o);
        (m3, drawable::joined(vendor@, " "@, renderer@))
    }

    /// The record of the current context. What was asked for it is noted, and
    /// nothing else was asked.
    pub open spec fn discovered(self, stamp: ContextStamp, driver: Seq<char>, o: Seq<WglStep>) -> (
        Bench,
        Result<SnapshotModel, WglFailure>,
    ) {
        let (seen, outcome) = (Inspection { log: Seq::empty() }).discover(
            stamp,
            driver,
            self.next(o)->Discovery_steps,
        );
        (
            self.asked(WglStep::Discovery { stamp, driver, steps: seen.log }),
            match outcome {
                Ok(snapshot) => Ok(snapshot),
                Err(reason) => Err(WglFailure::Discovery(WglReason::Record(reason))),
            },
        )
    }

    /// Why a record will not do, if it will not.
    pub open spec fn accepted(snapshot: SnapshotModel, extent: (u32, u32)) -> Result<(), WglFailure> {
        if !snapshot.context.profile.spec_meets(Some(wgl::required_version()), None) {
            Err(WglFailure::Discovery(WglReason::BelowFloor))
        } else if wgl::floor_check(snapshot.context.flags) is Err {
            wgl::floor_check(snapshot.context.flags)
        } else {
            wgl::extent_check(snapshot.limits.max_viewport_dimensions, extent)
        }
    }

    /// What is found out about a new context that is current.
    pub open spec fn prepared(
        self,
        stamp: ContextStamp,
        extent: (u32, u32),
        requested: Option<GlVersion>,
        o: Seq<WglStep>,
    ) -> (Bench, Result<SnapshotModel, WglFailure>) {
        let m1 = self.asked(WglStep::LoadGl);
        let (m2, outcome) = m1.verified(requested, o);
        match outcome {
            Err(error) => (m2, Err(error)),
            Ok(_) => {
                let (m3, driver) = m2.driver_identity(o);
                let (m4, outcome) = m3.discovered(stamp, driver, o);
                match outcome {
                    Err(error) => (m4, Err(error)),
                    Ok(snapshot) => match Self::accepted(snapshot, extent) {
                        Err(error) => (m4, Err(error)),
                        Ok(_) => (m4, Ok(snapshot)),
                    },
                }
            },
        }
    }

    /// A context on a leased device context.
    pub open spec fn on_device(
        self,
        stamp: ContextStamp,
        pending: OpenCleanup,
        extent: (u32, u32),
        requested: Option<GlVersion>,
        o: Seq<WglStep>,
    ) -> (Bench, OpenCleanup, Result<WglModel, WglFailure>) {
        let (m1, outcome) = self.formatted(pending.hdc, o);
        match outcome {
            Err(error) => (m1, pending, Err(error)),
            Ok(_) => {
                let (m2, p2, outcome) = m1.core_made(pending, requested, o);
                match outcome {
                    Err(error) => (m2, p2, Err(error)),
                    Ok(core) => {
                        let (m3, outcome) = m2.prepared(stamp, extent, requested, o);
                        match outcome {
                            Err(error) => (m3, p2, Err(error)),
                            Ok(snapshot) => {
                                let (m4, owner) = m3.thread(o);
                                (
                                    m4,
                                    p2,
                                    Ok(
                                        WglModel {
                                            stamp,
                                            hwnd: pending.hwnd,
                                            hdc: pending.hdc,
                                            hglrc: core,
                                            snapshot,
                                            owner,
                                            lifecycle: lifecycle_for(extent),
                                            extent,
                                        },
                                    ),
                                )
                            },
                        }
                    },
                }
            },
        }
    }

    /// A new context on a window.
    pub open spec fn open_from_hwnd(
        self,
        stamp: ContextStamp,
        hwnd: u64,
        extent: (u32, u32),
        requested: Option<GlVersion>,
        o: Seq<WglStep>,
    ) -> (Bench, Result<WglModel, WglFailure>) {
        let hdc = self.next(o)->GetDc_reply;
        let m1 = self.asked(WglStep::GetDc { hwnd, reply: hdc });
        if hdc == NULL {
            let (m2, text) = m1.os_error(o);
            (m2, Err(WglFailure::AcquireDeviceContext(text)))
        } else {
            let pending = OpenCleanup { hwnd, hdc, bootstrap: NULL, core: NULL };
            let (m2, left, outcome) = m1.on_device(stamp, pending, extent, requested, o);
            match outcome {
                Err(error) => (m2.cleaned(left, o), Err(error)),
                Ok(model) => (m2, Ok(model)),
            }
        }
    }

    /// A new context on a window of the host, of the highest version.
    pub open spec fn open(
        self,
        stamp: ContextStamp,
        window: HostWindow,
        display: HostDisplay,
        extent: (u32, u32),
        o: Seq<WglStep>,
    ) -> (Bench, Result<WglModel, WglFailure>) {
        match wgl::window_of(window, display) {
            Err(error) => (self, Err(error)),
            Ok(hwnd) => self.open_from_hwnd(stamp, hwnd, extent, None, o),
        }
    }

    /// A new context on a window of the host, for a fixture.
    pub open spec fn open_minimum(
        self,
        stamp: ContextStamp,
        window: HostWindow,
        display: HostDisplay,
        extent: (u32, u32),
        version: GlVersion,
        o: Seq<WglStep>,
    ) -> (Bench, Result<WglModel, WglFailure>) {
        if !wgl::fixture_version(version) {
            (self, Err(WglFailure::Discovery(WglReason::FixtureVersion(version))))
        } else {
            match wgl::window_of(window, display) {
                Err(error) => (self, Err(error)),
                Ok(hwnd) => self.open_from_hwnd(stamp, hwnd, extent, Some(version), o),
            }
        }
    }

    /// Whether the thread may use a context.
    pub open spec fn owned(self, c: WglModel, o: Seq<WglStep>) -> (Bench, Result<(), WglFailure>) {
        let (m1, actual) = self.thread(o);
        if actual == c.owner {
            (m1, Ok(()))
        } else {
            (m1, Err(WglFailure::WrongThread { expected: c.owner, actual }))
        }
    }

    /// Makes a context current.
    pub open spec fn bind_current(self, c: WglModel, operation: &'static str, o: Seq<WglStep>) -> (
        Bench,
        Result<(), WglFailure>,
    ) {
        let (m1, owner) = self.owned(c, o);
        if owner is Err {
            (m1, owner)
        } else if !(c.lifecycle is Active) {
            (m1, Err(WglFailure::Lifecycle(c.lifecycle)))
        } else {
            let (m2, bound) = m1.call(WglCall::MakeCurrent { hdc: c.hdc, context: c.hglrc }, o);
            if !bound {
                let (m3, message) = m2.os_error(o);
                (m3, Err(WglFailure::Driver { operation, message }))
            } else {
                (Bench { current: Some(c.hglrc), ..m2 }, Ok(()))
            }
        }
    }

    /// Shows the drawable.
    pub open spec fn present(self, c: WglModel, o: Seq<WglStep>) -> (Bench, Result<(), WglFailure>) {
        let (m1, bound) = self.bind_current(c, "WGL SwapBuffers", o);
        if bound is Err {
            (m1, bound)
        } else {
            let (m2, shown) = m1.call(WglCall::SwapBuffers { hdc: c.hdc }, o);
            if !shown {
                let (m3, message) = m2.os_error(o);
                (m3, Err(WglFailure::Driver { operation: "WGL SwapBuffers", message }))
            } else {
                (m2, Ok(()))
            }
        }
    }

    /// Sets how many refreshes a frame is shown, where that can be set.
    pub open spec fn set_swap_interval(self, c: WglModel, interval: i32, o: Seq<WglStep>) -> (
        Bench,
        Result<bool, WglFailure>,
    ) {
        let operation = "wglSwapIntervalEXT";
        let (m1, bound) = self.bind_current(c, operation, o);
        match bound {
            Err(error) => (m1, Err(error)),
            Ok(_) => {
                let loaded = m1.next(o)->HasSwapInterval_reply;
                let m2 = m1.asked(WglStep::HasSwapInterval { reply: loaded });
                if !loaded {
                    (m2, Ok(false))
                } else {
                    let (m3, set) = m2.call(WglCall::SwapInterval { interval }, o);
                    if !set {
                        let (m4, message) = m3.os_error(o);
                        (m4, Err(WglFailure::Driver { operation, message }))
                    } else {
                        (m3, Ok(true))
                    }
                }
            },
        }
    }

    /// Notes the size of the window.
    pub open spec fn resize(self, c: WglModel, extent: (u32, u32), o: Seq<WglStep>) -> (
        Bench,
        WglModel,
        Result<(), WglFailure>,
    ) {
        let (m1, owner) = self.owned(c, o);
        let fits = wgl::extent_check(c.snapshot.limits.max_viewport_dimensions, extent);
        if owner is Err {
            (m1, c, owner)
        } else if fits is Err {
            (m1, c, fits)
        } else if c.lifecycle is Active || c.lifecycle is Suspended {
            (m1, WglModel { extent, lifecycle: lifecycle_for(extent), ..c }, Ok(()))
        } else {
            (m1, c, Err(WglFailure::Lifecycle(c.lifecycle)))
        }
    }

    /// Notes that the drawable is away.
    pub open spec fn suspend(self, c: WglModel, o: Seq<WglStep>) -> (
        Bench,
        WglModel,
        Result<(), WglFailure>,
    ) {
        let (m1, owner) = self.owned(c, o);
        if owner is Err {
            (m1, c, owner)
        } else if c.lifecycle is Active {
            (m1, WglModel { lifecycle: GlContextLifecycle::Suspended, ..c }, Ok(()))
        } else {
            (m1, c, Err(WglFailure::Lifecycle(c.lifecycle)))
        }
    }

    /// Notes that the drawable is back.
    pub open spec fn resume(self, c: WglModel, o: Seq<WglStep>) -> (
        Bench,
        WglModel,
        Result<(), WglFailure>,
    ) {
        let (m1, owner) = self.owned(c, o);
        if owner is Err {
            (m1, c, owner)
        } else if c.lifecycle is Active || c.lifecycle is Suspended {
            (m1, WglModel { lifecycle: GlContextLifecycle::Active, ..c }, Ok(()))
        } else {
            (m1, c, Err(WglFailure::Lifecycle(c.lifecycle)))
        }
    }

    /// Ends a context, and gives back its device context if the driver let go
    /// of the context. What is left of it.
    pub open spec fn release(self, c: WglModel, o: Seq<WglStep>) -> (Bench, GlContextLifecycle) {
        let (m1, gone) = self.dropped(c.hdc, c.hglrc, o);
        if !gone {
            (m1, GlContextLifecycle::Poisoned)
        } else {
            let m2 = Bench {
                current: if m1.current == Some(c.hglrc) {
                    None
                } else {
                    m1.current
                },
                ..m1
            };
            (
                m2.asked(WglStep::ReleaseDc { hwnd: c.hwnd, hdc: c.hdc }),
                GlContextLifecycle::Disposed,
            )
        }
    }
}

/// Why the fixture does not draw, if it does not.
pub open spec fn draw_check(extent: (u32, u32), draws: u32) -> Result<(), GlError> {
    if drawable::spec_has_zero(extent) || draws == 0 {
        Err(
            GlError::Validation {
                operation: "WGL evidence draw",
                message: Message::Text("evidence draw requires a nonzero extent and draw count"),
            },
        )
    } else {
        Ok(())
    }
}

/// Whether this is the answer of the fixture. What was done for it is noted,
/// and nothing else was done.
pub open spec fn drawn(
    before: Bench,
    c: WglModel,
    draws: u32,
    read_color: bool,
    o: Seq<WglStep>,
    after: Bench,
    answer: Result<Option<Vec<u8>>, GlError>,
) -> bool {
    match draw_check(c.extent, draws) {
        Err(error) => after == before && answer == Err::<Option<Vec<u8>>, GlError>(error),
        Ok(_) => {
            let (m1, bound) = before.bind_current(c, "WGL evidence draw", o);
            match bound {
                Err(failure) => {
                    &&& after == m1
                    &&& answer is Err
                    &&& wgl::flattened(failure, "WGL evidence draw", answer->Err_0)
                },
                Ok(_) => {
                    let (work, outcome) = (Work { log: Seq::empty() }).draw(
                        wgl_plan(),
                        c.extent,
                        draws,
                        read_color,
                        m1.next(o)->Drawing_steps,
                    );
                    &&& after == m1.asked(WglStep::Drawing { steps: work.log })
                    &&& answer == outcome
                },
            }
        },
    }
}

/// WGL on one thread, with the record of what it was asked.
pub struct WglStation<W> {
    link: WglRecorder<W>,
    current: Option<u64>,
}

impl<W> View for WglStation<W> {
    type V = Bench;

    closed spec fn view(&self) -> Bench {
        Bench { log: self.link@, current: self.current }
    }
}

/// A context of WGL and the window that it draws to.
#[derive(Debug)]
pub struct WglContextSurface {
    pub stamp: ContextStamp,
    pub hwnd: u64,
    pub hdc: u64,
    pub hglrc: u64,
    pub snapshot: GlDiscoverySnapshot,
    pub owner: OwnerThreadIdentity,
    pub lifecycle: GlContextLifecycle,
    pub extent: (u32, u32),
}

impl View for WglContextSurface {
    type V = WglModel;

    open spec fn view(&self) -> WglModel {
        WglModel {
            stamp: self.stamp,
            hwnd: self.hwnd,
            hdc: self.hdc,
            hglrc: self.hglrc,
            snapshot: self.snapshot@,
            owner: self.owner,
            lifecycle: self.lifecycle,
            extent: self.extent,
        }
    }
}

/// A new context by value.
pub open spec fn made(result: Result<WglContextSurface, WglContextError>) -> Result<
    WglModel,
    WglFailure,
> {
    match result {
        Ok(surface) => Ok(surface@),
        Err(error) => Err(error@),
    }
}

/// A record by value.
pub open spec fn recorded(result: Result<GlDiscoverySnapshot, WglContextError>) -> Result<
    SnapshotModel,
    WglFailure,
> {
    match result {
        Ok(snapshot) => Ok(snapshot@),
        Err(error) => Err(error@),
    }
}

impl<W: WglCalls> WglStation<W> {
    pub fn new(calls: W) -> (result: Self)
        ensures
            result@ == (Bench { log: Seq::empty(), current: None }),
    {
        WglStation { link: WglRecorder::new(calls), current: None }
    }

    /// Every state of the record is sound.
    pub open spec fn wf(&self) -> bool {
        true
    }

    /// The context that was made current last.
    pub fn current(&self) -> (result: Option<u64>)
        ensures
            result == self@.current,
    {
        self.current
    }

    fn record(&mut self, context: u64)
        ensures
            final(self)@ == (Bench { current: Some(context), ..old(self)@ }),
    {
        self.current = Some(context);
    }

    fn clear_if(&mut self, context: u64)
        ensures
            final(self)@ == (Bench {
                current: if old(self)@.current == Some(context) {
                    None
                } else {
                    old(self)@.current
                },
                ..old(self)@
            }),
    {
        match self.current {
            Some(current) => {
                if current == context {
                    self.current = None;
                }
            },
            None => {},
        }
    }

    fn thread(&mut self) -> (reply: OwnerThreadIdentity)
        ensures
            final(self)@ == old(self)@.asked(WglStep::Thread { reply }),
    {
        let reply = self.link.current_thread();
        reply
    }

    fn os_error(&mut self) -> (reply: Message)
        ensures
            final(self)@ == old(self)@.asked(WglStep::OsError { reply }),
    {
        let reply = self.link.last_os_error();
        reply
    }

    fn call(&mut self, call: WglCall) -> (reply: bool)
        ensures
            final(self)@ == old(self)@.asked(WglStep::Call { call, reply }),
    {
        let reply = self.link.call(call);
        reply
    }

    fn gl_text(&mut self, name: u32) -> (reply: String)
        ensures
            final(self)@ == old(self)@.asked(WglStep::GlText { name, reply }),
    {
        let reply = self.link.gl_string(name);
        reply
    }

    fn gl_error(&mut self) -> (reply: u32)
        ensures
            final(self)@ == old(self)@.asked(WglStep::GlError { reply }),
    {
        let reply = self.link.gl_error();
        reply
    }

    fn dropped(&mut self, hdc: u64, context: u64) -> (result: bool)
        requires
            old(self).wf(),
        ensures
            final(self).wf(),
            grows(old(self)@.log, final(self)@.log),
            forall|o: Seq<WglStep>|
                grows(final(self)@.log, o) ==> #[trigger] old(self)@.dropped(hdc, context, o) == (
                    final(self)@,
                    result,
                ),
    {
        if context == NULL {
            return true;
        }
        let current = self.link.get_current_context();
        if current == context {
            if !self.call(WglCall::MakeCurrent { hdc, context: NULL }) {
                return false;
            }
        }
        self.call(WglCall::DeleteContext { context })
    }

    fn release_dc(&mut self, hwnd: u64, hdc: u64)
        ensures
            final(self)@ == old(self)@.asked(WglStep::ReleaseDc { hwnd, hdc }),
    {
        self.link.release_dc(hwnd, hdc);
    }

    fn cleaned(&mut self, pending: OpenCleanup)
        ensures
            grows(old(self)@.log, final(self)@.log),
            forall|o: Seq<WglStep>|
                grows(final(self)@.log, o) ==> #[trigger] old(self)@.cleaned(pending, o)
                    == final(self)@,
    {
        if !self.dropped(pending.hdc, pending.core) {
            return;
        }
        if !self.dropped(pending.hdc, pending.bootstrap) {
            return;
        }
        self.release_dc(pending.hwnd, pending.hdc);
    }

    fn created(&mut self, hdc: u64, versions: &Vec<GlVersion>) -> (result: u64)
        requires
            old(self).wf(),
        ensures
            final(self).wf(),
            grows(old(self)@.log, final(self)@.log),
            forall|o: Seq<WglStep>|
                grows(final(self)@.log, o) ==> #[trigger] old(self)@.created(hdc, versions@, o) == (
                    final(self)@,
                    result,
                ),
    {
        let mut at: usize = 0;
        assert(versions@.skip(0) =~= versions@);
        while at < versions.len()
            invariant
                at <= versions@.len(),
                grows(old(self)@.log, self@.log),
                forall|o: Seq<WglStep>|
                    grows(self@.log, o) ==> #[trigger] old(self)@.created(hdc, versions@, o)
                        == self@.created(hdc, versions@.skip(at as int), o),
            decreases versions@.len() - at,
        {
            let ghost before = self@;
            let ghost rest = versions@.skip(at as int);
            let wish = core_context_attributes(versions[at]);
            let reply = self.link.create_context_attribs(hdc, &wish);
            proof {
                assert(rest[0] == versions@[at as int]);
                assert(rest.skip(1) =~= versions@.skip(at + 1));
                assert forall|o: Seq<WglStep>| grows(self@.log, o) implies #[trigger] old(
                    self,
                )@.created(hdc, versions@, o) == (if reply != NULL {
                    (self@, reply)
                } else {
                    self@.created(hdc, versions@.skip(at + 1), o)
                }) by {
                    assert(grows(before.log, o));
                    assert(before.next(o) == self@.log.last());
                }
            }
            if reply != NULL {
                return reply;
            }
            at += 1;
        }
        NULL
    }

    fn formatted(&mut self, hdc: u64) -> (result: Result<(), WglContextError>)
        requires
            old(self).wf(),
        ensures
            final(self).wf(),
            grows(old(self)@.log, final(self)@.log),
            forall|o: Seq<WglStep>|
                grows(final(self)@.log, o) ==> #[trigger] old(self)@.formatted(hdc, o) == (
                    final(self)@,
                    wgl::plain(result),
                ),
    {
        let installed: i32 = self.link.get_pixel_format(hdc);
        if installed != 0 {
            return Err(WglContextError::PixelFormatAlreadyConfigured);
        }
        let format = PixelFormatDescriptor::window_rgba();
        let chosen: i32 = self.link.choose_pixel_format(hdc, format);
        if chosen == 0 {
            return Err(WglContextError::ChoosePixelFormat(self.os_error()));
        }
        if !self.call(WglCall::SetPixelFormat { hdc, pixel_format: chosen, format }) {
            return Err(WglContextError::SetPixelFormat(self.os_error()));
        }
        Ok(())
    }

    fn core_made(&mut self, pending: &mut OpenCleanup, requested: Option<GlVersion>) -> (result: Result<
        u64,
        WglContextError,
    >)
        ensures
            grows(old(self)@.log, final(self)@.log),
            forall|o: Seq<WglStep>|
                grows(final(self)@.log, o) ==> #[trigger] old(self)@.core_made(
                    *old(pending),
                    requested,
                    o,
                ) == (final(self)@, *final(pending), wgl::plain(result)),
    {
        let hdc = pending.hdc;
        let bootstrap = self.link.create_context(hdc);
        if bootstrap == NULL {
            return Err(WglContextError::CreateBootstrapContext(self.os_error()));
        }
        pending.bootstrap = bootstrap;
        if !self.call(WglCall::MakeCurrent { hdc, context: bootstrap }) {
            return Err(WglContextError::MakeBootstrapCurrent(self.os_error()));
        }
        let loaded = self.link.has_create_context_attribs();
        if !loaded {
            return Err(WglContextError::MissingCreateContextAttribs);
        }
        let wanted = match requested {
            Some(version) => vec![version],
            None => desktop_context_requests(),
        };
        assert(wanted@ =~= Bench::wanted(requested));
        let core = self.created(hdc, &wanted);
        if core == NULL {
            return Err(WglContextError::CreateCoreContext(self.os_error()));
        }
        pending.core = core;
        if !self.call(WglCall::MakeCurrent { hdc, context: core }) {
            return Err(WglContextError::MakeCoreCurrent(self.os_error()));
        }
        let _ = self.call(WglCall::DeleteContext { context: bootstrap });
        pending.bootstrap = NULL;
        Ok(core)
    }

    /// Whether the current context is the one that was asked for. What was
    /// asked for proves nothing; the driver has to say so.
    pub fn verify_actual_desktop_core_context(&mut self, requested: Option<GlVersion>) -> (result:
        Result<(), WglContextError>)
        requires
            old(self).wf(),
        ensures
            final(self).wf(),
            grows(old(self)@.log, final(self)@.log),
            forall|o: Seq<WglStep>|
                grows(final(self)@.log, o) ==> #[trigger] old(self)@.verified(requested, o) == (
                    final(self)@,
                    wgl::plain(result),
                ),
    {
        let version = self.gl_text(glow_const::VERSION);
        if self.gl_error() != gl_const::NO_ERROR {
            return Err(
                WglContextError::ActualContext {
                    version: Message::owned(version),
                    profile_mask: 0,
                },
            );
        }
        let profile_mask: i32 = self.link.gl_integer(glow_const::CONTEXT_PROFILE_MASK);
        let met = match requested {
            Some(floor) => meets_version(version.as_str(), floor),
            None => meets_required_desktop_context(version.as_str()),
        };
        let failed = self.gl_error() != gl_const::NO_ERROR;
        if failed || (profile_mask & 1i32) == 0 || !met {
            return Err(
                WglContextError::ActualContext { version: Message::owned(version), profile_mask },
            );
        }
        Ok(())
    }

    /// What the driver says of itself.
    pub fn wgl_driver_identity(&mut self) -> (result: String)
        ensures
            grows(old(self)@.log, final(self)@.log),
            forall|o: Seq<WglStep>|
                grows(final(self)@.log, o) ==> #[trigger] old(self)@.driver_identity(o) == (
                    final(self)@,
                    result@,
                ),
    {
        let vendor = self.gl_text(glow_const::VENDOR);
        let renderer = self.gl_text(glow_const::RENDERER);
        let _ = self.gl_error();
        driver_identity_from(vendor.as_str(), renderer.as_str())
    }

    fn discovered(&mut self, stamp: ContextStamp, driver: &str) -> (result: Result<
        GlDiscoverySnapshot,
        WglContextError,
    >)
        ensures
            result is Ok ==> result->Ok_0.wf(),
            grows(old(self)@.log, final(self)@.log),
            forall|o: Seq<WglStep>|
                grows(final(self)@.log, o) ==> #[trigger] old(self)@.discovered(stamp, driver@, o)
                    == (final(self)@, recorded(result)),
    {
        let outcome = self.link.discover(stamp, driver);
        match outcome {
            Ok(snapshot) => Ok(snapshot),
            Err(reason) => Err(WglContextError::Discovery(WglDiscoveryError::Record(reason))),
        }
    }

    fn prepared(
        &mut self,
        stamp: ContextStamp,
        extent: (u32, u32),
        requested: Option<GlVersion>,
    ) -> (result: Result<GlDiscoverySnapshot, WglContextError>)
        ensures
            result is Ok ==> result->Ok_0.wf(),
            grows(old(self)@.log, final(self)@.log),
            forall|o: Seq<WglStep>|
                grows(final(self)@.log, o) ==> #[trigger] old(self)@.prepared(
                    stamp,
                    extent,
                    requested,
                    o,
                ) == (final(self)@, recorded(result)),
    {
        self.link.load_glow();
        match self.verify_actual_desktop_core_context(requested) {
            Ok(()) => {},
            Err(error) => {
                return Err(error);
            },
        }
        let driver = self.wgl_driver_identity();
        let snapshot = match self.discovered(stamp, driver.as_str()) {
            Ok(value) => value,
            Err(error) => {
                return Err(error);
            },
        };
        if !snapshot.context.profile.meets(Some(required_desktop_context()), None) {
            return Err(WglContextError::Discovery(WglDiscoveryError::BelowFloor));
        }
        match verify_recorded_desktop_floor(&snapshot.context.flags) {
            Ok(()) => {},
            Err(error) => {
                return Err(error);
            },
        }
        match check_drawable_extent(snapshot.limits.max_viewport_dimensions, extent) {
            Ok(()) => {},
            Err(error) => {
                return Err(error);
            },
        }
        Ok(snapshot)
    }

    fn on_device(
        &mut self,
        stamp: ContextStamp,
        pending: &mut OpenCleanup,
        extent: (u32, u32),
        requested: Option<GlVersion>,
    ) -> (result: Result<WglContextSurface, WglContextError>)
        ensures
            result is Ok ==> result->Ok_0.wf(),
            grows(old(self)@.log, final(self)@.log),
            forall|o: Seq<WglStep>|
                grows(final(self)@.log, o) ==> #[trigger] old(self)@.on_device(
                    stamp,
                    *old(pending),
                    extent,
                    requested,
                    o,
                ) == (final(self)@, *final(pending), made(result)),
    {
        match self.formatted(pending.hdc) {
            Ok(()) => {},
            Err(error) => {
                return Err(error);
            },
        }
        let hwnd = pending.hwnd;
        let hdc = pending.hdc;
        let core = match self.core_made(pending, requested) {
            Ok(value) => value,
            Err(error) => {
                return Err(error);
            },
        };
        let snapshot = match self.prepared(stamp, extent, requested) {
            Ok(value) => value,
            Err(error) => {
                return Err(error);
            },
        };
        let owner = self.thread();
        Ok(
            WglContextSurface {
                stamp,
                hwnd,
                hdc,
                hglrc: core,
                snapshot,
                owner,
                lifecycle: initial_lifecycle(extent),
                extent,
            },
        )
    }

    /// A new context on a window, current on this thread.
    pub fn open_from_hwnd(
        &mut self,
        stamp: ContextStamp,
        hwnd: u64,
        extent: (u32, u32),
        requested: Option<GlVersion>,
    ) -> (result: Result<WglContextSurface, WglContextError>)
        ensures
            result is Ok ==> result->Ok_0.wf(),
            grows(old(self)@.log, final(self)@.log),
            forall|o: Seq<WglStep>|
                grows(final(self)@.log, o) ==> #[trigger] old(self)@.open_from_hwnd(stamp, hwnd, extent, requested, o) == (
                    final(self)@,
                    made(result),
                ),
    {
        let hdc = self.link.get_dc(hwnd);
        if hdc == NULL {
            return Err(WglContextError::AcquireDeviceContext(self.os_error()));
        }
        let mut pending = OpenCleanup { hwnd, hdc, bootstrap: NULL, core: NULL };
        match self.on_device(stamp, &mut pending, extent, requested) {
            Err(error) => {
                self.cleaned(pending);
                Err(error)
            },
            Ok(surface) => Ok(surface),
        }
    }

    /// A new context on a window of the host, of the highest version that can
    /// be had.
    pub fn open(
        &mut self,
        stamp: ContextStamp,
        window: HostWindow,
        display: HostDisplay,
        extent: (u32, u32),
    ) -> (result: Result<WglContextSurface, WglContextError>)
        ensures
            result is Ok ==> result->Ok_0.wf(),
            grows(old(self)@.log, final(self)@.log),
            forall|o: Seq<WglStep>|
                grows(final(self)@.log, o) ==> #[trigger] old(self)@.open(stamp, window, display, extent, o) == (
                    final(self)@,
                    made(result),
                ),
    {
        match host_hwnd(window, display) {
            Err(error) => Err(error),
            Ok(hwnd) => self.open_from_hwnd(stamp, hwnd, extent, None),
        }
    }

    /// A new context on a window of the host, of at least a version that a
    /// fixture wants.
    pub fn open_with_minimum_desktop_version(
        &mut self,
        stamp: ContextStamp,
        window: HostWindow,
        display: HostDisplay,
        extent: (u32, u32),
        version: GlVersion,
    ) -> (result: Result<WglContextSurface, WglContextError>)
        ensures
            result is Ok ==> result->Ok_0.wf(),
            grows(old(self)@.log, final(self)@.log),
            forall|o: Seq<WglStep>|
                grows(final(self)@.log, o) ==> #[trigger] old(self)@.open_minimum(stamp, window, display, extent, version, o) == (
                    final(self)@,
                    made(result),
                ),
    {
        if !is_supported_desktop_test_version(version) {
            return Err(
                WglContextError::Discovery(WglDiscoveryError::FixtureVersion(version)),
            );
        }
        match host_hwnd(window, display) {
            Err(error) => Err(error),
            Ok(hwnd) => self.open_from_hwnd(stamp, hwnd, extent, Some(version)),
        }
    }

    /// A new context on a window that was described on another thread.
    pub fn open_described(&mut self, descriptor: WglWorkerDescriptor) -> (result: Result<
        WglContextSurface,
        WglContextError,
    >)
        ensures
            result is Ok ==> result->Ok_0.wf(),
            grows(old(self)@.log, final(self)@.log),
            forall|o: Seq<WglStep>|
                grows(final(self)@.log, o) ==> #[trigger] old(self)@.open_from_hwnd(descriptor.stamp, descriptor.hwnd, descriptor.extent, None, o) == (
                    final(self)@,
                    made(result),
                ),
    {
        self.open_from_hwnd(descriptor.stamp, descriptor.hwnd, descriptor.extent, None)
    }
}

/// What a fixture prints of a context.
#[derive(Debug)]
pub struct WglEvidence {
    pub profile: GlFamilyProfile,
    pub version: String,
    pub shading_language_version: String,
    pub vendor: String,
    pub renderer: String,
    pub driver_or_browser: String,
    pub debug: bool,
    pub forward_compatible: bool,
    pub robust_access: bool,
    pub no_error: bool,
    pub other_flags: Vec<String>,
    pub extensions: Vec<String>,
    /// Of the extensions those that the library knows.
    pub typed_extensions: Vec<TypedExtension>,
    pub limits: Vec<LimitRow>,
    pub capabilities: Vec<CapabilityRow>,
    pub surface_facts: GlSurfaceFacts,
    pub drawable_extent: (u32, u32),
}

impl WglContextSurface {
    /// The record of the context is complete.
    pub open spec fn wf(&self) -> bool {
        self.snapshot.wf()
    }

    /// The size of the window, as the host reported it last.
    pub fn extent(&self) -> (result: (u32, u32))
        ensures
            result == self.extent,
    {
        self.extent
    }

    pub fn owner_thread(&self) -> (result: OwnerThreadIdentity)
        ensures
            result == self.owner,
    {
        self.owner
    }

    pub fn context_stamp(&self) -> (result: ContextStamp)
        ensures
            result == self.stamp,
    {
        self.stamp
    }

    /// The facts that may be published of this context.
    pub fn v13_capability_facts(&self) -> (result: GlCapabilitySnapshot)
        requires
            self.wf(),
        ensures
            result@ == capabilities::published(self.snapshot@),
    {
        v13_capability_snapshot(&self.snapshot)
    }

    /// The drawable with which an executor of this context starts.
    pub fn initial_surface(&self) -> (result: InitialSurface)
        ensures
            result == (InitialSurface {
                extent: GlSurfaceSize { width: self.extent.0, height: self.extent.1 },
                suspended: drawable::spec_has_zero(self.extent),
            }),
    {
        InitialSurface {
            extent: GlSurfaceSize { width: self.extent.0, height: self.extent.1 },
            suspended: has_zero(self.extent),
        }
    }

    /// Adopts the owner of this context.
    pub fn adopt<D: SharedDriver>(&self, instance: u64, driver: D) -> (result: Result<
        GlProvider<D, Arc<GlCapabilitySnapshot>>,
        RhiError,
    >)
        requires
            self.wf(),
        ensures
            result is Ok,
            ({
                let provider = result->Ok_0;
                &&& provider.backend is OpenGl
                &&& (*provider.facts)@ == capabilities::published(self.snapshot@)
                &&& provider.adapter.id.instance == instance
                &&& provider.adapter.id.index == 0
                &&& (*provider.adapter.name)@ == egl_context::adapter_text(
                    "OpenGL"@,
                    self.snapshot@.context.renderer,
                )
            }),
    {
        let name = adapter_name("OpenGL", self.snapshot.context.renderer.as_str());
        adopt_discovered_owner(instance, Arc::new(name), &self.snapshot, driver)
    }

    fn assert_owner<W: WglCalls>(&self, wgl: &mut WglStation<W>) -> (result: Result<
        (),
        WglContextError,
    >)
        ensures
            grows(old(wgl)@.log, final(wgl)@.log),
            forall|o: Seq<WglStep>|
                grows(final(wgl)@.log, o) ==> #[trigger] old(wgl)@.owned(self@, o) == (
                    final(wgl)@,
                    wgl::plain(result),
                ),
    {
        let actual = wgl.thread();
        if actual == self.owner {
            Ok(())
        } else {
            Err(WglContextError::WrongThread { expected: self.owner, actual })
        }
    }

    fn bind<W: WglCalls>(&self, wgl: &mut WglStation<W>, operation: &'static str) -> (result: Result<
        (),
        WglContextError,
    >)
        ensures
            grows(old(wgl)@.log, final(wgl)@.log),
            forall|o: Seq<WglStep>|
                grows(final(wgl)@.log, o) ==> #[trigger] old(wgl)@.bind_current(self@, operation, o) == (
                    final(wgl)@,
                    wgl::plain(result),
                ),
    {
        match self.assert_owner(wgl) {
            Ok(()) => {},
            Err(error) => {
                return Err(error);
            },
        }
        match self.lifecycle {
            GlContextLifecycle::Active => {},
            lifecycle => {
                return Err(WglContextError::Lifecycle(lifecycle));
            },
        }
        if !wgl.call(WglCall::MakeCurrent { hdc: self.hdc, context: self.hglrc }) {
            let message = wgl.os_error();
            return Err(WglContextError::Driver { operation, message });
        }
        wgl.record(self.hglrc);
        Ok(())
    }

    /// Makes this context current. That nobody else did so in between is never
    /// assumed.
    pub fn bind_current<W: WglCalls>(&self, wgl: &mut WglStation<W>, operation: &'static str) -> (
        result: Result<(), GlError>)
        ensures
            grows(old(wgl)@.log, final(wgl)@.log),
            forall|o: Seq<WglStep>|
                grows(final(wgl)@.log, o) ==> ({
                    let (m, outcome) = #[trigger] old(wgl)@.bind_current(self@, operation, o);
                    &&& final(wgl)@ == m
                    &&& wgl::answers(outcome, operation, result)
                }),
    {
        match self.bind(wgl, operation) {
            Ok(()) => Ok(()),
            Err(error) => Err(error.as_gl_error(operation)),
        }
    }

    /// Makes this context ready for an operation on it.
    pub fn with_current<W: WglCalls>(&self, wgl: &mut WglStation<W>, operation: &'static str) -> (
        result: Result<(), GlError>)
        ensures
            grows(old(wgl)@.log, final(wgl)@.log),
            forall|o: Seq<WglStep>|
                grows(final(wgl)@.log, o) ==> ({
                    let (m, outcome) = #[trigger] old(wgl)@.bind_current(self@, operation, o);
                    &&& final(wgl)@ == m
                    &&& wgl::answers(outcome, operation, result)
                }),
    {
        self.bind_current(wgl, operation)
    }

    /// The record of this context. Nothing is asked again, so that the context
    /// need not be current.
    pub fn discover<W: WglCalls>(&self, wgl: &mut WglStation<W>) -> (result: Result<
        &GlDiscoverySnapshot,
        GlError,
    >)
        ensures
            grows(old(wgl)@.log, final(wgl)@.log),
            forall|o: Seq<WglStep>|
                grows(final(wgl)@.log, o) ==> ({
                    let (m, outcome) = #[trigger] old(wgl)@.owned(self@, o);
                    &&& final(wgl)@ == m
                    &&& match outcome {
                        Ok(_) => result is Ok && *result->Ok_0 == self.snapshot,
                        Err(failure) => result is Err && wgl::flattened(
                            failure,
                            "discover WGL context",
                            result->Err_0,
                        ),
                    }
                }),
    {
        match self.assert_owner(wgl) {
            Ok(()) => Ok(&self.snapshot),
            Err(error) => Err(error.as_gl_error("discover WGL context")),
        }
    }

    /// Shows the drawable.
    pub fn present<W: WglCalls>(&self, wgl: &mut WglStation<W>) -> (result: Result<(), GlError>)
        ensures
            grows(old(wgl)@.log, final(wgl)@.log),
            forall|o: Seq<WglStep>|
                grows(final(wgl)@.log, o) ==> ({
                    let (m, outcome) = #[trigger] old(wgl)@.present(self@, o);
                    &&& final(wgl)@ == m
                    &&& wgl::answers(outcome, "WGL SwapBuffers", result)
                }),
    {
        let operation = "WGL SwapBuffers";
        match self.bind(wgl, operation) {
            Ok(()) => {},
            Err(error) => {
                return Err(error.as_gl_error(operation));
            },
        }
        if !wgl.call(WglCall::SwapBuffers { hdc: self.hdc }) {
            let message = wgl.os_error();
            return Err(WglContextError::Driver { operation, message }.as_gl_error(operation));
        }
        Ok(())
    }

    /// Sets how many refreshes a frame is shown. Whether that can be set.
    pub fn set_swap_interval<W: WglCalls>(&self, wgl: &mut WglStation<W>, interval: i32) -> (result:
        Result<bool, GlError>)
        ensures
            grows(old(wgl)@.log, final(wgl)@.log),
            forall|o: Seq<WglStep>|
                grows(final(wgl)@.log, o) ==> ({
                    let (m, outcome) = #[trigger] old(wgl)@.set_swap_interval(self@, interval, o);
                    &&& final(wgl)@ == m
                    &&& wgl::answers(outcome, "wglSwapIntervalEXT", result)
                }),
    {
        let operation = "wglSwapIntervalEXT";
        match self.bind(wgl, operation) {
            Ok(()) => {},
            Err(error) => {
                return Err(error.as_gl_error(operation));
            },
        }
        let loaded = wgl.link.has_swap_interval();
        if !loaded {
            return Ok(false);
        }
        if !wgl.call(WglCall::SwapInterval { interval }) {
            let message = wgl.os_error();
            return Err(WglContextError::Driver { operation, message }.as_gl_error(operation));
        }
        Ok(true)
    }

    /// Notes the size of the window. A size that no viewport can have changes
    /// nothing.
    pub fn resize<W: WglCalls>(&mut self, wgl: &mut WglStation<W>, extent: (u32, u32)) -> (result:
        Result<(), GlError>)
        ensures
            final(self).snapshot == old(self).snapshot,
            grows(old(wgl)@.log, final(wgl)@.log),
            forall|o: Seq<WglStep>|
                grows(final(wgl)@.log, o) ==> ({
                    let (m, c, outcome) = #[trigger] old(wgl)@.resize(old(self)@, extent, o);
                    &&& final(wgl)@ == m
                    &&& final(self)@ == c
                    &&& wgl::answers(outcome, "WGL resize", result)
                }),
    {
        let operation = "WGL resize";
        match self.assert_owner(wgl) {
            Ok(()) => {},
            Err(error) => {
                return Err(error.as_gl_error(operation));
            },
        }
        match check_drawable_extent(self.snapshot.limits.max_viewport_dimensions, extent) {
            Ok(()) => {},
            Err(error) => {
                return Err(error.as_gl_error(operation));
            },
        }
        match self.lifecycle {
            GlContextLifecycle::Active | GlContextLifecycle::Suspended => {
                self.extent = extent;
                self.lifecycle = initial_lifecycle(extent);
                Ok(())
            },
            lifecycle => Err(WglContextError::Lifecycle(lifecycle).as_gl_error(operation)),
        }
    }

    /// Notes that the drawable is away.
    pub fn suspend<W: WglCalls>(&mut self, wgl: &mut WglStation<W>) -> (result: Result<(), GlError>)
        ensures
            final(self).snapshot == old(self).snapshot,
            grows(old(wgl)@.log, final(wgl)@.log),
            forall|o: Seq<WglStep>|
                grows(final(wgl)@.log, o) ==> ({
                    let (m, c, outcome) = #[trigger] old(wgl)@.suspend(old(self)@, o);
                    &&& final(wgl)@ == m
                    &&& final(self)@ == c
                    &&& wgl::answers(outcome, "WGL suspend", result)
                }),
    {
        let operation = "WGL suspend";
        match self.assert_owner(wgl) {
            Ok(()) => {},
            Err(error) => {
                return Err(error.as_gl_error(operation));
            },
        }
        match self.lifecycle {
            GlContextLifecycle::Active => {
                self.lifecycle = GlContextLifecycle::Suspended;
                Ok(())
            },
            lifecycle => Err(WglContextError::Lifecycle(lifecycle).as_gl_error(operation)),
        }
    }

    /// Notes that the drawable is back.
    pub fn resume<W: WglCalls>(&mut self, wgl: &mut WglStation<W>) -> (result: Result<(), GlError>)
        ensures
            final(self).snapshot == old(self).snapshot,
            grows(old(wgl)@.log, final(wgl)@.log),
            forall|o: Seq<WglStep>|
                grows(final(wgl)@.log, o) ==> ({
                    let (m, c, outcome) = #[trigger] old(wgl)@.resume(old(self)@, o);
                    &&& final(wgl)@ == m
                    &&& final(self)@ == c
                    &&& wgl::answers(outcome, "WGL resume", result)
                }),
    {
        let operation = "WGL resume";
        match self.assert_owner(wgl) {
            Ok(()) => {},
            Err(error) => {
                return Err(error.as_gl_error(operation));
            },
        }
        match self.lifecycle {
            GlContextLifecycle::Suspended => {
                self.lifecycle = GlContextLifecycle::Active;
                Ok(())
            },
            GlContextLifecycle::Active => Ok(()),
            lifecycle => Err(WglContextError::Lifecycle(lifecycle).as_gl_error(operation)),
        }
    }

    /// What a fixture prints of this context.
    pub fn evidence(&self) -> (result: WglEvidence)
        requires
            self.wf(),
        ensures
            result.profile == self.snapshot@.context.profile,
            result.version@ == self.snapshot@.context.version,
            result.shading_language_version@ == self.snapshot@.context.shading_language,
            result.vendor@ == self.snapshot@.context.vendor,
            result.renderer@ == self.snapshot@.context.renderer,
            result.driver_or_browser@ == self.snapshot@.context.driver,
            result.debug == self.snapshot@.context.flags.debug,
            result.forward_compatible == self.snapshot@.context.flags.forward_compatible,
            result.robust_access == self.snapshot@.context.flags.robust_access,
            result.no_error == self.snapshot@.context.flags.no_error,
            text::ascending(result.other_flags@),
            text::texts_in(result.other_flags@) == self.snapshot@.context.flags.other,
            text::ascending(result.extensions@),
            text::texts_in(result.extensions@) == self.snapshot@.extensions.raw,
            result.typed_extensions@ == report::typed(
                result.extensions@,
                self.snapshot@.extensions,
            ),
            report::limits_seen(result.limits@) == report::desktop_limits(self.snapshot@.limits),
            result.capabilities@ == report::capability_rows(self.snapshot@),
            result.surface_facts == self.snapshot@.surface,
            result.drawable_extent == self.extent,
    {
        let info = &self.snapshot.context;
        let extensions = self.snapshot.extensions.raw.sorted();
        let typed_extensions = list_typed(&extensions, &self.snapshot.extensions);
        WglEvidence {
            profile: info.profile,
            version: info.version.as_str().to_owned(),
            shading_language_version: info.shading_language.as_str().to_owned(),
            vendor: info.vendor.as_str().to_owned(),
            renderer: info.renderer.as_str().to_owned(),
            driver_or_browser: info.driver.as_str().to_owned(),
            debug: info.flags.debug,
            forward_compatible: info.flags.forward_compatible,
            robust_access: info.flags.robust_access,
            no_error: info.flags.no_error,
            other_flags: info.flags.other.sorted(),
            extensions,
            typed_extensions,
            limits: list_desktop_limits(&self.snapshot.limits),
            capabilities: list_capabilities(&self.snapshot),
            surface_facts: self.snapshot.surface,
            drawable_extent: self.extent,
        }
    }

    /// Draws the triangle of the fixture some times, and reads the picture if it
    /// is wanted.
    pub fn draw_evidence<W: WglCalls>(
        &self,
        wgl: &mut WglStation<W>,
        draws: u32,
        read_color: bool,
    ) -> (result: Result<Option<Vec<u8>>, GlError>)
        requires
            read_color ==> self.extent.0 * self.extent.1 * 4 <= usize::MAX,
        ensures
            grows(old(wgl)@.log, final(wgl)@.log),
            forall|o: Seq<WglStep>|
                grows(final(wgl)@.log, o) ==> #[trigger] drawn(
                    old(wgl)@,
                    self@,
                    draws,
                    read_color,
                    o,
                    final(wgl)@,
                    result,
                ),
    {
        let operation = "WGL evidence draw";
        if has_zero(self.extent) || draws == 0 {
            return Err(
                GlError::Validation {
                    operation,
                    message: Message::Text("evidence draw requires a nonzero extent and draw count"),
                },
            );
        }
        match self.bind(wgl, operation) {
            Ok(()) => {},
            Err(error) => {
                return Err(error.as_gl_error(operation));
            },
        }
        wgl.link.draw(evidence_plan(), self.extent, draws, read_color)
    }

    /// Ends this context. What is left of it: nothing, or a context that the
    /// driver does not let go of.
    pub fn release<W: WglCalls>(self, wgl: &mut WglStation<W>) -> (result: GlContextLifecycle)
        ensures
            grows(old(wgl)@.log, final(wgl)@.log),
            forall|o: Seq<WglStep>|
                grows(final(wgl)@.log, o) ==> #[trigger] old(wgl)@.release(self@, o) == (
                    final(wgl)@,
                    result,
                ),
    {
        if !wgl.dropped(self.hdc, self.hglrc) {
            return GlContextLifecycle::Poisoned;
        }
        wgl.clear_if(self.hglrc);
        wgl.release_dc(self.hwnd, self.hdc);
        GlContextLifecycle::Disposed
    }
}

} // verus!
