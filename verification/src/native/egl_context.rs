//! Contexts of EGL, from their making to their end.
//!
//! The host owns its displays and windows. Everything that EGL makes of them is
//! owned here: a display stays initialized as long as one context uses it, and
//! what a failed construction has made is taken back.

use vstd::prelude::*;
use std::sync::Arc;
use vstd::multiset::Multiset;
use vstd::string::*;
use crate::api::discovery::{GlDiscoverySnapshot, SnapshotModel};
use crate::api::error::{
    GlContextLifecycle, GlError, Message, RhiError,
};
use crate::api::gl::{GlFamilyProfile, GlSurfaceSize};
use crate::api::identity::{ContextStamp, OwnerThreadIdentity};
use crate::native::adopt::adopt_discovered_owner;
use crate::native::capabilities;
use crate::native::capabilities::{v13_capability_snapshot, GlCapabilitySnapshot};
use crate::native::context;
use crate::native::drawable;
use crate::native::egl;
use crate::native::egl::{
    check_drawable_extent, compose_egl_driver_identity, config_attributes,
    current_binding_is_self, exact_context_attributes, has_extension, native_window_pair,
    parse_gles_version, pbuffer_attributes, AndroidEglWorkerDescriptor, EglError, EglFailure,
    EglGlesVersion, EglPbufferSize, EglProviderError, EglSurfaceKind, HostDisplay, HostWindow,
    DEFAULT_DISPLAY, OPENGL_ES_API,
};
use crate::native::egl_recorder::EglRecorder;
use crate::native::query::{Inspection, NativeGlProbes, NativeGlQuery, QueryStep};
use crate::native::report;
use crate::native::report::{list_capabilities, list_embedded_limits, CapabilityRow, LimitRow};
use crate::native::workload;
use crate::native::workload::{Work, WorkCalls, WorkPlan, WorkStep};
use crate::platform::presentation::SharedDriver;
use crate::platform::provider::GlProvider;
use crate::text;

verus! {

/// A surface and a context that are made current together.
#[derive(Clone, Copy, Debug, PartialEq, Eq, Structural)]
pub struct EglBinding {
    pub surface: u64,
    pub context: u64,
}

/// A call of EGL that succeeds or fails.
#[derive(Clone, Copy, Debug, PartialEq, Eq, Structural)]
pub enum EglCall {
    Initialize { display: u64 },
    Terminate { display: u64 },
    BindApi { api: u32 },
    MakeCurrent { display: u64, binding: Option<EglBinding> },
    SwapBuffers { display: u64, surface: u64 },
    DestroySurface { display: u64, surface: u64 },
    DestroyContext { display: u64, context: u64 },
}

/// One call, and its answer.
#[allow(inconsistent_fields)]
pub enum EglStep {
    /// In this step the thread was asked for.
    Thread { reply: OwnerThreadIdentity },
    /// In this step EGL was loaded.
    Load { reply: Result<(), Message> },
    /// In this step a display was looked up.
    Display { native: u64, reply: Option<u64> },
    /// In this step something was called that succeeds or fails.
    Call { call: EglCall, reply: Result<(), EglError> },
    /// In this step a text of a display was read.
    Text { display: u64, name: i32, reply: Result<String, EglError> },
    /// In this step a configuration was chosen.
    Config { display: u64, wish: Seq<i32>, reply: Result<Option<u64>, EglError> },
    /// In this step a context was made.
    Context { display: u64, config: u64, wish: Seq<i32>, reply: Result<u64, EglError> },
    /// In this step the surface of a window was made.
    Window { display: u64, config: u64, window: u64, reply: Result<u64, EglError> },
    /// In this step a buffer off the screen was made.
    Pbuffer { display: u64, config: u64, wish: Seq<i32>, reply: Result<u64, EglError> },
    /// In this step a side of a surface was measured.
    Measure { display: u64, surface: u64, side: i32, reply: Result<i32, EglError> },
    /// In this step the current context was asked for.
    CurrentContext { reply: Option<u64> },
    /// In this step the current display was asked for.
    CurrentDisplay { reply: Option<u64> },
    /// In this step the functions of the current context were loaded.
    LoadGl,
    /// In this step the version string of the current context was read.
    GlVersion { reply: String },
    /// In this step the current context was looked at.
    Discovery { stamp: ContextStamp, driver: Seq<char>, steps: Seq<QueryStep> },
    /// In this step a triangle was drawn on the current context.
    Drawing { steps: Seq<WorkStep> },
}

/// Whether the second record begins with the first.
pub open spec fn grows(before: Seq<EglStep>, after: Seq<EglStep>) -> bool {
    before.len() <= after.len() && forall|i: int|
        0 <= i < before.len() ==> before[i] == #[trigger] after[i]
}

/// EGL on one thread, and the contexts that it makes current there.
pub trait EglCalls {
    type Query: NativeGlQuery;

    type Probes: NativeGlProbes;

    type Work: WorkCalls;

    fn current_thread(&mut self) -> OwnerThreadIdentity;

    /// Loads the library of the system.
    fn load_required(&mut self) -> Result<(), Message>;

    fn get_display(&mut self, native: u64) -> Option<u64>;

    /// Does something that succeeds or fails.
    fn call(&mut self, call: EglCall) -> Result<(), EglError>;

    fn query_string(&mut self, display: u64, name: i32) -> Result<String, EglError>;

    fn choose_first_config(&mut self, display: u64, wish: &Vec<i32>) -> Result<
        Option<u64>,
        EglError,
    >;

    fn create_context(&mut self, display: u64, config: u64, wish: &Vec<i32>) -> Result<
        u64,
        EglError,
    >;

    fn create_window_surface(&mut self, display: u64, config: u64, window: u64) -> Result<
        u64,
        EglError,
    >;

    fn create_pbuffer_surface(&mut self, display: u64, config: u64, wish: &Vec<i32>) -> Result<
        u64,
        EglError,
    >;

    fn query_surface(&mut self, display: u64, surface: u64, side: i32) -> Result<i32, EglError>;

    fn get_current_context(&mut self) -> Option<u64>;

    fn get_current_display(&mut self) -> Option<u64>;

    /// Loads the functions of the current context.
    fn load_glow(&mut self);

    /// The version string of the current context.
    fn gl_version(&mut self) -> String;

    /// The questions that the current context answers.
    fn query(&mut self) -> Self::Query;

    /// The operations that can be tried on the current context.
    fn probes(&mut self) -> Self::Probes;

    /// The commands of a drawing on the current context.
    fn work(&mut self) -> Self::Work;
}

/// EGL on one thread, by value.
#[verifier::ext_equal]
pub struct Station {
    pub log: Seq<EglStep>,
    /// How many contexts use each initialized display.
    pub leases: Multiset<u64>,
}

/// A context by value.
#[verifier::ext_equal]
pub struct EglModel {
    pub display: u64,
    pub config: u64,
    pub context: u64,
    pub surface: Option<u64>,
    pub kind: EglSurfaceKind,
    pub version: EglGlesVersion,
    pub stamp: ContextStamp,
    pub snapshot: SnapshotModel,
    pub owner: OwnerThreadIdentity,
    pub lifecycle: GlContextLifecycle,
}

/// The workload of the fixture. At four by four pixels the triangle covers the
/// two pixels in the middle of the second row.
pub open spec fn egl_plan() -> WorkPlan {
    WorkPlan {
        operation: "EGL evidence draw",
        shader_operation: "EGL evidence shader",
        vertex: "#version 300 es\nprecision highp float; void main() { const vec2 p[3]=vec2[3](vec2(-0.6,-0.5),vec2(0.6,-0.5),vec2(0.0,0.0)); gl_Position=vec4(p[gl_VertexID],0.0,1.0); }",
        fragment: "#version 300 es\nprecision highp float; out vec4 o; void main() { o=vec4(48.0/255.0,176.0/255.0,112.0/255.0,1.0); }",
        complaint: "OpenGL ES reported an error while executing the evidence workload",
    }
}

fn evidence_plan() -> (result: WorkPlan)
    ensures
        result == egl_plan(),
{
    WorkPlan {
        operation: "EGL evidence draw",
        shader_operation: "EGL evidence shader",
        vertex: "#version 300 es\nprecision highp float; void main() { const vec2 p[3]=vec2[3](vec2(-0.6,-0.5),vec2(0.6,-0.5),vec2(0.0,0.0)); gl_Position=vec4(p[gl_VertexID],0.0,1.0); }",
        fragment: "#version 300 es\nprecision highp float; out vec4 o; void main() { o=vec4(48.0/255.0,176.0/255.0,112.0/255.0,1.0); }",
        complaint: "OpenGL ES reported an error while executing the evidence workload",
    }
}

/// The size that EGL itself fixed. That of a window is the business of the
/// host.
pub open spec fn known_extent(kind: EglSurfaceKind) -> Option<(u32, u32)> {
    match kind {
        EglSurfaceKind::Pbuffer(size) => Some((size.width, size.height)),
        EglSurfaceKind::Window { .. } => None,
    }
}

/// Whether the picture of a drawable fits into memory.
pub open spec fn picture_fits(kind: EglSurfaceKind) -> bool {
    match kind {
        EglSurfaceKind::Pbuffer(size) => size.width * size.height * 4 <= usize::MAX,
        EglSurfaceKind::Window { .. } => true,
    }
}

impl Station {
    /// The next step, according to a record.
    pub open spec fn next(self, o: Seq<EglStep>) -> EglStep {
        o[self.log.len() as int]
    }

    /// The record after one more step.
    pub open spec fn asked(self, step: EglStep) -> Station {
        Station { log: self.log.push(step), ..self }
    }

    pub open spec fn thread(self, o: Seq<EglStep>) -> (Station, OwnerThreadIdentity) {
        let reply = self.next(o)->Thread_reply;
        (self.asked(EglStep::Thread { reply }), reply)
    }

    /// A call, with the name under which its failure is reported.
    pub open spec fn call(self, call: EglCall, operation: &'static str, o: Seq<EglStep>) -> (
        Station,
        Result<(), EglFailure>,
    ) {
        let reply = self.next(o)->Call_reply;
        (
            self.asked(EglStep::Call { call, reply }),
            match reply {
                Ok(_) => Ok(()),
                Err(error) => Err(EglFailure::Egl { operation, error }),
            },
        )
    }

    /// A call whose failure is not reported.
    pub open spec fn attempt(self, call: EglCall, o: Seq<EglStep>) -> Station {
        self.asked(EglStep::Call { call, reply: self.next(o)->Call_reply })
    }

    /// A display with one more user. It is initialized if it had none.
    pub open spec fn acquire_display(self, native: u64, o: Seq<EglStep>) -> (
        Station,
        Result<u64, EglFailure>,
    ) {
        let loaded = self.next(o)->Load_reply;
        let m1 = self.asked(EglStep::Load { reply: loaded });
        match loaded {
            Err(message) => (m1, Err(EglFailure::Load(message))),
            Ok(_) => {
                let reply = m1.next(o)->Display_reply;
                let m2 = m1.asked(EglStep::Display { native, reply });
                match reply {
                    None => (m2, Err(EglFailure::DisplayUnavailable)),
                    Some(display) => if m2.leases.count(display) > 0 {
                        (Station { leases: m2.leases.insert(display), ..m2 }, Ok(display))
                    } else {
                        let (m3, outcome) = m2.call(
                            EglCall::Initialize { display },
                            "eglInitialize",
                            o,
                        );
                        match outcome {
                            Err(error) => (m3, Err(error)),
                            Ok(_) => (
                                Station { leases: m3.leases.insert(display), ..m3 },
                                Ok(display),
                            ),
                        }
                    },
                }
            },
        }
    }

    /// A display with one user less. It is terminated after the last.
    pub open spec fn release_display(self, display: u64, o: Seq<EglStep>) -> Station {
        if self.leases.count(display) == 0 {
            self
        } else {
            let m1 = Station { leases: self.leases.remove(display), ..self };
            if self.leases.count(display) == 1 {
                m1.attempt(EglCall::Terminate { display }, o)
            } else {
                m1
            }
        }
    }

    /// A text of a display, or nothing where EGL has none.
    pub open spec fn text_or_nothing(self, display: u64, name: i32, o: Seq<EglStep>) -> (
        Station,
        Seq<char>,
    ) {
        let reply = self.next(o)->Text_reply;
        (
            self.asked(EglStep::Text { display, name, reply }),
            match reply {
                Ok(value) => value@,
                Err(_) => Seq::empty(),
            },
        )
    }

    /// What EGL says of itself.
    pub open spec fn driver_identity(self, display: u64, o: Seq<EglStep>) -> (Station, Seq<char>) {
        let (m1, vendor) = self.text_or_nothing(display, egl::VENDOR, o);
        let (m2, version) = m1.text_or_nothing(display, egl::VERSION, o);
        (m2, egl::egl_identity(vendor, version))
    }

    /// The record of the current context. What was asked for it is noted, and
    /// nothing else was asked.
    pub open spec fn discovered(self, stamp: ContextStamp, driver: Seq<char>, o: Seq<EglStep>) -> (
        Station,
        Result<SnapshotModel, EglFailure>,
    ) {
        let (seen, outcome) = (Inspection { log: Seq::empty() }).discover(
            stamp,
            driver,
            self.next(o)->Discovery_steps,
        );
        (
            self.asked(EglStep::Discovery { stamp, driver, steps: seen.log }),
            match outcome {
                Ok(snapshot) => Ok(snapshot),
                Err(reason) => Err(EglFailure::Discovery(reason)),
            },
        )
    }

    /// What is found out about a new context that is current.
    pub open spec fn prepared(
        self,
        display: u64,
        stamp: ContextStamp,
        kind: EglSurfaceKind,
        version: EglGlesVersion,
        o: Seq<EglStep>,
    ) -> (Station, Result<SnapshotModel, EglFailure>) {
        let m1 = self.asked(EglStep::LoadGl);
        let observed = m1.next(o)->GlVersion_reply;
        let m2 = m1.asked(EglStep::GlVersion { reply: observed });
        let found = egl::named_version(observed@);
        if !(found is Some && found->0.spec_satisfies(version)) {
            (
                m2,
                Err(
                    EglFailure::BelowRequestedProfile {
                        requested: version,
                        observed: Message::Owned(Arc::new(observed)),
                    },
                ),
            )
        } else {
            let (m3, driver) = m2.driver_identity(display, o);
            let (m4, outcome) = m3.discovered(stamp, driver, o);
            match outcome {
                Err(error) => (m4, Err(error)),
                Ok(snapshot) => {
                    let fits = match known_extent(kind) {
                        Some(extent) => egl::extent_check(
                            snapshot.limits.max_viewport_dimensions,
                            extent,
                        ),
                        None => Ok(()),
                    };
                    match fits {
                        Err(error) => (m4, Err(error)),
                        Ok(_) => (m4, Ok(snapshot)),
                    }
                },
            }
        }
    }

    /// A surface of a kind.
    pub open spec fn create_surface(
        self,
        display: u64,
        config: u64,
        kind: EglSurfaceKind,
        o: Seq<EglStep>,
    ) -> (Station, Result<u64, EglFailure>) {
        match kind {
            EglSurfaceKind::Window { native_window } => {
                let reply = self.next(o)->Window_reply;
                (
                    self.asked(
                        EglStep::Window { display, config, window: native_window, reply },
                    ),
                    match reply {
                        Ok(surface) => Ok(surface),
                        Err(error) => Err(
                            EglFailure::Egl { operation: "eglCreateWindowSurface", error },
                        ),
                    },
                )
            },
            EglSurfaceKind::Pbuffer(size) => match size.spec_checked() {
                Err(error) => (self, Err(error)),
                Ok(_) => self.create_pbuffer(display, config, size, o),
            },
        }
    }

    /// A buffer off the screen.
    pub open spec fn create_pbuffer(
        self,
        display: u64,
        config: u64,
        size: EglPbufferSize,
        o: Seq<EglStep>,
    ) -> (Station, Result<u64, EglFailure>) {
        let reply = self.next(o)->Pbuffer_reply;
        (
            self.asked(
                EglStep::Pbuffer { display, config, wish: egl::pbuffer_wish(size), reply },
            ),
            match reply {
                Ok(surface) => Ok(surface),
                Err(error) => Err(EglFailure::Egl { operation: "eglCreatePbufferSurface", error }),
            },
        )
    }

    /// The current context with its surface, looked at. If that fails, both are
    /// destroyed.
    pub open spec fn finished(
        self,
        display: u64,
        config: u64,
        handle: u64,
        surface: u64,
        stamp: ContextStamp,
        kind: EglSurfaceKind,
        version: EglGlesVersion,
        o: Seq<EglStep>,
    ) -> (Station, Result<EglModel, EglFailure>) {
        let (m1, current) = self.call(
            EglCall::MakeCurrent {
                display,
                binding: Some(EglBinding { surface, context: handle }),
            },
            "eglMakeCurrent",
            o,
        );
        match current {
            Err(error) => (m1.withdrawn(display, handle, surface, o), Err(error)),
            Ok(_) => {
                let (m2, outcome) = m1.prepared(display, stamp, kind, version, o);
                match outcome {
                    Err(error) => (m2.withdrawn(display, handle, surface, o), Err(error)),
                    Ok(snapshot) => {
                        let (m3, owner) = m2.thread(o);
                        (
                            m3,
                            Ok(
                                EglModel {
                                    display,
                                    config,
                                    context: handle,
                                    surface: Some(surface),
                                    kind,
                                    version,
                                    stamp,
                                    snapshot,
                                    owner,
                                    lifecycle: GlContextLifecycle::Active,
                                },
                            ),
                        )
                    },
                }
            },
        }
    }

    /// Without the surface and the context of a failed construction.
    pub open spec fn withdrawn(self, display: u64, handle: u64, surface: u64, o: Seq<EglStep>) -> Station {
        self.attempt(EglCall::DestroySurface { display, surface }, o).attempt(
            EglCall::DestroyContext { display, context: handle },
            o,
        )
    }

    /// A context on a display, with the extensions that EGL lists.
    pub open spec fn with_extensions(
        self,
        display: u64,
        extensions: Seq<char>,
        stamp: ContextStamp,
        kind: EglSurfaceKind,
        version: EglGlesVersion,
        o: Seq<EglStep>,
    ) -> (Station, Result<EglModel, EglFailure>) {
        let exact = text::spec_has_word(extensions, "EGL_KHR_create_context"@);
        if version.spec_minor() != 0 && !exact {
            (self, Err(EglFailure::ExactVersionUnavailable(version)))
        } else {
            let config = self.next(o)->Config_reply;
            let m1 = self.asked(
                EglStep::Config { display, wish: egl::config_wish(kind), reply: config },
            );
            match config {
                Err(error) => (m1, Err(EglFailure::Egl { operation: "eglChooseConfig", error })),
                Ok(None) => (m1, Err(EglFailure::ConfigUnavailable)),
                Ok(Some(config)) => {
                    let wish = egl::context_wish(version, exact);
                    let made = m1.next(o)->Context_reply;
                    let m2 = m1.asked(EglStep::Context { display, config, wish, reply: made });
                    match made {
                        Err(error) => (
                            m2,
                            Err(EglFailure::Egl { operation: "eglCreateContext", error }),
                        ),
                        Ok(handle) => {
                            let (m3, surface) = m2.create_surface(display, config, kind, o);
                            match surface {
                                Err(error) => (
                                    m3.attempt(
                                        EglCall::DestroyContext { display, context: handle },
                                        o,
                                    ),
                                    Err(error),
                                ),
                                Ok(surface) => m3.finished(
                                    display,
                                    config,
                                    handle,
                                    surface,
                                    stamp,
                                    kind,
                                    version,
                                    o,
                                ),
                            }
                        },
                    }
                },
            }
        }
    }

    /// A context on a display that is in use.
    pub open spec fn on_display(
        self,
        display: u64,
        stamp: ContextStamp,
        kind: EglSurfaceKind,
        version: EglGlesVersion,
        o: Seq<EglStep>,
    ) -> (Station, Result<EglModel, EglFailure>) {
        let (m1, bound) = self.call(EglCall::BindApi { api: OPENGL_ES_API }, "eglBindAPI", o);
        match bound {
            Err(error) => (m1, Err(error)),
            Ok(_) => {
                let reply = m1.next(o)->Text_reply;
                let m2 = m1.asked(EglStep::Text { display, name: egl::EXTENSIONS, reply });
                match reply {
                    Err(error) => (
                        m2,
                        Err(
                            EglFailure::Egl { operation: "eglQueryString(EGL_EXTENSIONS)", error },
                        ),
                    ),
                    Ok(extensions) => m2.with_extensions(
                        display,
                        extensions@,
                        stamp,
                        kind,
                        version,
                        o,
                    ),
                }
            },
        }
    }

    /// A new context.
    pub open spec fn new_inner(
        self,
        stamp: ContextStamp,
        native: u64,
        kind: EglSurfaceKind,
        version: EglGlesVersion,
        o: Seq<EglStep>,
    ) -> (Station, Result<EglModel, EglFailure>) {
        let (m1, lease) = self.acquire_display(native, o);
        match lease {
            Err(error) => (m1, Err(error)),
            Ok(display) => {
                let (m2, made) = m1.on_display(display, stamp, kind, version, o);
                match made {
                    Err(error) => (m2.release_display(display, o), Err(error)),
                    Ok(model) => (m2, Ok(model)),
                }
            },
        }
    }

    /// A new context on a window of the host.
    pub open spec fn new_window(
        self,
        stamp: ContextStamp,
        display: HostDisplay,
        window: HostWindow,
        version: EglGlesVersion,
        o: Seq<EglStep>,
    ) -> (Station, Result<EglModel, EglFailure>) {
        match egl::native_pair(display, window) {
            Err(error) => (self, Err(error)),
            Ok((native, native_window)) => self.new_inner(
                stamp,
                native,
                EglSurfaceKind::Window { native_window },
                version,
                o,
            ),
        }
    }

    /// A new context off the screen.
    pub open spec fn new_pbuffer(
        self,
        stamp: ContextStamp,
        size: EglPbufferSize,
        version: EglGlesVersion,
        o: Seq<EglStep>,
    ) -> (Station, Result<EglModel, EglFailure>) {
        match size.spec_checked() {
            Err(error) => (self, Err(error)),
            Ok(_) => self.new_inner(
                stamp,
                DEFAULT_DISPLAY,
                EglSurfaceKind::Pbuffer(size),
                version,
                o,
            ),
        }
    }

    /// A new context of the highest version that can be had. If none can, the
    /// last failure counts.
    pub open spec fn highest(self, stamp: ContextStamp, kind: EglSurfaceKind, o: Seq<EglStep>) -> (
        Station,
        Result<EglModel, EglFailure>,
    ) {
        let (m1, first) = self.of_version(stamp, kind, EglGlesVersion::V3_2, o);
        if first is Ok {
            (m1, first)
        } else {
            let (m2, second) = m1.of_version(stamp, kind, EglGlesVersion::V3_1, o);
            if second is Ok {
                (m2, second)
            } else {
                m2.of_version(stamp, kind, EglGlesVersion::V3_0, o)
            }
        }
    }

    /// A new context of a version, on a window of Android or off the screen.
    pub open spec fn of_version(
        self,
        stamp: ContextStamp,
        kind: EglSurfaceKind,
        version: EglGlesVersion,
        o: Seq<EglStep>,
    ) -> (Station, Result<EglModel, EglFailure>) {
        match kind {
            EglSurfaceKind::Window { native_window } => self.new_window(
                stamp,
                HostDisplay::Android,
                HostWindow::AndroidNdk { window: native_window },
                version,
                o,
            ),
            EglSurfaceKind::Pbuffer(size) => self.new_pbuffer(stamp, size, version, o),
        }
    }

    /// Whether the thread may use a context.
    pub open spec fn owned(self, c: EglModel, operation: &'static str, o: Seq<EglStep>) -> (
        Station,
        Result<(), EglFailure>,
    ) {
        let (m1, actual) = self.thread(o);
        match context::owned_by(c.owner, actual, operation) {
            Ok(_) => (m1, Ok(())),
            Err(error) => (m1, Err(EglFailure::Gl(error))),
        }
    }

    /// Makes a context current.
    pub open spec fn make_current(self, c: EglModel, o: Seq<EglStep>) -> (
        Station,
        EglModel,
        Result<(), EglFailure>,
    ) {
        let (m1, owner) = self.owned(c, "eglMakeCurrent", o);
        if owner is Err {
            (m1, c, owner)
        } else if c.usable("eglMakeCurrent") is Err {
            (m1, c, c.usable("eglMakeCurrent"))
        } else {
            match c.surface {
                None => (
                    m1,
                    c,
                    Err(
                        EglFailure::Gl(
                            GlError::InvalidLifecycle {
                                operation: "eglMakeCurrent",
                                lifecycle: c.lifecycle,
                            },
                        ),
                    ),
                ),
                Some(surface) => {
                    let (m2, bound) = m1.call(
                        EglCall::MakeCurrent {
                            display: c.display,
                            binding: Some(EglBinding { surface, context: c.context }),
                        },
                        "eglMakeCurrent",
                        o,
                    );
                    match bound {
                        Err(error) => (m2, c, Err(error)),
                        Ok(_) => (
                            m2,
                            EglModel { lifecycle: GlContextLifecycle::Active, ..c },
                            Ok(()),
                        ),
                    }
                },
            }
        }
    }

    /// Shows the drawable of a window.
    pub open spec fn present(self, c: EglModel, o: Seq<EglStep>) -> (
        Station,
        EglModel,
        Result<(), EglFailure>,
    ) {
        let (m1, owner) = self.owned(c, "eglSwapBuffers", o);
        if owner is Err {
            (m1, c, owner)
        } else if !(c.lifecycle is Active) {
            (
                m1,
                c,
                Err(
                    EglFailure::Gl(
                        if c.lifecycle is Disposed {
                            GlError::Disposed { operation: "eglSwapBuffers" }
                        } else {
                            GlError::InvalidLifecycle {
                                operation: "eglSwapBuffers",
                                lifecycle: c.lifecycle,
                            }
                        },
                    ),
                ),
            )
        } else {
            let (m2, c2, bound) = m1.make_current(c, o);
            if bound is Err {
                (m2, c2, bound)
            } else if c2.kind is Pbuffer {
                (
                    m2,
                    c2,
                    Err(
                        EglFailure::Gl(
                            GlError::Unsupported {
                                operation: "eglSwapBuffers",
                                reason: "an EGL pbuffer is not presentable",
                            },
                        ),
                    ),
                )
            } else {
                let (m3, shown) = m2.call(
                    EglCall::SwapBuffers { display: c2.display, surface: c2.surface->0 },
                    "eglSwapBuffers",
                    o,
                );
                (m3, c2, shown)
            }
        }
    }

    /// Makes nothing current, if this context is.
    pub open spec fn detach_self_if_current(self, c: EglModel, o: Seq<EglStep>) -> (
        Station,
        Result<(), EglFailure>,
    ) {
        let context = self.next(o)->CurrentContext_reply;
        let m1 = self.asked(EglStep::CurrentContext { reply: context });
        let display = m1.next(o)->CurrentDisplay_reply;
        let m2 = m1.asked(EglStep::CurrentDisplay { reply: display });
        if egl::is_self(context, display, c.context, c.display) {
            m2.call(
                EglCall::MakeCurrent { display: c.display, binding: None },
                "eglMakeCurrent",
                o,
            )
        } else {
            (m2, Ok(()))
        }
    }

    /// Detaches a context from its thread.
    pub open spec fn suspend(self, c: EglModel, o: Seq<EglStep>) -> (
        Station,
        EglModel,
        Result<(), EglFailure>,
    ) {
        let (m1, owner) = self.owned(c, "eglMakeCurrent", o);
        if owner is Err {
            (m1, c, owner)
        } else if c.usable("eglMakeCurrent") is Err {
            (m1, c, c.usable("eglMakeCurrent"))
        } else {
            let (m2, detached) = m1.detach_self_if_current(c, o);
            match detached {
                Err(error) => (m2, c, Err(error)),
                Ok(_) => (
                    m2,
                    EglModel { lifecycle: GlContextLifecycle::Suspended, ..c },
                    Ok(()),
                ),
            }
        }
    }

    /// Gives a buffer off the screen another size.
    pub open spec fn resize(self, c: EglModel, size: EglPbufferSize, o: Seq<EglStep>) -> (
        Station,
        EglModel,
        Result<(), EglFailure>,
    ) {
        let (m1, owner) = self.owned(c, "eglResize", o);
        if owner is Err {
            (m1, c, owner)
        } else if c.kind is Window {
            (m1, c, Ok(()))
        } else {
            let fits = egl::extent_check(
                c.snapshot.limits.max_viewport_dimensions,
                (size.width, size.height),
            );
            match size.spec_checked() {
                Err(error) => (m1, c, Err(error)),
                Ok(_) => if fits is Err {
                    (m1, c, fits)
                } else {
                    m1.replace_surface(c, size, o)
                },
            }
        }
    }

    /// Replaces a buffer by one of a valid size. The new one is there before the
    /// old one goes.
    pub open spec fn replace_surface(self, c: EglModel, size: EglPbufferSize, o: Seq<EglStep>) -> (
        Station,
        EglModel,
        Result<(), EglFailure>,
    ) {
        let (m2, c2, bound) = self.make_current(c, o);
        if bound is Err {
            (m2, c2, bound)
        } else {
            let (m3, c3, suspended) = m2.suspend(c2, o);
            if suspended is Err {
                (m3, c3, suspended)
            } else {
                let (m4, made) = m3.create_pbuffer(c3.display, c3.config, size, o);
                match made {
                    Err(error) => (m4, c3, Err(error)),
                    Ok(surface) => {
                        let c4 = EglModel {
                            surface: Some(surface),
                            kind: EglSurfaceKind::Pbuffer(size),
                            ..c3
                        };
                        let (m5, released) = m4.call(
                            EglCall::DestroySurface {
                                display: c3.display,
                                surface: c3.surface->0,
                            },
                            "eglDestroySurface",
                            o,
                        );
                        let (m6, c6, resumed) = m5.make_current(c4, o);
                        if resumed is Err {
                            (m6, c6, resumed)
                        } else {
                            (m6, c6, released)
                        }
                    },
                }
            }
        }
    }

    /// Makes a context current and loads its functions.
    pub open spec fn load_glow(self, c: EglModel, o: Seq<EglStep>) -> (
        Station,
        EglModel,
        Result<(), EglFailure>,
    ) {
        let (m1, c1, bound) = self.make_current(c, o);
        if bound is Err {
            (m1, c1, bound)
        } else {
            (m1.asked(EglStep::LoadGl), c1, Ok(()))
        }
    }

    /// Makes a context ready for an operation on it.
    pub open spec fn with_current(self, c: EglModel, operation: &'static str, o: Seq<EglStep>) -> (
        Station,
        EglModel,
        Result<(), EglFailure>,
    ) {
        let (m1, owner) = self.owned(c, operation, o);
        if owner is Err {
            (m1, c, owner)
        } else {
            m1.load_glow(c, o)
        }
    }

    /// The record of a context, for its thread.
    pub open spec fn discover(self, c: EglModel, o: Seq<EglStep>) -> (
        Station,
        Result<(), EglFailure>,
    ) {
        let (m1, owner) = self.owned(c, "discover EGL context", o);
        if owner is Err {
            (m1, owner)
        } else if c.lifecycle is Disposed {
            (m1, Err(EglFailure::Gl(GlError::Disposed { operation: "discover EGL context" })))
        } else {
            (m1, Ok(()))
        }
    }

    /// Draws the triangle of the fixture. What was done for it is noted, and
    /// nothing else was done.
    pub open spec fn draw_evidence(
        self,
        c: EglModel,
        draws: u32,
        read_color: bool,
        o: Seq<EglStep>,
    ) -> (Station, EglModel, Result<Option<Vec<u8>>, EglFailure>) {
        let operation = "EGL evidence draw";
        match known_extent(c.kind) {
            None => (
                self,
                c,
                Err(
                    EglFailure::Gl(
                        GlError::Unsupported {
                            operation,
                            reason: "fixture evidence is defined only for owned pbuffers",
                        },
                    ),
                ),
            ),
            Some(size) => if drawable::spec_has_zero(size) || draws == 0 {
                (
                    self,
                    c,
                    Err(
                        EglFailure::Gl(
                            GlError::Validation {
                                operation,
                                message: Message::Text(
                                    "evidence draw requires a nonzero extent and draw count",
                                ),
                            },
                        ),
                    ),
                )
            } else {
                let (m1, c1, ready) = self.with_current(c, operation, o);
                match ready {
                    Err(error) => (m1, c1, Err(error)),
                    Ok(_) => {
                        let (work, outcome) = (Work { log: Seq::empty() }).draw(
                            egl_plan(),
                            size,
                            draws,
                            read_color,
                            m1.next(o)->Drawing_steps,
                        );
                        (
                            m1.asked(EglStep::Drawing { steps: work.log }),
                            c1,
                            match outcome {
                                Ok(picture) => Ok(picture),
                                Err(error) => Err(EglFailure::Gl(error)),
                            },
                        )
                    },
                }
            },
        }
    }

    /// Destroys the surface of a context, if it has one.
    pub open spec fn drop_surface(self, c: EglModel, o: Seq<EglStep>) -> (
        Station,
        Result<(), EglFailure>,
    ) {
        match c.surface {
            None => (self, Ok(())),
            Some(surface) => self.call(
                EglCall::DestroySurface { display: c.display, surface },
                "eglDestroySurface",
                o,
            ),
        }
    }

    /// Ends a context. The first failure is reported.
    pub open spec fn dispose(self, c: EglModel, o: Seq<EglStep>) -> (
        Station,
        EglModel,
        Result<(), EglFailure>,
    ) {
        let (m1, owner) = self.owned(c, "eglDestroyContext", o);
        if owner is Err {
            (m1, c, owner)
        } else if c.lifecycle is Disposed {
            (m1, c, Ok(()))
        } else {
            let (m2, detached) = m1.detach_self_if_current(c, o);
            match detached {
                Err(error) => (m2, c, Err(error)),
                Ok(_) => {
                    let (m3, first) = m2.drop_surface(c, o);
                    let (m4, second) = m3.call(
                        EglCall::DestroyContext { display: c.display, context: c.context },
                        "eglDestroyContext",
                        o,
                    );
                    (
                        m4,
                        EglModel {
                            surface: None,
                            lifecycle: GlContextLifecycle::Disposed,
                            ..c
                        },
                        if first is Err {
                            first
                        } else {
                            second
                        },
                    )
                },
            }
        }
    }

    /// Gives up a context and its use of the display. Another thread than its
    /// owner destroys nothing.
    pub open spec fn release(self, c: EglModel, o: Seq<EglStep>) -> Station {
        if c.lifecycle is Disposed {
            self.release_display(c.display, o)
        } else {
            let (m1, actual) = self.thread(o);
            if actual == c.owner {
                m1.dispose(c, o).0.release_display(c.display, o)
            } else {
                m1.release_display(c.display, o)
            }
        }
    }
}

impl EglModel {
    /// What is lost or disposed of cannot be used again.
    pub open spec fn usable(self, operation: &'static str) -> Result<(), EglFailure> {
        match self.lifecycle {
            GlContextLifecycle::Lost => Err(EglFailure::Gl(GlError::ContextLost { operation })),
            GlContextLifecycle::Disposed => Err(EglFailure::Gl(GlError::Disposed { operation })),
            _ => Ok(()),
        }
    }

    /// A context that takes commands has a surface.
    pub open spec fn wf(self) -> bool {
        self.lifecycle is Active ==> self.surface is Some
    }
}

/// EGL on one thread, with the record of what it was asked.
pub struct EglStation<E> {
    link: EglRecorder<E>,
    /// The displays in use, each as often as it is used.
    leases: Vec<u64>,
}

impl<E> View for EglStation<E> {
    type V = Station;

    closed spec fn view(&self) -> Station {
        Station { log: self.link@, leases: self.leases@.to_multiset() }
    }
}

/// A context of EGL, its surface, and its share in a display.
#[derive(Debug)]
pub struct EglGlesContext {
    pub display: u64,
    pub config: u64,
    pub context: u64,
    pub surface: Option<u64>,
    pub kind: EglSurfaceKind,
    pub version: EglGlesVersion,
    pub stamp: ContextStamp,
    pub snapshot: GlDiscoverySnapshot,
    pub owner: OwnerThreadIdentity,
    pub lifecycle: GlContextLifecycle,
}

impl View for EglGlesContext {
    type V = EglModel;

    open spec fn view(&self) -> EglModel {
        EglModel {
            display: self.display,
            config: self.config,
            context: self.context,
            surface: self.surface,
            kind: self.kind,
            version: self.version,
            stamp: self.stamp,
            snapshot: self.snapshot@,
            owner: self.owner,
            lifecycle: self.lifecycle,
        }
    }
}

/// A new context by value.
pub open spec fn made(result: Result<EglGlesContext, EglProviderError>) -> Result<
    EglModel,
    EglFailure,
> {
    match result {
        Ok(context) => Ok(context@),
        Err(error) => Err(error@),
    }
}

/// A record by value.
pub open spec fn recorded(result: Result<GlDiscoverySnapshot, EglProviderError>) -> Result<
    SnapshotModel,
    EglFailure,
> {
    match result {
        Ok(snapshot) => Ok(snapshot@),
        Err(error) => Err(error@),
    }
}

impl<E: EglCalls> EglStation<E> {
    pub fn new(calls: E) -> (result: Self)
        ensures
            result@.log == Seq::<EglStep>::empty(),
            result@.leases == Multiset::<u64>::empty(),
    {
        broadcast use vstd::seq_lib::group_to_multiset_ensures;

        let result = EglStation { link: EglRecorder::new(calls), leases: Vec::new() };
        assert(result@.leases =~= Multiset::<u64>::empty());
        result
    }

    /// Every state of the record is sound.
    pub open spec fn wf(&self) -> bool {
        true
    }

    fn thread(&mut self) -> (reply: OwnerThreadIdentity)
        ensures
            final(self)@ == old(self)@.asked(EglStep::Thread { reply }),
    {
        let reply = self.link.current_thread();
        reply
    }

    fn attempt(&mut self, call: EglCall) -> (reply: Result<(), EglError>)
        ensures
            final(self)@ == old(self)@.asked(EglStep::Call { call, reply }),
    {
        let reply = self.link.call(call);
        reply
    }

    fn call(&mut self, call: EglCall, operation: &'static str) -> (result: Result<
        (),
        EglProviderError,
    >)
        requires
            old(self).wf(),
        ensures
            final(self).wf(),
            grows(old(self)@.log, final(self)@.log),
            forall|o: Seq<EglStep>|
                grows(final(self)@.log, o) ==> #[trigger] old(self)@.call(call, operation, o) == (
                    final(self)@,
                    egl::plain(result),
                ),
    {
        match self.attempt(call) {
            Ok(()) => Ok(()),
            Err(error) => Err(EglProviderError::Egl { operation, error }),
        }
    }

    fn text(&mut self, display: u64, name: i32) -> (reply: Result<String, EglError>)
        ensures
            final(self)@ == old(self)@.asked(EglStep::Text { display, name, reply }),
    {
        let reply = self.link.query_string(display, name);
        reply
    }

    fn is_leased(&self, display: u64) -> (result: bool)
        ensures
            result == (self@.leases.count(display) > 0),
    {
        broadcast use vstd::seq_lib::group_to_multiset_ensures;

        let mut at: usize = 0;
        while at < self.leases.len()
            invariant
                at <= self.leases@.len(),
                forall|i: int| 0 <= i < at ==> #[trigger] self.leases@[i] != display,
            decreases self.leases@.len() - at,
        {
            if self.leases[at] == display {
                proof {
                    broadcast use vstd::seq_lib::group_to_multiset_ensures;

                    assert(self.leases@.contains(display));
                    assert(self.leases@.to_multiset().contains(display));
                }
                return true;
            }
            at += 1;
        }
        proof {
            assert(!self.leases@.contains(display));
            assert(!self.leases@.to_multiset().contains(display));
        }
        false
    }

    fn lease(&mut self, display: u64)
        ensures
            final(self)@ == (Station { leases: old(self)@.leases.insert(display), ..old(self)@ }),
    {
        broadcast use vstd::seq_lib::group_to_multiset_ensures;

        self.leases.push(display);
        assert(self@.leases =~= old(self)@.leases.insert(display));
    }

    fn unlease(&mut self, display: u64)
        ensures
            final(self)@ == (Station { leases: old(self)@.leases.remove(display), ..old(self)@ }),
    {
        broadcast use vstd::seq_lib::group_to_multiset_ensures;

        let mut at: usize = 0;
        while at < self.leases.len()
            invariant
                *self == *old(self),
                at <= self.leases@.len(),
                forall|i: int| 0 <= i < at ==> #[trigger] self.leases@[i] != display,
            decreases self.leases@.len() - at,
        {
            if self.leases[at] == display {
                let ghost before = self.leases@;
                self.leases.remove(at);
                proof {
                    broadcast use vstd::seq_lib::group_to_multiset_ensures;

                    assert(self.leases@ == before.remove(at as int));
                    assert(self@.leases =~= old(self)@.leases.remove(display));
                }
                return;
            }
            at += 1;
        }
        proof {
            assert(!self.leases@.contains(display));
            assert(self@.leases.count(display) == 0);
            assert(old(self)@.leases.remove(display) =~= old(self)@.leases);
        }
    }

    /// A display with one more user. It is initialized if it had none.
    pub fn acquire_display(&mut self, native: u64) -> (result: Result<u64, EglProviderError>)
        requires
            old(self).wf(),
        ensures
            final(self).wf(),
            grows(old(self)@.log, final(self)@.log),
            forall|o: Seq<EglStep>|
                grows(final(self)@.log, o) ==> #[trigger] old(self)@.acquire_display(native, o) == (
                    final(self)@,
                    egl::plain(result),
                ),
    {
        let loaded = self.link.load_required();
        match loaded {
            Err(message) => {
                return Err(EglProviderError::Load(message));
            },
            Ok(()) => {},
        }
        let reply = self.link.get_display(native);
        let display = match reply {
            None => {
                return Err(EglProviderError::DisplayUnavailable);
            },
            Some(display) => display,
        };
        if !self.is_leased(display) {
            match self.call(EglCall::Initialize { display }, "eglInitialize") {
                Ok(()) => {},
                Err(error) => {
                    return Err(error);
                },
            }
        }
        self.lease(display);
        Ok(display)
    }

    /// A display with one user less. It is terminated after the last.
    pub fn release_display(&mut self, display: u64)
        ensures
            grows(old(self)@.log, final(self)@.log),
            forall|o: Seq<EglStep>|
                grows(final(self)@.log, o) ==> #[trigger] old(self)@.release_display(display, o)
                    == final(self)@,
    {
        if !self.is_leased(display) {
            return;
        }
        self.unlease(display);
        if !self.is_leased(display) {
            let _ = self.attempt(EglCall::Terminate { display });
        }
    }

    fn text_or_nothing(&mut self, display: u64, name: i32) -> (result: String)
        ensures
            grows(old(self)@.log, final(self)@.log),
            forall|o: Seq<EglStep>|
                grows(final(self)@.log, o) ==> #[trigger] old(self)@.text_or_nothing(
                    display,
                    name,
                    o,
                ) == (final(self)@, result@),
    {
        match self.text(display, name) {
            Ok(value) => value,
            Err(_) => {
                proof {
                    reveal_strlit("");
                    assert(""@ =~= Seq::<char>::empty());
                }
                "".to_owned()
            },
        }
    }

    /// What EGL says of itself.
    pub fn egl_driver_identity(&mut self, display: u64) -> (result: String)
        ensures
            grows(old(self)@.log, final(self)@.log),
            forall|o: Seq<EglStep>|
                grows(final(self)@.log, o) ==> #[trigger] old(self)@.driver_identity(display, o)
                    == (final(self)@, result@),
    {
        let vendor = self.text_or_nothing(display, egl::VENDOR);
        let version = self.text_or_nothing(display, egl::VERSION);
        compose_egl_driver_identity(vendor.as_str(), version.as_str())
    }

    fn discovered(&mut self, stamp: ContextStamp, driver: &str) -> (result: Result<
        GlDiscoverySnapshot,
        EglProviderError,
    >)
        ensures
            result is Ok ==> result->Ok_0.wf(),
            grows(old(self)@.log, final(self)@.log),
            forall|o: Seq<EglStep>|
                grows(final(self)@.log, o) ==> #[trigger] old(self)@.discovered(stamp, driver@, o)
                    == (final(self)@, recorded(result)),
    {
        let outcome = self.link.discover(stamp, driver);
        match outcome {
            Ok(snapshot) => Ok(snapshot),
            Err(reason) => Err(EglProviderError::Discovery(reason)),
        }
    }

    fn prepared(
        &mut self,
        display: u64,
        stamp: ContextStamp,
        kind: EglSurfaceKind,
        version: EglGlesVersion,
    ) -> (result: Result<GlDiscoverySnapshot, EglProviderError>)
        ensures
            result is Ok ==> result->Ok_0.wf(),
            grows(old(self)@.log, final(self)@.log),
            forall|o: Seq<EglStep>|
                grows(final(self)@.log, o) ==> #[trigger] old(self)@.prepared(
                    display,
                    stamp,
                    kind,
                    version,
                    o,
                ) == (final(self)@, recorded(result)),
    {
        self.link.load_glow();
        let observed = self.link.gl_version();
        let enough = match parse_gles_version(observed.as_str()) {
            Some(found) => found.satisfies(version),
            None => false,
        };
        if !enough {
            return Err(
                EglProviderError::BelowRequestedProfile {
                    requested: version,
                    observed: Message::owned(observed),
                },
            );
        }
        let driver = self.egl_driver_identity(display);
        let snapshot = match self.discovered(stamp, driver.as_str()) {
            Ok(value) => value,
            Err(error) => {
                return Err(error);
            },
        };
        match kind {
            EglSurfaceKind::Pbuffer(size) => match check_drawable_extent(
                snapshot.limits.max_viewport_dimensions,
                (size.width, size.height),
            ) {
                Ok(()) => Ok(snapshot),
                Err(error) => Err(error),
            },
            EglSurfaceKind::Window { .. } => Ok(snapshot),
        }
    }

    fn create_pbuffer(&mut self, display: u64, config: u64, size: EglPbufferSize, wish: &Vec<i32>) -> (
        result: Result<u64, EglProviderError>)
        requires
            old(self).wf(),
            wish@ == egl::pbuffer_wish(size),
        ensures
            final(self).wf(),
            grows(old(self)@.log, final(self)@.log),
            forall|o: Seq<EglStep>|
                grows(final(self)@.log, o) ==> #[trigger] old(self)@.create_pbuffer(display, config, size, o) == (
                    final(self)@,
                    egl::plain(result),
                ),
    {
        let reply = self.link.create_pbuffer_surface(display, config, wish);
        match reply {
            Ok(surface) => Ok(surface),
            Err(error) => Err(
                EglProviderError::Egl { operation: "eglCreatePbufferSurface", error },
            ),
        }
    }

    /// A surface of a kind.
    pub fn create_surface(&mut self, display: u64, config: u64, kind: EglSurfaceKind) -> (result:
        Result<u64, EglProviderError>)
        requires
            old(self).wf(),
        ensures
            final(self).wf(),
            grows(old(self)@.log, final(self)@.log),
            forall|o: Seq<EglStep>|
                grows(final(self)@.log, o) ==> #[trigger] old(self)@.create_surface(display, config, kind, o) == (
                    final(self)@,
                    egl::plain(result),
                ),
    {
        match kind {
            EglSurfaceKind::Window { native_window } => {
                let reply = self.link.create_window_surface(display, config, native_window);
                match reply {
                    Ok(surface) => Ok(surface),
                    Err(error) => Err(
                        EglProviderError::Egl { operation: "eglCreateWindowSurface", error },
                    ),
                }
            },
            EglSurfaceKind::Pbuffer(size) => {
                let wish = match pbuffer_attributes(size) {
                    Ok(value) => value,
                    Err(error) => {
                        return Err(error);
                    },
                };
                self.create_pbuffer(display, config, size, &wish)
            },
        }
    }

    /// A side of a surface.
    pub fn measure(&mut self, display: u64, surface: u64, side: i32, operation: &'static str) -> (
        result: Result<i32, EglProviderError>)
        ensures
            grows(old(self)@.log, final(self)@.log),
            forall|o: Seq<EglStep>|
                grows(final(self)@.log, o) ==> #[trigger] old(self)@.measured(
                    display,
                    surface,
                    side,
                    operation,
                    o,
                ) == (final(self)@, egl::plain(result)),
    {
        let reply = self.link.query_surface(display, surface, side);
        match reply {
            Ok(length) => Ok(length),
            Err(error) => Err(EglProviderError::Egl { operation, error }),
        }
    }

    fn withdrawn(&mut self, display: u64, handle: u64, surface: u64)
        ensures
            grows(old(self)@.log, final(self)@.log),
            forall|o: Seq<EglStep>|
                grows(final(self)@.log, o) ==> #[trigger] old(self)@.withdrawn(
                    display,
                    handle,
                    surface,
                    o,
                ) == final(self)@,
    {
        let _ = self.attempt(EglCall::DestroySurface { display, surface });
        let _ = self.attempt(EglCall::DestroyContext { display, context: handle });
    }

    fn finished(
        &mut self,
        display: u64,
        config: u64,
        handle: u64,
        surface: u64,
        stamp: ContextStamp,
        kind: EglSurfaceKind,
        version: EglGlesVersion,
    ) -> (result: Result<EglGlesContext, EglProviderError>)
        ensures
            result is Ok ==> result->Ok_0.wf(),
            grows(old(self)@.log, final(self)@.log),
            forall|o: Seq<EglStep>|
                grows(final(self)@.log, o) ==> #[trigger] old(self)@.finished(display, config, handle, surface, stamp, kind, version, o) == (
                    final(self)@,
                    made(result),
                ),
    {
        match self.call(
            EglCall::MakeCurrent {
                display,
                binding: Some(EglBinding { surface, context: handle }),
            },
            "eglMakeCurrent",
        ) {
            Ok(()) => {},
            Err(error) => {
                self.withdrawn(display, handle, surface);
                return Err(error);
            },
        }
        match self.prepared(display, stamp, kind, version) {
            Err(error) => {
                self.withdrawn(display, handle, surface);
                Err(error)
            },
            Ok(snapshot) => {
                let owner = self.thread();
                Ok(
                    EglGlesContext {
                        display,
                        config,
                        context: handle,
                        surface: Some(surface),
                        kind,
                        version,
                        stamp,
                        snapshot,
                        owner,
                        lifecycle: GlContextLifecycle::Active,
                    },
                )
            },
        }
    }

    fn with_extensions(
        &mut self,
        display: u64,
        extensions: &str,
        stamp: ContextStamp,
        kind: EglSurfaceKind,
        version: EglGlesVersion,
    ) -> (result: Result<EglGlesContext, EglProviderError>)
        ensures
            result is Ok ==> result->Ok_0.wf(),
            grows(old(self)@.log, final(self)@.log),
            forall|o: Seq<EglStep>|
                grows(final(self)@.log, o) ==> #[trigger] old(self)@.with_extensions(display, extensions@, stamp, kind, version, o) == (
                    final(self)@,
                    made(result),
                ),
    {
        let exact = has_extension(extensions, "EGL_KHR_create_context");
        if version.minor() != 0 && !exact {
            return Err(EglProviderError::ExactVersionUnavailable(version));
        }
        let wish = config_attributes(kind);
        let chosen = self.link.choose_first_config(display, &wish);
        let config = match chosen {
            Err(error) => {
                return Err(EglProviderError::Egl { operation: "eglChooseConfig", error });
            },
            Ok(None) => {
                return Err(EglProviderError::ConfigUnavailable);
            },
            Ok(Some(config)) => config,
        };
        let wish = exact_context_attributes(version, exact);
        let reply = self.link.create_context(display, config, &wish);
        let handle = match reply {
            Err(error) => {
                return Err(EglProviderError::Egl { operation: "eglCreateContext", error });
            },
            Ok(handle) => handle,
        };
        match self.create_surface(display, config, kind) {
            Err(error) => {
                let _ = self.attempt(EglCall::DestroyContext { display, context: handle });
                Err(error)
            },
            Ok(surface) => self.finished(display, config, handle, surface, stamp, kind, version),
        }
    }

    fn on_display(
        &mut self,
        display: u64,
        stamp: ContextStamp,
        kind: EglSurfaceKind,
        version: EglGlesVersion,
    ) -> (result: Result<EglGlesContext, EglProviderError>)
        ensures
            result is Ok ==> result->Ok_0.wf(),
            grows(old(self)@.log, final(self)@.log),
            forall|o: Seq<EglStep>|
                grows(final(self)@.log, o) ==> #[trigger] old(self)@.on_display(display, stamp, kind, version, o) == (
                    final(self)@,
                    made(result),
                ),
    {
        match self.call(EglCall::BindApi { api: OPENGL_ES_API }, "eglBindAPI") {
            Ok(()) => {},
            Err(error) => {
                return Err(error);
            },
        }
        match self.text(display, egl::EXTENSIONS) {
            Err(error) => Err(
                EglProviderError::Egl { operation: "eglQueryString(EGL_EXTENSIONS)", error },
            ),
            Ok(extensions) => self.with_extensions(
                display,
                extensions.as_str(),
                stamp,
                kind,
                version,
            ),
        }
    }

    /// A new context, current on this thread.
    pub fn new_inner(
        &mut self,
        stamp: ContextStamp,
        native: u64,
        kind: EglSurfaceKind,
        version: EglGlesVersion,
    ) -> (result: Result<EglGlesContext, EglProviderError>)
        ensures
            result is Ok ==> result->Ok_0.wf(),
            grows(old(self)@.log, final(self)@.log),
            forall|o: Seq<EglStep>|
                grows(final(self)@.log, o) ==> #[trigger] old(self)@.new_inner(stamp, native, kind, version, o) == (
                    final(self)@,
                    made(result),
                ),
    {
        let display = match self.acquire_display(native) {
            Ok(value) => value,
            Err(error) => {
                return Err(error);
            },
        };
        match self.on_display(display, stamp, kind, version) {
            Err(error) => {
                self.release_display(display);
                Err(error)
            },
            Ok(context) => Ok(context),
        }
    }

    /// A new context on a window of the host.
    pub fn new_window(
        &mut self,
        stamp: ContextStamp,
        display: HostDisplay,
        window: HostWindow,
        version: EglGlesVersion,
    ) -> (result: Result<EglGlesContext, EglProviderError>)
        ensures
            result is Ok ==> result->Ok_0.wf(),
            grows(old(self)@.log, final(self)@.log),
            forall|o: Seq<EglStep>|
                grows(final(self)@.log, o) ==> #[trigger] old(self)@.new_window(stamp, display, window, version, o) == (
                    final(self)@,
                    made(result),
                ),
    {
        match native_window_pair(display, window) {
            Err(error) => Err(error),
            Ok((native, native_window)) => self.new_inner(
                stamp,
                native,
                EglSurfaceKind::Window { native_window },
                version,
            ),
        }
    }

    /// A new context off the screen. It can be shown nowhere.
    pub fn new_pbuffer(
        &mut self,
        stamp: ContextStamp,
        size: EglPbufferSize,
        version: EglGlesVersion,
    ) -> (result: Result<EglGlesContext, EglProviderError>)
        ensures
            result is Ok ==> result->Ok_0.wf(),
            grows(old(self)@.log, final(self)@.log),
            forall|o: Seq<EglStep>|
                grows(final(self)@.log, o) ==> #[trigger] old(self)@.new_pbuffer(stamp, size, version, o) == (
                    final(self)@,
                    made(result),
                ),
    {
        match size.checked() {
            Err(error) => Err(error),
            Ok(_) => self.new_inner(
                stamp,
                DEFAULT_DISPLAY,
                EglSurfaceKind::Pbuffer(size),
                version,
            ),
        }
    }

    fn of_version(&mut self, stamp: ContextStamp, kind: EglSurfaceKind, version: EglGlesVersion) -> (
        result: Result<EglGlesContext, EglProviderError>)
        ensures
            result is Ok ==> result->Ok_0.wf(),
            grows(old(self)@.log, final(self)@.log),
            forall|o: Seq<EglStep>|
                grows(final(self)@.log, o) ==> #[trigger] old(self)@.of_version(stamp, kind, version, o) == (
                    final(self)@,
                    made(result),
                ),
    {
        match kind {
            EglSurfaceKind::Window { native_window } => self.new_window(
                stamp,
                HostDisplay::Android,
                HostWindow::AndroidNdk { window: native_window },
                version,
            ),
            EglSurfaceKind::Pbuffer(size) => self.new_pbuffer(stamp, size, version),
        }
    }

    /// A new context of the highest version that can be had, on a window of
    /// Android or off the screen.
    pub fn open_highest(&mut self, stamp: ContextStamp, kind: EglSurfaceKind) -> (result: Result<
        EglGlesContext,
        EglProviderError,
    >)
        ensures
            result is Ok ==> result->Ok_0.wf(),
            grows(old(self)@.log, final(self)@.log),
            forall|o: Seq<EglStep>|
                grows(final(self)@.log, o) ==> #[trigger] old(self)@.highest(stamp, kind, o) == (
                    final(self)@,
                    made(result),
                ),
    {
        match self.of_version(stamp, kind, EglGlesVersion::V3_2) {
            Ok(context) => {
                return Ok(context);
            },
            Err(_) => {},
        }
        match self.of_version(stamp, kind, EglGlesVersion::V3_1) {
            Ok(context) => {
                return Ok(context);
            },
            Err(_) => {},
        }
        self.of_version(stamp, kind, EglGlesVersion::V3_0)
    }

    /// A new context on a window of Android that was described on another
    /// thread.
    pub fn open_android_window(&mut self, descriptor: AndroidEglWorkerDescriptor) -> (result: Result<
        EglGlesContext,
        EglProviderError,
    >)
        requires
            old(self).wf(),
        ensures
            result is Ok ==> result->Ok_0.wf(),
            grows(old(self)@.log, final(self)@.log),
            descriptor.native_window == 0 ==> final(self)@ == old(self)@ && result is Err
                && result->Err_0@ == EglFailure::InvalidNativeHandle(
                "Android ANativeWindow pointer",
            ),
            descriptor.native_window != 0 ==> forall|o: Seq<EglStep>|
                grows(final(self)@.log, o) ==> #[trigger] old(self)@.highest(
                    descriptor.stamp,
                    EglSurfaceKind::Window { native_window: descriptor.native_window },
                    o,
                ) == (final(self)@, made(result)),
    {
        if descriptor.native_window == 0 {
            return Err(EglProviderError::InvalidNativeHandle("Android ANativeWindow pointer"));
        }
        self.open_highest(
            descriptor.stamp,
            EglSurfaceKind::Window { native_window: descriptor.native_window },
        )
    }
}

/// What a fixture prints of a context.
#[derive(Debug)]
pub struct EglEvidence {
    pub profile: GlFamilyProfile,
    /// The version that was asked for.
    pub requested_version: &'static str,
    /// The version string that the context has.
    pub observed_version: String,
    pub version: String,
    pub shading_language_version: String,
    pub vendor: String,
    pub renderer: String,
    pub driver_or_browser: String,
    pub extensions: Vec<String>,
    pub capabilities: Vec<CapabilityRow>,
    pub limits: Vec<LimitRow>,
    pub extent: (u32, u32),
}

/// The drawable with which an executor starts, where its size is known.
#[derive(Clone, Copy, Debug, PartialEq, Eq, Structural)]
pub struct InitialSurface {
    pub extent: GlSurfaceSize,
    pub suspended: bool,
}

/// The name of an adapter.
pub open spec fn adapter_text(family: Seq<char>, renderer: Seq<char>) -> Seq<char> {
    family + " ("@ + renderer + ")"@
}

/// Names an adapter by its renderer.
pub fn adapter_name(family: &str, renderer: &str) -> (result: String)
    ensures
        result@ == adapter_text(family@, renderer@),
{
    let mut name = family.to_owned();
    name.append(" (");
    name.append(renderer);
    name.append(")");
    name
}

impl EglGlesContext {
    /// The record of the context is complete.
    pub open spec fn wf(&self) -> bool {
        self.snapshot.wf()
    }

    /// The profile that was asked for. The context may be of a later one.
    pub fn profile(&self) -> (result: GlFamilyProfile)
        ensures
            result == self.version.spec_profile(),
    {
        self.version.profile()
    }

    pub fn owner_thread(&self) -> (result: OwnerThreadIdentity)
        ensures
            result == self.owner,
    {
        self.owner
    }

    pub fn lifecycle(&self) -> (result: GlContextLifecycle)
        ensures
            result == self.lifecycle,
    {
        self.lifecycle
    }

    /// The facts that may be published of this context.
    pub fn v13_capability_facts(&self) -> (result: GlCapabilitySnapshot)
        requires
            self.wf(),
        ensures
            result@ == capabilities::published(self.snapshot@),
    {
        v13_capability_snapshot(&self.snapshot)
    }

    /// The size of the drawable, where EGL fixed it.
    pub fn known_drawable_extent(&self) -> (result: Option<(u32, u32)>)
        ensures
            result == known_extent(self.kind),
    {
        match self.kind {
            EglSurfaceKind::Pbuffer(size) => Some((size.width, size.height)),
            EglSurfaceKind::Window { .. } => None,
        }
    }

    /// The drawable with which an executor of this context starts. That of a
    /// window is unknown until the host reports it.
    pub fn initial_surface(&self) -> (result: Option<InitialSurface>)
        ensures
            match known_extent(self.kind) {
                None => result is None,
                Some((width, height)) => result == Some(
                    InitialSurface {
                        extent: GlSurfaceSize { width, height },
                        suspended: drawable::spec_has_zero((width, height)),
                    },
                ),
            },
    {
        match self.known_drawable_extent() {
            None => None,
            Some((width, height)) => Some(
                InitialSurface {
                    extent: GlSurfaceSize { width, height },
                    suspended: width == 0 || height == 0,
                },
            ),
        }
    }

    /// Adopts the owner of this context.
    pub fn adopt<D: SharedDriver>(&self, instance: u64, driver: D) -> (result: Result<
        GlProvider<D, Arc<GlCapabilitySnapshot>>,
        RhiError,
    >)
        requires
            self.wf(),
        ensures
            result is Ok,
            ({
                let provider = result->Ok_0;
                &&& provider.backend is OpenGl
                &&& (*provider.facts)@ == capabilities::published(self.snapshot@)
                &&& provider.adapter.id.instance == instance
                &&& provider.adapter.id.index == 0
                &&& (*provider.adapter.name)@ == adapter_text(
                    "OpenGL ES"@,
                    self.snapshot@.context.renderer,
                )
            }),
    {
        let name = adapter_name("OpenGL ES", self.snapshot.context.renderer.as_str());
        adopt_discovered_owner(instance, Arc::new(name), &self.snapshot, driver)
    }

    fn assert_owner<E: EglCalls>(&self, egl: &mut EglStation<E>, operation: &'static str) -> (result:
        Result<(), EglProviderError>)
        ensures
            grows(old(egl)@.log, final(egl)@.log),
            forall|o: Seq<EglStep>|
                grows(final(egl)@.log, o) ==> #[trigger] old(egl)@.owned(self@, operation, o) == (
                    final(egl)@,
                    egl::plain(result),
                ),
    {
        let actual = egl.thread();
        if actual == self.owner {
            Ok(())
        } else {
            Err(
                EglProviderError::Gl(
                    GlError::WrongThread { operation, expected: self.owner, actual },
                ),
            )
        }
    }

    /// What is lost or disposed of cannot be used again. A loss is final: only
    /// the host can make a new context.
    pub fn refuse_unusable(&self, operation: &'static str) -> (result: Result<
        (),
        EglProviderError,
    >)
        ensures
            egl::plain(result) == self@.usable(operation),
    {
        match self.lifecycle {
            GlContextLifecycle::Lost => Err(
                EglProviderError::Gl(GlError::ContextLost { operation }),
            ),
            GlContextLifecycle::Disposed => Err(
                EglProviderError::Gl(GlError::Disposed { operation }),
            ),
            _ => Ok(()),
        }
    }

    /// Makes this context current on its thread.
    pub fn make_current<E: EglCalls>(&mut self, egl: &mut EglStation<E>) -> (result: Result<
        (),
        EglProviderError,
    >)
        ensures
            final(self).snapshot == old(self).snapshot,
            grows(old(egl)@.log, final(egl)@.log),
            forall|o: Seq<EglStep>|
                grows(final(egl)@.log, o) ==> #[trigger] old(egl)@.make_current(old(self)@, o) == (
                    final(egl)@,
                    final(self)@,
                    egl::plain(result),
                ),
    {
        match self.assert_owner(egl, "eglMakeCurrent") {
            Ok(()) => {},
            Err(error) => {
                return Err(error);
            },
        }
        match self.refuse_unusable("eglMakeCurrent") {
            Ok(()) => {},
            Err(error) => {
                return Err(error);
            },
        }
        let surface = match self.surface {
            Some(surface) => surface,
            None => {
                return Err(
                    EglProviderError::Gl(
                        GlError::InvalidLifecycle {
                            operation: "eglMakeCurrent",
                            lifecycle: self.lifecycle,
                        },
                    ),
                );
            },
        };
        match egl.call(EglCall::MakeCurrent { display: self.display, binding: Some(EglBinding { surface, context: self.context }) }, "eglMakeCurrent") {
            Ok(()) => {},
            Err(error) => {
                return Err(error);
            },
        }
        self.lifecycle = GlContextLifecycle::Active;
        Ok(())
    }

    /// Shows the drawable of a window. A buffer off the screen is refused.
    pub fn present<E: EglCalls>(&mut self, egl: &mut EglStation<E>) -> (result: Result<
        (),
        EglProviderError,
    >)
        ensures
            final(self).snapshot == old(self).snapshot,
            grows(old(egl)@.log, final(egl)@.log),
            forall|o: Seq<EglStep>|
                grows(final(egl)@.log, o) ==> #[trigger] old(egl)@.present(old(self)@, o) == (
                    final(egl)@,
                    final(self)@,
                    egl::plain(result),
                ),
    {
        let operation = "eglSwapBuffers";
        match self.assert_owner(egl, operation) {
            Ok(()) => {},
            Err(error) => {
                return Err(error);
            },
        }
        match self.lifecycle {
            GlContextLifecycle::Active => {},
            GlContextLifecycle::Disposed => {
                return Err(EglProviderError::Gl(GlError::Disposed { operation }));
            },
            lifecycle => {
                return Err(
                    EglProviderError::Gl(GlError::InvalidLifecycle { operation, lifecycle }),
                );
            },
        }
        match self.make_current(egl) {
            Ok(()) => {},
            Err(error) => {
                return Err(error);
            },
        }
        match self.kind {
            EglSurfaceKind::Pbuffer(_) => {
                return Err(
                    EglProviderError::Gl(
                        GlError::Unsupported {
                            operation,
                            reason: "an EGL pbuffer is not presentable",
                        },
                    ),
                );
            },
            EglSurfaceKind::Window { .. } => {},
        }
        match self.surface {
            Some(surface) => egl.call(
                EglCall::SwapBuffers { display: self.display, surface },
                operation,
            ),
            None => Ok(()),
        }
    }

    fn detach_self_if_current<E: EglCalls>(&self, egl: &mut EglStation<E>) -> (result: Result<
        (),
        EglProviderError,
    >)
        ensures
            grows(old(egl)@.log, final(egl)@.log),
            forall|o: Seq<EglStep>|
                grows(final(egl)@.log, o) ==> #[trigger] old(egl)@.detach_self_if_current(self@, o) == (
                    final(egl)@,
                    egl::plain(result),
                ),
    {
        let context = egl.link.get_current_context();
        let display = egl.link.get_current_display();
        if current_binding_is_self(context, display, self.context, self.display) {
            return egl.call(
                EglCall::MakeCurrent { display: self.display, binding: None },
                "eglMakeCurrent",
            );
        }
        Ok(())
    }

    /// Detaches this context while its drawable is away.
    pub fn suspend<E: EglCalls>(&mut self, egl: &mut EglStation<E>) -> (result: Result<
        (),
        EglProviderError,
    >)
        ensures
            final(self).snapshot == old(self).snapshot,
            grows(old(egl)@.log, final(egl)@.log),
            forall|o: Seq<EglStep>|
                grows(final(egl)@.log, o) ==> #[trigger] old(egl)@.suspend(old(self)@, o) == (
                    final(egl)@,
                    final(self)@,
                    egl::plain(result),
                ),
    {
        match self.assert_owner(egl, "eglMakeCurrent") {
            Ok(()) => {},
            Err(error) => {
                return Err(error);
            },
        }
        match self.refuse_unusable("eglMakeCurrent") {
            Ok(()) => {},
            Err(error) => {
                return Err(error);
            },
        }
        match self.detach_self_if_current(egl) {
            Ok(()) => {},
            Err(error) => {
                return Err(error);
            },
        }
        self.lifecycle = GlContextLifecycle::Suspended;
        Ok(())
    }

    /// Attaches this context again.
    pub fn resume<E: EglCalls>(&mut self, egl: &mut EglStation<E>) -> (result: Result<
        (),
        EglProviderError,
    >)
        ensures
            final(self).snapshot == old(self).snapshot,
            grows(old(egl)@.log, final(egl)@.log),
            forall|o: Seq<EglStep>|
                grows(final(egl)@.log, o) ==> #[trigger] old(egl)@.make_current(old(self)@, o) == (
                    final(egl)@,
                    final(self)@,
                    egl::plain(result),
                ),
    {
        self.make_current(egl)
    }

    /// Gives a buffer off the screen another size. The surface of a window
    /// follows its window.
    pub fn resize<E: EglCalls>(&mut self, egl: &mut EglStation<E>, size: EglPbufferSize) -> (result:
        Result<(), EglProviderError>)
        ensures
            final(self).snapshot == old(self).snapshot,
            grows(old(egl)@.log, final(egl)@.log),
            forall|o: Seq<EglStep>|
                grows(final(egl)@.log, o) ==> #[trigger] old(egl)@.resize(old(self)@, size, o) == (
                    final(egl)@,
                    final(self)@,
                    egl::plain(result),
                ),
    {
        match self.assert_owner(egl, "eglResize") {
            Ok(()) => {},
            Err(error) => {
                return Err(error);
            },
        }
        match self.kind {
            EglSurfaceKind::Window { .. } => {
                return Ok(());
            },
            EglSurfaceKind::Pbuffer(_) => {},
        }
        let wish = match pbuffer_attributes(size) {
            Ok(value) => value,
            Err(error) => {
                return Err(error);
            },
        };
        match check_drawable_extent(self.snapshot.limits.max_viewport_dimensions, (size.width, size.height)) {
            Ok(()) => {},
            Err(error) => {
                return Err(error);
            },
        }
        self.replace_surface(egl, size, &wish)
    }

    fn replace_surface<E: EglCalls>(
        &mut self,
        egl: &mut EglStation<E>,
        size: EglPbufferSize,
        wish: &Vec<i32>,
    ) -> (result: Result<(), EglProviderError>)
        requires
            wish@ == egl::pbuffer_wish(size),
        ensures
            final(self).snapshot == old(self).snapshot,
            grows(old(egl)@.log, final(egl)@.log),
            forall|o: Seq<EglStep>|
                grows(final(egl)@.log, o) ==> #[trigger] old(egl)@.replace_surface(old(self)@, size, o) == (
                    final(egl)@,
                    final(self)@,
                    egl::plain(result),
                ),
    {
        let ghost m1 = egl@;
        let ghost c1 = self@;
        match self.make_current(egl) {
            Ok(()) => {},
            Err(error) => {
                return Err(error);
            },
        }
        let ghost m2 = egl@;
        let ghost c2 = self@;
        assert(c2.surface is Some) by {
            assert(m1.make_current(c1, m2.log) == (m2, c2, Ok::<(), EglFailure>(())));
        }
        match self.suspend(egl) {
            Ok(()) => {},
            Err(error) => {
                return Err(error);
            },
        }
        let old_surface = self.surface;
        assert(old_surface == c2.surface) by {
            assert(m2.suspend(c2, egl@.log) == (egl@, self@, Ok::<(), EglFailure>(())));
        }
        let ghost c3 = self@;
        let surface = match egl.create_pbuffer(self.display, self.config, size, wish) {
            Ok(value) => value,
            Err(error) => {
                return Err(error);
            },
        };
        self.surface = Some(surface);
        self.kind = EglSurfaceKind::Pbuffer(size);
        assert(self@ == (EglModel {
            surface: Some(surface),
            kind: EglSurfaceKind::Pbuffer(size),
            ..c3
        }));
        let released = match old_surface {
            Some(old_surface) => egl.call(
                EglCall::DestroySurface { display: self.display, surface: old_surface },
                "eglDestroySurface",
            ),
            None => Ok(()),
        };
        match self.resume(egl) {
            Ok(()) => {},
            Err(error) => {
                return Err(error);
            },
        }
        released
    }

    /// Makes this context current and loads its functions.
    pub fn load_glow<E: EglCalls>(&mut self, egl: &mut EglStation<E>) -> (result: Result<
        (),
        EglProviderError,
    >)
        ensures
            final(self).snapshot == old(self).snapshot,
            grows(old(egl)@.log, final(egl)@.log),
            forall|o: Seq<EglStep>|
                grows(final(egl)@.log, o) ==> #[trigger] old(egl)@.load_glow(old(self)@, o) == (
                    final(egl)@,
                    final(self)@,
                    egl::plain(result),
                ),
    {
        match self.make_current(egl) {
            Ok(()) => {},
            Err(error) => {
                return Err(error);
            },
        }
        egl.link.load_glow();
        Ok(())
    }

    /// Makes this context ready for an operation on it.
    pub fn with_current<E: EglCalls>(&mut self, egl: &mut EglStation<E>, operation: &'static str) -> (
        result: Result<(), EglProviderError>)
        ensures
            final(self).snapshot == old(self).snapshot,
            grows(old(egl)@.log, final(egl)@.log),
            forall|o: Seq<EglStep>|
                grows(final(egl)@.log, o) ==> #[trigger] old(egl)@.with_current(old(self)@, operation, o) == (
                    final(egl)@,
                    final(self)@,
                    egl::plain(result),
                ),
    {
        match self.assert_owner(egl, operation) {
            Ok(()) => {},
            Err(error) => {
                return Err(error);
            },
        }
        self.load_glow(egl)
    }

    /// The record of this context. Nothing is asked again.
    pub fn discover<E: EglCalls>(&self, egl: &mut EglStation<E>) -> (result: Result<
        &GlDiscoverySnapshot,
        EglProviderError,
    >)
        ensures
            grows(old(egl)@.log, final(egl)@.log),
            forall|o: Seq<EglStep>|
                grows(final(egl)@.log, o) ==> #[trigger] old(egl)@.discover(self@, o) == (
                    final(egl)@,
                    match result {
                        Ok(_) => Ok(()),
                        Err(error) => Err(error@),
                    },
                ),
            result is Ok ==> *result->Ok_0 == self.snapshot,
    {
        let operation = "discover EGL context";
        match self.assert_owner(egl, operation) {
            Ok(()) => {},
            Err(error) => {
                return Err(error);
            },
        }
        if self.lifecycle == GlContextLifecycle::Disposed {
            return Err(EglProviderError::Gl(GlError::Disposed { operation }));
        }
        Ok(&self.snapshot)
    }

    /// What a fixture prints of this context.
    pub fn evidence(&self) -> (result: EglEvidence)
        requires
            self.wf(),
        ensures
            result.profile == self.snapshot@.context.profile,
            result.requested_version == self.version.spec_number(),
            result.observed_version@ == self.snapshot@.context.version,
            result.version@ == self.snapshot@.context.version,
            result.shading_language_version@ == self.snapshot@.context.shading_language,
            result.vendor@ == self.snapshot@.context.vendor,
            result.renderer@ == self.snapshot@.context.renderer,
            result.driver_or_browser@ == self.snapshot@.context.driver,
            text::ascending(result.extensions@),
            text::texts_in(result.extensions@) == self.snapshot@.extensions.raw,
            result.capabilities@ == report::capability_rows(self.snapshot@),
            report::limits_seen(result.limits@) == report::embedded_limits(self.snapshot@.limits),
            result.extent == match known_extent(self.kind) {
                Some(extent) => extent,
                None => (0u32, 0u32),
            },
    {
        let info = &self.snapshot.context;
        let extent = match self.known_drawable_extent() {
            Some(extent) => extent,
            None => (0, 0),
        };
        EglEvidence {
            profile: info.profile,
            requested_version: self.version.number(),
            observed_version: info.version.as_str().to_owned(),
            version: info.version.as_str().to_owned(),
            shading_language_version: info.shading_language.as_str().to_owned(),
            vendor: info.vendor.as_str().to_owned(),
            renderer: info.renderer.as_str().to_owned(),
            driver_or_browser: info.driver.as_str().to_owned(),
            extensions: self.snapshot.extensions.raw.sorted(),
            capabilities: list_capabilities(&self.snapshot),
            limits: list_embedded_limits(&self.snapshot.limits),
            extent,
        }
    }

    /// Draws the triangle of the fixture some times, and reads the picture if it
    /// is wanted.
    pub fn draw_evidence<E: EglCalls>(
        &mut self,
        egl: &mut EglStation<E>,
        draws: u32,
        read_color: bool,
    ) -> (result: Result<Option<Vec<u8>>, EglProviderError>)
        requires
            read_color ==> picture_fits(old(self).kind),
        ensures
            final(self).snapshot == old(self).snapshot,
            grows(old(egl)@.log, final(egl)@.log),
            forall|o: Seq<EglStep>|
                grows(final(egl)@.log, o) ==> #[trigger] old(egl)@.draw_evidence(old(self)@, draws, read_color, o) == (
                    final(egl)@,
                    final(self)@,
                    egl::plain(result),
                ),
    {
        let operation = "EGL evidence draw";
        let size = match self.known_drawable_extent() {
            Some(size) => size,
            None => {
                return Err(
                    EglProviderError::Gl(
                        GlError::Unsupported {
                            operation,
                            reason: "fixture evidence is defined only for owned pbuffers",
                        },
                    ),
                );
            },
        };
        if size.0 == 0 || size.1 == 0 || draws == 0 {
            return Err(
                EglProviderError::Gl(
                    GlError::Validation {
                        operation,
                        message: Message::Text(
                            "evidence draw requires a nonzero extent and draw count",
                        ),
                    },
                ),
            );
        }
        match self.with_current(egl, operation) {
            Ok(()) => {},
            Err(error) => {
                return Err(error);
            },
        }
        let outcome = egl.link.draw(evidence_plan(), size, draws, read_color);
        match outcome {
            Ok(picture) => Ok(picture),
            Err(error) => Err(EglProviderError::Gl(error)),
        }
    }

    /// Ends this context. The first failure is reported.
    pub fn dispose<E: EglCalls>(&mut self, egl: &mut EglStation<E>) -> (result: Result<
        (),
        EglProviderError,
    >)
        ensures
            final(self).snapshot == old(self).snapshot,
            grows(old(egl)@.log, final(egl)@.log),
            forall|o: Seq<EglStep>|
                grows(final(egl)@.log, o) ==> #[trigger] old(egl)@.dispose(old(self)@, o) == (
                    final(egl)@,
                    final(self)@,
                    egl::plain(result),
                ),
    {
        match self.assert_owner(egl, "eglDestroyContext") {
            Ok(()) => {},
            Err(error) => {
                return Err(error);
            },
        }
        if self.lifecycle == GlContextLifecycle::Disposed {
            return Ok(());
        }
        match self.detach_self_if_current(egl) {
            Ok(()) => {},
            Err(error) => {
                return Err(error);
            },
        }
        let first = match self.surface {
            Some(surface) => egl.call(
                EglCall::DestroySurface { display: self.display, surface },
                "eglDestroySurface",
            ),
            None => Ok(()),
        };
        self.surface = None;
        let second = egl.call(
            EglCall::DestroyContext { display: self.display, context: self.context },
            "eglDestroyContext",
        );
        self.lifecycle = GlContextLifecycle::Disposed;
        match first {
            Ok(()) => second,
            Err(error) => Err(error),
        }
    }

    /// Gives up this context and its use of the display.
    pub fn release<E: EglCalls>(self, egl: &mut EglStation<E>)
        ensures
            grows(old(egl)@.log, final(egl)@.log),
            forall|o: Seq<EglStep>|
                grows(final(egl)@.log, o) ==> #[trigger] old(egl)@.release(self@, o)
                    == final(egl)@,
    {
        let mut context = self;
        let display = context.display;
        if context.lifecycle != GlContextLifecycle::Disposed {
            let actual = egl.thread();
            if actual == context.owner {
                let _ = context.dispose(egl);
            }
        }
        egl.release_display(display);
    }
}

} // verus!
