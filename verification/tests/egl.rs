use std::cell::RefCell;
use std::rc::Rc;

use fluxel_gl::api::error::{GlContextLifecycle, GlError, Message};
use fluxel_gl::api::extension::GlExtensionSet;
use fluxel_gl::api::gl::GlFamilyProfile;
use fluxel_gl::api::identity::{ContextEpoch, ContextStamp, DeviceIdentity, OwnerThreadIdentity};
use fluxel_gl::native::drawable::{describe_extent, within_viewport_limit};
use fluxel_gl::native::egl::{
    check_drawable_extent, compose_egl_driver_identity, config_attributes,
    current_binding_is_self, exact_context_attributes, has_extension, native_window_pair,
    parse_gles_version, pbuffer_attributes, AndroidEglWorkerDescriptor, EglError, EglGlesVersion,
    EglPbufferSize, EglProviderError, EglSurfaceKind, HostDisplay, HostWindow,
};
use fluxel_gl::native::egl_context::{adapter_name, EglCall, EglCalls, EglStation};
use fluxel_gl::native::glow_const;
use fluxel_gl::native::probes::ProbeReport;
use fluxel_gl::native::query::{NativeGlProbes, NativeGlQuery};
use fluxel_gl::native::workload::{WorkCall, WorkCalls};

struct Query {
    version: &'static str,
}

impl NativeGlQuery for Query {
    fn take_error(&mut self) -> bool {
        false
    }

    fn string(&mut self, name: u32) -> Option<String> {
        if name == glow_const::VERSION {
            Some(self.version.to_owned())
        } else {
            Some("text".to_owned())
        }
    }

    fn integer(&mut self, name: u32) -> Option<i64> {
        match name {
            glow_const::NUM_EXTENSIONS => Some(0),
            glow_const::DRAW_FRAMEBUFFER_BINDING => Some(0),
            _ => Some(4),
        }
    }

    fn integer_pair(&mut self, _: u32) -> Option<(i64, i64)> {
        Some((1024, 512))
    }

    fn indexed_integer(&mut self, _: u32, _: u32) -> Option<i64> {
        Some(64)
    }

    fn float(&mut self, _: u32) -> Option<u32> {
        None
    }

    fn indexed_string(&mut self, _: u32, _: u32) -> Option<String> {
        None
    }

    fn drawable_attachment(&mut self, _: u32, _: u32) -> Option<i64> {
        Some(8)
    }
}

struct Probes;

impl NativeGlProbes for Probes {
    fn run_operation_probes(&mut self, _: GlFamilyProfile, _: &GlExtensionSet) -> ProbeReport {
        ProbeReport::nothing()
    }
}

struct Work {
    journal: Rc<RefCell<Vec<String>>>,
    links: bool,
}

impl WorkCalls for Work {
    fn call(&mut self, call: WorkCall) {
        self.journal.borrow_mut().push(format!("{call:?}"));
    }

    fn create_shader(&mut self, kind: u32) -> Result<u32, Message> {
        Ok(kind)
    }

    fn get_shader_compile_status(&mut self, _: u32) -> bool {
        true
    }

    fn get_shader_info_log(&mut self, _: u32) -> Message {
        Message::Text("shader log")
    }

    fn create_program(&mut self) -> Result<u32, Message> {
        Ok(9)
    }

    fn get_program_link_status(&mut self, _: u32) -> bool {
        self.links
    }

    fn get_program_info_log(&mut self, _: u32) -> Message {
        Message::Text("program log")
    }

    fn create_vertex_array(&mut self) -> Result<u32, Message> {
        Ok(5)
    }

    fn read_pixels(&mut self, _: i32, _: i32, _: u32, _: u32, length: usize) -> Vec<u8> {
        vec![7; length]
    }

    fn get_error(&mut self) -> u32 {
        0
    }
}

struct Egl {
    journal: Rc<RefCell<Vec<String>>>,
    thread: Rc<RefCell<u64>>,
    version: &'static str,
    refuse: &'static str,
    links: bool,
    size: i32,
    current: Option<u64>,
}

impl Egl {
    fn answer<T>(&mut self, what: String, value: T) -> Result<T, EglError> {
        let refused = !self.refuse.is_empty() && what.starts_with(self.refuse);
        self.journal.borrow_mut().push(what);
        if refused {
            Err(EglError::BadAlloc)
        } else {
            Ok(value)
        }
    }
}

impl EglCalls for Egl {
    type Query = Query;
    type Probes = Probes;
    type Work = Work;

    fn current_thread(&mut self) -> OwnerThreadIdentity {
        OwnerThreadIdentity::new(*self.thread.borrow())
    }

    fn load_required(&mut self) -> Result<(), Message> {
        if self.refuse == "Load" {
            Err(Message::Text("no library"))
        } else {
            Ok(())
        }
    }

    fn get_display(&mut self, native: u64) -> Option<u64> {
        if self.refuse == "Display" {
            None
        } else {
            Some(native + 100)
        }
    }

    fn call(&mut self, call: EglCall) -> Result<(), EglError> {
        let answer = self.answer(format!("{call:?}"), ());
        if let (Ok(()), EglCall::MakeCurrent { binding, .. }) = (&answer, call) {
            self.current = binding.map(|binding| binding.context);
        }
        answer
    }

    fn query_string(&mut self, _: u64, name: i32) -> Result<String, EglError> {
        if name == fluxel_gl::native::egl::EXTENSIONS {
            Ok("EGL_KHR_create_context EGL_KHR_surfaceless_context".to_owned())
        } else if name == fluxel_gl::native::egl::VENDOR {
            Ok("Mesa".to_owned())
        } else {
            Ok("1.5".to_owned())
        }
    }

    fn choose_first_config(&mut self, _: u64, _: &Vec<i32>) -> Result<Option<u64>, EglError> {
        if self.refuse == "NoConfig" {
            Ok(None)
        } else {
            self.answer("ChooseConfig".to_owned(), Some(7))
        }
    }

    fn create_context(&mut self, _: u64, _: u64, wish: &Vec<i32>) -> Result<u64, EglError> {
        self.answer(format!("CreateContext {wish:?}"), 21)
    }

    fn create_window_surface(&mut self, _: u64, _: u64, window: u64) -> Result<u64, EglError> {
        self.answer(format!("CreateWindowSurface {window}"), 31)
    }

    fn create_pbuffer_surface(
        &mut self,
        _: u64,
        _: u64,
        wish: &Vec<i32>,
    ) -> Result<u64, EglError> {
        self.answer(format!("CreatePbufferSurface {wish:?}"), 32)
    }

    fn query_surface(&mut self, _: u64, _: u64, _: i32) -> Result<i32, EglError> {
        Ok(self.size)
    }

    fn get_current_context(&mut self) -> Option<u64> {
        self.current
    }

    fn get_current_display(&mut self) -> Option<u64> {
        self.current.map(|_| 100)
    }

    fn load_glow(&mut self) {
        self.journal.borrow_mut().push("LoadGlow".to_owned());
    }

    fn gl_version(&mut self) -> String {
        self.version.to_owned()
    }

    fn query(&mut self) -> Query {
        Query { version: self.version }
    }

    fn probes(&mut self) -> Probes {
        Probes
    }

    fn work(&mut self) -> Work {
        Work { journal: self.journal.clone(), links: self.links }
    }
}

fn egl(journal: &Rc<RefCell<Vec<String>>>) -> Egl {
    Egl {
        journal: journal.clone(),
        thread: Rc::new(RefCell::new(1)),
        version: "OpenGL ES 3.1 Mesa",
        refuse: "",
        links: true,
        size: 64,
        current: None,
    }
}

fn stamp() -> ContextStamp {
    ContextStamp::new(DeviceIdentity::new(5).unwrap(), ContextEpoch::initial())
}

fn count(journal: &Rc<RefCell<Vec<String>>>, what: &str) -> usize {
    journal.borrow().iter().filter(|entry| entry.starts_with(what)).count()
}

const SIZE: EglPbufferSize = EglPbufferSize { width: 4, height: 2 };

#[test]
fn a_context_off_the_screen_is_made_and_released() {
    let journal = Rc::new(RefCell::new(vec![]));
    let mut station = EglStation::new(egl(&journal));
    let context = station.new_pbuffer(stamp(), SIZE, EglGlesVersion::V3_1).unwrap();
    assert_eq!(context.profile(), GlFamilyProfile::Embedded { major: 3, minor: 1 });
    assert_eq!(context.lifecycle(), GlContextLifecycle::Active);
    assert_eq!(context.known_drawable_extent(), Some((4, 2)));
    assert_eq!(count(&journal, "CreateContext [12440, 3, 12539, 1, 12344]"), 1);
    assert_eq!(count(&journal, "CreatePbufferSurface [12375, 4, 12374, 2, 12344]"), 1);
    let evidence = context.evidence();
    assert_eq!(evidence.extent, (4, 2));
    assert_eq!(evidence.observed_version, "OpenGL ES 3.1 Mesa");
    context.release(&mut station);
    assert_eq!(count(&journal, "DestroySurface"), 1);
    assert_eq!(count(&journal, "DestroyContext"), 1);
    assert_eq!(count(&journal, "Terminate"), 1);
}

#[test]
fn a_failed_construction_leaves_nothing() {
    for refuse in [
        "BindApi",
        "ChooseConfig",
        "NoConfig",
        "CreateContext",
        "CreatePbufferSurface",
        "MakeCurrent",
    ] {
        let journal = Rc::new(RefCell::new(vec![]));
        let mut station = EglStation::new(Egl { refuse, ..egl(&journal) });
        assert!(station.new_pbuffer(stamp(), SIZE, EglGlesVersion::V3_0).is_err(), "{refuse}");
        let made = |what: &str| {
            let asked = count(&journal, what);
            if refuse == what {
                asked - 1
            } else {
                asked
            }
        };
        assert_eq!(made("CreateContext"), count(&journal, "DestroyContext"), "{refuse}");
        assert_eq!(made("CreatePbufferSurface"), count(&journal, "DestroySurface"), "{refuse}");
        assert_eq!(count(&journal, "Initialize"), count(&journal, "Terminate"), "{refuse}");
    }
}

#[test]
fn early_refusals_are_named() {
    let journal = Rc::new(RefCell::new(vec![]));
    let mut station = EglStation::new(Egl { refuse: "Load", ..egl(&journal) });
    assert!(matches!(
        station.new_pbuffer(stamp(), SIZE, EglGlesVersion::V3_0),
        Err(EglProviderError::Load(Message::Text("no library")))
    ));
    let mut station = EglStation::new(Egl { refuse: "Display", ..egl(&journal) });
    assert!(matches!(
        station.new_pbuffer(stamp(), SIZE, EglGlesVersion::V3_0),
        Err(EglProviderError::DisplayUnavailable)
    ));
    let mut station = EglStation::new(Egl { refuse: "NoConfig", ..egl(&journal) });
    assert!(matches!(
        station.new_pbuffer(stamp(), SIZE, EglGlesVersion::V3_0),
        Err(EglProviderError::ConfigUnavailable)
    ));
    let mut station = EglStation::new(Egl { refuse: "Initialize", ..egl(&journal) });
    assert!(matches!(
        station.new_pbuffer(stamp(), SIZE, EglGlesVersion::V3_0),
        Err(EglProviderError::Egl { error: EglError::BadAlloc, .. })
    ));
}

#[test]
fn a_context_below_its_version_is_refused() {
    let journal = Rc::new(RefCell::new(vec![]));
    let mut station = EglStation::new(egl(&journal));
    assert!(matches!(
        station.new_pbuffer(stamp(), SIZE, EglGlesVersion::V3_2),
        Err(EglProviderError::BelowRequestedProfile { requested: EglGlesVersion::V3_2, .. })
    ));
    assert_eq!(count(&journal, "DestroyContext"), 1);
    let highest = station.open_highest(stamp(), EglSurfaceKind::Pbuffer(SIZE)).unwrap();
    assert_eq!(highest.version, EglGlesVersion::V3_1);
}

#[test]
fn a_drawable_beyond_the_viewport_is_refused() {
    let journal = Rc::new(RefCell::new(vec![]));
    let mut station = EglStation::new(egl(&journal));
    let large = EglPbufferSize { width: 1025, height: 2 };
    assert!(matches!(
        station.new_pbuffer(stamp(), large, EglGlesVersion::V3_0),
        Err(EglProviderError::DrawableExtentExceedsViewportLimit {
            requested: (1025, 2),
            limit: (1024, 512)
        })
    ));
    assert!(matches!(
        station.new_pbuffer(stamp(), EglPbufferSize { width: 0, height: 2 }, EglGlesVersion::V3_0),
        Err(EglProviderError::InvalidSize(EglPbufferSize { width: 0, height: 2 }))
    ));
    assert!(within_viewport_limit((1024, 512), (1024, 512)));
    assert!(!within_viewport_limit((1024, 512), (1024, 513)));
    assert!(describe_extent((1025, 2), (1024, 512)).contains("1025"));
    assert!(check_drawable_extent((8, 8), (9, 1)).is_err());
}

#[test]
fn displays_are_shared_until_the_last_user_leaves() {
    let journal = Rc::new(RefCell::new(vec![]));
    let mut station = EglStation::new(egl(&journal));
    let first = station.new_pbuffer(stamp(), SIZE, EglGlesVersion::V3_0).unwrap();
    let second = station.new_pbuffer(stamp(), SIZE, EglGlesVersion::V3_0).unwrap();
    assert_eq!(count(&journal, "Initialize"), 1);
    first.release(&mut station);
    assert_eq!(count(&journal, "Terminate"), 0);
    second.release(&mut station);
    assert_eq!(count(&journal, "Terminate"), 1);
}

#[test]
fn a_picture_can_be_read_back() {
    let journal = Rc::new(RefCell::new(vec![]));
    let mut station = EglStation::new(egl(&journal));
    let mut context = station.new_pbuffer(stamp(), SIZE, EglGlesVersion::V3_0).unwrap();
    let picture = context.draw_evidence(&mut station, 3, true).unwrap();
    assert_eq!(picture, Some(vec![7; 4 * 2 * 4]));
    assert_eq!(count(&journal, "DrawArrays"), 3);
    assert_eq!(count(&journal, "DeleteProgram"), 1);
    assert_eq!(count(&journal, "DeleteShader"), 2);
    assert_eq!(count(&journal, "DeleteVertexArray"), 1);
    assert_eq!(context.draw_evidence(&mut station, 1, false).unwrap(), None);
}

#[test]
fn a_program_that_does_not_link_is_deleted() {
    let journal = Rc::new(RefCell::new(vec![]));
    let mut station = EglStation::new(Egl { links: false, ..egl(&journal) });
    let mut context = station.new_pbuffer(stamp(), SIZE, EglGlesVersion::V3_0).unwrap();
    assert!(matches!(
        context.draw_evidence(&mut station, 1, true),
        Err(EglProviderError::Gl(_))
    ));
    assert_eq!(count(&journal, "DeleteProgram"), 1);
    assert_eq!(count(&journal, "DeleteShader"), 2);
    assert_eq!(count(&journal, "DrawArrays"), 0);
}

#[test]
fn another_thread_touches_nothing() {
    let journal = Rc::new(RefCell::new(vec![]));
    let calls = egl(&journal);
    let thread = calls.thread.clone();
    let mut station = EglStation::new(calls);
    let mut context = station.new_pbuffer(stamp(), SIZE, EglGlesVersion::V3_0).unwrap();
    *thread.borrow_mut() = 2;
    journal.borrow_mut().clear();
    assert!(matches!(
        context.make_current(&mut station),
        Err(EglProviderError::Gl(GlError::WrongThread { .. }))
    ));
    assert!(context.suspend(&mut station).is_err());
    assert!(journal.borrow().is_empty());
}

#[test]
fn a_window_is_shown_suspended_and_resumed() {
    let journal = Rc::new(RefCell::new(vec![]));
    let mut station = EglStation::new(egl(&journal));
    let mut context = station
        .new_window(
            stamp(),
            HostDisplay::Android,
            HostWindow::AndroidNdk { window: 77 },
            EglGlesVersion::V3_0,
        )
        .unwrap();
    assert_eq!(count(&journal, "CreateWindowSurface 77"), 1);
    context.present(&mut station).unwrap();
    assert_eq!(count(&journal, "SwapBuffers"), 1);
    context.suspend(&mut station).unwrap();
    assert_eq!(context.lifecycle(), GlContextLifecycle::Suspended);
    assert_eq!(context.surface, Some(31));
    assert!(context.present(&mut station).is_err());
    context.resume(&mut station).unwrap();
    assert_eq!(context.lifecycle(), GlContextLifecycle::Active);
    assert!(context.surface.is_some());
    context.dispose(&mut station).unwrap();
    assert_eq!(context.lifecycle(), GlContextLifecycle::Disposed);
    assert!(context.resume(&mut station).is_err());
}

#[test]
fn what_is_off_the_screen_is_not_shown() {
    let journal = Rc::new(RefCell::new(vec![]));
    let mut station = EglStation::new(egl(&journal));
    let mut context = station.new_pbuffer(stamp(), SIZE, EglGlesVersion::V3_0).unwrap();
    assert!(context.present(&mut station).is_err());
    assert_eq!(count(&journal, "SwapBuffers"), 0);
    context.resize(&mut station, EglPbufferSize { width: 6, height: 3 }).unwrap();
    assert_eq!(context.known_drawable_extent(), Some((6, 3)));
    assert!(context.resize(&mut station, EglPbufferSize { width: 0, height: 3 }).is_err());
    assert_eq!(context.known_drawable_extent(), Some((6, 3)));
}

#[test]
fn a_lost_context_stays_lost() {
    let journal = Rc::new(RefCell::new(vec![]));
    let mut station = EglStation::new(egl(&journal));
    let mut context = station
        .new_window(
            stamp(),
            HostDisplay::Android,
            HostWindow::AndroidNdk { window: 77 },
            EglGlesVersion::V3_0,
        )
        .unwrap();
    context.lifecycle = GlContextLifecycle::Lost;
    journal.borrow_mut().clear();
    assert!(matches!(
        context.resume(&mut station),
        Err(EglProviderError::Gl(GlError::ContextLost { .. }))
    ));
    assert!(context.suspend(&mut station).is_err());
    assert!(context.present(&mut station).is_err());
    assert!(journal.borrow().is_empty());
    assert!(context.make_current(&mut station).is_err());
    assert_eq!(context.lifecycle(), GlContextLifecycle::Lost);
}

#[test]
fn only_matching_handles_make_a_pair() {
    let display = HostDisplay::Wayland { display: 3 };
    let window = HostWindow::Wayland { surface: 4 };
    assert_eq!(native_window_pair(display, window).unwrap(), (3, 4));
    assert!(matches!(
        native_window_pair(HostDisplay::Xlib { display: None }, HostWindow::Xlib { window: 4 }),
        Err(EglProviderError::InvalidNativeHandle("Xlib display pointer"))
    ));
    assert!(matches!(
        native_window_pair(HostDisplay::Xlib { display: Some(3) }, HostWindow::Xlib { window: 0 }),
        Err(EglProviderError::InvalidNativeHandle("Xlib window"))
    ));
    assert_eq!(
        native_window_pair(HostDisplay::Android, HostWindow::AndroidNdk { window: 9 }).unwrap(),
        (0, 9)
    );
    assert!(matches!(
        native_window_pair(HostDisplay::Windows, HostWindow::Win32 { hwnd: 9 }),
        Err(EglProviderError::UnsupportedHandlePair { .. })
    ));
    assert!(AndroidEglWorkerDescriptor::new(
        stamp(),
        HostDisplay::Android,
        HostWindow::AndroidNdk { window: 9 }
    )
    .is_ok());
}

#[test]
fn versions_are_read_and_compared() {
    assert_eq!(parse_gles_version("OpenGL ES 3.2 NVIDIA"), Some(EglGlesVersion::V3_2));
    assert_eq!(parse_gles_version("OpenGL ES 2.0"), None);
    assert_eq!(parse_gles_version("4.6.0"), None);
    assert!(EglGlesVersion::V3_2.satisfies(EglGlesVersion::V3_0));
    assert!(!EglGlesVersion::V3_0.satisfies(EglGlesVersion::V3_1));
}

#[test]
fn attribute_lists_are_ended() {
    let none = khronos_egl::NONE;
    let window = config_attributes(EglSurfaceKind::Window { native_window: 1 });
    assert_eq!(window.last(), Some(&none));
    assert!(window.windows(2).any(|pair| pair
        == [khronos_egl::SURFACE_TYPE, khronos_egl::WINDOW_BIT]));
    assert_eq!(
        exact_context_attributes(EglGlesVersion::V3_0, false),
        vec![khronos_egl::CONTEXT_CLIENT_VERSION, 3, none]
    );
    assert_eq!(
        pbuffer_attributes(SIZE).unwrap(),
        vec![khronos_egl::WIDTH, 4, khronos_egl::HEIGHT, 2, none]
    );
}

#[test]
fn plain_texts_and_bindings() {
    assert!(has_extension("EGL_A EGL_B", "EGL_B"));
    assert!(!has_extension("EGL_AB", "EGL_A"));
    assert_eq!(compose_egl_driver_identity(" Mesa ", "1.5"), "Mesa EGL 1.5");
    assert_eq!(compose_egl_driver_identity("", " 1.5"), "EGL 1.5");
    assert_eq!(compose_egl_driver_identity("Mesa", " "), "Mesa");
    assert_eq!(compose_egl_driver_identity(" ", ""), "");
    assert!(current_binding_is_self(Some(1), Some(2), 1, 2));
    assert!(!current_binding_is_self(Some(1), Some(3), 1, 2));
    assert!(!current_binding_is_self(None, None, 1, 2));
    assert!(adapter_name("GLES", "Renderer").contains("Renderer"));
    assert!(matches!(
        EglProviderError::Gl(GlError::Disposed { operation: "x" }).into_gl_error(),
        GlError::Disposed { operation: "x" }
    ));
}

#[test]
fn a_sibling_stays_current() {
    let journal = Rc::new(RefCell::new(vec![]));
    let mut station = EglStation::new(egl(&journal));
    let mut first = station.new_pbuffer(stamp(), SIZE, EglGlesVersion::V3_0).unwrap();
    first.context += 1000;
    let _second = station.new_pbuffer(stamp(), SIZE, EglGlesVersion::V3_0).unwrap();
    journal.borrow_mut().clear();
    first.suspend(&mut station).unwrap();
    assert_eq!(count(&journal, "MakeCurrent"), 0);
    assert_eq!(first.lifecycle(), GlContextLifecycle::Suspended);
}
