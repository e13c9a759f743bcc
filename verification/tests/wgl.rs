use std::cell::RefCell;
use std::rc::Rc;

use fluxel_gl::api::discovery::GlContextFlags;
use fluxel_gl::api::error::{GlContextLifecycle, GlError, Message};
use fluxel_gl::api::extension::GlExtensionSet;
use fluxel_gl::api::gl::{GlFamilyProfile, GlVersion};
use fluxel_gl::api::identity::{ContextEpoch, ContextStamp, DeviceIdentity, OwnerThreadIdentity};
use fluxel_gl::native::egl::{HostDisplay, HostWindow};
use fluxel_gl::native::gdi::PixelFormatDescriptor;
use fluxel_gl::native::glow_const;
use fluxel_gl::native::probes::ProbeReport;
use fluxel_gl::native::query::{NativeGlProbes, NativeGlQuery};
use fluxel_gl::native::wgl::{
    core_context_attributes, desktop_context_requests, driver_identity_from, host_hwnd,
    is_supported_desktop_test_version, meets_required_desktop_context, meets_version,
    parse_version, usable_wgl_proc, verify_recorded_desktop_floor, WglContextError,
    WglDiscoveryError, WglWorkerDescriptor,
};
use fluxel_gl::native::wgl_surface::{WglCall, WglCalls, WglStation};
use fluxel_gl::native::wgl_symbols::{AddressLink, WglAddresses};
use fluxel_gl::native::workload::{WorkCall, WorkCalls};

struct Query {
    version: &'static str,
}

impl NativeGlQuery for Query {
    fn take_error(&mut self) -> bool {
        false
    }

    fn string(&mut self, name: u32) -> Option<String> {
        if name == glow_const::VERSION {
            Some(self.version.to_owned())
        } else {
            Some("text".to_owned())
        }
    }

    fn integer(&mut self, name: u32) -> Option<i64> {
        match name {
            glow_const::NUM_EXTENSIONS => Some(0),
            glow_const::DRAW_FRAMEBUFFER_BINDING => Some(0),
            _ => Some(4),
        }
    }

    fn integer_pair(&mut self, _: u32) -> Option<(i64, i64)> {
        Some((1024, 512))
    }

    fn indexed_integer(&mut self, _: u32, _: u32) -> Option<i64> {
        Some(64)
    }

    fn float(&mut self, _: u32) -> Option<u32> {
        None
    }

    fn indexed_string(&mut self, _: u32, _: u32) -> Option<String> {
        None
    }

    fn drawable_attachment(&mut self, _: u32, _: u32) -> Option<i64> {
        Some(8)
    }
}

struct Probes;

impl NativeGlProbes for Probes {
    fn run_operation_probes(&mut self, _: GlFamilyProfile, _: &GlExtensionSet) -> ProbeReport {
        ProbeReport::nothing()
    }
}

struct Work {
    journal: Rc<RefCell<Vec<String>>>,
}

impl WorkCalls for Work {
    fn call(&mut self, call: WorkCall) {
        self.journal.borrow_mut().push(format!("{call:?}"));
    }

    fn create_shader(&mut self, kind: u32) -> Result<u32, Message> {
        Ok(kind)
    }

    fn get_shader_compile_status(&mut self, _: u32) -> bool {
        false
    }

    fn get_shader_info_log(&mut self, _: u32) -> Message {
        Message::Text("shader log")
    }

    fn create_program(&mut self) -> Result<u32, Message> {
        Ok(9)
    }

    fn get_program_link_status(&mut self, _: u32) -> bool {
        true
    }

    fn get_program_info_log(&mut self, _: u32) -> Message {
        Message::Text("program log")
    }

    fn create_vertex_array(&mut self) -> Result<u32, Message> {
        Ok(5)
    }

    fn read_pixels(&mut self, _: i32, _: i32, _: u32, _: u32, length: usize) -> Vec<u8> {
        vec![7; length]
    }

    fn get_error(&mut self) -> u32 {
        0
    }
}

struct Wgl {
    journal: Rc<RefCell<Vec<String>>>,
    thread: Rc<RefCell<u64>>,
    version: &'static str,
    refuse: &'static str,
    current: u64,
    made: u64,
}

impl Wgl {
    fn note(&mut self, what: String) -> bool {
        let refused = !self.refuse.is_empty() && what.starts_with(self.refuse);
        self.journal.borrow_mut().push(what);
        !refused
    }
}

impl WglCalls for Wgl {
    type Query = Query;
    type Probes = Probes;
    type Work = Work;

    fn current_thread(&mut self) -> OwnerThreadIdentity {
        OwnerThreadIdentity::new(*self.thread.borrow())
    }

    fn last_os_error(&mut self) -> Message {
        Message::Text("system error")
    }

    fn get_dc(&mut self, hwnd: u64) -> u64 {
        if self.note("GetDc".to_owned()) {
            hwnd + 1
        } else {
            0
        }
    }

    fn release_dc(&mut self, _: u64, _: u64) {
        self.note("ReleaseDc".to_owned());
    }

    fn get_pixel_format(&mut self, _: u64) -> i32 {
        if self.refuse == "Configured" {
            3
        } else {
            0
        }
    }

    fn choose_pixel_format(&mut self, _: u64, _: PixelFormatDescriptor) -> i32 {
        if self.note("ChoosePixelFormat".to_owned()) {
            5
        } else {
            0
        }
    }

    fn call(&mut self, call: WglCall) -> bool {
        let done = self.note(format!("{call:?}"));
        if let (true, WglCall::MakeCurrent { context, .. }) = (done, call) {
            self.current = context;
        }
        done
    }

    fn create_context(&mut self, _: u64) -> u64 {
        if self.note("CreateContext".to_owned()) {
            self.made += 1;
            40 + self.made
        } else {
            0
        }
    }

    fn has_create_context_attribs(&mut self) -> bool {
        self.refuse != "NoAttribs"
    }

    fn create_context_attribs(&mut self, _: u64, wish: &Vec<i32>) -> u64 {
        if self.note(format!("CreateCore {wish:?}")) {
            self.made += 1;
            40 + self.made
        } else {
            0
        }
    }

    fn get_current_context(&mut self) -> u64 {
        self.current
    }

    fn has_swap_interval(&mut self) -> bool {
        self.refuse != "NoInterval"
    }

    fn load_glow(&mut self) {}

    fn gl_string(&mut self, _: u32) -> String {
        self.version.to_owned()
    }

    fn gl_integer(&mut self, _: u32) -> i32 {
        1
    }

    fn gl_error(&mut self) -> u32 {
        0
    }

    fn query(&mut self) -> Query {
        Query { version: self.version }
    }

    fn probes(&mut self) -> Probes {
        Probes
    }

    fn work(&mut self) -> Work {
        Work { journal: self.journal.clone() }
    }
}

fn wgl(journal: &Rc<RefCell<Vec<String>>>) -> Wgl {
    Wgl {
        journal: journal.clone(),
        thread: Rc::new(RefCell::new(1)),
        version: "4.6.0 Vendor",
        refuse: "",
        current: 0,
        made: 0,
    }
}

fn stamp() -> ContextStamp {
    ContextStamp::new(DeviceIdentity::new(6).unwrap(), ContextEpoch::initial())
}

fn count(journal: &Rc<RefCell<Vec<String>>>, what: &str) -> usize {
    journal.borrow().iter().filter(|entry| entry.starts_with(what)).count()
}

const WINDOW: HostWindow = HostWindow::Win32 { hwnd: 90 };

#[test]
fn a_window_gets_one_context() {
    let journal = Rc::new(RefCell::new(vec![]));
    let mut station = WglStation::new(wgl(&journal));
    let surface = station.open(stamp(), WINDOW, HostDisplay::Windows, (64, 32)).unwrap();
    assert_eq!(surface.extent(), (64, 32));
    assert_eq!(surface.context_stamp(), stamp());
    assert_eq!(surface.snapshot.context.profile, GlFamilyProfile::Desktop { major: 4, minor: 6 });
    assert_eq!(count(&journal, "CreateContext"), 1);
    assert_eq!(count(&journal, "CreateCore [8337, 4, 8338, 6, 37158, 1, 0]"), 1);
    assert_eq!(count(&journal, "DeleteContext"), 1);
    assert_eq!(surface.evidence().drawable_extent, (64, 32));
    surface.present(&mut station).unwrap();
    assert_eq!(count(&journal, "SwapBuffers"), 1);
    assert_eq!(surface.set_swap_interval(&mut station, 1).unwrap(), true);
    assert_eq!(surface.release(&mut station), GlContextLifecycle::Disposed);
    assert_eq!(count(&journal, "DeleteContext"), 2);
    assert_eq!(count(&journal, "ReleaseDc"), 1);
}

#[test]
fn a_failed_opening_leaves_nothing() {
    for refuse in [
        "GetDc",
        "Configured",
        "ChoosePixelFormat",
        "SetPixelFormat",
        "CreateContext",
        "MakeCurrent",
        "NoAttribs",
        "CreateCore",
    ] {
        let journal = Rc::new(RefCell::new(vec![]));
        let mut station = WglStation::new(Wgl { refuse, ..wgl(&journal) });
        let result = station.open(stamp(), WINDOW, HostDisplay::Windows, (64, 32));
        let error = match result {
            Ok(_) => panic!("{refuse} was not noticed"),
            Err(error) => error,
        };
        let expected = match refuse {
            "GetDc" => matches!(error, WglContextError::AcquireDeviceContext(_)),
            "Configured" => matches!(error, WglContextError::PixelFormatAlreadyConfigured),
            "ChoosePixelFormat" => matches!(error, WglContextError::ChoosePixelFormat(_)),
            "SetPixelFormat" => matches!(error, WglContextError::SetPixelFormat(_)),
            "CreateContext" => matches!(error, WglContextError::CreateBootstrapContext(_)),
            "MakeCurrent" => matches!(error, WglContextError::MakeBootstrapCurrent(_)),
            "NoAttribs" => matches!(error, WglContextError::MissingCreateContextAttribs),
            _ => matches!(error, WglContextError::CreateCoreContext(_)),
        };
        assert!(expected, "{refuse}: {error:?}");
        let bootstraps = count(&journal, "CreateContext") - usize::from(refuse == "CreateContext");
        assert_eq!(bootstraps, count(&journal, "DeleteContext"), "{refuse}");
        let handles = count(&journal, "GetDc") - usize::from(refuse == "GetDc");
        assert_eq!(handles, count(&journal, "ReleaseDc"), "{refuse}");
    }
}

#[test]
fn an_old_context_is_refused() {
    let journal = Rc::new(RefCell::new(vec![]));
    let mut station = WglStation::new(Wgl { version: "3.3.0", ..wgl(&journal) });
    assert!(matches!(
        station.open(stamp(), WINDOW, HostDisplay::Windows, (64, 32)),
        Err(WglContextError::ActualContext { profile_mask: 1, .. })
    ));
    assert_eq!(count(&journal, "DeleteContext"), 2);
    let mut station = WglStation::new(wgl(&journal));
    assert!(matches!(
        station.open(stamp(), WINDOW, HostDisplay::Windows, (2048, 32)),
        Err(WglContextError::DrawableExtentExceedsViewportLimit { requested: (2048, 32), .. })
    ));
    let version = GlVersion::new(4, 9);
    assert!(matches!(
        station.open_with_minimum_desktop_version(
            stamp(),
            WINDOW,
            HostDisplay::Windows,
            (64, 32),
            version
        ),
        Err(WglContextError::Discovery(WglDiscoveryError::FixtureVersion(found)))
            if found == version
    ));
}

#[test]
fn sizes_turn_a_surface_on_and_off() {
    let journal = Rc::new(RefCell::new(vec![]));
    let mut station = WglStation::new(wgl(&journal));
    let mut surface = station.open(stamp(), WINDOW, HostDisplay::Windows, (64, 32)).unwrap();
    surface.resize(&mut station, (0, 32)).unwrap();
    assert_eq!(surface.lifecycle, GlContextLifecycle::Suspended);
    assert!(surface.present(&mut station).is_err());
    surface.resize(&mut station, (32, 32)).unwrap();
    assert_eq!(surface.lifecycle, GlContextLifecycle::Active);
    assert_eq!(surface.extent(), (32, 32));
    surface.suspend(&mut station).unwrap();
    assert_eq!(surface.lifecycle, GlContextLifecycle::Suspended);
    surface.resume(&mut station).unwrap();
    assert_eq!(surface.lifecycle, GlContextLifecycle::Active);
}

#[test]
fn other_threads_are_turned_away() {
    let journal = Rc::new(RefCell::new(vec![]));
    let calls = wgl(&journal);
    let thread = calls.thread.clone();
    let mut station = WglStation::new(calls);
    let surface = station.open(stamp(), WINDOW, HostDisplay::Windows, (64, 32)).unwrap();
    *thread.borrow_mut() = 2;
    journal.borrow_mut().clear();
    assert!(matches!(surface.present(&mut station), Err(GlError::WrongThread { .. })));
    assert!(journal.borrow().is_empty());
}

#[test]
fn a_shader_that_does_not_compile_is_deleted() {
    let journal = Rc::new(RefCell::new(vec![]));
    let mut station = WglStation::new(wgl(&journal));
    let surface = station.open(stamp(), WINDOW, HostDisplay::Windows, (64, 32)).unwrap();
    assert!(matches!(
        surface.draw_evidence(&mut station, 1, true),
        Err(GlError::Driver { .. }) | Err(GlError::Validation { .. })
    ));
    assert_eq!(count(&journal, "DeleteShader"), 1);
    assert_eq!(count(&journal, "DrawArrays"), 0);
}

#[test]
fn a_context_that_stays_keeps_its_device_context() {
    let journal = Rc::new(RefCell::new(vec![]));
    let mut station = WglStation::new(wgl(&journal));
    let surface = station.open(stamp(), WINDOW, HostDisplay::Windows, (64, 32)).unwrap();
    let mut stubborn = WglStation::new(Wgl { refuse: "DeleteContext", ..wgl(&journal) });
    journal.borrow_mut().clear();
    surface.release(&mut stubborn);
    assert_eq!(count(&journal, "DeleteContext"), 1);
    assert_eq!(count(&journal, "ReleaseDc"), 0);
}

#[test]
fn the_record_of_a_context_outlasts_its_drawable() {
    let journal = Rc::new(RefCell::new(vec![]));
    let mut station = WglStation::new(wgl(&journal));
    let mut surface = station.open(stamp(), WINDOW, HostDisplay::Windows, (64, 32)).unwrap();
    surface.suspend(&mut station).unwrap();
    journal.borrow_mut().clear();
    assert_eq!(surface.discover(&mut station).unwrap().stamp, stamp());
    assert_eq!(count(&journal, "MakeCurrent"), 0);
    assert!(surface.present(&mut station).is_err());
}

#[test]
fn requests_go_down() {
    let requests = desktop_context_requests();
    assert_eq!(requests[0], GlVersion::new(4, 6));
    assert_eq!(requests[requests.len() - 1], GlVersion::new(4, 0));
    assert_eq!(core_context_attributes(GlVersion::new(4, 3)), vec![0x2091, 4, 0x2092, 3, 0x9126, 1, 0]);
    assert!(is_supported_desktop_test_version(GlVersion::new(4, 3)));
    assert!(!is_supported_desktop_test_version(GlVersion::new(3, 3)));
}

#[test]
fn version_texts_are_compared() {
    assert_eq!(parse_version("4.5.0 Vendor"), Some(GlVersion::new(4, 5)));
    assert_eq!(parse_version("Vendor"), None);
    assert!(meets_version("4.5.0", GlVersion::new(4, 5)));
    assert!(!meets_version("4.4.0", GlVersion::new(4, 5)));
    assert!(meets_required_desktop_context("4.0.0"));
    assert!(!meets_required_desktop_context("3.3.0"));
    let text = driver_identity_from("Vendor", "Renderer");
    assert!(text.contains("Vendor") && text.contains("Renderer"));
}

#[test]
fn the_floor_has_to_be_recorded() {
    let mut flags = GlContextFlags::new();
    assert!(matches!(
        verify_recorded_desktop_floor(&flags),
        Err(WglContextError::Discovery(WglDiscoveryError::UnrecordedFloor))
    ));
    flags.other.insert("gl.desktop-context-floor=4.0".to_owned());
    assert!(verify_recorded_desktop_floor(&flags).is_ok());
}

#[test]
fn only_windows_handles_are_taken() {
    assert_eq!(host_hwnd(WINDOW, HostDisplay::Windows).unwrap(), 90);
    assert!(matches!(
        host_hwnd(HostWindow::Xcb, HostDisplay::Windows),
        Err(WglContextError::UnsupportedWindowHandle)
    ));
    assert!(matches!(
        host_hwnd(WINDOW, HostDisplay::Xcb),
        Err(WglContextError::UnsupportedDisplayHandle)
    ));
    let descriptor =
        WglWorkerDescriptor::new(stamp(), WINDOW, HostDisplay::Windows, (4, 5)).unwrap();
    assert_eq!((descriptor.hwnd, descriptor.extent), (90, (4, 5)));
    let gl = WglContextError::Lifecycle(GlContextLifecycle::Lost).as_gl_error("op");
    assert!(matches!(gl, GlError::ContextLost { operation: "op" } | GlError::InvalidLifecycle { .. }));
}

#[test]
fn a_pixel_format_is_complete() {
    let format = PixelFormatDescriptor::window_rgba();
    assert_eq!(format.size, 40);
    assert_eq!(format.version, 1);
    assert_eq!((format.color_bits, format.alpha_bits), (24, 8));
}

struct Addresses {
    proc: i64,
}

impl WglAddresses for Addresses {
    fn get_proc_address(&mut self, _: &str) -> i64 {
        self.proc
    }

    fn opengl32_module(&mut self) -> i64 {
        1000
    }

    fn module_proc_address(&mut self, module: i64, _: &str) -> i64 {
        module + 5
    }
}

#[test]
fn refusals_are_no_addresses() {
    for refusal in [-1, 0, 1, 2, 3] {
        assert!(!usable_wgl_proc(refusal));
        let mut link = AddressLink::new(Addresses { proc: refusal });
        assert_eq!(link.load_wgl_symbol("glClear"), 1005);
    }
    let mut link = AddressLink::new(Addresses { proc: 77 });
    assert_eq!(link.load_wgl_symbol("glDrawArraysIndirect"), 77);
}
